//! The file-system capabilities: the decisions and reports around each
//! operation on the local disk.
use vstd::prelude::*;

use crate::error::{ErrorChain, Source};
use crate::json::{members_view, object, opt_str, Json, JsonView};
use crate::paths::{component_views, components, components_of, Component, ComponentView};
use crate::outside::{
    base64_decode, base64_decoded, base64_encode, base64_encoded, hex_encode, hex_lower,
    sha256_digest, sha256_of, utf8_text,
};
use crate::policy::Policy;
use crate::text::{
    chars_eq, chars_of, concat, contains, contains_chars, decimal, decimal_string, lines, lines_of,
    push_str, string_of, views,
};

verus! {

#[derive(Debug)]
pub struct FsCapabilities {
    policy: Policy,
}

impl FsCapabilities {
    pub fn new(policy: Policy) -> (res: FsCapabilities)
        ensures
            res.policy()@ == policy@,
    {
        FsCapabilities { policy }
    }

    #[verifier::when_used_as_spec(spec_policy)]
    pub fn policy(&self) -> (res: &Policy)
        ensures
            res == self.spec_policy(),
    {
        &self.policy
    }

    pub closed spec fn spec_policy(&self) -> &Policy {
        &self.policy
    }

    /// How many bytes a read may return: what the task asks for, at most the
    /// policy's limit, the limit itself when the task does not say.
    pub fn read_limit(&self, requested: Option<u64>) -> (res: u64)
        ensures
            res == match requested {
                Some(r) => if r < self.policy()@.max_file_read_bytes {
                    r
                } else {
                    self.policy()@.max_file_read_bytes
                },
                None => self.policy()@.max_file_read_bytes,
            },
    {
        let max = self.policy.config().max_file_read_bytes;
        match requested {
            Some(r) => if r < max {
                r
            } else {
                max
            },
            None => max,
        }
    }

    /// The bytes to write: the Base64-decoded `content_base64` for binary
    /// writes, the UTF-8 encoding of `content` otherwise; refused when the
    /// needed one is missing, does not decode, or exceeds the write limit.
    pub fn write_content(
        &self,
        binary: bool,
        content: Option<String>,
        content_base64: Option<String>,
    ) -> (res: Result<Vec<u8>, ErrorChain>)
        ensures
            if binary {
                match content_base64 {
                    None => res matches Err(e) && e@ == seq![
                        ("content_base64 is required"@, Source::Message),
                    ],
                    Some(t) => match base64_decoded(t@) {
                        None => res matches Err(e) && e@.len() == 2 && e@[1].1 == Source::Message && e@[0] == (
                            "invalid base64 content"@,
                            Source::Context,
                        ),
                        Some(d) => if d.len() <= self.policy()@.max_file_write_bytes {
                            res matches Ok(b) && b@ == d
                        } else {
                            res matches Err(e) && e@ == seq![
                                (
                                    "write content is too large: "@ + decimal(d.len())
                                        + " bytes"@,
                                    Source::Message,
                                ),
                            ]
                        },
                    },
                }
            } else {
                match content {
                    None => res matches Err(e) && e@ == seq![
                        ("content is required"@, Source::Message),
                    ],
                    Some(c) => {
                        let d = vstd::utf8::encode_utf8(c@);
                        if d.len() <= self.policy()@.max_file_write_bytes {
                            res matches Ok(b) && b@ == d
                        } else {
                            res matches Err(e) && e@ == seq![
                                (
                                    "write content is too large: "@ + decimal(d.len())
                                        + " bytes"@,
                                    Source::Message,
                                ),
                            ]
                        }
                    },
                }
            },
    {
        let bytes = if binary {
            match content_base64 {
                None => {
                    return Err(ErrorChain::msg(String::from_str("content_base64 is required")));
                },
                Some(t) => match base64_decode(t.as_str()) {
                    Ok(b) => b,
                    Err(text) => {
                        let e = ErrorChain::msg(text).context(
                            String::from_str("invalid base64 content"),
                        );
                        return Err(e);
                    },
                },
            }
        } else {
            match content {
                None => {
                    return Err(ErrorChain::msg(String::from_str("content is required")));
                },
                Some(c) => utf8_bytes(c.as_str()),
            }
        };
        if bytes.len() as u64 > self.policy.config().max_file_write_bytes {
            let mut text = String::from_str("write content is too large: ");
            let n = decimal_string(bytes.len() as u64);
            push_str(&mut text, n.as_str());
            push_str(&mut text, " bytes");
            return Err(ErrorChain::msg(text));
        }
        Ok(bytes)
    }
}

/// The UTF-8 encoding of a text.
pub fn utf8_bytes(s: &str) -> (res: Vec<u8>)
    ensures
        res@ == vstd::utf8::encode_utf8(s@),
{
    let b = s.as_bytes();
    let mut v: Vec<u8> = Vec::new();
    let mut i: usize = 0;
    while i < b.len()
        invariant
            i <= b@.len(),
            v@ == b@.take(i as int),
        decreases b.len() - i,
    {
        v.push(b[i]);
        i += 1;
        assert(b@.take(i as int) == b@.take((i - 1) as int).push(b@[i - 1]));
    }
    assert(b@.take(b@.len() as int) == b@);
    v
}

/// Paths are listed 200 at a time unless a task says otherwise.
pub fn default_limit() -> (res: usize)
    ensures
        res == 200,
{
    200
}

pub fn default_encoding() -> (res: String)
    ensures
        res@ == "utf-8"@,
{
    String::from_str("utf-8")
}

pub fn default_write_mode() -> (res: String)
    ensures
        res@ == "overwrite"@,
{
    String::from_str("overwrite")
}

pub fn default_search_mode() -> (res: String)
    ensures
        res@ == "filename"@,
{
    String::from_str("filename")
}

/// A name that starts with a dot.
pub open spec fn hidden_name(name: Option<Seq<char>>) -> bool {
    name matches Some(n) && n.len() > 0 && n[0] == '.'
}

/// Whether an entry's file name (when it has one that is valid Unicode) starts with a dot.
pub fn is_hidden(name: Option<&str>) -> (res: bool)
    ensures
        res == hidden_name(
            match name {
                Some(n) => Some(n@),
                None => None,
            },
        ),
{
    match name {
        Some(n) => {
            let cs = chars_of(n);
            cs.len() > 0 && cs[0] == '.'
        },
        None => false,
    }
}

/// A component named with a leading dot.
pub open spec fn hidden_component(c: ComponentView) -> bool {
    c matches ComponentView::Normal(n) && n.len() > 0 && n[0] == '.'
}

/// Some component of `path` below `root` is named with a leading dot: the
/// path is hidden itself or lies inside a hidden directory.
pub open spec fn hidden_below(root: Seq<char>, path: Seq<char>) -> bool {
    exists|i: int|
        components(root).len() <= i < components(path).len() && hidden_component(
            #[trigger] components(path)[i],
        )
}

/// Whether an entry found under `root` is hidden or lies in a hidden
/// directory, and so is passed over (with everything below it) unless hidden
/// entries are asked for.
pub fn is_hidden_below(root: &str, path: &str) -> (res: bool)
    ensures
        res == hidden_below(root@, path@),
{
    let r = components_of(chars_of(root).as_slice());
    let p = components_of(chars_of(path).as_slice());
    let ghost pv = components(path@);
    if r.len() >= p.len() {
        return false;
    }
    let mut i: usize = r.len();
    while i < p.len()
        invariant
            r.len() <= i <= p.len(),
            component_views(r@) == components(root@),
            component_views(p@) == pv,
            pv == components(path@),
            forall|j: int| r.len() <= j < i ==> !hidden_component(#[trigger] pv[j]),
        decreases p.len() - i,
    {
        assert(pv[i as int] == p@[i as int]@);
        match &p[i] {
            Component::Normal(n) => {
                if n.len() > 0 && n[0] == '.' {
                    return true;
                }
            },
            _ => {},
        }
        i += 1;
    }
    false
}

/// The SHA-256 digest of `bytes` in lowercase hexadecimal.
pub fn sha256_hex(bytes: &[u8]) -> (res: String)
    ensures
        res@ == hex_lower(sha256_of(bytes@)),
{
    let digest = sha256_digest(bytes);
    hex_encode(digest.as_slice())
}

/// Refuses a path that should be a directory and is not.
pub fn require_directory(path: &str, is_dir: bool) -> (res: Result<(), ErrorChain>)
    ensures
        res is Ok <==> is_dir,
        res matches Err(e) ==> e@ == seq![("path is not a directory: "@ + path@, Source::Message)],
{
    if !is_dir {
        return Err(ErrorChain::msg(concat("path is not a directory: ", path)));
    }
    Ok(())
}

/// Refuses a path that should be a file and is not.
pub fn require_file(path: &str, is_file: bool) -> (res: Result<(), ErrorChain>)
    ensures
        res is Ok <==> is_file,
        res matches Err(e) ==> e@ == seq![("path is not a file: "@ + path@, Source::Message)],
{
    if !is_file {
        return Err(ErrorChain::msg(concat("path is not a file: ", path)));
    }
    Ok(())
}

/// Refuses a file larger than the read limit.
pub fn ensure_read_size(size: u64, limit: u64) -> (res: Result<(), ErrorChain>)
    ensures
        res is Ok <==> size <= limit,
        res matches Err(e) ==> e@ == seq![
            ("file is too large: "@ + decimal(size as nat) + " bytes"@, Source::Message),
        ],
{
    if size > limit {
        let mut text = String::from_str("file is too large: ");
        let n = decimal_string(size);
        push_str(&mut text, n.as_str());
        push_str(&mut text, " bytes");
        return Err(ErrorChain::msg(text));
    }
    Ok(())
}

/// The report of a read: the content as Base64 for `binary`, else as UTF-8
/// text (refused when the bytes are no UTF-8), with size and SHA-256 digest.
pub fn read_result(path: &str, size: u64, bytes: Vec<u8>, encoding: &str) -> (res: Result<
    Json,
    ErrorChain,
>)
    ensures
        encoding@ == "binary"@ ==> (res matches Ok(j) && j@ == JsonView::Object(
            seq![
                ("path"@, JsonView::Str(path@)),
                ("encoding"@, JsonView::Str("binary"@)),
                ("content_base64"@, JsonView::Str(base64_encoded(bytes@))),
                ("size"@, JsonView::UInt(size)),
                ("sha256"@, JsonView::Str(hex_lower(sha256_of(bytes@)))),
            ],
        )),
        encoding@ == "binary"@ ==> base64_decoded(base64_encoded(bytes@)) == Some(bytes@),
        encoding@ != "binary"@ && vstd::utf8::valid_utf8(bytes@) ==> (res matches Ok(j) && j@
            == JsonView::Object(
            seq![
                ("path"@, JsonView::Str(path@)),
                ("encoding"@, JsonView::Str("utf-8"@)),
                ("content"@, JsonView::Str(vstd::utf8::decode_utf8(bytes@))),
                ("size"@, JsonView::UInt(size)),
                ("sha256"@, JsonView::Str(hex_lower(sha256_of(bytes@)))),
            ],
        )),
        encoding@ != "binary"@ && !vstd::utf8::valid_utf8(bytes@) ==> (res matches Err(e)
            && e@.len() == 2 && e@[1].1 == Source::Message && e@[0] == ("file is not valid utf-8"@, Source::Context)),
{
    let sha = sha256_hex(bytes.as_slice());
    let enc = chars_of(encoding);
    let binary = chars_of("binary");
    let mut body: Vec<(String, Json)> = Vec::new();
    body.push((String::from_str("path"), Json::string(path)));
    let ghost sv = sha@;
    let ghost bv = bytes@;
    if chars_eq(enc.as_slice(), binary.as_slice()) {
        let b64 = base64_encode(bytes.as_slice());
        let ghost b64v = b64@;
        body.push((String::from_str("encoding"), Json::string("binary")));
        body.push((String::from_str("content_base64"), Json::Str(b64)));
        body.push((String::from_str("size"), Json::UInt(size)));
        body.push((String::from_str("sha256"), Json::Str(sha)));
        assert(members_view(body@) =~= seq![
            ("path"@, JsonView::Str(path@)),
            ("encoding"@, JsonView::Str("binary"@)),
            ("content_base64"@, JsonView::Str(b64v)),
            ("size"@, JsonView::UInt(size)),
            ("sha256"@, JsonView::Str(sv)),
        ]);
        return Ok(object(body));
    }
    match utf8_text(bytes) {
        Ok(content) => {
            let ghost cv = content@;
            body.push((String::from_str("encoding"), Json::string("utf-8")));
            body.push((String::from_str("content"), Json::Str(content)));
            body.push((String::from_str("size"), Json::UInt(size)));
            body.push((String::from_str("sha256"), Json::Str(sha)));
            assert(members_view(body@) =~= seq![
                ("path"@, JsonView::Str(path@)),
                ("encoding"@, JsonView::Str("utf-8"@)),
                ("content"@, JsonView::Str(cv)),
                ("size"@, JsonView::UInt(size)),
                ("sha256"@, JsonView::Str(sv)),
            ]);
            Ok(object(body))
        },
        Err(text) => Err(ErrorChain::msg(text).context(String::from_str("file is not valid utf-8"))),
    }
}

/// Which encoding a write uses: `Ok(true)` for binary, `Ok(false)` for UTF-8 text.
pub fn write_encoding(encoding: &str) -> (res: Result<bool, ErrorChain>)
    ensures
        encoding@ == "binary"@ ==> res == Ok::<bool, ErrorChain>(true),
        encoding@ == "utf-8"@ ==> res == Ok::<bool, ErrorChain>(false),
        encoding@ != "binary"@ && encoding@ != "utf-8"@ ==> (res matches Err(e) && e@ == seq![
            ("unsupported encoding: "@ + encoding@, Source::Message),
        ]),
{
    let enc = chars_of(encoding);
    let utf8 = chars_of("utf-8");
    let binary = chars_of("binary");
    if chars_eq(enc.as_slice(), utf8.as_slice()) {
        proof {
            reveal_strlit("utf-8");
            reveal_strlit("binary");
            assert("utf-8"@[0] != "binary"@[0]);
        }
        Ok(false)
    } else if chars_eq(enc.as_slice(), binary.as_slice()) {
        Ok(true)
    } else {
        Err(ErrorChain::msg(concat("unsupported encoding: ", encoding)))
    }
}

/// Refuses a write when the task expected a digest of the current content
/// and the file's digest (none for a missing file) differs from it.
pub fn ensure_unchanged(expected: Option<&str>, previous: Option<&str>) -> (res: Result<
    (),
    ErrorChain,
>)
    ensures
        res is Err <==> (expected matches Some(e) && !(previous matches Some(p) && p@ == e@)),
        res matches Err(e) ==> e@ == seq![("file changed before write"@, Source::Message)],
{
    match expected {
        None => Ok(()),
        Some(e) => {
            let same = match previous {
                Some(p) => {
                    let pc = chars_of(p);
                    let ec = chars_of(e);
                    chars_eq(pc.as_slice(), ec.as_slice())
                },
                None => false,
            };
            if same {
                Ok(())
            } else {
                Err(ErrorChain::msg(String::from_str("file changed before write")))
            }
        },
    }
}

/// How a write touches the file.
#[derive(Clone, Copy, PartialEq, Eq, Debug, Structural)]
pub enum WriteAction {
    /// The file is created or replaced by the content.
    Replace,
    /// The content is appended, the file created when missing.
    Append,
}

/// The action a write mode calls for: `create_new` refuses an existing
/// file, `create_new` and `overwrite` replace, `append` appends.
pub fn write_action(mode: &str, exists: bool, path: &str) -> (res: Result<WriteAction, ErrorChain>)
    ensures
        mode@ == "create_new"@ && exists ==> (res matches Err(e) && e@ == seq![
            ("file already exists: "@ + path@, Source::Message),
        ]),
        mode@ == "create_new"@ && !exists ==> res == Ok::<WriteAction, ErrorChain>(
            WriteAction::Replace,
        ),
        mode@ == "overwrite"@ ==> res == Ok::<WriteAction, ErrorChain>(WriteAction::Replace),
        mode@ == "append"@ ==> res == Ok::<WriteAction, ErrorChain>(WriteAction::Append),
        mode@ != "create_new"@ && mode@ != "overwrite"@ && mode@ != "append"@ ==> (res matches Err(
            e,
        ) && e@ == seq![("unsupported write mode: "@ + mode@, Source::Message)]),
{
    let m = chars_of(mode);
    let create_new = chars_of("create_new");
    let overwrite = chars_of("overwrite");
    let append = chars_of("append");
    proof {
        reveal_strlit("create_new");
        reveal_strlit("overwrite");
        reveal_strlit("append");
        assert("create_new"@[0] != "overwrite"@[0]);
        assert("create_new"@[0] != "append"@[0]);
        assert("overwrite"@[0] != "append"@[0]);
    }
    if chars_eq(m.as_slice(), create_new.as_slice()) {
        if exists {
            return Err(ErrorChain::msg(concat("file already exists: ", path)));
        }
        Ok(WriteAction::Replace)
    } else if chars_eq(m.as_slice(), overwrite.as_slice()) {
        Ok(WriteAction::Replace)
    } else if chars_eq(m.as_slice(), append.as_slice()) {
        Ok(WriteAction::Append)
    } else {
        Err(ErrorChain::msg(concat("unsupported write mode: ", mode)))
    }
}

/// The report of a write.
pub fn write_result(
    path: &str,
    mode: &str,
    bytes_written: u64,
    previous_sha256: Option<String>,
    sha256: String,
) -> (res: Json)
    ensures
        res@ == JsonView::Object(
            seq![
                ("path"@, JsonView::Str(path@)),
                ("mode"@, JsonView::Str(mode@)),
                ("bytes_written"@, JsonView::UInt(bytes_written)),
                ("previous_sha256"@, opt_str(crate::outside::opt_chars(previous_sha256))),
                ("sha256"@, JsonView::Str(sha256@)),
            ],
        ),
{
    let ghost sv = sha256@;
    let prev = match previous_sha256 {
        Some(p) => Json::Str(p),
        None => Json::Null,
    };
    let ghost pv = prev@;
    let mut body: Vec<(String, Json)> = Vec::new();
    body.push((String::from_str("path"), Json::string(path)));
    body.push((String::from_str("mode"), Json::string(mode)));
    body.push((String::from_str("bytes_written"), Json::UInt(bytes_written)));
    body.push((String::from_str("previous_sha256"), prev));
    body.push((String::from_str("sha256"), Json::Str(sha256)));
    assert(members_view(body@) =~= seq![
        ("path"@, JsonView::Str(path@)),
        ("mode"@, JsonView::Str(mode@)),
        ("bytes_written"@, JsonView::UInt(bytes_written)),
        ("previous_sha256"@, pv),
        ("sha256"@, JsonView::Str(sv)),
    ]);
    object(body)
}

/// What is known of a directory entry.
#[derive(Debug)]
pub struct EntryInfo {
    pub name: Option<String>,
    pub path: String,
    pub is_file: bool,
    pub is_dir: bool,
    pub is_symlink: bool,
    pub len: u64,
    pub modified_at: Option<String>,
    pub readonly: bool,
}

pub open spec fn entry_kind(info: EntryInfo) -> Seq<char> {
    if info.is_file {
        "file"@
    } else if info.is_dir {
        "directory"@
    } else if info.is_symlink {
        "symlink"@
    } else {
        "other"@
    }
}

/// Whether an entry report carries a digest: only for files, and only when asked.
pub open spec fn wants_digest(info: EntryInfo, include_hash: bool) -> bool {
    include_hash && info.is_file
}

/// The report of one entry: name, path, kind, size (files only),
/// modification time, read-only flag and the digest computed for it.
pub fn entry_json(info: &EntryInfo, sha256: Option<String>) -> (res: Json)
    ensures
        res@ == JsonView::Object(
            seq![
                ("name"@, opt_str(crate::outside::opt_chars(info.name))),
                ("path"@, JsonView::Str(info.path@)),
                ("kind"@, JsonView::Str(entry_kind(*info))),
                ("size"@, if info.is_file {
                    JsonView::UInt(info.len)
                } else {
                    JsonView::Null
                }),
                ("modified_at"@, opt_str(crate::outside::opt_chars(info.modified_at))),
                ("readonly"@, JsonView::Bool(info.readonly)),
                ("sha256"@, opt_str(crate::outside::opt_chars(sha256))),
            ],
        ),
{
    let kind = if info.is_file {
        "file"
    } else if info.is_dir {
        "directory"
    } else if info.is_symlink {
        "symlink"
    } else {
        "other"
    };
    let name = match &info.name {
        Some(n) => Json::Str(n.clone()),
        None => Json::Null,
    };
    let modified = match &info.modified_at {
        Some(m) => Json::Str(m.clone()),
        None => Json::Null,
    };
    let digest = match sha256 {
        Some(s) => Json::Str(s),
        None => Json::Null,
    };
    let ghost (nv, mv, dv) = (name@, modified@, digest@);
    let mut body: Vec<(String, Json)> = Vec::new();
    body.push((String::from_str("name"), name));
    body.push((String::from_str("path"), Json::Str(info.path.clone())));
    body.push((String::from_str("kind"), Json::string(kind)));
    body.push(
        (String::from_str("size"), if info.is_file {
            Json::UInt(info.len)
        } else {
            Json::Null
        }),
    );
    body.push((String::from_str("modified_at"), modified));
    body.push((String::from_str("readonly"), Json::Bool(info.readonly)));
    body.push((String::from_str("sha256"), digest));
    assert(members_view(body@) =~= seq![
        ("name"@, nv),
        ("path"@, JsonView::Str(info.path@)),
        ("kind"@, JsonView::Str(entry_kind(*info))),
        ("size"@, if info.is_file {
            JsonView::UInt(info.len)
        } else {
            JsonView::Null
        }),
        ("modified_at"@, mv),
        ("readonly"@, JsonView::Bool(info.readonly)),
        ("sha256"@, dv),
    ]);
    object(body)
}

/// Items gathered up to a limit: at most `limit` items are kept, and the
/// result is marked truncated when more were found.
#[derive(Debug)]
pub struct Listing {
    items: Vec<Json>,
    limit: usize,
    truncated: bool,
}

impl Listing {
    pub closed spec fn spec_items(&self) -> Seq<JsonView> {
        self.items@.map_values(|j: Json| j@)
    }

    pub closed spec fn spec_limit(&self) -> usize {
        self.limit
    }

    pub closed spec fn spec_truncated(&self) -> bool {
        self.truncated
    }

    pub fn new(limit: usize) -> (res: Listing)
        ensures
            res.spec_items() == Seq::<JsonView>::empty(),
            res.spec_limit() == limit,
            !res.spec_truncated(),
    {
        let res = Listing { items: Vec::new(), limit, truncated: false };
        assert(res.spec_items() =~= Seq::<JsonView>::empty());
        res
    }

    /// Offers the next item found. It is kept while fewer than `limit` items
    /// are held; an item beyond the limit is not kept but marks the listing
    /// truncated, and the caller stops looking (`stop`). So a listing is
    /// truncated exactly when more than `limit` items were found.
    pub fn offer(&mut self, item: Json) -> (stop: bool)
        ensures
            old(self).spec_items().len() < old(self).spec_limit() ==> {
                &&& !stop
                &&& final(self).spec_items() == old(self).spec_items().push(item@)
                &&& final(self).spec_truncated() == old(self).spec_truncated()
            },
            old(self).spec_items().len() >= old(self).spec_limit() ==> {
                &&& stop
                &&& final(self).spec_items() == old(self).spec_items()
                &&& final(self).spec_truncated()
            },
            final(self).spec_limit() == old(self).spec_limit(),
            old(self).spec_items().len() <= old(self).spec_limit() ==> final(self).spec_items().len()
                <= final(self).spec_limit(),
    {
        if self.items.len() >= self.limit {
            self.truncated = true;
            return true;
        }
        let ghost before = self.spec_items();
        let ghost iv = item@;
        self.items.push(item);
        assert(self.spec_items() =~= before.push(iv));
        false
    }

    /// The report: the path looked at, the items under `key`, and whether
    /// the listing was cut short.
    pub fn into_json(self, path_key: &str, path: &str, key: &str) -> (res: Json)
        ensures
            res@ == JsonView::Object(
                seq![
                    (path_key@, JsonView::Str(path@)),
                    (key@, JsonView::Array(self.spec_items())),
                    ("truncated"@, JsonView::Bool(self.spec_truncated())),
                ],
            ),
    {
        let truncated = self.truncated;
        let ghost iv = self.spec_items();
        let items = Json::Array(self.items);
        proof {
            let got = match items@ {
                JsonView::Array(x) => x,
                _ => Seq::empty(),
            };
            assert(got =~= iv);
        }
        let mut body: Vec<(String, Json)> = Vec::new();
        body.push((String::from_str(path_key), Json::string(path)));
        body.push((String::from_str(key), items));
        body.push((String::from_str("truncated"), Json::Bool(truncated)));
        assert(members_view(body@) =~= seq![
            (path_key@, JsonView::Str(path@)),
            (key@, JsonView::Array(iv)),
            ("truncated"@, JsonView::Bool(truncated)),
        ]);
        object(body)
    }
}

/// What a search looks at.
#[derive(Clone, Copy, PartialEq, Eq, Debug, Structural)]
pub enum SearchMode {
    Filename,
    Content,
}

/// The search mode a task names.
pub fn search_mode(mode: &str) -> (res: Result<SearchMode, ErrorChain>)
    ensures
        mode@ == "filename"@ ==> res == Ok::<SearchMode, ErrorChain>(SearchMode::Filename),
        mode@ == "content"@ ==> res == Ok::<SearchMode, ErrorChain>(SearchMode::Content),
        mode@ != "filename"@ && mode@ != "content"@ ==> (res matches Err(e) && e@ == seq![
            ("unsupported search mode: "@ + mode@, Source::Message),
        ]),
{
    let m = chars_of(mode);
    let f = chars_of("filename");
    let c = chars_of("content");
    proof {
        reveal_strlit("filename");
        reveal_strlit("content");
        assert("filename"@[0] != "content"@[0]);
    }
    if chars_eq(m.as_slice(), f.as_slice()) {
        Ok(SearchMode::Filename)
    } else if chars_eq(m.as_slice(), c.as_slice()) {
        Ok(SearchMode::Content)
    } else {
        Err(ErrorChain::msg(concat("unsupported search mode: ", mode)))
    }
}

/// A match reported by a search.
pub open spec fn match_json(path: Seq<char>, line: JsonView, preview: Seq<char>) -> JsonView {
    JsonView::Object(
        seq![
            ("path"@, JsonView::Str(path)),
            ("kind"@, JsonView::Str("file"@)),
            ("line"@, line),
            ("preview"@, JsonView::Str(preview)),
        ],
    )
}

fn make_match(path: &str, line: Json, preview: String) -> (res: Json)
    ensures
        res@ == match_json(path@, line@, preview@),
{
    let ghost (lv, pv) = (line@, preview@);
    let mut body: Vec<(String, Json)> = Vec::new();
    body.push((String::from_str("path"), Json::string(path)));
    body.push((String::from_str("kind"), Json::string("file")));
    body.push((String::from_str("line"), line));
    body.push((String::from_str("preview"), Json::Str(preview)));
    assert(members_view(body@) =~= seq![
        ("path"@, JsonView::Str(path@)),
        ("kind"@, JsonView::Str("file"@)),
        ("line"@, lv),
        ("preview"@, JsonView::Str(pv)),
    ]);
    object(body)
}

/// A file-name match: the file's name contains the query.
pub fn filename_match(path: &str, name: &str, query: &str) -> (res: Option<Json>)
    ensures
        contains(name@, query@) ==> (res matches Some(j) && j@ == match_json(
            path@,
            JsonView::Null,
            name@,
        )),
        !contains(name@, query@) ==> res is None,
{
    let n = chars_of(name);
    let q = chars_of(query);
    if contains_chars(n.as_slice(), q.as_slice()) {
        Some(make_match(path, Json::Null, String::from_str(name)))
    } else {
        None
    }
}

/// The first line (numbered from 1) of `content` that contains `query`.
pub open spec fn first_line_with(content: Seq<char>, query: Seq<char>) -> Option<int> {
    let ls = lines(content);
    if exists|i: int| 0 <= i < ls.len() && contains(ls[i], query) {
        Some(
            choose|i: int|
                0 <= i < ls.len() && contains(ls[i], query) && forall|k: int|
                    0 <= k < i ==> !contains(#[trigger] ls[k], query),
        )
    } else {
        None
    }
}

/// A content match: the first line of the file that contains the query,
/// with its number counted from 1.
pub fn content_match(path: &str, content: &str, query: &str) -> (res: Option<Json>)
    ensures
        match first_line_with(content@, query@) {
            Some(i) => res matches Some(j) && i + 1 <= u64::MAX && j@ == match_json(
                path@,
                JsonView::UInt((i + 1) as u64),
                lines(content@)[i],
            ),
            None => res is None,
        },
{
    let cs = chars_of(content);
    let q = chars_of(query);
    let ls = lines_of(cs.as_slice());
    let mut i: usize = 0;
    while i < ls.len()
        invariant
            i <= ls.len(),
            views(ls@) == lines(content@),
            q@ == query@,
            forall|k: int| 0 <= k < i ==> !contains(#[trigger] lines(content@)[k], query@),
        decreases ls.len() - i,
    {
        assert(ls@[i as int]@ == lines(content@)[i as int]);
        if contains_chars(ls[i].as_slice(), q.as_slice()) {
            proof {
                let c = choose|c: int|
                    0 <= c < lines(content@).len() && contains(lines(content@)[c], query@)
                        && forall|k: int|
                        0 <= k < c ==> !contains(#[trigger] lines(content@)[k], query@);
                if c > i {
                    assert(contains(lines(content@)[i as int], query@));
                }
                assert(c == i);
            }
            let line = string_of(ls[i].as_slice());
            return Some(make_match(path, Json::UInt((i + 1) as u64), line));
        }
        i += 1;
    }
    None
}

/// Refuses to move onto an existing destination unless overwriting is asked for.
pub fn ensure_destination_free(to: &str, exists: bool, overwrite: bool) -> (res: Result<
    (),
    ErrorChain,
>)
    ensures
        res is Err <==> exists && !overwrite,
        res matches Err(e) ==> e@ == seq![("destination already exists: "@ + to@, Source::Message)],
{
    if exists && !overwrite {
        return Err(ErrorChain::msg(concat("destination already exists: ", to)));
    }
    Ok(())
}

/// A report with one path and one flag set.
pub fn done_json(path: &str, flag: &str) -> (res: Json)
    ensures
        res@ == JsonView::Object(
            seq![("path"@, JsonView::Str(path@)), (flag@, JsonView::Bool(true))],
        ),
{
    let mut body: Vec<(String, Json)> = Vec::new();
    body.push((String::from_str("path"), Json::string(path)));
    body.push((String::from_str(flag), Json::Bool(true)));
    assert(members_view(body@) =~= seq![
        ("path"@, JsonView::Str(path@)),
        (flag@, JsonView::Bool(true)),
    ]);
    object(body)
}

/// The report of a move.
pub fn move_json(from: &str, to: &str) -> (res: Json)
    ensures
        res@ == JsonView::Object(
            seq![
                ("from"@, JsonView::Str(from@)),
                ("to"@, JsonView::Str(to@)),
                ("moved"@, JsonView::Bool(true)),
            ],
        ),
{
    let mut body: Vec<(String, Json)> = Vec::new();
    body.push((String::from_str("from"), Json::string(from)));
    body.push((String::from_str("to"), Json::string(to)));
    body.push((String::from_str("moved"), Json::Bool(true)));
    assert(members_view(body@) =~= seq![
        ("from"@, JsonView::Str(from@)),
        ("to"@, JsonView::Str(to@)),
        ("moved"@, JsonView::Bool(true)),
    ]);
    object(body)
}

/// How a path is deleted.
#[derive(Clone, Copy, PartialEq, Eq, Debug, Structural)]
pub enum DeleteAction {
    /// A directory and everything in it.
    DirectoryTree,
    /// An empty directory.
    EmptyDirectory,
    /// Anything that is no directory.
    File,
}

/// Directories go only with `recursive` when they hold anything; other paths are files.
pub fn delete_action(is_dir: bool, recursive: bool) -> (res: DeleteAction)
    ensures
        res == if is_dir {
            if recursive {
                DeleteAction::DirectoryTree
            } else {
                DeleteAction::EmptyDirectory
            }
        } else {
            DeleteAction::File
        },
{
    if is_dir {
        if recursive {
            DeleteAction::DirectoryTree
        } else {
            DeleteAction::EmptyDirectory
        }
    } else {
        DeleteAction::File
    }
}

/// Text written as UTF-8 reads back, as UTF-8, as the same text: the bytes
/// a text write stores are valid UTF-8 and decode to what was written.
pub proof fn law_written_text_reads_back(content: Seq<char>)
    ensures
        vstd::utf8::valid_utf8(vstd::utf8::encode_utf8(content)),
        vstd::utf8::decode_utf8(vstd::utf8::encode_utf8(content)) == content,
{
    vstd::utf8::encode_utf8_valid_utf8(content);
    vstd::utf8::encode_utf8_decode_utf8(content);
}

} // verus!
