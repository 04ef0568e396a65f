//! JSON values as the protocol exchanges them.
use vstd::prelude::*;

use crate::text::{chars_eq, chars_of};

verus! {

/// A JSON value. Object members keep the order in which they were built.
#[derive(Debug)]
pub enum Json {
    Null,
    Bool(bool),
    UInt(u64),
    Int(i64),
    Str(String),
    Array(Vec<Json>),
    Object(Vec<(String, Json)>),
}

/// The mathematical form of a [`Json`] value.
pub enum JsonView {
    Null,
    Bool(bool),
    UInt(u64),
    Int(i64),
    Str(Seq<char>),
    Array(Seq<JsonView>),
    Object(Seq<(Seq<char>, JsonView)>),
}

/// The mathematical form of a JSON value.
pub open spec fn json_view(j: Json) -> JsonView
    decreases j,
{
    match j {
        Json::Null => JsonView::Null,
        Json::Bool(b) => JsonView::Bool(b),
        Json::UInt(n) => JsonView::UInt(n),
        Json::Int(n) => JsonView::Int(n),
        Json::Str(s) => JsonView::Str(s@),
        Json::Array(items) => JsonView::Array(
            Seq::new(
                items@.len(),
                |i: int|
                    if 0 <= i < items@.len() {
                        json_view(items@[i])
                    } else {
                        JsonView::Null
                    },
            ),
        ),
        Json::Object(members) => JsonView::Object(
            Seq::new(
                members@.len(),
                |i: int|
                    if 0 <= i < members@.len() {
                        (members@[i].0@, json_view(members@[i].1))
                    } else {
                        (Seq::<char>::empty(), JsonView::Null)
                    },
            ),
        ),
    }
}

impl View for Json {
    type V = JsonView;

    open spec fn view(&self) -> JsonView {
        json_view(*self)
    }
}

/// The value of the first member named `key` of an object; `None` for a
/// missing member or a value that is no object.
pub open spec fn member(j: JsonView, key: Seq<char>) -> Option<JsonView> {
    match j {
        JsonView::Object(ms) => if exists|i: int| 0 <= i < ms.len() && ms[i].0 == key {
            let i = choose|i: int|
                0 <= i < ms.len() && ms[i].0 == key && forall|k: int| 0 <= k < i ==> ms[k].0 != key;
            Some(ms[i].1)
        } else {
            None
        },
        _ => None,
    }
}

/// The names of an object's members are pairwise different.
pub open spec fn distinct_names(ms: Seq<(Seq<char>, JsonView)>) -> bool {
    forall|i: int, j: int| 0 <= i < j < ms.len() ==> #[trigger] ms[i].0 != #[trigger] ms[j].0
}

/// In an object whose member names are pairwise different, looking a name
/// up gives the value it was written with, and a name it does not have
/// gives nothing.
pub proof fn lemma_member_lookup(ms: Seq<(Seq<char>, JsonView)>, key: Seq<char>)
    requires
        distinct_names(ms),
    ensures
        forall|i: int| 0 <= i < ms.len() && ms[i].0 == key ==> member(JsonView::Object(ms), key)
            == Some(#[trigger] ms[i].1),
        (forall|i: int| 0 <= i < ms.len() ==> #[trigger] ms[i].0 != key) ==> member(
            JsonView::Object(ms),
            key,
        ) is None,
{
    if exists|i: int| 0 <= i < ms.len() && ms[i].0 == key {
        let i = choose|i: int| 0 <= i < ms.len() && ms[i].0 == key;
        assert(forall|k: int| 0 <= k < i ==> ms[k].0 != key);
        let c = choose|c: int|
            0 <= c < ms.len() && ms[c].0 == key && forall|k: int| 0 <= k < c ==> ms[k].0 != key;
        assert(0 <= c < ms.len() && ms[c].0 == key && forall|k: int| 0 <= k < c ==> ms[k].0 != key)
            by {
            assert(0 <= i < ms.len() && ms[i].0 == key && forall|k: int| 0 <= k < i ==> ms[k].0
                != key);
        }
        if c < i {
            assert(ms[c].0 != ms[i].0);
        }
        if i < c {
            assert(ms[i].0 != key);
        }
        assert(c == i);
        assert forall|j: int| 0 <= j < ms.len() && ms[j].0 == key implies ms[j].1 == ms[i].1 by {
            if j < i {
                assert(ms[j].0 != ms[i].0);
            }
            if i < j {
                assert(ms[i].0 != ms[j].0);
            }
        }
    }
}

pub open spec fn opt_str(s: Option<Seq<char>>) -> JsonView {
    match s {
        Some(t) => JsonView::Str(t),
        None => JsonView::Null,
    }
}

/// The mathematical form of object members.
pub open spec fn members_view(m: Seq<(String, Json)>) -> Seq<(Seq<char>, JsonView)> {
    Seq::new(m.len(), |i: int| (m[i].0@, m[i].1@))
}

pub proof fn lemma_object_view(members: Vec<(String, Json)>)
    ensures
        Json::Object(members)@ == JsonView::Object(members_view(members@)),
{
    let got = match Json::Object(members)@ {
        JsonView::Object(x) => x,
        _ => Seq::empty(),
    };
    assert(Json::Object(members)@ is Object);
    assert(got.len() == members@.len());
    assert forall|i: int| 0 <= i < members@.len() implies got[i] == (members@[i].0@, members@[i].1@) by {
    }
    assert(got =~= members_view(members@));
}

/// An object with the given members, in order.
pub fn object(members: Vec<(String, Json)>) -> (res: Json)
    ensures
        res@ == JsonView::Object(members_view(members@)),
{
    proof {
        lemma_object_view(members);
    }
    Json::Object(members)
}

impl Json {
    /// A string value.
    pub fn string(s: &str) -> (res: Json)
        ensures
            res@ == JsonView::Str(s@),
    {
        Json::Str(String::from_str(s))
    }

    /// A string value, or `null` for `None`.
    pub fn opt_string(s: Option<&str>) -> (res: Json)
        ensures
            res@ == opt_str(
                match s {
                    Some(t) => Some(t@),
                    None => None,
                },
            ),
    {
        match s {
            Some(t) => Json::Str(String::from_str(t)),
            None => Json::Null,
        }
    }

    /// The value of the first member named `key`, if this is an object that has one.
    pub fn get(&self, key: &str) -> (res: Option<&Json>)
        ensures
            match res {
                Some(v) => member(self@, key@) == Some(v@),
                None => member(self@, key@) is None,
            },
    {
        match self {
            Json::Object(members) => {
                let ghost ms = members_view(members@);
                proof {
                    lemma_object_view(*members);
                    assert(*self == Json::Object(*members));
                }
                let k = chars_of(key);
                let mut i: usize = 0;
                while i < members.len()
                    invariant
                        i <= members.len(),
                        ms.len() == members@.len(),
                        self@ == JsonView::Object(ms),
                        forall|j: int| 0 <= j < ms.len() ==> ms[j] == (members@[j].0@, members@[j].1@),
                        k@ == key@,
                        forall|j: int| 0 <= j < i ==> members@[j].0@ != key@,
                    decreases members.len() - i,
                {
                    let name = chars_of(members[i].0.as_str());
                    if chars_eq(name.as_slice(), k.as_slice()) {
                        proof {
                            assert(ms[i as int].0 == key@);
                            assert(exists|j: int| 0 <= j < ms.len() && ms[j].0 == key@);
                            let c = choose|c: int|
                                0 <= c < ms.len() && ms[c].0 == key@ && forall|k: int|
                                    0 <= k < c ==> ms[k].0 != key@;
                            if c < i {
                                assert(ms[c].0 == members@[c].0@);
                            }
                            if c > i {
                                assert(ms[i as int].0 == key@);
                            }
                            assert(c == i);
                            assert(member(self@, key@) == Some(ms[i as int].1));
                        }
                        return Some(&members[i].1);
                    }
                    i += 1;
                }
                proof {
                    assert forall|j: int| 0 <= j < ms.len() implies ms[j].0 != key@ by {
                        assert(ms[j].0 == members@[j].0@);
                    }
                }
                None
            },
            _ => None,
        }
    }

    /// The text of a string value.
    pub fn as_str(&self) -> (res: Option<&str>)
        ensures
            match self@ {
                JsonView::Str(s) => res matches Some(t) && t@ == s,
                _ => res is None,
            },
    {
        match self {
            Json::Str(s) => Some(s.as_str()),
            _ => None,
        }
    }

    /// Whether this is `null`.
    pub fn is_null(&self) -> (res: bool)
        ensures
            res == (self@ == JsonView::Null),
    {
        match self {
            Json::Null => true,
            _ => false,
        }
    }
}

} // verus!
