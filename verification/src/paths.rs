//! Unix path syntax: the components a path string is made of, component-wise
//! prefixes (`Path::starts_with`) and joining (`Path::join`).
use vstd::prelude::*;

use crate::text::{chars_eq, chars_of, push_chars, split, split_chars, string_of, views};

verus! {

/// One component of a path, as `Path::components` yields it on Unix.
#[derive(Debug)]
pub enum Component {
    RootDir,
    CurDir,
    ParentDir,
    Normal(Vec<char>),
}

/// The mathematical form of a [`Component`].
pub enum ComponentView {
    RootDir,
    CurDir,
    ParentDir,
    Normal(Seq<char>),
}

impl View for Component {
    type V = ComponentView;

    open spec fn view(&self) -> ComponentView {
        match self {
            Component::RootDir => ComponentView::RootDir,
            Component::CurDir => ComponentView::CurDir,
            Component::ParentDir => ComponentView::ParentDir,
            Component::Normal(name) => ComponentView::Normal(name@),
        }
    }
}

pub open spec fn component_views(v: Seq<Component>) -> Seq<ComponentView> {
    v.map_values(|c: Component| c@)
}

/// The component that starts a path: the root for `/...`, the current
/// directory for `.` and `./...`, none otherwise.
pub open spec fn head_components(s: Seq<char>) -> Seq<ComponentView> {
    if s.len() > 0 && s[0] == '/' {
        seq![ComponentView::RootDir]
    } else if s == seq!['.'] || (s.len() >= 2 && s[0] == '.' && s[1] == '/') {
        seq![ComponentView::CurDir]
    } else {
        seq![]
    }
}

/// The components named by the pieces between slashes: empty pieces and `.`
/// name none, `..` names the parent directory.
pub open spec fn piece_components(parts: Seq<Seq<char>>) -> Seq<ComponentView>
    decreases parts.len(),
{
    if parts.len() == 0 {
        seq![]
    } else {
        let before = piece_components(parts.drop_last());
        let p = parts.last();
        if p.len() == 0 || p == seq!['.'] {
            before
        } else if p == seq!['.', '.'] {
            before.push(ComponentView::ParentDir)
        } else {
            before.push(ComponentView::Normal(p))
        }
    }
}

/// `Path::components` of a Unix path string.
pub open spec fn components(s: Seq<char>) -> Seq<ComponentView> {
    head_components(s) + piece_components(split(s, '/'))
}

/// `Path::starts_with`: the components of `base` are a prefix of those of `path`.
pub open spec fn path_starts_with(path: Seq<char>, base: Seq<char>) -> bool {
    components(base).is_prefix_of(components(path))
}

/// The path climbs to a parent directory somewhere.
pub open spec fn has_parent_dir(path: Seq<char>) -> bool {
    components(path).contains(ComponentView::ParentDir)
}

/// `Path::is_absolute` on Unix.
pub open spec fn is_absolute(path: Seq<char>) -> bool {
    path.len() > 0 && path[0] == '/'
}

/// `PathBuf::push` / `Path::join` on Unix: an absolute `tail` replaces the
/// base, otherwise it is appended after a separator unless the base is empty
/// or already ends with one.
pub open spec fn join(base: Seq<char>, tail: Seq<char>) -> Seq<char> {
    if is_absolute(tail) {
        tail
    } else if base.len() == 0 || base.last() == '/' {
        base + tail
    } else {
        base + seq!['/'] + tail
    }
}

fn component_of_piece(p: Vec<char>) -> (res: Option<Component>)
    ensures
        p@.len() == 0 || p@ == seq!['.'] ==> res is None,
        !(p@.len() == 0 || p@ == seq!['.']) && p@ == seq!['.', '.'] ==> res == Some(
            Component::ParentDir,
        ),
        !(p@.len() == 0 || p@ == seq!['.']) && p@ != seq!['.', '.'] ==> (res matches Some(c)
            && c@ == ComponentView::Normal(p@)),
{
    if p.len() == 0 {
        None
    } else if p.len() == 1 && p[0] == '.' {
        assert(p@ == seq!['.']);
        None
    } else if p.len() == 2 && p[0] == '.' && p[1] == '.' {
        assert(p@ == seq!['.', '.']);
        assert(p@ != seq!['.']);
        Some(Component::ParentDir)
    } else {
        proof {
            if p@ == seq!['.'] {
                assert(p@.len() == 1 && p@[0] == '.');
            }
            if p@ == seq!['.', '.'] {
                assert(p@.len() == 2 && p@[0] == '.' && p@[1] == '.');
            }
        }
        Some(Component::Normal(p))
    }
}

/// `Path::components` of a Unix path string.
pub fn components_of(s: &[char]) -> (res: Vec<Component>)
    ensures
        component_views(res@) == components(s@),
{
    let mut res: Vec<Component> = Vec::new();
    if s.len() > 0 && s[0] == '/' {
        res.push(Component::RootDir);
    } else if (s.len() == 1 && s[0] == '.') || (s.len() >= 2 && s[0] == '.' && s[1] == '/') {
        res.push(Component::CurDir);
    }
    proof {
        if s@ == seq!['.'] {
            assert(s@.len() == 1 && s@[0] == '.');
        }
        if s.len() == 1 && s[0] == '.' {
            assert(s@ == seq!['.']);
        }
        assert(component_views(res@) =~= head_components(s@));
    }
    let ghost head = component_views(res@);
    let parts = split_chars(s, '/');
    let mut i: usize = 0;
    let n = parts.len();
    assert(views(parts@).take(0) =~= Seq::<Seq<char>>::empty());
    while i < n
        invariant
            n == parts.len(),
            i <= n,
            views(parts@) == split(s@, '/'),
            component_views(res@) == head + piece_components(views(parts@).take(i as int)),
        decreases n - i,
    {
        let ghost before = component_views(res@);
        let ghost prefix = views(parts@).take(i as int);
        let p = parts[i].clone();
        assert(views(parts@).take(i + 1).drop_last() == prefix);
        assert(views(parts@).take(i + 1).last() == p@);
        match component_of_piece(p) {
            Some(c) => {
                res.push(c);
                proof {
                    assert(component_views(res@) =~= before.push(c@));
                }
            },
            None => {},
        }
        i += 1;
    }
    assert(views(parts@).take(n as int) == views(parts@));
    res
}

fn component_eq(a: &Component, b: &Component) -> (res: bool)
    ensures
        res == (a@ == b@),
{
    match (a, b) {
        (Component::RootDir, Component::RootDir) => true,
        (Component::CurDir, Component::CurDir) => true,
        (Component::ParentDir, Component::ParentDir) => true,
        (Component::Normal(x), Component::Normal(y)) => chars_eq(x.as_slice(), y.as_slice()),
        _ => false,
    }
}

/// `Path::starts_with`: whole components of `base` begin `path`.
pub fn starts_with_path(path: &[char], base: &[char]) -> (res: bool)
    ensures
        res == path_starts_with(path@, base@),
{
    let p = components_of(path);
    let b = components_of(base);
    if b.len() > p.len() {
        return false;
    }
    let mut i: usize = 0;
    while i < b.len()
        invariant
            b.len() <= p.len(),
            i <= b.len(),
            component_views(b@) == components(base@),
            component_views(p@) == components(path@),
            forall|k: int| 0 <= k < i ==> b@[k]@ == p@[k]@,
        decreases b.len() - i,
    {
        if !component_eq(&b[i], &p[i]) {
            proof {
                let cb = component_views(b@);
                let cp = component_views(p@);
                assert(cp.subrange(0, b@.len() as int)[i as int] == p@[i as int]@);
                assert(cb[i as int] == b@[i as int]@);
                assert(cb[i as int] != cp.subrange(0, b@.len() as int)[i as int]);
                assert(!cb.is_prefix_of(cp));
                assert(cb == components(base@));
                assert(cp == components(path@));
                assert(!path_starts_with(path@, base@));
            }
            return false;
        }
        i += 1;
    }
    assert(component_views(b@) =~= component_views(p@).subrange(0, b@.len() as int));
    true
}

/// Whether the path has a `..` component.
pub fn contains_parent_dir(path: &[char]) -> (res: bool)
    ensures
        res == has_parent_dir(path@),
{
    let cs = components_of(path);
    let mut i: usize = 0;
    while i < cs.len()
        invariant
            i <= cs.len(),
            component_views(cs@) == components(path@),
            forall|k: int| 0 <= k < i ==> cs@[k]@ != ComponentView::ParentDir,
        decreases cs.len() - i,
    {
        match &cs[i] {
            Component::ParentDir => {
                assert(cs@[i as int]@ == ComponentView::ParentDir);
                assert(component_views(cs@)[i as int] == ComponentView::ParentDir);
                assert(component_views(cs@).contains(ComponentView::ParentDir));
                assert(component_views(cs@) == components(path@));
                assert(has_parent_dir(path@));
                return true;
            },
            _ => {},
        }
        i += 1;
    }
    assert forall|k: int| 0 <= k < component_views(cs@).len() implies component_views(cs@)[k]
        != ComponentView::ParentDir by {
        assert(component_views(cs@)[k] == cs@[k]@);
    }
    false
}

/// `Path::join` on Unix path strings.
pub fn join_path(base: &str, tail: &str) -> (res: String)
    ensures
        res@ == join(base@, tail@),
{
    let b = chars_of(base);
    let t = chars_of(tail);
    if t.len() > 0 && t[0] == '/' {
        return string_of(t.as_slice());
    }
    let mut res = string_of(b.as_slice());
    if !(b.len() == 0 || b[b.len() - 1] == '/') {
        res.push('/');
    }
    push_chars(&mut res, t.as_slice());
    res
}

} // verus!
