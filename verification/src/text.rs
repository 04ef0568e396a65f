//! Character-level text operations over `Seq<char>`, with the meaning of
//! each operation stated as a spec function.
use vstd::prelude::*;

verus! {

/// Unicode `White_Space`, the set that `char::is_whitespace` tests.
pub open spec fn is_whitespace(c: char) -> bool {
    let u = c as u32;
    ||| 0x9 <= u <= 0xd
    ||| u == 0x20
    ||| u == 0x85
    ||| u == 0xa0
    ||| u == 0x1680
    ||| 0x2000 <= u <= 0x200a
    ||| u == 0x2028
    ||| u == 0x2029
    ||| u == 0x202f
    ||| u == 0x205f
    ||| u == 0x3000
}

/// Which characters a strip operation removes.
#[derive(Clone, Copy, PartialEq, Eq, Debug)]
pub enum CharClass {
    Whitespace,
    Exactly(char),
}

pub open spec fn in_class(cls: CharClass, c: char) -> bool {
    match cls {
        CharClass::Whitespace => is_whitespace(c),
        CharClass::Exactly(d) => c == d,
    }
}

/// `s` without its leading characters of class `cls`.
pub open spec fn strip_start(s: Seq<char>, cls: CharClass) -> Seq<char>
    decreases s.len(),
{
    if s.len() > 0 && in_class(cls, s[0]) {
        strip_start(s.drop_first(), cls)
    } else {
        s
    }
}

/// `s` without its trailing characters of class `cls`.
pub open spec fn strip_end(s: Seq<char>, cls: CharClass) -> Seq<char>
    decreases s.len(),
{
    if s.len() > 0 && in_class(cls, s.last()) {
        strip_end(s.drop_last(), cls)
    } else {
        s
    }
}

/// `str::trim`: leading and trailing whitespace removed.
pub open spec fn trim(s: Seq<char>) -> Seq<char> {
    strip_end(strip_start(s, CharClass::Whitespace), CharClass::Whitespace)
}

pub open spec fn lower_char(c: char) -> char {
    if 'A' <= c <= 'Z' {
        ((c as u32) + 32) as char
    } else {
        c
    }
}

/// `str::to_ascii_lowercase`.
pub open spec fn ascii_lower(s: Seq<char>) -> Seq<char> {
    Seq::new(s.len(), |i: int| lower_char(s[i]))
}

/// `q` occurs in `s` at position `i`.
pub open spec fn occurs_at(s: Seq<char>, q: Seq<char>, i: int) -> bool {
    0 <= i && i + q.len() <= s.len() && s.subrange(i, i + q.len()) == q
}

/// `str::contains` with a string pattern.
pub open spec fn contains(s: Seq<char>, q: Seq<char>) -> bool {
    exists|i: int| occurs_at(s, q, i)
}

/// The pieces of `s` between occurrences of `sep` (`str::split` with a char).
pub open spec fn split(s: Seq<char>, sep: char) -> Seq<Seq<char>>
    decreases s.len(),
{
    if s.len() == 0 {
        seq![Seq::<char>::empty()]
    } else {
        let before = split(s.drop_last(), sep);
        if s.last() == sep {
            before.push(Seq::<char>::empty())
        } else {
            before.update(before.len() - 1, before.last().push(s.last()))
        }
    }
}

/// A piece of `str::lines` that was followed by a newline loses one trailing `'\r'`.
pub open spec fn drop_cr(line: Seq<char>) -> Seq<char> {
    if line.len() > 0 && line.last() == '\r' {
        line.drop_last()
    } else {
        line
    }
}

/// `str::lines`: pieces between `'\n'`, a `"\r\n"` ending counts as one line end,
/// and an empty piece after the last newline is not a line.
pub open spec fn lines(s: Seq<char>) -> Seq<Seq<char>> {
    let parts = split(s, '\n');
    let n = parts.len();
    let body = Seq::new((n - 1) as nat, |i: int| drop_cr(parts[i]));
    if parts.last().len() == 0 {
        body
    } else {
        body.push(parts.last())
    }
}

/// Index of the first `c` in `s`.
pub open spec fn first_index(s: Seq<char>, c: char) -> Option<int> {
    if exists|i: int| 0 <= i < s.len() && s[i] == c {
        Some(choose|i: int| 0 <= i < s.len() && s[i] == c && forall|j: int| 0 <= j < i ==> s[j] != c)
    } else {
        None
    }
}

/// `str::split_once` with a char.
pub open spec fn split_once(s: Seq<char>, c: char) -> Option<(Seq<char>, Seq<char>)> {
    match first_index(s, c) {
        Some(i) => Some((s.subrange(0, i), s.subrange(i + 1, s.len() as int))),
        None => None,
    }
}

/// The characters of `s`, in order.
pub fn chars_of(s: &str) -> (res: Vec<char>)
    ensures
        res@ == s@,
{
    let mut res: Vec<char> = Vec::new();
    for c in it: s.chars()
        invariant
            res@ == it.seq().take(it.index() as int),
    {
        res.push(c);
    }
    res
}

/// `String::push` appends one character at the end of the string.
pub assume_specification[ String::push ](s: &mut String, ch: char)
    ensures
        final(s)@ == old(s)@.push(ch),
;

/// A string holding exactly the given characters.
pub fn string_of(cs: &[char]) -> (res: String)
    ensures
        res@ == cs@,
{
    let mut res = String::new();
    let mut i: usize = 0;
    while i < cs.len()
        invariant
            i <= cs.len(),
            res@ == cs@.take(i as int),
        decreases cs.len() - i,
    {
        res.push(cs[i]);
        i += 1;
        assert(cs@.take(i as int) == cs@.take((i - 1) as int).push(cs@[i - 1]));
    }
    assert(cs@.take(cs.len() as int) == cs@);
    res
}

/// Appends the characters of `tail` to `s`.
pub fn push_chars(s: &mut String, tail: &[char])
    ensures
        final(s)@ == old(s)@ + tail@,
{
    let mut i: usize = 0;
    while i < tail.len()
        invariant
            i <= tail.len(),
            s@ == old(s)@ + tail@.take(i as int),
        decreases tail.len() - i,
    {
        s.push(tail[i]);
        i += 1;
        assert(tail@.take(i as int) == tail@.take((i - 1) as int).push(tail@[i - 1]));
    }
    assert(tail@.take(tail.len() as int) == tail@);
}

/// Appends the characters of `tail` to `s`.
pub fn push_str(s: &mut String, tail: &str)
    ensures
        final(s)@ == old(s)@ + tail@,
{
    let cs = chars_of(tail);
    push_chars(s, cs.as_slice());
}

/// The concatenation of `a` and `b`.
pub fn concat(a: &str, b: &str) -> (res: String)
    ensures
        res@ == a@ + b@,
{
    let mut res = String::new();
    push_str(&mut res, a);
    push_str(&mut res, b);
    assert(Seq::<char>::empty() + a@ == a@);
    res
}

pub fn char_in_class(cls: CharClass, c: char) -> (res: bool)
    ensures
        res == in_class(cls, c),
{
    match cls {
        CharClass::Whitespace => {
            let u = c as u32;
            (0x9 <= u && u <= 0xd) || u == 0x20 || u == 0x85 || u == 0xa0 || u == 0x1680 || (
            0x2000 <= u && u <= 0x200a) || u == 0x2028 || u == 0x2029 || u == 0x202f || u
                == 0x205f || u == 0x3000
        },
        CharClass::Exactly(d) => c == d,
    }
}

proof fn lemma_strip_start_skip(s: Seq<char>, cls: CharClass, i: int)
    requires
        0 <= i < s.len(),
        in_class(cls, s[i]),
    ensures
        strip_start(s.subrange(i, s.len() as int), cls) == strip_start(
            s.subrange(i + 1, s.len() as int),
            cls,
        ),
{
    let t = s.subrange(i, s.len() as int);
    assert(t.drop_first() == s.subrange(i + 1, s.len() as int));
}

proof fn lemma_strip_end_skip(s: Seq<char>, cls: CharClass, j: int)
    requires
        0 < j <= s.len(),
        in_class(cls, s[j - 1]),
    ensures
        strip_end(s.subrange(0, j), cls) == strip_end(s.subrange(0, j - 1), cls),
{
    let t = s.subrange(0, j);
    assert(t.drop_last() == s.subrange(0, j - 1));
}

/// The bounds `(start, end)` of `s` once characters of class `cls` are removed
/// from the front (when `front`) and from the back (when `back`).
pub fn strip_bounds(s: &[char], cls: CharClass, front: bool, back: bool) -> (res: (usize, usize))
    ensures
        res.0 <= res.1 <= s@.len(),
        front && back ==> s@.subrange(res.0 as int, res.1 as int) == strip_end(
            strip_start(s@, cls),
            cls,
        ),
        front && !back ==> s@.subrange(res.0 as int, res.1 as int) == strip_start(s@, cls),
        !front && back ==> s@.subrange(res.0 as int, res.1 as int) == strip_end(s@, cls),
        !front ==> res.0 == 0,
        !back ==> res.1 == s@.len(),
{
    let mut start: usize = 0;
    assert(s@.subrange(0, s@.len() as int) == s@);
    if front {
        while start < s.len() && char_in_class(cls, s[start])
            invariant
                start <= s.len(),
                strip_start(s@, cls) == strip_start(s@.subrange(start as int, s@.len() as int), cls),
            decreases s.len() - start,
        {
            proof {
                lemma_strip_start_skip(s@, cls, start as int);
            }
            start += 1;
        }
        assert(strip_start(s@, cls) == s@.subrange(start as int, s@.len() as int));
    }
    assert(s@.subrange(0, s@.len() as int) == s@);
    let ghost kept = s@.subrange(start as int, s@.len() as int);
    let mut end: usize = s.len();
    if back {
        while end > start && char_in_class(cls, s[end - 1])
            invariant
                start <= end <= s.len(),
                kept == s@.subrange(start as int, s@.len() as int),
                strip_end(kept, cls) == strip_end(
                    s@.subrange(start as int, end as int),
                    cls,
                ),
            decreases end,
        {
            proof {
                let t = s@.subrange(start as int, end as int);
                assert(t.drop_last() == s@.subrange(start as int, end - 1));
            }
            end -= 1;
        }
    }
    (start, end)
}

/// `s` with leading and trailing whitespace removed (`str::trim`).
pub fn trim_chars(s: &[char]) -> (res: Vec<char>)
    ensures
        res@ == trim(s@),
{
    let (a, b) = strip_bounds(s, CharClass::Whitespace, true, true);
    slice_range(s, a, b)
}

/// A copy of `s[a..b]`.
pub fn slice_range(s: &[char], a: usize, b: usize) -> (res: Vec<char>)
    requires
        a <= b <= s@.len(),
    ensures
        res@ == s@.subrange(a as int, b as int),
{
    let mut res: Vec<char> = Vec::new();
    let mut i = a;
    while i < b
        invariant
            a <= i <= b,
            b <= s@.len(),
            res@ == s@.subrange(a as int, i as int),
        decreases b - i,
    {
        res.push(s[i]);
        i += 1;
        assert(s@.subrange(a as int, i as int) == s@.subrange(a as int, i - 1).push(s@[i - 1]));
    }
    res
}

/// `str::to_ascii_lowercase`.
pub fn to_ascii_lower(s: &[char]) -> (res: Vec<char>)
    ensures
        res@ == ascii_lower(s@),
{
    let mut res: Vec<char> = Vec::new();
    let mut i: usize = 0;
    while i < s.len()
        invariant
            i <= s.len(),
            res@.len() == i,
            forall|k: int| 0 <= k < i ==> res@[k] == lower_char(s@[k]),
        decreases s.len() - i,
    {
        let c = s[i];
        let l = if 'A' <= c && c <= 'Z' {
            char_from_ascii_upper(c)
        } else {
            c
        };
        res.push(l);
        i += 1;
    }
    assert(res@ == ascii_lower(s@));
    res
}

fn char_from_ascii_upper(c: char) -> (res: char)
    requires
        'A' <= c <= 'Z',
    ensures
        res == lower_char(c),
{
    let u = (c as u32) + 32;
    let b = u as u8;
    b as char
}

/// Whether `a` and `b` hold the same characters.
pub fn chars_eq(a: &[char], b: &[char]) -> (res: bool)
    ensures
        res == (a@ == b@),
{
    if a.len() != b.len() {
        return false;
    }
    let mut i: usize = 0;
    while i < a.len()
        invariant
            a@.len() == b@.len(),
            i <= a.len(),
            forall|k: int| 0 <= k < i ==> a@[k] == b@[k],
        decreases a.len() - i,
    {
        if a[i] != b[i] {
            return false;
        }
        i += 1;
    }
    assert(a@ == b@);
    true
}

/// Whether `q` occurs in `s` at index `i`.
pub fn occurs_at_exec(s: &[char], q: &[char], i: usize) -> (res: bool)
    ensures
        res == occurs_at(s@, q@, i as int),
{
    if i > s.len() || q.len() > s.len() - i {
        return false;
    }
    let mut k: usize = 0;
    while k < q.len()
        invariant
            i + q@.len() <= s@.len(),
            k <= q.len(),
            i <= s@.len(),
            forall|j: int| 0 <= j < k ==> s@[i + j] == q@[j],
        decreases q.len() - k,
    {
        assert(i + k < s.len());
        if s[i + k] != q[k] {
            assert(s@.subrange(i as int, i + q@.len())[k as int] != q@[k as int]);
            return false;
        }
        k += 1;
    }
    assert(s@.subrange(i as int, i + q@.len()) == q@);
    true
}

/// `q.is_prefix_of(s)` (`str::starts_with`).
pub fn starts_with(s: &[char], q: &[char]) -> (res: bool)
    ensures
        res == q@.is_prefix_of(s@),
{
    let r = occurs_at_exec(s, q, 0);
    assert(r ==> s@.subrange(0, q@.len() as int) == q@);
    r
}

/// `q.is_suffix_of(s)` (`str::ends_with`).
pub fn ends_with(s: &[char], q: &[char]) -> (res: bool)
    ensures
        res == q@.is_suffix_of(s@),
{
    if q.len() > s.len() {
        return false;
    }
    occurs_at_exec(s, q, s.len() - q.len())
}

/// `str::contains` with a string pattern.
pub fn contains_chars(s: &[char], q: &[char]) -> (res: bool)
    ensures
        res == contains(s@, q@),
{
    if q.len() > s.len() {
        assert forall|i: int| !occurs_at(s@, q@, i) by {}
        return false;
    }
    let last = s.len() - q.len();
    let mut i: usize = 0;
    loop
        invariant
            i <= last,
            last == s@.len() - q@.len(),
            forall|j: int| 0 <= j < i ==> !occurs_at(s@, q@, j),
        ensures
            forall|j: int| 0 <= j <= last ==> !occurs_at(s@, q@, j),
        decreases last - i,
    {
        if occurs_at_exec(s, q, i) {
            return true;
        }
        if i == last {
            break;
        }
        i += 1;
    }
    assert forall|j: int| !occurs_at(s@, q@, j) by {
        if 0 <= j && j <= last {
        }
    }
    false
}

/// Index of the first `c` in `s`.
pub fn find_char(s: &[char], c: char) -> (res: Option<usize>)
    ensures
        match res {
            Some(i) => first_index(s@, c) == Some(i as int) && i < s@.len() && s@[i as int] == c,
            None => first_index(s@, c) is None,
        },
{
    let mut i: usize = 0;
    while i < s.len()
        invariant
            i <= s.len(),
            forall|j: int| 0 <= j < i ==> s@[j] != c,
        decreases s.len() - i,
    {
        if s[i] == c {
            let ghost w = choose|k: int|
                0 <= k < s@.len() && s@[k] == c && forall|j: int| 0 <= j < k ==> s@[j] != c;
            assert(0 <= (i as int) < s@.len() && s@[i as int] == c && forall|j: int|
                0 <= j < i ==> s@[j] != c);
            proof {
                if w < i {
                } else if w > i {
                    assert(s@[i as int] != c);
                }
            }
            return Some(i);
        }
        i += 1;
    }
    None
}

/// `str::split_once` with a char.
pub fn split_once_chars(s: &[char], c: char) -> (res: Option<(Vec<char>, Vec<char>)>)
    ensures
        match res {
            Some((a, b)) => split_once(s@, c) == Some((a@, b@)),
            None => split_once(s@, c) is None,
        },
{
    match find_char(s, c) {
        Some(i) => {
            assert(i < s.len());
            let a = slice_range(s, 0, i);
            let b = slice_range(s, i + 1, s.len());
            Some((a, b))
        },
        None => None,
    }
}

/// The character sequences held by a vector of character vectors.
pub open spec fn views(v: Seq<Vec<char>>) -> Seq<Seq<char>> {
    v.map_values(|p: Vec<char>| p@)
}

/// `str::split` with a char separator.
pub fn split_chars(s: &[char], sep: char) -> (res: Vec<Vec<char>>)
    ensures
        views(res@) == split(s@, sep),
{
    let mut parts: Vec<Vec<char>> = Vec::new();
    let mut cur: Vec<char> = Vec::new();
    let mut i: usize = 0;
    assert(s@.take(0) =~= Seq::<char>::empty());
    assert(views(parts@).push(cur@) =~= split(s@.take(0), sep));
    while i < s.len()
        invariant
            i <= s.len(),
            views(parts@).push(cur@) == split(s@.take(i as int), sep),
        decreases s.len() - i,
    {
        let ghost prev = s@.take(i as int);
        let ghost before = views(parts@).push(cur@);
        assert(s@.take(i + 1).drop_last() == prev);
        assert(s@.take(i + 1).last() == s@[i as int]);
        if s[i] == sep {
            parts.push(cur);
            cur = Vec::new();
            proof {
                assert(views(parts@) =~= before);
                assert(views(parts@).push(cur@) =~= before.push(Seq::<char>::empty()));
            }
        } else {
            cur.push(s[i]);
            proof {
                assert(views(parts@).push(cur@) =~= before.update(
                    before.len() - 1,
                    before.last().push(s@[i as int]),
                ));
            }
        }
        i += 1;
    }
    assert(s@.take(s.len() as int) == s@);
    let ghost fin = views(parts@).push(cur@);
    parts.push(cur);
    proof {
        assert(views(parts@) =~= fin);
    }
    parts
}

proof fn lemma_split_nonempty(s: Seq<char>, sep: char)
    ensures
        split(s, sep).len() >= 1,
    decreases s.len(),
{
    if s.len() > 0 {
        lemma_split_nonempty(s.drop_last(), sep);
    }
}

/// `str::lines`.
pub fn lines_of(s: &[char]) -> (res: Vec<Vec<char>>)
    ensures
        views(res@) == lines(s@),
{
    let parts = split_chars(s, '\n');
    proof {
        lemma_split_nonempty(s@, '\n');
    }
    let n = parts.len();
    let mut out: Vec<Vec<char>> = Vec::new();
    let mut i: usize = 0;
    while i + 1 < n
        invariant
            n == parts.len(),
            n >= 1,
            i + 1 <= n,
            views(parts@) == split(s@, '\n'),
            views(out@) =~= Seq::new(i as nat, |k: int| drop_cr(views(parts@)[k])),
        decreases n - i,
    {
        let p = &parts[i];
        let line = if p.len() > 0 && p[p.len() - 1] == '\r' {
            slice_range(p.as_slice(), 0, p.len() - 1)
        } else {
            slice_range(p.as_slice(), 0, p.len())
        };
        proof {
            assert(p@ == views(parts@)[i as int]);
            assert(p@.subrange(0, p@.len() as int) == p@);
            if p@.len() > 0 {
                assert(p@.drop_last() == p@.subrange(0, p@.len() - 1));
            }
            assert(line@ == drop_cr(p@));
        }
        let ghost before = views(out@);
        out.push(line);
        proof {
            assert(views(out@) =~= before.push(line@));
        }
        i += 1;
    }
    let last = &parts[n - 1];
    proof {
        assert(last@ == views(parts@).last());
    }
    let ghost body = views(out@);
    if last.len() > 0 {
        let l = slice_range(last.as_slice(), 0, last.len());
        proof {
            assert(last@.subrange(0, last@.len() as int) == last@);
        }
        out.push(l);
        proof {
            assert(views(out@) =~= body.push(last@));
        }
    }
    assert(views(out@) =~= lines(s@));
    out
}

/// The decimal digits of `n`, most significant first (`n.to_string()`).
pub open spec fn decimal(n: nat) -> Seq<char>
    decreases n,
{
    if n < 10 {
        seq![(('0' as u32) + n) as char]
    } else {
        decimal(n / 10).push((('0' as u32) + (n % 10)) as char)
    }
}

/// The digits of `n` when it is positive, none for zero.
pub open spec fn decimal_prefix(n: nat) -> Seq<char> {
    if n == 0 {
        Seq::empty()
    } else {
        decimal(n)
    }
}

fn digit_char(d: u64) -> (res: char)
    requires
        d < 10,
    ensures
        res == (('0' as u32) + d) as char,
{
    let b = (48 + d) as u8;
    b as char
}

/// `n.to_string()` for an unsigned integer.
pub fn decimal_string(n: u64) -> (res: String)
    ensures
        res@ == decimal(n as nat),
{
    let mut digits: Vec<char> = Vec::new();
    let mut m = n;
    // digits are collected least significant first
    loop
        invariant_except_break
            digits@.len() > 0 ==> m > 0,
        invariant
            m <= n,
            digits@.len() == 0 ==> m == n,
            digits@.len() > 0 ==> decimal(n as nat) == decimal_prefix(m as nat) + digits@.reverse(),
        ensures
            digits@.len() > 0,
            decimal(n as nat) == digits@.reverse(),
        decreases m,
    {
        let d = m % 10;
        let c = digit_char(d);
        let ghost before = digits@;
        let ghost old_m = m;
        digits.push(c);
        m = m / 10;
        proof {
            assert(digits@.reverse() =~= seq![c] + before.reverse());
            if old_m >= 10 {
                assert(decimal(old_m as nat) == decimal((old_m / 10) as nat).push(c));
                assert(decimal(old_m as nat) =~= decimal_prefix(m as nat) + seq![c]);
            } else {
                assert(decimal(old_m as nat) == seq![c]);
                assert(decimal(old_m as nat) =~= decimal_prefix(m as nat) + seq![c]);
            }
            if before.len() > 0 {
                assert(decimal_prefix(old_m as nat) == decimal(old_m as nat));
            }
            assert(decimal(n as nat) =~= decimal_prefix(m as nat) + digits@.reverse());
        }
        if m == 0 {
            assert(decimal(n as nat) =~= digits@.reverse());
            break;
        }
    }
    let mut res = String::new();
    let mut k = digits.len();
    assert(digits@.reverse().take(0) =~= Seq::<char>::empty());
    while k > 0
        invariant
            k <= digits@.len(),
            res@ == digits@.reverse().take((digits@.len() - k) as int),
        decreases k,
    {
        k -= 1;
        let ghost before = res@;
        res.push(digits[k]);
        proof {
            let r = digits@.reverse();
            assert(r[(digits@.len() - k - 1) as int] == digits@[k as int]);
            assert(r.take((digits@.len() - k) as int) =~= before.push(digits@[k as int]));
        }
    }
    assert(digits@.reverse().take(digits@.len() as int) =~= digits@.reverse());
    res
}

proof fn lemma_strip_start_shape(s: Seq<char>, cls: CharClass)
    ensures
        strip_start(s, cls).len() > 0 ==> !in_class(cls, strip_start(s, cls)[0]),
    decreases s.len(),
{
    if s.len() > 0 && in_class(cls, s[0]) {
        lemma_strip_start_shape(s.drop_first(), cls);
    }
}

proof fn lemma_strip_end_shape(s: Seq<char>, cls: CharClass)
    ensures
        strip_end(s, cls) == s.subrange(0, strip_end(s, cls).len() as int),
        strip_end(s, cls).len() <= s.len(),
        strip_end(s, cls).len() > 0 ==> !in_class(cls, strip_end(s, cls).last()),
    decreases s.len(),
{
    if s.len() > 0 && in_class(cls, s.last()) {
        lemma_strip_end_shape(s.drop_last(), cls);
        let t = strip_end(s.drop_last(), cls);
        assert(s.drop_last().subrange(0, t.len() as int) =~= s.subrange(0, t.len() as int));
    } else {
        assert(s.subrange(0, s.len() as int) =~= s);
    }
}

/// Trimming text that is already trimmed leaves it as it is.
pub proof fn lemma_trim_idempotent(s: Seq<char>)
    ensures
        trim(trim(s)) == trim(s),
{
    let a = strip_start(s, CharClass::Whitespace);
    let b = strip_end(a, CharClass::Whitespace);
    lemma_strip_start_shape(s, CharClass::Whitespace);
    lemma_strip_end_shape(a, CharClass::Whitespace);
    if b.len() > 0 {
        assert(b[0] == a[0]);
        assert(strip_start(b, CharClass::Whitespace) == b);
        assert(strip_end(b, CharClass::Whitespace) == b);
    } else {
        assert(strip_start(b, CharClass::Whitespace) == b);
        assert(strip_end(b, CharClass::Whitespace) == b);
    }
}

/// Stripping the end never removes a character outside the class, nor
/// anything before it.
pub proof fn lemma_strip_end_keeps(s: Seq<char>, cls: CharClass, i: int)
    requires
        0 <= i < s.len(),
        !in_class(cls, s[i]),
    ensures
        strip_end(s, cls).len() > i,
    decreases s.len(),
{
    if s.len() > 0 && in_class(cls, s.last()) {
        lemma_strip_end_keeps(s.drop_last(), cls, i);
    }
}

/// Text that starts with a character other than whitespace is not blank.
pub proof fn lemma_not_blank(s: Seq<char>)
    requires
        s.len() > 0,
        !is_whitespace(s[0]),
    ensures
        trim(s).len() > 0,
{
    assert(strip_start(s, CharClass::Whitespace) == s);
    lemma_strip_end_keeps(s, CharClass::Whitespace, 0);
}

} // verus!
