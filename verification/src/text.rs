//! Character-level helpers used by the header and token logic: prefix
//! stripping, pattern removal, ASCII case-insensitive search, splitting on a
//! separator and trimming white space.

use vstd::prelude::*;

verus! {

/// `String::push` appends one character.
pub assume_specification[ String::push ](s: &mut String, ch: char)
    ensures
        final(s)@ == old(s)@.push(ch),
;

/// Whether `p` is a prefix of `s`.
pub open spec fn has_prefix(s: Seq<char>, p: Seq<char>) -> bool {
    p.len() <= s.len() && s.take(p.len() as int) == p
}

/// `s` with every non-overlapping occurrence of the non-empty pattern `pat`
/// removed, matching from left to right.
pub open spec fn remove_all(s: Seq<char>, pat: Seq<char>) -> Seq<char>
    decreases s.len(),
{
    if s.len() == 0 || pat.len() == 0 {
        s
    } else if has_prefix(s, pat) {
        remove_all(s.skip(pat.len() as int), pat)
    } else {
        seq![s[0]] + remove_all(s.skip(1), pat)
    }
}

/// The code of `c` after ASCII lower-casing: `A`..`Z` become `a`..`z`,
/// every other character is unchanged.
pub open spec fn ascii_lower_code(c: char) -> u32 {
    if 'A' <= c && c <= 'Z' {
        (c as u32 + 32) as u32
    } else {
        c as u32
    }
}

/// Whether `needle` occurs in `hay` at position `i` when `hay` is ASCII
/// lower-cased.
pub open spec fn occurs_at_lowered(hay: Seq<char>, needle: Seq<char>, i: int) -> bool {
    0 <= i && i + needle.len() <= hay.len() && forall|j: int|
        0 <= j < needle.len() ==> #[trigger] ascii_lower_code(hay[i + j]) == needle[j] as u32
}

/// Whether `needle` occurs anywhere in the ASCII lower-cased `hay`.
pub open spec fn contains_lowered(hay: Seq<char>, needle: Seq<char>) -> bool {
    exists|i: int| occurs_at_lowered(hay, needle, i)
}

/// The pieces of `s` between occurrences of `sep`; a string without `sep`
/// is one piece, so the empty string gives one empty piece.
pub open spec fn split_on(s: Seq<char>, sep: char) -> Seq<Seq<char>>
    decreases s.len(),
{
    if s.len() == 0 {
        seq![Seq::<char>::empty()]
    } else {
        let before = split_on(s.drop_last(), sep);
        if s.last() == sep {
            before.push(Seq::<char>::empty())
        } else {
            before.update(before.len() - 1, before.last().push(s.last()))
        }
    }
}

/// Every piece of `split_on` is non-empty as a list: there is always at
/// least one piece.
pub proof fn lemma_split_on_nonempty(s: Seq<char>, sep: char)
    ensures
        split_on(s, sep).len() >= 1,
    decreases s.len(),
{
    if s.len() > 0 {
        lemma_split_on_nonempty(s.drop_last(), sep);
    }
}

/// Unicode `White_Space` characters.
pub open spec fn is_white_space(c: char) -> bool {
    let u = c as u32;
    ||| 0x09 <= u <= 0x0D
    ||| u == 0x20
    ||| u == 0x85
    ||| u == 0xA0
    ||| u == 0x1680
    ||| 0x2000 <= u <= 0x200A
    ||| u == 0x2028
    ||| u == 0x2029
    ||| u == 0x202F
    ||| u == 0x205F
    ||| u == 0x3000
}

/// The number of white-space characters at the start of `s`.
pub open spec fn leading_ws(s: Seq<char>) -> nat
    decreases s.len(),
{
    if s.len() > 0 && is_white_space(s[0]) {
        1 + leading_ws(s.drop_first())
    } else {
        0
    }
}

/// The number of white-space characters at the end of `s`.
pub open spec fn trailing_ws(s: Seq<char>) -> nat
    decreases s.len(),
{
    if s.len() > 0 && is_white_space(s.last()) {
        1 + trailing_ws(s.drop_last())
    } else {
        0
    }
}

/// `s` without its leading and trailing white space.
pub open spec fn trim_ws(s: Seq<char>) -> Seq<char> {
    let front = s.skip(leading_ws(s) as int);
    front.take(front.len() - trailing_ws(front))
}

/// The characters of `s`, in order.
pub fn chars_of(s: &str) -> (r: Vec<char>)
    ensures
        r@ == s@,
{
    let mut v: Vec<char> = Vec::new();
    for c in it: s.chars()
        invariant
            it.seq() == s@,
            v@ == s@.take(it.index() as int),
    {
        v.push(c);
    }
    assert(v@ == s@.take(s@.len() as int));
    v
}

/// The string made of `v[from..to]`.
pub fn string_of_range(v: &Vec<char>, from: usize, to: usize) -> (r: String)
    requires
        from <= to <= v@.len(),
    ensures
        r@ == v@.subrange(from as int, to as int),
{
    let mut r = String::new();
    let mut i = from;
    while i < to
        invariant
            from <= i <= to <= v@.len(),
            r@ == v@.subrange(from as int, i as int),
        decreases to - i,
    {
        r.push(v[i]);
        assert(v@.subrange(from as int, i + 1) == v@.subrange(from as int, i as int).push(v@[i as int]));
        i += 1;
    }
    r
}

/// Whether `p[..]` occurs in `v` at position `i`.
fn matches_at(v: &Vec<char>, p: &Vec<char>, i: usize) -> (r: bool)
    requires
        i <= v@.len(),
    ensures
        r == has_prefix(v@.skip(i as int), p@),
{
    let n = v.len();
    if p.len() > n - i {
        return false;
    }
    let mut j: usize = 0;
    while j < p.len()
        invariant
            n == v@.len(),
            i + p@.len() <= v@.len(),
            j <= p@.len(),
            forall|k: int| 0 <= k < j ==> v@[i + k] == p@[k],
        decreases p@.len() - j,
    {
        if v[i + j] != p[j] {
            assert(v@.skip(i as int).take(p@.len() as int)[j as int] != p@[j as int]);
            return false;
        }
        j += 1;
    }
    assert(v@.skip(i as int).take(p@.len() as int) =~= p@);
    true
}

/// `s` without the prefix `prefix`, or `None` when `s` does not start with it.
pub fn strip_prefix(s: &str, prefix: &str) -> (r: Option<String>)
    ensures
        match r {
            Some(rest) => has_prefix(s@, prefix@) && rest@ == s@.skip(prefix@.len() as int),
            None => !has_prefix(s@, prefix@),
        },
{
    let sv = chars_of(s);
    let pv = chars_of(prefix);
    if matches_at(&sv, &pv, 0) {
        assert(sv@.skip(0) == sv@);
        let rest = string_of_range(&sv, pv.len(), sv.len());
        assert(sv@.subrange(pv@.len() as int, sv@.len() as int) == s@.skip(prefix@.len() as int));
        Some(rest)
    } else {
        assert(sv@.skip(0) == sv@);
        None
    }
}

/// `s` with every non-overlapping occurrence of `pat` removed, scanning
/// from the left.
pub fn remove_all_occurrences(s: &str, pat: &str) -> (r: String)
    requires
        pat@.len() > 0,
    ensures
        r@ == remove_all(s@, pat@),
{
    let sv = chars_of(s);
    let pv = chars_of(pat);
    let mut out = String::new();
    let mut i: usize = 0;
    assert(sv@.skip(0) == sv@);
    while i < sv.len()
        invariant
            i <= sv@.len(),
            sv@ == s@,
            pv@ == pat@,
            pv@.len() > 0,
            out@ + remove_all(sv@.skip(i as int), pv@) == remove_all(sv@, pv@),
        decreases sv@.len() - i,
    {
        let ghost rest = sv@.skip(i as int);
        if matches_at(&sv, &pv, i) {
            assert(rest.skip(pv@.len() as int) == sv@.skip(i + pv@.len()));
            i += pv.len();
        } else {
            let ghost before = out@;
            assert(rest.skip(1) == sv@.skip(i + 1));
            assert(remove_all(rest, pv@) == seq![rest[0]] + remove_all(rest.skip(1), pv@));
            out.push(sv[i]);
            assert(out@ + remove_all(sv@.skip(i + 1), pv@) =~= before + (seq![rest[0]]
                + remove_all(rest.skip(1), pv@)));
            i += 1;
        }
    }
    assert(sv@.skip(i as int).len() == 0);
    assert(out@ + Seq::<char>::empty() == out@);
    out
}

/// The ASCII lower-case code of `c`.
fn lower_code(c: char) -> (r: u32)
    ensures
        r == ascii_lower_code(c),
{
    if 'A' <= c && c <= 'Z' {
        c as u32 + 32
    } else {
        c as u32
    }
}

/// Whether `needle` occurs in `hay` once `hay` is ASCII lower-cased.
pub fn contains_ignoring_ascii_case(hay: &str, needle: &str) -> (r: bool)
    ensures
        r == contains_lowered(hay@, needle@),
{
    let hv = chars_of(hay);
    let nv = chars_of(needle);
    let n = hv.len();
    let m = nv.len();
    if m > n {
        return false;
    }
    let mut i: usize = 0;
    while i <= n - m
        invariant
            n == hv@.len(),
            m == nv@.len(),
            m <= n,
            hv@ == hay@,
            nv@ == needle@,
            i <= n - m + 1,
            forall|k: int| 0 <= k < i ==> !occurs_at_lowered(hv@, nv@, k),
        decreases n - m + 1 - i,
    {
        let mut j: usize = 0;
        let mut ok = true;
        while j < m
            invariant
                n == hv@.len(),
                m == nv@.len(),
                i + m <= n,
                j <= m,
                ok ==> forall|k: int| 0 <= k < j ==> ascii_lower_code(hv@[i + k]) == nv@[k] as u32,
                !ok ==> !occurs_at_lowered(hv@, nv@, i as int),
            decreases m - j,
        {
            if ok && lower_code(hv[i + j]) != nv[j] as u32 {
                ok = false;
                assert(!(ascii_lower_code(hv@[i + j]) == nv@[j as int] as u32));
            }
            j += 1;
        }
        if ok {
            assert(occurs_at_lowered(hv@, nv@, i as int));
            return true;
        }
        i += 1;
    }
    assert forall|k: int| !occurs_at_lowered(hv@, nv@, k) by {
        if 0 <= k < i {
        }
    }
    false
}

/// The views of a sequence of strings.
pub open spec fn views(v: Seq<String>) -> Seq<Seq<char>> {
    v.map_values(|x: String| x@)
}

/// The pieces of `s` between occurrences of `sep`.
pub fn split_by(s: &str, sep: char) -> (r: Vec<String>)
    ensures
        views(r@) == split_on(s@, sep),
{
    let sv = chars_of(s);
    let mut pieces: Vec<String> = Vec::new();
    let mut cur = String::new();
    let mut i: usize = 0;
    assert(views(pieces@).push(cur@) =~= split_on(sv@.take(0), sep));
    while i < sv.len()
        invariant
            i <= sv@.len(),
            sv@ == s@,
            views(pieces@).push(cur@) == split_on(sv@.take(i as int), sep),
        decreases sv@.len() - i,
    {
        let ghost prev = sv@.take(i as int);
        assert(sv@.take(i + 1).drop_last() == prev);
        if sv[i] == sep {
            let done = cur;
            pieces.push(done);
            cur = String::new();
            assert(views(pieces@).push(cur@) =~= split_on(sv@.take(i + 1), sep));
        } else {
            cur.push(sv[i]);
            assert(views(pieces@).push(cur@) =~= split_on(sv@.take(i + 1), sep));
        }
        i += 1;
    }
    pieces.push(cur);
    assert(sv@.take(sv@.len() as int) == sv@);
    assert(views(pieces@) =~= split_on(s@, sep));
    pieces
}

/// Whether `c` is a Unicode `White_Space` character.
pub fn white_space(c: char) -> (r: bool)
    ensures
        r == is_white_space(c),
{
    let u = c as u32;
    (0x09 <= u && u <= 0x0D) || u == 0x20 || u == 0x85 || u == 0xA0 || u == 0x1680 || (0x2000
        <= u && u <= 0x200A) || u == 0x2028 || u == 0x2029 || u == 0x202F || u == 0x205F || u
        == 0x3000
}

/// `s` without leading and trailing white space.
pub fn trim(s: &str) -> (r: String)
    ensures
        r@ == trim_ws(s@),
{
    let sv = chars_of(s);
    let n = sv.len();
    let mut a: usize = 0;
    assert(sv@.skip(0) == sv@);
    while a < n && white_space(sv[a])
        invariant
            n == sv@.len(),
            a <= n,
            a + leading_ws(sv@.skip(a as int)) == leading_ws(sv@),
        decreases n - a,
    {
        assert(sv@.skip(a as int).drop_first() == sv@.skip(a + 1));
        a += 1;
    }
    assert(leading_ws(sv@.skip(a as int)) == 0);
    let ghost front = sv@.skip(a as int);
    let mut b: usize = n;
    assert(sv@.subrange(a as int, n as int) == front);
    while b > a && white_space(sv[b - 1])
        invariant
            n == sv@.len(),
            a <= b <= n,
            front == sv@.skip(a as int),
            (n - b) + trailing_ws(sv@.subrange(a as int, b as int)) == trailing_ws(front),
        decreases b - a,
    {
        assert(sv@.subrange(a as int, b as int).drop_last() == sv@.subrange(a as int, b - 1));
        assert(sv@.subrange(a as int, b as int).last() == sv@[b - 1]);
        b -= 1;
    }
    assert(trailing_ws(sv@.subrange(a as int, b as int)) == 0);
    let r = string_of_range(&sv, a, b);
    assert(r@ =~= trim_ws(s@));
    r
}

/// Whether `a` and `b` hold the same characters.
pub fn same_text(a: &str, b: &str) -> (r: bool)
    ensures
        r == (a@ == b@),
{
    let av = chars_of(a);
    let bv = chars_of(b);
    if av.len() != bv.len() {
        return false;
    }
    let mut i: usize = 0;
    while i < av.len()
        invariant
            av@ == a@,
            bv@ == b@,
            av@.len() == bv@.len(),
            i <= av@.len(),
            forall|k: int| 0 <= k < i ==> av@[k] == bv@[k],
        decreases av@.len() - i,
    {
        if av[i] != bv[i] {
            return false;
        }
        i += 1;
    }
    assert(av@ =~= bv@);
    true
}

} // verus!
