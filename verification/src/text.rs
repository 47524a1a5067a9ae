//! Character-level string predicates used by the configuration checks.
use vstd::prelude::*;

verus! {

/// The characters of each string in a sequence of strings.
pub open spec fn strs(v: Seq<String>) -> Seq<Seq<char>> {
    v.map_values(|s: String| s@)
}

/// `needle` occurs in `hay` as a contiguous run of characters.
pub open spec fn occurs_in(needle: Seq<char>, hay: Seq<char>) -> bool {
    exists|i: int|
        0 <= i && i + needle.len() <= hay.len() && #[trigger] hay.subrange(i, i + needle.len())
            == needle
}

/// `s` begins with `prefix`.
pub open spec fn has_prefix(s: Seq<char>, prefix: Seq<char>) -> bool {
    prefix.len() <= s.len() && s.subrange(0, prefix.len() as int) == prefix
}

/// Copies the characters of `s` into a vector.
fn chars_of(s: &str) -> (v: Vec<char>)
    ensures
        v@ == s@,
{
    let n = s.unicode_len();
    let mut v: Vec<char> = Vec::new();
    let mut i: usize = 0;
    while i < n
        invariant
            n == s@.len(),
            i <= n,
            v@ == s@.subrange(0, i as int),
        decreases n - i,
    {
        let c = s.get_char(i);
        v.push(c);
        i = i + 1;
        assert(v@ =~= s@.subrange(0, i as int));
    }
    assert(v@ =~= s@);
    v
}

/// Whether `v[start..start + p.len()]` equals `p`.
fn matches_at(v: &Vec<char>, p: &Vec<char>, start: usize) -> (r: bool)
    requires
        start + p@.len() <= v@.len(),
    ensures
        r == (v@.subrange(start as int, start + p@.len()) == p@),
{
    let mut j: usize = 0;
    while j < p.len()
        invariant
            start + p@.len() <= v@.len(),
            v@.len() == v.len(),
            j <= p@.len(),
            forall|k: int| 0 <= k < j ==> v@[start + k] == p@[k],
        decreases p@.len() - j,
    {
        if v[start + j] != p[j] {
            assert(v@.subrange(start as int, start + p@.len())[j as int] != p@[j as int]);
            return false;
        }
        j = j + 1;
    }
    assert(v@.subrange(start as int, start + p@.len()) =~= p@);
    true
}

/// Whether `needle` occurs in `hay`.
pub fn contains_str(hay: &str, needle: &str) -> (r: bool)
    ensures
        r == occurs_in(needle@, hay@),
{
    let h = chars_of(hay);
    let p = chars_of(needle);
    if p.len() > h.len() {
        return false;
    }
    let last = h.len() - p.len();
    let mut i: usize = 0;
    loop
        invariant
            h@ == hay@,
            p@ == needle@,
            last == h@.len() - p@.len(),
            p@.len() <= h@.len(),
            i <= last,
            forall|k: int| 0 <= k < i ==> #[trigger] h@.subrange(k, k + p@.len()) != p@,
        ensures
            forall|k: int| 0 <= k <= last ==> #[trigger] h@.subrange(k, k + p@.len()) != p@,
        decreases last - i,
    {
        if matches_at(&h, &p, i) {
            return true;
        }
        if i == last {
            break;
        }
        i = i + 1;
    }
    assert forall|k: int| 0 <= k && k + p@.len() <= h@.len() implies #[trigger] h@.subrange(
        k,
        k + p@.len(),
    ) != p@ by {}
    false
}

/// Whether `s` begins with `prefix`.
pub fn starts_with_str(s: &str, prefix: &str) -> (r: bool)
    ensures
        r == has_prefix(s@, prefix@),
{
    let h = chars_of(s);
    let p = chars_of(prefix);
    if p.len() > h.len() {
        return false;
    }
    matches_at(&h, &p, 0)
}

/// Whether `s` equals one of the strings in `v`.
pub fn contains_string(v: &Vec<String>, s: &String) -> (r: bool)
    ensures
        r == strs(v@).contains(s@),
{
    let mut i: usize = 0;
    while i < v.len()
        invariant
            i <= v@.len(),
            forall|k: int| 0 <= k < i ==> v@[k]@ != s@,
        decreases v@.len() - i,
    {
        if v[i] == *s {
            assert(strs(v@)[i as int] == s@);
            return true;
        }
        i = i + 1;
    }
    assert forall|k: int| 0 <= k < strs(v@).len() implies strs(v@)[k] != s@ by {}
    false
}

/// Each entry of `strs(v)` is the characters of the string at the same place in `v`.
pub proof fn lemma_strs_entries(v: Seq<String>)
    ensures
        strs(v).len() == v.len(),
        forall|i: int| 0 <= i < v.len() ==> #[trigger] strs(v)[i] == v[i]@,
{
}

/// A text made of some text, then `needle`, then more text contains `needle`,
/// however long the surrounding text is.
pub proof fn lemma_occurs_in_concat(before: Seq<char>, needle: Seq<char>, after: Seq<char>)
    ensures
        occurs_in(needle, before + needle + after),
{
    let hay = before + needle + after;
    let i = before.len() as int;
    assert(hay.subrange(i, i + needle.len()) =~= needle);
}

/// A text that contains `needle` is some text, then `needle`, then more text.
pub proof fn lemma_occurs_in_split(needle: Seq<char>, hay: Seq<char>)
    requires
        occurs_in(needle, hay),
    ensures
        exists|before: Seq<char>, after: Seq<char>| #![auto] hay == before + needle + after,
{
    let i = choose|i: int|
        0 <= i && i + needle.len() <= hay.len() && #[trigger] hay.subrange(i, i + needle.len()) == needle;
    let before = hay.subrange(0, i);
    let after = hay.subrange(i + needle.len(), hay.len() as int);
    assert(hay =~= before + needle + after);
}

/// A text begins with `prefix` exactly when it is `prefix` followed by its remainder.
pub proof fn lemma_has_prefix_concat(prefix: Seq<char>, rest: Seq<char>)
    ensures
        has_prefix(prefix + rest, prefix),
        (prefix + rest).skip(prefix.len() as int) == rest,
{
    assert((prefix + rest).subrange(0, prefix.len() as int) =~= prefix);
    assert((prefix + rest).skip(prefix.len() as int) =~= rest);
}

/// A text that begins with `prefix` is `prefix` followed by the rest of the text.
pub proof fn lemma_has_prefix_split(s: Seq<char>, prefix: Seq<char>)
    requires
        has_prefix(s, prefix),
    ensures
        s == prefix + s.skip(prefix.len() as int),
{
    assert(s =~= prefix + s.skip(prefix.len() as int));
}

} // verus!
