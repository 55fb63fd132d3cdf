//! Character-level helpers for the pipe-delimited wire format: splitting a
//! message into fields, joining fields back together, and the lemmas that
//! relate the two.

use vstd::prelude::*;

verus! {

/// Index of the first occurrence of `d` in `s`, or -1 if `d` does not occur.
pub open spec fn find_delim(s: Seq<char>, d: char) -> int
    decreases s.len(),
{
    if s.len() == 0 {
        -1
    } else if s[0] == d {
        0
    } else {
        let r = find_delim(s.drop_first(), d);
        if r == -1 {
            -1
        } else {
            r + 1
        }
    }
}

/// The fields of `s`, split on every occurrence of the delimiter `d`.
/// A string without the delimiter is a single field; each delimiter ends the
/// field before it, so `n` delimiters always give `n + 1` fields.
pub open spec fn split_chars(s: Seq<char>, d: char) -> Seq<Seq<char>>
    decreases s.len(),
{
    let i = find_delim(s, d);
    if 0 <= i < s.len() {
        seq![s.subrange(0, i)] + split_chars(s.subrange(i + 1, s.len() as int), d)
    } else {
        seq![s]
    }
}

/// The fields joined with one delimiter between consecutive fields.
pub open spec fn join_chars(parts: Seq<Seq<char>>, d: char) -> Seq<char>
    decreases parts.len(),
{
    if parts.len() == 0 {
        Seq::empty()
    } else if parts.len() == 1 {
        parts[0]
    } else {
        parts[0] + seq![d] + join_chars(parts.drop_first(), d)
    }
}

/// `find_delim` returns the first occurrence.
proof fn lemma_find_delim_first(s: Seq<char>, d: char, i: int)
    requires
        0 <= i < s.len(),
        s[i] == d,
        forall|j: int| 0 <= j < i ==> s[j] != d,
    ensures
        find_delim(s, d) == i,
    decreases i,
{
    if i > 0 {
        lemma_find_delim_first(s.drop_first(), d, i - 1);
    }
}

proof fn lemma_find_delim_none(s: Seq<char>, d: char)
    requires
        forall|j: int| 0 <= j < s.len() ==> s[j] != d,
    ensures
        find_delim(s, d) == -1,
    decreases s.len(),
{
    if s.len() != 0 {
        lemma_find_delim_none(s.drop_first(), d);
    }
}

/// Splitting a string whose first delimiter stands at `i` peels off the field
/// before it.
pub proof fn lemma_split_at_first_delim(s: Seq<char>, d: char, i: int)
    requires
        0 <= i < s.len(),
        s[i] == d,
        forall|j: int| 0 <= j < i ==> s[j] != d,
    ensures
        split_chars(s, d) == seq![s.subrange(0, i)] + split_chars(
            s.subrange(i + 1, s.len() as int),
            d,
        ),
{
    lemma_find_delim_first(s, d, i);
}

/// Splitting a string without the delimiter yields that one field.
pub proof fn lemma_split_no_delim(s: Seq<char>, d: char)
    requires
        forall|j: int| 0 <= j < s.len() ==> s[j] != d,
    ensures
        split_chars(s, d) == seq![s],
{
    lemma_find_delim_none(s, d);
}

/// Splitting undoes joining, as long as no field contains the delimiter.
pub proof fn lemma_split_join(parts: Seq<Seq<char>>, d: char)
    requires
        parts.len() >= 1,
        forall|k: int| 0 <= k < parts.len() ==> !parts[k].contains(d),
    ensures
        split_chars(join_chars(parts, d), d) == parts,
    decreases parts.len(),
{
    let s = join_chars(parts, d);
    if parts.len() == 1 {
        assert(s == parts[0]);
        assert(forall|j: int| 0 <= j < s.len() ==> s[j] != d) by {
            assert(!parts[0].contains(d));
        }
        lemma_split_no_delim(s, d);
        assert(split_chars(s, d) =~= parts);
    } else {
        let head = parts[0];
        let rest = join_chars(parts.drop_first(), d);
        assert(s == head + seq![d] + rest);
        let i = head.len() as int;
        assert(s[i] == d);
        assert(forall|j: int| 0 <= j < i ==> s[j] != d) by {
            assert(!head.contains(d));
            assert(forall|j: int| 0 <= j < i ==> s[j] == head[j]);
        }
        lemma_split_at_first_delim(s, d, i);
        assert(s.subrange(0, i) =~= head);
        assert(s.subrange(i + 1, s.len() as int) =~= rest);
        assert(forall|k: int|
            0 <= k < parts.drop_first().len() ==> !parts.drop_first()[k].contains(d)) by {
            assert(forall|k: int|
                0 <= k < parts.drop_first().len() ==> parts.drop_first()[k] == parts[k + 1]);
        }
        lemma_split_join(parts.drop_first(), d);
        assert(split_chars(s, d) =~= seq![head] + parts.drop_first());
        assert(seq![head] + parts.drop_first() =~= parts);
    }
}

/// Whether two string slices hold the same characters.
pub fn str_eq(a: &str, b: &str) -> (r: bool)
    ensures
        r == (a@ == b@),
{
    let a_len = a.unicode_len();
    let b_len = b.unicode_len();
    if a_len != b_len {
        assert(a@ != b@);
        return false;
    }
    let mut i: usize = 0;
    while i < a_len
        invariant
            a_len == a@.len(),
            b_len == b@.len(),
            a_len == b_len,
            0 <= i <= a_len,
            forall|j: int| 0 <= j < i ==> a@[j] == b@[j],
        decreases a_len - i,
    {
        if a.get_char(i) != b.get_char(i) {
            assert(a@ != b@);
            return false;
        }
        i += 1;
    }
    assert(a@ =~= b@);
    true
}

/// The fields of `s`, split on every occurrence of `d`.
pub fn split_on_delim(s: &str, d: char) -> (parts: Vec<String>)
    ensures
        parts@.map_values(|p: String| p@) == split_chars(s@, d),
{
    let n = s.unicode_len();
    let mut parts: Vec<String> = Vec::new();
    let mut start: usize = 0;
    let mut i: usize = 0;
    proof {
        assert(s@.subrange(0, n as int) =~= s@);
    }
    while i < n
        invariant
            n == s@.len(),
            0 <= start <= i <= n,
            forall|j: int| start <= j < i ==> s@[j] != d,
            split_chars(s@, d) == parts@.map_values(|p: String| p@) + split_chars(
                s@.subrange(start as int, n as int),
                d,
            ),
        decreases n - i,
    {
        if s.get_char(i) == d {
            let field = s.substring_char(start, i).to_owned();
            proof {
                let suffix = s@.subrange(start as int, n as int);
                let k = i - start;
                assert(suffix[k as int] == s@[i as int]);
                assert(forall|j: int| 0 <= j < k ==> suffix[j] != d) by {
                    assert(forall|j: int| 0 <= j < k ==> suffix[j] == s@[j + start]);
                }
                lemma_split_at_first_delim(suffix, d, k as int);
                assert(suffix.subrange(0, k as int) =~= s@.subrange(start as int, i as int));
                assert(suffix.subrange(k + 1, suffix.len() as int) =~= s@.subrange(
                    i + 1,
                    n as int,
                ));
                assert(parts@.push(field).map_values(|p: String| p@) =~= parts@.map_values(
                    |p: String| p@,
                ).push(field@));
                assert(parts@.map_values(|p: String| p@) + (seq![field@] + split_chars(
                    s@.subrange(i + 1, n as int),
                    d,
                )) =~= parts@.map_values(|p: String| p@).push(field@) + split_chars(
                    s@.subrange(i + 1, n as int),
                    d,
                ));
            }
            parts.push(field);
            start = i + 1;
        }
        i += 1;
    }
    let last = s.substring_char(start, n).to_owned();
    proof {
        let suffix = s@.subrange(start as int, n as int);
        lemma_split_no_delim(suffix, d);
        assert(parts@.push(last).map_values(|p: String| p@) =~= parts@.map_values(
            |p: String| p@,
        ).push(last@));
        assert(parts@.map_values(|p: String| p@) + seq![suffix] =~= parts@.map_values(
            |p: String| p@,
        ).push(suffix));
    }
    parts.push(last);
    parts
}

} // verus!
