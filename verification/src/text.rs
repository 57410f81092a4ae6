//! Text helpers shared by the codecs: field splitting, comparison and case
//! folding over the character view of a string.

use vstd::prelude::*;
use vstd::string::*;

verus! {

/// The character sequences of a list of strings.
pub open spec fn strings(v: Seq<String>) -> Seq<Seq<char>> {
    v.map_values(|s: String| s@)
}

/// Position of the first `sep` in `s`, or `s.len()` when `s` holds none.
pub open spec fn first_index(s: Seq<char>, sep: char) -> int
    decreases s.len(),
{
    if s.len() == 0 || s[0] == sep {
        0
    } else {
        1 + first_index(s.drop_first(), sep)
    }
}

/// The fields of `s` between occurrences of `sep`: `n` separators give
/// `n + 1` fields, empty ones included.
pub open spec fn split(s: Seq<char>, sep: char) -> Seq<Seq<char>>
    decreases s.len(),
{
    let k = first_index(s, sep);
    if 0 <= k < s.len() {
        seq![s.subrange(0, k)] + split(s.subrange(k + 1, s.len() as int), sep)
    } else {
        seq![s]
    }
}

/// `first_index` is the least position holding `sep`, and stays in bounds.
pub proof fn lemma_first_index(s: Seq<char>, sep: char)
    ensures
        0 <= first_index(s, sep) <= s.len(),
        first_index(s, sep) < s.len() ==> s[first_index(s, sep)] == sep,
        forall|i: int| 0 <= i < first_index(s, sep) ==> s[i] != sep,
    decreases s.len(),
{
    if s.len() == 0 || s[0] == sep {
    } else {
        let t = s.drop_first();
        lemma_first_index(t, sep);
        assert forall|i: int| 0 <= i < first_index(s, sep) implies s[i] != sep by {
            if i > 0 {
                assert(s[i] == t[i - 1]);
            }
        }
    }
}

/// A position `k` that holds `sep` with no `sep` before it is the first index.
pub proof fn lemma_first_index_is(s: Seq<char>, sep: char, k: int)
    requires
        0 <= k <= s.len(),
        k < s.len() ==> s[k] == sep,
        forall|i: int| 0 <= i < k ==> s[i] != sep,
    ensures
        first_index(s, sep) == k,
{
    lemma_first_index(s, sep);
    let f = first_index(s, sep);
    if f < k {
        assert(s[f] != sep);
    } else if f > k {
        assert(s[k] != sep);
    }
}

/// Every text splits into at least one field, and into more than one
/// exactly when it holds the separator.
pub proof fn lemma_split_len(s: Seq<char>, sep: char)
    ensures
        split(s, sep).len() >= 1,
        split(s, sep).len() >= 2 <==> s.contains(sep),
    decreases s.len(),
{
    lemma_first_index(s, sep);
    let k = first_index(s, sep);
    if k < s.len() {
        lemma_split_len(s.subrange(k + 1, s.len() as int), sep);
    } else {
        if s.contains(sep) {
            let i = choose|i: int| 0 <= i < s.len() && s[i] == sep;
            assert(s[i] != sep);
        }
    }
}

/// The texts of `parts` with `sep` between each two.
pub open spec fn interleaved(parts: Seq<Seq<char>>, sep: Seq<char>) -> Seq<char>
    decreases parts.len(),
{
    if parts.len() == 0 {
        Seq::empty()
    } else if parts.len() == 1 {
        parts[0]
    } else {
        interleaved(parts.drop_last(), sep) + sep + parts.last()
    }
}

/// Putting a text before others puts it, and the separator, before what
/// the others give.
pub proof fn lemma_interleaved_front(head: Seq<char>, rest: Seq<Seq<char>>, sep: Seq<char>)
    requires
        rest.len() >= 1,
    ensures
        interleaved(seq![head] + rest, sep) == head + sep + interleaved(rest, sep),
    decreases rest.len(),
{
    let all = seq![head] + rest;
    if rest.len() == 1 {
        assert(all.drop_last() == seq![head]);
        assert(interleaved(seq![head], sep) == head);
    } else {
        assert(all.drop_last() == seq![head] + rest.drop_last());
        lemma_interleaved_front(head, rest.drop_last(), sep);
        assert((head + sep + interleaved(rest.drop_last(), sep)) + sep + rest.last() == head + sep
            + (interleaved(rest.drop_last(), sep) + sep + rest.last()));
    }
}

/// The fields of a text hold no separator, and with the separator between
/// each two they are the text again.
pub proof fn lemma_split_joins(s: Seq<char>, sep: char)
    ensures
        forall|i: int|
            0 <= i < split(s, sep).len() ==> !(#[trigger] split(s, sep)[i]).contains(sep),
        interleaved(split(s, sep), seq![sep]) == s,
    decreases s.len(),
{
    lemma_first_index(s, sep);
    let k = first_index(s, sep);
    if k < s.len() {
        let head = s.subrange(0, k);
        let tail = s.subrange(k + 1, s.len() as int);
        let rest = split(tail, sep);
        lemma_split_joins(tail, sep);
        lemma_split_len(tail, sep);
        lemma_interleaved_front(head, rest, seq![sep]);
        assert forall|i: int| 0 <= i < split(s, sep).len() implies !(#[trigger] split(
            s,
            sep,
        )[i]).contains(sep) by {
            if i == 0 {
                if head.contains(sep) {
                    let j = choose|j: int| 0 <= j < head.len() && head[j] == sep;
                    assert(s[j] == sep);
                }
            } else {
                assert(split(s, sep)[i] == rest[i - 1]);
            }
        }
    } else {
        if s.contains(sep) {
            let j = choose|j: int| 0 <= j < s.len() && s[j] == sep;
            assert(s[j] != sep);
        }
    }
}

/// Texts that hold no separator are the fields of what they give with the
/// separator between each two.
pub proof fn lemma_split_of_interleaved(parts: Seq<Seq<char>>, sep: char)
    requires
        parts.len() >= 1,
        forall|i: int| 0 <= i < parts.len() ==> !(#[trigger] parts[i]).contains(sep),
    ensures
        split(interleaved(parts, seq![sep]), sep) == parts,
    decreases parts.len(),
{
    let head = parts[0];
    let s = interleaved(parts, seq![sep]);
    assert forall|i: int| 0 <= i < head.len() implies head[i] != sep by {
        assert(head.contains(head[i]));
    }
    if parts.len() == 1 {
        lemma_first_index_is(head, sep, head.len() as int);
    } else {
        let rest = parts.drop_first();
        assert(parts == seq![head] + rest);
        lemma_interleaved_front(head, rest, seq![sep]);
        let tail = interleaved(rest, seq![sep]);
        lemma_first_index_is(s, sep, head.len() as int);
        assert(s.subrange(0, head.len() as int) == head);
        assert(s.subrange(head.len() as int + 1, s.len() as int) == tail);
        assert forall|i: int| 0 <= i < rest.len() implies !(#[trigger] rest[i]).contains(sep) by {
            assert(rest[i] == parts[i + 1]);
        }
        lemma_split_of_interleaved(rest, sep);
    }
}

/// A text that holds the separator once, between `head` and `tail`, splits
/// into these two.
pub proof fn lemma_split_pair(head: Seq<char>, tail: Seq<char>, sep: char)
    requires
        !head.contains(sep),
        !tail.contains(sep),
    ensures
        split(head + seq![sep] + tail, sep) == seq![head, tail],
{
    let parts = seq![head, tail];
    assert(parts.drop_last() == seq![head]);
    assert(interleaved(seq![head], seq![sep]) == head);
    lemma_split_of_interleaved(parts, sep);
}

/// The texts of `parts` one after the other.
pub open spec fn joined(parts: Seq<Seq<char>>) -> Seq<char>
    decreases parts.len(),
{
    if parts.len() == 0 {
        Seq::empty()
    } else {
        joined(parts.drop_last()) + parts.last()
    }
}

/// Position of the first `sep` at or after `from`, or the length of `s`.
pub fn find_from(s: &str, sep: char, from: usize) -> (k: usize)
    requires
        from <= s@.len(),
    ensures
        from <= k <= s@.len(),
        k - from == first_index(s@.subrange(from as int, s@.len() as int), sep),
{
    let n = s.unicode_len();
    let mut k: usize = from;
    while k < n && s.get_char(k) != sep
        invariant
            n == s@.len(),
            from <= k <= n,
            forall|i: int| from <= i < k ==> s@[i] != sep,
        decreases n - k,
    {
        k += 1;
    }
    proof {
        let t = s@.subrange(from as int, s@.len() as int);
        assert forall|i: int| 0 <= i < k - from implies t[i] != sep by {
            assert(t[i] == s@[from + i]);
        }
        lemma_first_index_is(t, sep, k - from);
    }
    k
}

/// Splits `s` at every `sep`, as `split` describes.
pub fn split_fields<'a>(s: &'a str, sep: char) -> (parts: Vec<&'a str>)
    ensures
        parts@.len() == split(s@, sep).len(),
        forall|i: int| 0 <= i < parts@.len() ==> (#[trigger] parts@[i])@ == split(s@, sep)[i],
{
    let n = s.unicode_len();
    let mut parts: Vec<&'a str> = Vec::new();
    let mut start: usize = 0;
    let ghost mut done: Seq<Seq<char>> = Seq::empty();
    proof {
        assert(s@.subrange(0, n as int) == s@);
    }
    loop
        invariant
            n == s@.len(),
            start <= n,
            parts@.len() == done.len(),
            forall|i: int| 0 <= i < parts@.len() ==> (#[trigger] parts@[i])@ == done[i],
            split(s@, sep) == done + split(s@.subrange(start as int, n as int), sep),
        decreases n - start,
    {
        let k = find_from(s, sep, start);
        let ghost rest = s@.subrange(start as int, n as int);
        let piece = s.substring_char(start, k);
        proof {
            assert(piece@ == rest.subrange(0, k - start));
        }
        parts.push(piece);
        if k == n {
            proof {
                assert(split(s@, sep) == done.push(rest));
            }
            return parts;
        }
        proof {
            assert(rest.subrange(k - start + 1, rest.len() as int) == s@.subrange(
                k + 1,
                n as int,
            ));
            assert(done + (seq![piece@] + split(s@.subrange(k + 1, n as int), sep)) == done.push(
                piece@,
            ) + split(s@.subrange(k + 1, n as int), sep));
            done = done.push(piece@);
        }
        start = k + 1;
    }
}

/// Whether `s` holds `sep`.
pub fn has_separator(s: &str, sep: char) -> (r: bool)
    ensures
        r == s@.contains(sep),
{
    let k = find_from(s, sep, 0);
    proof {
        assert(s@.subrange(0, s@.len() as int) == s@);
        lemma_first_index(s@, sep);
        if k == s@.len() && s@.contains(sep) {
            let i = choose|i: int| 0 <= i < s@.len() && s@[i] == sep;
            assert(s@[i] != sep);
        }
    }
    k < s.unicode_len()
}

/// Whether two strings hold the same characters.
pub fn str_equal(a: &str, b: &str) -> (same: bool)
    ensures
        same == (a@ == b@),
{
    let n = a.unicode_len();
    if b.unicode_len() != n {
        return false;
    }
    let mut i: usize = 0;
    while i < n
        invariant
            n == a@.len(),
            n == b@.len(),
            i <= n,
            forall|j: int| 0 <= j < i ==> a@[j] == b@[j],
        decreases n - i,
    {
        if a.get_char(i) != b.get_char(i) {
            return false;
        }
        i += 1;
    }
    assert(a@ =~= b@);
    true
}

/// A copy of a list of strings.
pub fn copy_strings(list: &Vec<String>) -> (copy: Vec<String>)
    ensures
        strings(copy@) == strings(list@),
{
    let mut copy: Vec<String> = Vec::new();
    let mut i: usize = 0;
    while i < list.len()
        invariant
            i <= list@.len(),
            copy@.len() == i,
            forall|k: int| 0 <= k < i ==> (#[trigger] copy@[k])@ == list@[k]@,
        decreases list@.len() - i,
    {
        copy.push(list[i].clone());
        i += 1;
    }
    assert(strings(copy@) =~= strings(list@));
    copy
}

/// The upper-case form that `str::to_uppercase` gives the characters `s`.
pub uninterp spec fn uppercase(s: Seq<char>) -> Seq<char>;

/// The lower-case form that `str::to_lowercase` gives the characters `s`.
pub uninterp spec fn lowercase(s: Seq<char>) -> Seq<char>;

/// Upper-cases `s` with `str::to_uppercase` of the standard library, which
/// applies the Unicode case mapping. The mapping is not restated here: the
/// contract only names the result, as a function of the characters of `s`.
#[verifier::external_body]
pub(crate) fn to_upper(s: &str) -> (r: String)
    ensures
        r@ == uppercase(s@),
{
    s.to_uppercase()
}

/// Lower-cases `s` with `str::to_lowercase` of the standard library, which
/// applies the Unicode case mapping. The mapping is not restated here: the
/// contract only names the result, as a function of the characters of `s`.
#[verifier::external_body]
pub(crate) fn to_lower(s: &str) -> (r: String)
    ensures
        r@ == lowercase(s@),
{
    s.to_lowercase()
}

} // verus!
