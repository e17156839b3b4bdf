//! Character-level helpers on strings, specified over `Seq<char>`.

use vstd::prelude::*;
use vstd::std_specs::iter::IteratorSpec;
use vstd::string::*;

verus! {

/// The two sides of `s` around the first occurrence of `c`, or `None` when
/// `c` does not occur in `s`.
pub open spec fn split_first(s: Seq<char>, c: char) -> Option<(Seq<char>, Seq<char>)> {
    match s.index_of_first(c) {
        Some(i) => Some((s.take(i), s.skip(i + 1))),
        None => None,
    }
}

/// The pieces of `s` that lie between the occurrences of `sep`, in order.
/// A sequence without `sep` is a single piece, so the result is never empty.
pub open spec fn split_all(s: Seq<char>, sep: char) -> Seq<Seq<char>>
    decreases s.len(),
    via split_all_decreases
{
    match split_first(s, sep) {
        Some((head, tail)) => seq![head] + split_all(tail, sep),
        None => seq![s],
    }
}

#[via_fn]
proof fn split_all_decreases(s: Seq<char>, sep: char) {
    s.index_of_first_ensures(sep);
}

/// The concatenation of `parts` with `sep` between each two neighbours.
pub open spec fn joined(parts: Seq<Seq<char>>, sep: Seq<char>) -> Seq<char>
    decreases parts.len(),
{
    if parts.len() == 0 {
        Seq::empty()
    } else if parts.len() == 1 {
        parts[0]
    } else {
        joined(parts.drop_last(), sep) + sep + parts.last()
    }
}

/// If `c` stands at `i` and nowhere before `i`, `s` splits there.
pub proof fn lemma_split_first_at(s: Seq<char>, c: char, i: int)
    requires
        0 <= i < s.len(),
        s[i] == c,
        forall|j: int| 0 <= j < i ==> s[j] != c,
    ensures
        s.index_of_first(c) == Some(i),
        split_first(s, c) == Some((s.take(i), s.skip(i + 1))),
{
    s.index_of_first_ensures(c);
    assert(s.contains(c));
    let k = s.index_of_first(c).unwrap();
    if k < i {
        assert(s[k] != c);
    }
}

/// A sequence in which `c` does not occur does not split.
pub proof fn lemma_split_first_absent(s: Seq<char>, c: char)
    requires
        forall|j: int| 0 <= j < s.len() ==> s[j] != c,
    ensures
        s.index_of_first(c) is None,
        split_first(s, c) is None,
{
    s.index_of_first_ensures(c);
}

/// Position, counted in characters, of the first occurrence of `c` in `s`.
pub fn find_char(s: &str, c: char) -> (r: Option<usize>)
    ensures
        match r {
            Some(i) => s@.index_of_first(c) == Some(i as int),
            None => s@.index_of_first(c) is None,
        },
{
    let len: usize = s.unicode_len();
    let mut i: usize = 0;
    let chars = s.chars();
    for ch in it: chars
        invariant
            it.seq() == s@,
            len == s@.len(),
            i == it.index(),
            forall|j: int| 0 <= j < i ==> s@[j] != c,
    {
        if ch == c {
            proof {
                lemma_split_first_at(s@, c, i as int);
            }
            return Some(i);
        }
        i = i + 1;
    }
    proof {
        lemma_split_first_absent(s@, c);
    }
    None
}

/// Cuts `s` at the first occurrence of `c`; the occurrence itself belongs to
/// neither side.
pub fn split_once<'a>(s: &'a str, c: char) -> (r: Option<(&'a str, &'a str)>)
    ensures
        match r {
            Some((head, tail)) => split_first(s@, c) == Some((head@, tail@)),
            None => split_first(s@, c) is None,
        },
{
    let len: usize = s.unicode_len();
    match find_char(s, c) {
        Some(i) => {
            proof {
                s@.index_of_first_ensures(c);
                assert(s@.take(i as int) =~= s@.subrange(0, i as int));
                assert(s@.skip(i + 1) =~= s@.subrange(i + 1, len as int));
            }
            Some((s.substring_char(0, i), s.substring_char(i + 1, len)))
        },
        None => None,
    }
}

/// Cuts `s` at every occurrence of `sep`.
pub fn split<'a>(s: &'a str, sep: char) -> (parts: Vec<&'a str>)
    ensures
        parts.deep_view() == split_all(s@, sep),
{
    let len: usize = s.unicode_len();
    let mut parts: Vec<&'a str> = Vec::new();
    let mut start: usize = 0;
    let mut i: usize = 0;
    let chars = s.chars();
    assert(s@.skip(0) =~= s@);
    assert(parts.deep_view() =~= Seq::<Seq<char>>::empty());
    for ch in it: chars
        invariant
            it.seq() == s@,
            len == s@.len(),
            i == it.index(),
            start <= i,
            forall|j: int| start <= j < i ==> s@[j] != sep,
            split_all(s@, sep) == parts.deep_view() + split_all(s@.skip(start as int), sep),
    {
        if ch == sep {
            let piece = s.substring_char(start, i);
            proof {
                let rest = s@.skip(start as int);
                lemma_split_first_at(rest, sep, i - start);
                assert(rest.take(i - start) =~= piece@);
                assert(rest.skip(i - start + 1) =~= s@.skip(i + 1));
                assert(parts.deep_view().push(piece@) + split_all(s@.skip(i + 1), sep)
                    =~= parts.deep_view() + (seq![piece@] + split_all(s@.skip(i + 1), sep)));
            }
            let ghost before = parts.deep_view();
            parts.push(piece);
            assert(parts.deep_view() =~= before.push(piece@));
            start = i + 1;
        }
        i = i + 1;
    }
    let piece = s.substring_char(start, len);
    proof {
        let rest = s@.skip(start as int);
        lemma_split_first_absent(rest, sep);
        assert(rest =~= piece@);
    }
    let ghost before = parts.deep_view();
    parts.push(piece);
    assert(parts.deep_view() =~= before.push(piece@));
    parts
}

/// Concatenates `parts`, putting `sep` between each two neighbours.
pub fn join(parts: &Vec<String>, sep: &str) -> (r: String)
    ensures
        r@ == joined(parts.deep_view(), sep@),
{
    let mut out = String::new();
    let mut i: usize = 0;
    while i < parts.len()
        invariant
            i <= parts.len(),
            out@ == joined(parts.deep_view().take(i as int), sep@),
        decreases parts.len() - i,
    {
        proof {
            let all = parts.deep_view();
            assert(all.take(i + 1).drop_last() =~= all.take(i as int));
            assert(all.take(i + 1).last() == parts[i as int]@);
            if i > 0 {
                assert(all.take(i as int).len() > 0);
            } else {
                assert(Seq::<char>::empty() + parts[i as int]@ =~= parts[i as int]@);
            }
        }
        if i > 0 {
            out.append(sep);
        }
        out.append(parts[i].as_str());
        i = i + 1;
    }
    proof {
        assert(parts.deep_view().take(i as int) =~= parts.deep_view());
    }
    out
}

/// Whether `s` begins with the characters of `prefix`.
pub fn starts_with(s: &str, prefix: &str) -> (r: bool)
    ensures
        r == prefix@.is_prefix_of(s@),
{
    let n: usize = prefix.unicode_len();
    let m: usize = s.unicode_len();
    if n > m {
        false
    } else {
        str_eq(s.substring_char(0, n), prefix)
    }
}

/// Whether two strings hold the same characters.
pub fn str_eq(a: &str, b: &str) -> (r: bool)
    ensures
        r == (a@ == b@),
{
    broadcast use group_string_axioms;
    let mut left = a.chars();
    let mut right = b.chars();
    let ghost mut n: int = 0;
    loop
        invariant
            0 <= n <= a@.len(),
            n <= b@.len(),
            left.obeys_prophetic_iter_laws(),
            right.obeys_prophetic_iter_laws(),
            left.remaining() == a@.skip(n),
            right.remaining() == b@.skip(n),
            a@.take(n) == b@.take(n),
            left.decrease() is Some,
        decreases left.decrease()->0,
    {
        let x = left.next();
        let y = right.next();
        match x {
            Some(cx) => {
                match y {
                    Some(cy) => {
                        if cx != cy {
                            assert(a@[n] != b@[n]);
                            return false;
                        }
                        proof {
                            assert(a@.take(n + 1) =~= a@.take(n).push(a@[n]));
                            assert(b@.take(n + 1) =~= b@.take(n).push(b@[n]));
                            assert(a@.skip(n).drop_first() =~= a@.skip(n + 1));
                            assert(b@.skip(n).drop_first() =~= b@.skip(n + 1));
                            n = n + 1;
                        }
                    },
                    None => {
                        return false;
                    },
                }
            },
            None => {
                proof {
                    assert(a@.take(n) =~= a@);
                }
                match y {
                    Some(cy) => {
                        return false;
                    },
                    None => {
                        proof {
                            assert(b@.take(n) =~= b@);
                        }
                        return true;
                    },
                }
            },
        }
    }
}

} // verus!
