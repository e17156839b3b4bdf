//! The answer to the question whether a block is wanted.

use crate::text::str_eq;
use vstd::prelude::*;

verus! {

/// Whether `str::trim` of the standard library takes `c` for white space:
/// whether `c` has the Unicode property White_Space.
pub uninterp spec fn white_space(c: char) -> bool;

/// What is left of a string when the white space at both of its ends is
/// taken away: the part from its first to its last character that is not
/// white space.
pub open spec fn trimmed(s: Seq<char>) -> Seq<char>
    decreases s.len(),
{
    if s.len() > 0 && white_space(s.first()) {
        trimmed(s.drop_first())
    } else if s.len() > 0 && white_space(s.last()) {
        trimmed(s.drop_last())
    } else {
        s
    }
}

/// The part of `s` from `from` to `to` is the trimmed `s` where all before
/// it and all behind it is white space, and its own ends are not.
pub proof fn lemma_trimmed_part(s: Seq<char>, from: int, to: int)
    requires
        0 <= from <= to <= s.len(),
        forall|k: int| 0 <= k < from ==> white_space(#[trigger] s[k]),
        forall|k: int| to <= k < s.len() ==> white_space(#[trigger] s[k]),
        from < to ==> !white_space(s[from]) && !white_space(s[to - 1]),
    ensures
        trimmed(s) == s.subrange(from, to),
    decreases s.len(),
{
    if s.len() > 0 && white_space(s.first()) {
        let rest = s.drop_first();
        if from == 0 {
            assert(to == 0);
            lemma_trimmed_part(rest, 0, 0);
            assert(rest.subrange(0, 0) =~= s.subrange(from, to));
        } else {
            assert forall|k: int| to - 1 <= k < rest.len() implies white_space(
                #[trigger] rest[k],
            ) by {
                assert(rest[k] == s[k + 1]);
            }
            assert forall|k: int| 0 <= k < from - 1 implies white_space(#[trigger] rest[k]) by {
                assert(rest[k] == s[k + 1]);
            }
            lemma_trimmed_part(rest, from - 1, to - 1);
            assert(rest.subrange(from - 1, to - 1) =~= s.subrange(from, to));
        }
    } else if s.len() > 0 && white_space(s.last()) {
        let rest = s.drop_last();
        if to == s.len() {
            if from < to {
                assert(!white_space(s[to - 1]));
            } else {
                assert(white_space(s[0]));
            }
        }
        lemma_trimmed_part(rest, from, to);
        assert(rest.subrange(from, to) =~= s.subrange(from, to));
    } else if s.len() > 0 {
        if from > 0 {
            assert(white_space(s[0]));
        }
        if to < s.len() {
            assert(white_space(s[s.len() - 1]));
        }
        assert(s.subrange(from, to) =~= s);
    } else {
        assert(s.subrange(from, to) =~= s);
    }
}

/// `str::trim` of the standard library, which returns `s` without its
/// leading and trailing white space, white space being the characters with
/// the Unicode property White_Space. Nothing is proved of it. The contract
/// says that the result is a part of `s`, that all before and behind that
/// part is white space, and that the part neither starts nor ends with white
/// space; which characters are white space is left to the name.
#[verifier::external_body]
fn trim(s: &str) -> (t: &str)
    ensures
        exists|from: int, to: int|
            #![trigger s@.subrange(from, to)]
            {
                &&& 0 <= from <= to <= s@.len()
                &&& t@ == s@.subrange(from, to)
                &&& forall|k: int| 0 <= k < from ==> white_space(#[trigger] s@[k])
                &&& forall|k: int| to <= k < s@.len() ==> white_space(#[trigger] s@[k])
                &&& from < to ==> !white_space(s@[from]) && !white_space(s@[to - 1])
            },
{
    s.trim()
}

/// The decision that a trimmed answer stands for: `yes` keeps the block and
/// `no` drops it. Anything else is no answer, `Yes` and `NO` too.
pub open spec fn answer_of(text: Seq<char>) -> Option<bool> {
    if text == "yes"@ {
        Some(true)
    } else if text == "no"@ {
        Some(false)
    } else {
        None
    }
}

/// Reads an answer that has no white space around it.
pub fn read_answer(text: &str) -> (answer: Option<bool>)
    ensures
        answer == answer_of(text@),
{
    if str_eq(text, "yes") {
        Some(true)
    } else if str_eq(text, "no") {
        Some(false)
    } else {
        None
    }
}

/// Reads the answer out of a line as it was typed. `None` asks for the
/// question to be put again.
pub fn parse_answer(line: &str) -> (answer: Option<bool>)
    ensures
        answer == answer_of(trimmed(line@)),
{
    let text = trim(line);
    proof {
        let s = line@;
        let (from, to) = choose|from: int, to: int|
            #![trigger s.subrange(from, to)]
            {
                &&& 0 <= from <= to <= s.len()
                &&& text@ == s.subrange(from, to)
                &&& forall|k: int| 0 <= k < from ==> white_space(#[trigger] s[k])
                &&& forall|k: int| to <= k < s.len() ==> white_space(#[trigger] s[k])
                &&& from < to ==> !white_space(s[from]) && !white_space(s[to - 1])
            };
        lemma_trimmed_part(s, from, to);
    }
    read_answer(text)
}

} // verus!
