//! Options that a fence line carries in a trailing comment, such as
//! `#group=a version=3`.

use crate::text::{lemma_split_first_at, split, split_all, split_first, split_once, str_eq};
use vstd::prelude::*;
use vstd::string::*;

verus! {

/// One `key` or `key=value` annotation of a fence line. The key of a parsed
/// option is never empty.
#[derive(Debug, PartialEq, Eq)]
pub struct CodeBlockOption {
    pub key: String,
    pub value: String,
}

/// The characters of an option's key and value.
pub struct OptionView {
    pub key: Seq<char>,
    pub value: Seq<char>,
}

impl OptionView {
    /// Whether the key is not empty.
    pub open spec fn has_key(self) -> bool {
        self.key.len() > 0
    }

    /// Whether this option names the group of its block.
    pub open spec fn is_group(self) -> bool {
        self.key == "group"@
    }
}

impl View for CodeBlockOption {
    type V = OptionView;

    open spec fn view(&self) -> OptionView {
        OptionView { key: self.key@, value: self.value@ }
    }
}

impl DeepView for CodeBlockOption {
    type V = OptionView;

    open spec fn deep_view(&self) -> OptionView {
        self@
    }
}

/// What one token of an option list stands for. The empty token and a token
/// that starts with `=`, which has no key, stand for nothing. Any other is
/// cut at its first `=`, and a token without `=` is a key with an empty
/// value.
pub open spec fn parse_token(token: Seq<char>) -> Option<OptionView> {
    if token.len() == 0 || token[0] == '=' {
        None
    } else {
        match split_first(token, '=') {
            Some((key, value)) => Some(OptionView { key, value }),
            None => Some(OptionView { key: token, value: Seq::empty() }),
        }
    }
}

/// The options of a fence line: what the tokens, separated by single spaces,
/// of what follows the first `#` stand for. Tokens that stand for nothing are
/// passed over, and a line without `#` has no options.
pub open spec fn options_of_line(line: Seq<char>) -> Seq<OptionView> {
    match split_first(line, '#') {
        Some((_, comment)) => split_all(comment, ' ').filter_map(|t: Seq<char>| parse_token(t)),
        None => Seq::empty(),
    }
}

/// The value of the first option with key `group`, or the empty sequence
/// when there is none.
pub open spec fn group_name(options: Seq<OptionView>) -> Seq<char>
    decreases options.len(),
{
    if options.len() == 0 {
        Seq::empty()
    } else if options[0].is_group() {
        options[0].value
    } else {
        group_name(options.drop_first())
    }
}

/// Only the first `=` of a token splits it: a key that is not empty and
/// holds no `=`, followed by `=` and by any value, parses to that key and
/// that value, whatever further `=` the value holds.
pub proof fn lemma_first_equals_sign_splits(key: Seq<char>, value: Seq<char>)
    requires
        key.len() > 0,
        !key.contains('='),
    ensures
        parse_token(key + seq!['='] + value) == Some(OptionView { key, value }),
{
    let token = key + seq!['='] + value;
    let at = key.len() as int;
    assert forall|j: int| 0 <= j < at implies token[j] != '=' by {
        assert(token[j] == key[j]);
        assert(key.contains(key[j]));
    }
    assert(token[0] == key[0]);
    lemma_split_first_at(token, '=', at);
    assert(token.take(at) =~= key);
    assert(token.skip(at + 1) =~= value);
}

/// A token stands for an option unless it is empty or starts with `=`. The
/// key of the option is never empty and holds no `=`.
pub proof fn lemma_key_of_token(token: Seq<char>)
    ensures
        parse_token(token) is Some <==> token.len() > 0 && token[0] != '=',
        parse_token(token) matches Some(option) ==> option.has_key() && !option.key.contains(
            '=',
        ),
{
    token.index_of_first_ensures('=');
    match token.index_of_first('=') {
        Some(at) => {
            let key = token.take(at);
            if key.contains('=') {
                let j = choose|j: int| 0 <= j < key.len() && key[j] == '=';
                assert(token[j] == '=');
            }
        },
        None => {},
    }
}

/// A line without `#` carries no options.
pub proof fn lemma_no_hash_no_options(line: Seq<char>)
    requires
        !line.contains('#'),
    ensures
        options_of_line(line) == Seq::<OptionView>::empty(),
{
    line.index_of_first_ensures('#');
}

impl CodeBlockOption {
    /// Whether this option names the group of its block.
    pub fn is_group(&self) -> (r: bool)
        ensures
            r == self@.is_group(),
    {
        str_eq(self.key.as_str(), "group")
    }

    /// Parses one token of an option list. A token without a key is refused:
    /// the empty token, and one that starts with `=`.
    pub fn from_str(s: &str) -> (r: Result<CodeBlockOption, String>)
        ensures
            match r {
                Ok(option) => parse_token(s@) == Some(option@),
                Err(message) => parse_token(s@) is None && message@ == if s@.len() == 0 {
                    "empty string found for options list"@
                } else {
                    "empty key found for options list"@
                },
            },
            r is Err <==> (s@.len() == 0 || s@[0] == '='),
            r matches Ok(option) ==> option@.has_key(),
    {
        proof {
            lemma_key_of_token(s@);
            s@.index_of_first_ensures('=');
        }
        if s.unicode_len() == 0 {
            return Err(String::from_str("empty string found for options list"));
        }
        match split_once(s, '=') {
            Some((key, value)) => {
                if key.unicode_len() == 0 {
                    Err(String::from_str("empty key found for options list"))
                } else {
                    Ok(CodeBlockOption { key: String::from_str(key), value: String::from_str(value) })
                }
            },
            None => Ok(CodeBlockOption { key: String::from_str(s), value: String::new() }),
        }
    }

    /// Reads the options out of a fence line.
    pub fn parse_options(line: &str) -> (options: Vec<CodeBlockOption>)
        ensures
            options.deep_view() == options_of_line(line@),
            !line@.contains('#') ==> options@.len() == 0,
    {
        let mut options: Vec<CodeBlockOption> = Vec::new();
        proof {
            line@.index_of_first_ensures('#');
            assert(options.deep_view() =~= Seq::<OptionView>::empty());
        }
        match split_once(line, '#') {
            Some((_, comment)) => {
                let tokens = split(comment, ' ');
                let ghost parse = |t: Seq<char>| parse_token(t);
                let mut i: usize = 0;
                while i < tokens.len()
                    invariant
                        i <= tokens.len(),
                        parse == |t: Seq<char>| parse_token(t),
                        options.deep_view() == tokens.deep_view().take(i as int).filter_map(parse),
                    decreases tokens.len() - i,
                {
                    proof {
                        tokens.deep_view().lemma_filter_map_take_succ(parse, i as int);
                    }
                    let ghost before = options.deep_view();
                    match CodeBlockOption::from_str(tokens[i]) {
                        Ok(option) => {
                            let ghost o = option@;
                            options.push(option);
                            assert(options.deep_view() =~= before + seq![o]);
                        },
                        Err(_) => {},
                    }
                    i = i + 1;
                }
                proof {
                    assert(tokens.deep_view().take(i as int) =~= tokens.deep_view());
                }
                options
            },
            None => options,
        }
    }
}

impl std::str::FromStr for CodeBlockOption {
    type Err = String;

    /// Parses one token of an option list, as `CodeBlockOption::from_str`
    /// does.
    fn from_str(s: &str) -> (r: Result<CodeBlockOption, String>)
        ensures
            match r {
                Ok(option) => parse_token(s@) == Some(option@),
                Err(message) => parse_token(s@) is None && message@ == if s@.len() == 0 {
                    "empty string found for options list"@
                } else {
                    "empty key found for options list"@
                },
            },
            r is Err <==> (s@.len() == 0 || s@[0] == '='),
            r matches Ok(option) ==> option@.has_key(),
    {
        CodeBlockOption::from_str(s)
    }
}

/// The group that a fence line's options name; empty when they name none.
pub fn find_group_name(options: Vec<CodeBlockOption>) -> (name: String)
    ensures
        name@ == group_name(options.deep_view()),
{
    let mut i: usize = 0;
    proof {
        assert(options.deep_view().skip(0) =~= options.deep_view());
    }
    while i < options.len()
        invariant
            i <= options.len(),
            group_name(options.deep_view()) == group_name(options.deep_view().skip(i as int)),
        decreases options.len() - i,
    {
        proof {
            let rest = options.deep_view().skip(i as int);
            assert(rest[0] == options[i as int]@);
            assert(rest.drop_first() =~= options.deep_view().skip(i + 1));
        }
        if options[i].is_group() {
            return options[i].value.clone();
        }
        i = i + 1;
    }
    String::new()
}

} // verus!
