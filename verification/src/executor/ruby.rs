use crate::executor::{prefixed_args, Executor};
use vstd::prelude::*;
use vstd::string::*;

verus! {

/// The Ruby interpreter.
#[derive(Clone, Copy, Debug, PartialEq, Eq)]
pub struct Ruby;

impl Executor for Ruby {
    open spec fn program(&self) -> Seq<char> {
        "ruby"@
    }

    open spec fn stdin_args(&self) -> Seq<Seq<char>> {
        seq!["-"@]
    }

    fn binary(&self) -> (name: &'static str) {
        "ruby"
    }

    fn args(&self, args: Vec<String>) -> (argv: Vec<String>) {
        let mut prefix: Vec<String> = Vec::new();
        prefix.push(String::from_str("-"));
        assert(prefix.deep_view() =~= self.stdin_args());
        prefixed_args(prefix, args)
    }
}

impl Ruby {
    /// The Ruby interpreter.
    pub fn new() -> (ruby: Ruby)
        ensures
            ruby == Ruby,
    {
        Ruby
    }
}

} // verus!
