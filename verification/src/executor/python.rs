use crate::executor::{prefixed_args, Executor};
use vstd::prelude::*;
use vstd::string::*;

verus! {

/// The Python 3 interpreter.
#[derive(Clone, Copy, Debug, PartialEq, Eq)]
pub struct Python;

impl Executor for Python {
    open spec fn program(&self) -> Seq<char> {
        "python3"@
    }

    open spec fn stdin_args(&self) -> Seq<Seq<char>> {
        seq!["-"@]
    }

    fn binary(&self) -> (name: &'static str) {
        "python3"
    }

    fn args(&self, args: Vec<String>) -> (argv: Vec<String>) {
        let mut prefix: Vec<String> = Vec::new();
        prefix.push(String::from_str("-"));
        assert(prefix.deep_view() =~= self.stdin_args());
        prefixed_args(prefix, args)
    }
}

impl Python {
    /// The Python interpreter.
    pub fn new() -> (python: Python)
        ensures
            python == Python,
    {
        Python
    }
}

} // verus!
