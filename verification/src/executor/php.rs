use crate::executor::{prefixed_args, Executor};
use vstd::prelude::*;
use vstd::string::*;

verus! {

/// The PHP command line interpreter.
#[derive(Clone, Copy, Debug, PartialEq, Eq)]
pub struct Php;

impl Executor for Php {
    open spec fn program(&self) -> Seq<char> {
        "php"@
    }

    open spec fn stdin_args(&self) -> Seq<Seq<char>> {
        seq!["--"@]
    }

    fn binary(&self) -> (name: &'static str) {
        "php"
    }

    fn args(&self, args: Vec<String>) -> (argv: Vec<String>) {
        let mut prefix: Vec<String> = Vec::new();
        prefix.push(String::from_str("--"));
        assert(prefix.deep_view() =~= self.stdin_args());
        prefixed_args(prefix, args)
    }
}

impl Php {
    /// The PHP interpreter.
    pub fn new() -> (php: Php)
        ensures
            php == Php,
    {
        Php
    }
}

} // verus!
