use crate::executor::{prefixed_args, Executor};
use vstd::prelude::*;
use vstd::string::*;

verus! {

/// The Lua interpreter.
#[derive(Clone, Copy, Debug, PartialEq, Eq)]
pub struct Lua;

impl Executor for Lua {
    open spec fn program(&self) -> Seq<char> {
        "lua"@
    }

    open spec fn stdin_args(&self) -> Seq<Seq<char>> {
        seq!["-"@]
    }

    fn binary(&self) -> (name: &'static str) {
        "lua"
    }

    fn args(&self, args: Vec<String>) -> (argv: Vec<String>) {
        let mut prefix: Vec<String> = Vec::new();
        prefix.push(String::from_str("-"));
        assert(prefix.deep_view() =~= self.stdin_args());
        prefixed_args(prefix, args)
    }
}

impl Lua {
    /// The Lua interpreter.
    pub fn new() -> (lua: Lua)
        ensures
            lua == Lua,
    {
        Lua
    }
}

} // verus!
