use crate::executor::{prefixed_args, Executor};
use crate::text::str_eq;
use vstd::prelude::*;
use vstd::string::*;

verus! {

/// The JavaScript runtimes.
#[derive(Clone, Copy, Debug, PartialEq, Eq)]
pub enum JavaScript {
    Deno,
    Node,
}

impl Default for JavaScript {
    fn default() -> (runtime: JavaScript)
        ensures
            runtime == JavaScript::Node,
    {
        JavaScript::Node
    }
}

impl Executor for JavaScript {
    open spec fn program(&self) -> Seq<char> {
        match self {
            JavaScript::Deno => "deno"@,
            JavaScript::Node => "node"@,
        }
    }

    open spec fn stdin_args(&self) -> Seq<Seq<char>> {
        match self {
            JavaScript::Deno => seq!["run"@, "-"@],
            JavaScript::Node => seq!["-"@],
        }
    }

    fn binary(&self) -> (name: &'static str) {
        self.target_str()
    }

    fn args(&self, args: Vec<String>) -> (argv: Vec<String>) {
        let mut prefix: Vec<String> = Vec::new();
        match self {
            JavaScript::Deno => {
                prefix.push(String::from_str("run"));
                prefix.push(String::from_str("-"));
            },
            JavaScript::Node => {
                prefix.push(String::from_str("-"));
            },
        }
        assert(prefix.deep_view() =~= self.stdin_args());
        prefixed_args(prefix, args)
    }
}

impl JavaScript {
    /// The runtime that `runner` names: Deno for `deno`, Node for anything
    /// else.
    pub open spec fn named(runner: Seq<char>) -> JavaScript {
        if runner == "deno"@ {
            JavaScript::Deno
        } else {
            JavaScript::Node
        }
    }

    /// Chooses the runtime by the name of its executable.
    pub fn new(runner: &str) -> (runtime: JavaScript)
        ensures
            runtime == JavaScript::named(runner@),
    {
        if str_eq(runner, "deno") {
            JavaScript::Deno
        } else {
            JavaScript::Node
        }
    }

    /// The name of the executable.
    pub fn target_str(&self) -> (name: &'static str)
        ensures
            name@ == self.program(),
    {
        match self {
            JavaScript::Deno => "deno",
            JavaScript::Node => "node",
        }
    }
}

} // verus!
