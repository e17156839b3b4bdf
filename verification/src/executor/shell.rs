use crate::executor::{prefixed_args, Executor};
use crate::text::str_eq;
use vstd::prelude::*;
use vstd::string::*;

verus! {

/// The shells.
#[derive(Clone, Copy, Debug, PartialEq, Eq)]
pub enum Shell {
    Bash,
    Zsh,
}

impl Default for Shell {
    fn default() -> (shell: Shell)
        ensures
            shell == Shell::Zsh,
    {
        Shell::Zsh
    }
}

impl Executor for Shell {
    open spec fn program(&self) -> Seq<char> {
        match self {
            Shell::Bash => "bash"@,
            Shell::Zsh => "zsh"@,
        }
    }

    open spec fn stdin_args(&self) -> Seq<Seq<char>> {
        seq!["/dev/stdin"@]
    }

    fn binary(&self) -> (name: &'static str) {
        self.target_str()
    }

    fn args(&self, args: Vec<String>) -> (argv: Vec<String>) {
        let mut prefix: Vec<String> = Vec::new();
        prefix.push(String::from_str("/dev/stdin"));
        assert(prefix.deep_view() =~= self.stdin_args());
        prefixed_args(prefix, args)
    }
}

impl Shell {
    /// The shell that `shell` names: Bash for `bash`, Zsh for anything else.
    pub open spec fn named(shell: Seq<char>) -> Shell {
        if shell == "bash"@ {
            Shell::Bash
        } else {
            Shell::Zsh
        }
    }

    /// Chooses the shell by the name of its executable.
    pub fn new(shell: &str) -> (chosen: Shell)
        ensures
            chosen == Shell::named(shell@),
    {
        if str_eq(shell, "bash") {
            Shell::Bash
        } else {
            Shell::Zsh
        }
    }

    /// The name of the executable.
    pub fn target_str(&self) -> (name: &'static str)
        ensures
            name@ == self.program(),
    {
        match self {
            Shell::Bash => "bash",
            Shell::Zsh => "zsh",
        }
    }
}

} // verus!
