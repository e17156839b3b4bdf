//! The interpreters that a script can be handed to, and the names by which
//! they are chosen.

pub mod javascript;
pub mod lua;
pub mod php;
pub mod python;
pub mod ruby;
pub mod shell;

pub use javascript::JavaScript;
pub use lua::Lua;
pub use php::Php;
pub use python::Python;
pub use ruby::Ruby;
pub use shell::Shell;

use crate::code_container::CodeContainer;
use crate::text::{join, joined, str_eq};
use vstd::prelude::*;
use vstd::string::*;

verus! {

/// What it takes to run a script: the program to start, its arguments, and
/// the text to write to its standard input.
#[derive(Debug)]
pub struct Invocation {
    pub program: String,
    pub args: Vec<String>,
    pub input: String,
}

/// The first line of an exported script for the interpreter `program`.
pub open spec fn shebang(program: Seq<char>) -> Seq<char> {
    "#!/usr/bin/env "@ + program
}

/// An exported script: the shebang line, a blank line, and the script as it
/// is.
pub open spec fn exported(program: Seq<char>, script: Seq<char>) -> Seq<char> {
    shebang(program) + "\n\n"@ + script
}

/// One interpreter, or one flavour of it.
pub trait Executor {
    /// The name of the executable.
    spec fn program(&self) -> Seq<char>;

    /// The arguments that make the interpreter read the script from its
    /// standard input.
    spec fn stdin_args(&self) -> Seq<Seq<char>>;

    /// The name of the executable.
    fn binary(&self) -> (name: &'static str)
        ensures
            name@ == self.program(),
    ;

    /// The arguments of a run: those for reading from standard input, then
    /// `args`.
    fn args(&self, args: Vec<String>) -> (argv: Vec<String>)
        ensures
            argv.deep_view() == self.stdin_args() + args.deep_view(),
    ;

    /// The script as a file that runs by itself.
    fn export(&self, script: CodeContainer) -> (text: String)
        ensures
            text@ == exported(self.program(), script@.lines()),
    {
        export_script(self.binary(), &script)
    }

    /// How to run the script: the executable, its arguments, and the script
    /// as the input.
    fn invocation(&self, script: CodeContainer, argv: Vec<String>) -> (run: Invocation)
        ensures
            run.program@ == self.program(),
            run.args.deep_view() == self.stdin_args() + argv.deep_view(),
            run.input@ == script@.lines(),
    {
        Invocation {
            program: String::from_str(self.binary()),
            args: self.args(argv),
            input: script.lines(),
        }
    }
}

/// Renders `script` for export to the interpreter `program`.
pub fn export_script(program: &str, script: &CodeContainer) -> (text: String)
    ensures
        text@ == exported(program@, script@.lines()),
{
    let body = script.lines();
    String::from_str("#!/usr/bin/env ").concat(program).concat("\n\n").concat(body.as_str())
}

/// Puts `prefix` in front of `args`.
pub fn prefixed_args(prefix: Vec<String>, args: Vec<String>) -> (argv: Vec<String>)
    ensures
        argv.deep_view() == prefix.deep_view() + args.deep_view(),
{
    let mut argv = prefix;
    let mut rest = args;
    argv.append(&mut rest);
    assert(argv.deep_view() =~= prefix.deep_view() + args.deep_view());
    argv
}

/// Any of the interpreters.
#[derive(Clone, Copy, Debug, PartialEq, Eq)]
pub enum Language {
    JavaScript(JavaScript),
    Lua(Lua),
    Php(Php),
    Python(Python),
    Ruby(Ruby),
    Shell(Shell),
}

impl Executor for Language {
    open spec fn program(&self) -> Seq<char> {
        match self {
            Language::JavaScript(runtime) => runtime.program(),
            Language::Lua(lua) => lua.program(),
            Language::Php(php) => php.program(),
            Language::Python(python) => python.program(),
            Language::Ruby(ruby) => ruby.program(),
            Language::Shell(shell) => shell.program(),
        }
    }

    open spec fn stdin_args(&self) -> Seq<Seq<char>> {
        match self {
            Language::JavaScript(runtime) => runtime.stdin_args(),
            Language::Lua(lua) => lua.stdin_args(),
            Language::Php(php) => php.stdin_args(),
            Language::Python(python) => python.stdin_args(),
            Language::Ruby(ruby) => ruby.stdin_args(),
            Language::Shell(shell) => shell.stdin_args(),
        }
    }

    fn binary(&self) -> (name: &'static str) {
        match self {
            Language::JavaScript(runtime) => runtime.binary(),
            Language::Lua(lua) => lua.binary(),
            Language::Php(php) => php.binary(),
            Language::Python(python) => python.binary(),
            Language::Ruby(ruby) => ruby.binary(),
            Language::Shell(shell) => shell.binary(),
        }
    }

    fn args(&self, args: Vec<String>) -> (argv: Vec<String>) {
        match self {
            Language::JavaScript(runtime) => runtime.args(args),
            Language::Lua(lua) => lua.args(args),
            Language::Php(php) => php.args(args),
            Language::Python(python) => python.args(args),
            Language::Ruby(ruby) => ruby.args(args),
            Language::Shell(shell) => shell.args(args),
        }
    }
}

/// The names of the languages, in the order in which they are listed.
pub open spec fn language_names() -> Seq<Seq<char>> {
    seq!["javascript"@, "lua"@, "php"@, "python"@, "ruby"@, "shell"@]
}

/// The aliases: each with the language and the executor it stands for.
pub open spec fn alias_table() -> Seq<(Seq<char>, Seq<char>, Seq<char>)> {
    seq![
        ("bash"@, "shell"@, "bash"@),
        ("zsh"@, "shell"@, "zsh"@),
        ("js"@, "javascript"@, "node"@),
        ("node"@, "javascript"@, "node"@),
        ("deno"@, "javascript"@, "deno"@),
    ]
}

/// The language and executor of the first entry of `table` whose alias is
/// `name`.
pub open spec fn alias_target(
    table: Seq<(Seq<char>, Seq<char>, Seq<char>)>,
    name: Seq<char>,
) -> Option<(Seq<char>, Seq<char>)>
    decreases table.len(),
{
    if table.len() == 0 {
        None
    } else if table[0].0 == name {
        Some((table[0].1, table[0].2))
    } else {
        alias_target(table.drop_first(), name)
    }
}

/// The interpreter that `token` selects. An alias selects its language in
/// the flavour of its executor; any other token is taken as the name of a
/// language, in its default flavour.
pub open spec fn picked(token: Seq<char>) -> Option<Language> {
    let (language, runner) = match alias_target(alias_table(), token) {
        Some((language, runner)) => (language, Some(runner)),
        None => (token, None),
    };
    if language == "javascript"@ {
        Some(
            Language::JavaScript(
                match runner {
                    Some(name) => JavaScript::named(name),
                    None => JavaScript::Node,
                },
            ),
        )
    } else if language == "lua"@ {
        Some(Language::Lua(Lua))
    } else if language == "python"@ {
        Some(Language::Python(Python))
    } else if language == "ruby"@ {
        Some(Language::Ruby(Ruby))
    } else if language == "php"@ {
        Some(Language::Php(Php))
    } else if language == "shell"@ {
        Some(
            Language::Shell(
                match runner {
                    Some(name) => Shell::named(name),
                    None => Shell::Zsh,
                },
            ),
        )
    } else {
        None
    }
}

/// Chooses the interpreter for `executor`, which is an alias or the name of
/// a language. A name that is neither selects nothing.
pub fn language_picker(executor: &str) -> (language: Option<Language>)
    ensures
        language == picked(executor@),
{
    let (name, runner): (&str, Option<&str>) = match resolve_alias(executor) {
        Some((language, runner)) => (language, Some(runner)),
        None => (executor, None),
    };
    if str_eq(name, "javascript") {
        let runtime = match runner {
            Some(runner) => JavaScript::new(runner),
            None => JavaScript::default(),
        };
        Some(Language::JavaScript(runtime))
    } else if str_eq(name, "lua") {
        Some(Language::Lua(Lua::new()))
    } else if str_eq(name, "python") {
        Some(Language::Python(Python::new()))
    } else if str_eq(name, "ruby") {
        Some(Language::Ruby(Ruby::new()))
    } else if str_eq(name, "php") {
        Some(Language::Php(Php::new()))
    } else if str_eq(name, "shell") {
        let shell = match runner {
            Some(runner) => Shell::new(runner),
            None => Shell::default(),
        };
        Some(Language::Shell(shell))
    } else {
        None
    }
}

/// The names of the languages.
pub fn supported_languages() -> (names: Vec<&'static str>)
    ensures
        names.deep_view() == language_names(),
{
    let names = vec!["javascript", "lua", "php", "python", "ruby", "shell"];
    assert(names.deep_view() =~= language_names());
    names
}

/// The aliases, each with its language and its executor.
pub fn aliases() -> (table: Vec<(&'static str, &'static str, &'static str)>)
    ensures
        table.deep_view() == alias_table(),
{
    let table = vec![
        ("bash", "shell", "bash"),
        ("zsh", "shell", "zsh"),
        ("js", "javascript", "node"),
        ("node", "javascript", "node"),
        ("deno", "javascript", "deno"),
    ];
    assert(table.deep_view() =~= alias_table());
    table
}

/// Looks `name` up among the aliases.
pub fn resolve_alias(name: &str) -> (target: Option<(&'static str, &'static str)>)
    ensures
        target.deep_view() == alias_target(alias_table(), name@),
{
    let table = aliases();
    let mut i: usize = 0;
    proof {
        assert(table.deep_view().skip(0) =~= table.deep_view());
    }
    while i < table.len()
        invariant
            i <= table.len(),
            table.deep_view() == alias_table(),
            alias_target(alias_table(), name@) == alias_target(
                table.deep_view().skip(i as int),
                name@,
            ),
        decreases table.len() - i,
    {
        proof {
            let rest = table.deep_view().skip(i as int);
            assert(rest[0] == table[i as int].deep_view());
            assert(rest.drop_first() =~= table.deep_view().skip(i + 1));
        }
        let (alias, language, runner) = table[i];
        if str_eq(alias, name) {
            return Some((language, runner));
        }
        i = i + 1;
    }
    None
}

/// `s`, followed by as many spaces as it takes to make `width` characters.
pub open spec fn padded(s: Seq<char>, width: nat) -> Seq<char> {
    if s.len() >= width {
        s
    } else {
        s + Seq::new((width - s.len()) as nat, |i: int| ' ')
    }
}

/// The line that lists one language.
pub open spec fn language_line(name: Seq<char>) -> Seq<char> {
    " - "@ + name
}

/// The line that lists one alias: the alias in a column of 15 characters,
/// then the language and the executor it stands for.
pub open spec fn alias_line(entry: (Seq<char>, Seq<char>, Seq<char>)) -> Seq<char> {
    " - "@ + padded(entry.0, 15) + " => "@ + entry.1 + "::"@ + entry.2
}

/// Fills `s` with spaces on the right, up to `width` characters.
pub fn pad_right(s: &str, width: usize) -> (out: String)
    ensures
        out@ == padded(s@, width as nat),
{
    let len: usize = s.unicode_len();
    let mut out = String::from_str(s);
    let mut n: usize = len;
    proof {
        reveal_strlit(" ");
        assert(s@ + Seq::new(0, |i: int| ' ') =~= s@);
    }
    while n < width
        invariant
            len <= n,
            len < width ==> n <= width,
            len >= width ==> n == len,
            len == s@.len(),
            " "@ == seq![' '],
            out@ == s@ + Seq::new((n - len) as nat, |i: int| ' '),
        decreases width - n,
    {
        out.append(" ");
        n = n + 1;
        assert(out@ =~= s@ + Seq::new((n - len) as nat, |i: int| ' '));
    }
    assert(out@ =~= padded(s@, width as nat));
    out
}

/// The languages and the aliases, each as a list for a help text: one line
/// for each entry.
pub fn help_available() -> (lists: (String, String))
    ensures
        lists.0@ == joined(language_names().map_values(|n: Seq<char>| language_line(n)), "\n"@),
        lists.1@ == joined(
            alias_table().map_values(|e: (Seq<char>, Seq<char>, Seq<char>)| alias_line(e)),
            "\n"@,
        ),
{
    let names = supported_languages();
    let ghost name_line = |n: Seq<char>| language_line(n);
    let mut name_lines: Vec<String> = Vec::new();
    let mut i: usize = 0;
    while i < names.len()
        invariant
            i <= names.len(),
            name_line == |n: Seq<char>| language_line(n),
            name_lines.deep_view() == names.deep_view().take(i as int).map_values(name_line),
        decreases names.len() - i,
    {
        let ghost before = name_lines.deep_view();
        let line = String::from_str(" - ").concat(names[i]);
        name_lines.push(line);
        assert(name_lines.deep_view() =~= before.push(language_line(names[i as int]@)));
        i = i + 1;
    }
    proof {
        assert(names.deep_view().take(i as int) =~= names.deep_view());
    }
    let table = aliases();
    let ghost entry_line = |e: (Seq<char>, Seq<char>, Seq<char>)| alias_line(e);
    let mut alias_lines: Vec<String> = Vec::new();
    let mut k: usize = 0;
    while k < table.len()
        invariant
            k <= table.len(),
            entry_line == |e: (Seq<char>, Seq<char>, Seq<char>)| alias_line(e),
            alias_lines.deep_view() == table.deep_view().take(k as int).map_values(entry_line),
        decreases table.len() - k,
    {
        let ghost before = alias_lines.deep_view();
        let (alias, language, runner) = table[k];
        let column = pad_right(alias, 15);
        let line = String::from_str(" - ").concat(column.as_str()).concat(" => ").concat(
            language,
        ).concat("::").concat(runner);
        alias_lines.push(line);
        assert(alias_lines.deep_view() =~= before.push(alias_line(table[k as int].deep_view())));
        k = k + 1;
    }
    proof {
        assert(table.deep_view().take(k as int) =~= table.deep_view());
    }
    (join(&name_lines, "\n"), join(&alias_lines, "\n"))
}

} // verus!
