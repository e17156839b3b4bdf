//! Extraction of the fenced blocks of one language from the lines of a
//! document.

use crate::code_block_options::{find_group_name, group_name, options_of_line, CodeBlockOption};
use crate::code_container::{group_has_text, CodeContainer, ContainerView};
use crate::text::{split_first, split_once, starts_with, str_eq};
use vstd::prelude::*;
use vstd::string::*;

verus! {

/// Which blocks to take.
#[derive(Debug)]
pub struct ExtractOptions {
    /// Take only the blocks of this group; without it, take every block.
    pub group: Option<String>,
    /// Ask for each block whether it is wanted.
    pub pick: bool,
}

impl Default for ExtractOptions {
    fn default() -> (options: ExtractOptions)
        ensures
            options.group is None,
            !options.pick,
    {
        ExtractOptions { group: None, pick: false }
    }
}

/// What a line of the document means to the extraction.
#[derive(Clone, Copy, Debug, PartialEq, Eq)]
pub enum Event {
    /// A fence that opens a block to take.
    Open,
    /// A fence of the language whose group is not the wanted one.
    Skip,
    /// The fence that ends a block.
    Close,
    /// Any other line.
    Text,
}

/// The start of the fences that open a block of the language `name`. The
/// name `all` stands for every language.
pub open spec fn fence_pattern(name: Seq<char>) -> Seq<char> {
    if name == "all"@ {
        "```"@
    } else {
        "```"@ + name
    }
}

/// The language to look for and the executor to use, as a token names them:
/// the two sides of its first `:`, or twice the token where it has none.
pub open spec fn language_and_executor(token: Seq<char>) -> (Seq<char>, Seq<char>) {
    match split_first(token, ':') {
        Some(sides) => sides,
        None => (token, token),
    }
}

/// What `line` means. A line that starts with `pattern` is an opening fence:
/// it opens a block where no group is asked for or its options name the
/// group asked for, and is passed over otherwise. Of the other lines the
/// bare fence closes, and the rest is text.
pub open spec fn event_of(pattern: Seq<char>, group: Option<Seq<char>>, line: Seq<char>) -> Event {
    if pattern.is_prefix_of(line) {
        match group {
            Some(wanted) => if group_name(options_of_line(line)) == wanted {
                Event::Open
            } else {
                Event::Skip
            },
            None => Event::Open,
        }
    } else if line == "```"@ {
        Event::Close
    } else {
        Event::Text
    }
}

/// Whether, in state `c`, the event needs a decision before it can be
/// applied: in pick mode, each block that is not blank at its closing fence.
pub open spec fn awaits_answer(c: ContainerView, event: Event, pick: bool) -> bool {
    pick && event == Event::Close && c.has_text()
}

/// The container after an event. At a closing fence a block with a line that
/// is not empty is closed if `keep` holds and discarded if not; a blank
/// block, without lines or with empty lines alone, is discarded.
pub open spec fn after(c: ContainerView, event: Event, line: Seq<char>, keep: bool) -> ContainerView {
    match event {
        Event::Open => c.open_new_group(),
        Event::Skip => c,
        Event::Close => if c.has_text() && keep {
            c.close_group()
        } else {
            c.discard()
        },
        Event::Text => c.push(line),
    }
}

/// The container after all of `lines`, starting from `c`. In pick mode the
/// blocks that await an answer take theirs from `answers`, in order; the
/// result is `None` when the answers run out.
pub open spec fn extracted(
    c: ContainerView,
    pattern: Seq<char>,
    group: Option<Seq<char>>,
    pick: bool,
    lines: Seq<Seq<char>>,
    answers: Seq<bool>,
) -> Option<ContainerView>
    decreases lines.len(),
{
    if lines.len() == 0 {
        Some(c)
    } else {
        let event = event_of(pattern, group, lines[0]);
        if !awaits_answer(c, event, pick) {
            extracted(
                after(c, event, lines[0], true),
                pattern,
                group,
                pick,
                lines.drop_first(),
                answers,
            )
        } else if answers.len() > 0 {
            extracted(
                after(c, event, lines[0], answers[0]),
                pattern,
                group,
                pick,
                lines.drop_first(),
                answers.drop_first(),
            )
        } else {
            None
        }
    }
}

/// Whether no closed group of `c` is blank.
pub open spec fn every_group_has_text(c: ContainerView) -> bool {
    forall|i: int| 0 <= i < c.closed.len() ==> group_has_text(#[trigger] c.closed[i])
}

/// A blank group is never closed: where no closed group is blank before an
/// extraction, none is blank after it.
pub proof fn lemma_groups_without_text_never_show(
    c: ContainerView,
    pattern: Seq<char>,
    group: Option<Seq<char>>,
    pick: bool,
    lines: Seq<Seq<char>>,
    answers: Seq<bool>,
)
    requires
        every_group_has_text(c),
    ensures
        match extracted(c, pattern, group, pick, lines, answers) {
            Some(end) => every_group_has_text(end),
            None => true,
        },
    decreases lines.len(),
{
    if lines.len() > 0 {
        let event = event_of(pattern, group, lines[0]);
        if !awaits_answer(c, event, pick) {
            lemma_groups_without_text_never_show(
                after(c, event, lines[0], true),
                pattern,
                group,
                pick,
                lines.drop_first(),
                answers,
            );
        } else if answers.len() > 0 {
            lemma_groups_without_text_never_show(
                after(c, event, lines[0], answers[0]),
                pattern,
                group,
                pick,
                lines.drop_first(),
                answers.drop_first(),
            );
        }
    }
}

/// Where no line opens a block, nothing is asked and nothing is taken: a
/// container without an open group comes out as it went in, in pick mode
/// too and whatever the answers.
pub proof fn lemma_nothing_opens_nothing_shows(
    c: ContainerView,
    pattern: Seq<char>,
    group: Option<Seq<char>>,
    pick: bool,
    lines: Seq<Seq<char>>,
    answers: Seq<bool>,
)
    requires
        c.open is None,
        forall|i: int|
            0 <= i < lines.len() ==> #[trigger] event_of(pattern, group, lines[i]) != Event::Open,
    ensures
        extracted(c, pattern, group, pick, lines, answers) == Some(c),
    decreases lines.len(),
{
    if lines.len() > 0 {
        let rest = lines.drop_first();
        assert(event_of(pattern, group, lines[0]) != Event::Open);
        assert forall|i: int| 0 <= i < rest.len() implies #[trigger] event_of(
            pattern,
            group,
            rest[i],
        ) != Event::Open by {
            assert(rest[i] == lines[i + 1]);
        }
        lemma_nothing_opens_nothing_shows(c, pattern, group, pick, rest, answers);
    }
}

/// An extraction succeeds with one answer for each line, and outside pick
/// mode with any answers, which it then does not look at.
pub proof fn lemma_enough_answers(
    c: ContainerView,
    pattern: Seq<char>,
    group: Option<Seq<char>>,
    pick: bool,
    lines: Seq<Seq<char>>,
    answers: Seq<bool>,
)
    ensures
        !pick || answers.len() >= lines.len() ==> extracted(
            c,
            pattern,
            group,
            pick,
            lines,
            answers,
        ) is Some,
        !pick ==> extracted(c, pattern, group, pick, lines, answers) == extracted(
            c,
            pattern,
            group,
            pick,
            lines,
            Seq::empty(),
        ),
    decreases lines.len(),
{
    if lines.len() > 0 {
        let event = event_of(pattern, group, lines[0]);
        if !awaits_answer(c, event, pick) {
            lemma_enough_answers(
                after(c, event, lines[0], true),
                pattern,
                group,
                pick,
                lines.drop_first(),
                answers,
            );
        } else if answers.len() > 0 {
            lemma_enough_answers(
                after(c, event, lines[0], answers[0]),
                pattern,
                group,
                pick,
                lines.drop_first(),
                answers.drop_first(),
            );
        }
    }
}

/// The start of the fences that open a block of the language `name`.
pub fn fence_prefix(name: &str) -> (pattern: String)
    ensures
        pattern@ == fence_pattern(name@),
{
    if str_eq(name, "all") {
        String::from_str("```")
    } else {
        String::from_str("```").concat(name)
    }
}

/// Cuts a token such as `js:node` into the language to look for and the
/// executor to use. A token without `:` names both.
pub fn extract_language<'a>(lang: &'a str) -> (sides: (&'a str, &'a str))
    ensures
        (sides.0@, sides.1@) == language_and_executor(lang@),
{
    match split_once(lang, ':') {
        Some(sides) => sides,
        None => (lang, lang),
    }
}

/// Tells what `line` means to an extraction with the given fence pattern
/// and group.
pub fn classify(pattern: &str, group: &Option<String>, line: &str) -> (event: Event)
    ensures
        event == event_of(pattern@, group.deep_view(), line@),
{
    if starts_with(line, pattern) {
        match group {
            Some(wanted) => {
                let name = find_group_name(CodeBlockOption::parse_options(line));
                if str_eq(name.as_str(), wanted.as_str()) {
                    Event::Open
                } else {
                    Event::Skip
                }
            },
            None => Event::Open,
        }
    } else if str_eq(line, "```") {
        Event::Close
    } else {
        Event::Text
    }
}

/// Takes one line of the document into `container`. Where the line closes
/// a block that awaits an answer, the container stays as it is and the text
/// of the block is returned: `settle` then applies the answer.
pub fn extract_line(
    container: &mut CodeContainer,
    pattern: &str,
    opts: &ExtractOptions,
    line: &str,
) -> (pending: Option<String>)
    ensures
        ({
            let event = event_of(pattern@, opts.group.deep_view(), line@);
            if awaits_answer(old(container)@, event, opts.pick) {
                &&& final(container)@ == old(container)@
                &&& pending.deep_view() == old(container)@.open_lines()
            } else {
                &&& final(container)@ == after(old(container)@, event, line@, true)
                &&& pending is None
            }
        }),
{
    match classify(pattern, &opts.group, line) {
        Event::Open => {
            container.open_new_group();
            None
        },
        Event::Skip => None,
        Event::Close => {
            if !container.has_text() {
                container.discard();
                None
            } else if opts.pick {
                container.open_lines()
            } else {
                container.close_group();
                None
            }
        },
        Event::Text => {
            if container.is_open() {
                container.push(String::from_str(line));
            }
            None
        },
    }
}

/// Applies the answer for the block that awaits one: closes it if `keep`
/// holds and discards it if not.
pub fn settle(container: &mut CodeContainer, keep: bool)
    ensures
        final(container)@ == if keep {
            old(container)@.close_group()
        } else {
            old(container)@.discard()
        },
        old(container)@.has_text() ==> final(container)@ == after(
            old(container)@,
            Event::Close,
            Seq::empty(),
            keep,
        ),
{
    if keep {
        container.close_group();
    } else {
        container.discard();
    }
}

/// Extracts the blocks of the language `name` from `lines`. In pick mode
/// the answers come from `answers`, one for each block that awaits one, in
/// the order of the document; the result is `None` when there are too few.
pub fn extract_content(
    name: &str,
    lines: &Vec<String>,
    opts: &ExtractOptions,
    answers: &Vec<bool>,
) -> (result: Option<CodeContainer>)
    ensures
        ({
            let expected = extracted(
                ContainerView::empty(),
                fence_pattern(name@),
                opts.group.deep_view(),
                opts.pick,
                lines.deep_view(),
                answers@,
            );
            match result {
                Some(container) => expected == Some(container@),
                None => expected is None,
            }
        }),
{
    let pattern = fence_prefix(name);
    let mut container = CodeContainer::new();
    let mut i: usize = 0;
    let mut used: usize = 0;
    proof {
        assert(lines.deep_view().skip(0) =~= lines.deep_view());
        assert(answers@.skip(0) =~= answers@);
    }
    while i < lines.len()
        invariant
            i <= lines.len(),
            used <= answers.len(),
            pattern@ == fence_pattern(name@),
            extracted(
                ContainerView::empty(),
                fence_pattern(name@),
                opts.group.deep_view(),
                opts.pick,
                lines.deep_view(),
                answers@,
            ) == extracted(
                container@,
                pattern@,
                opts.group.deep_view(),
                opts.pick,
                lines.deep_view().skip(i as int),
                answers@.skip(used as int),
            ),
        decreases lines.len() - i,
    {
        proof {
            let rest = lines.deep_view().skip(i as int);
            assert(rest[0] == lines[i as int]@);
            assert(rest.drop_first() =~= lines.deep_view().skip(i + 1));
            if used < answers.len() {
                assert(answers@.skip(used as int).drop_first() =~= answers@.skip(used + 1));
            }
        }
        match extract_line(&mut container, pattern.as_str(), opts, lines[i].as_str()) {
            Some(_) => {
                if used >= answers.len() {
                    return None;
                }
                settle(&mut container, answers[used]);
                used = used + 1;
            },
            None => {},
        }
        i = i + 1;
    }
    Some(container)
}

} // verus!
