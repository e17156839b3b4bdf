//! The groups of lines that an extraction collects.

use crate::text::{join, joined};
use vstd::prelude::*;
use vstd::string::*;

verus! {

/// Whether some line of `group` is not empty. A group without lines, or with
/// empty lines alone, is blank.
pub open spec fn group_has_text(group: Seq<Seq<char>>) -> bool {
    exists|i: int| 0 <= i < group.len() && (#[trigger] group[i]).len() > 0
}

/// The closed groups of a container, in the order in which they were closed,
/// and the group that is open, if one is. A group is a sequence of lines.
pub struct ContainerView {
    pub closed: Seq<Seq<Seq<char>>>,
    pub open: Option<Seq<Seq<char>>>,
}

impl ContainerView {
    /// The container without any group.
    pub open spec fn empty() -> ContainerView {
        ContainerView { closed: Seq::empty(), open: None }
    }

    /// Starts an empty group in place of whatever was open.
    pub open spec fn open_new_group(self) -> ContainerView {
        ContainerView { closed: self.closed, open: Some(Seq::empty()) }
    }

    /// Appends `line` to the open group; without one the line is dropped.
    pub open spec fn push(self, line: Seq<char>) -> ContainerView {
        match self.open {
            Some(group) => ContainerView { closed: self.closed, open: Some(group.push(line)) },
            None => self,
        }
    }

    /// Appends `lines` one after the other.
    pub open spec fn push_all(self, lines: Seq<Seq<char>>) -> ContainerView
        decreases lines.len(),
    {
        if lines.len() == 0 {
            self
        } else {
            self.push_all(lines.drop_last()).push(lines.last())
        }
    }

    /// Moves the open group behind the closed ones; without one nothing
    /// changes.
    pub open spec fn close_group(self) -> ContainerView {
        match self.open {
            Some(group) => ContainerView { closed: self.closed.push(group), open: None },
            None => self,
        }
    }

    /// Forgets the open group.
    pub open spec fn discard(self) -> ContainerView {
        ContainerView { closed: self.closed, open: None }
    }

    /// Whether a group is open.
    pub open spec fn is_open(self) -> bool {
        self.open is Some
    }

    /// Whether a group is open that is not blank.
    pub open spec fn has_text(self) -> bool {
        match self.open {
            Some(group) => group_has_text(group),
            None => false,
        }
    }

    /// The text of the closed groups: the lines of a group joined by line
    /// feeds, and the groups joined by line feeds.
    pub open spec fn lines(self) -> Seq<char> {
        joined(self.closed.map_values(|group: Seq<Seq<char>>| joined(group, "\n"@)), "\n"@)
    }

    /// The text of the open group, if one is open.
    pub open spec fn open_lines(self) -> Option<Seq<char>> {
        match self.open {
            Some(group) => Some(joined(group, "\n"@)),
            None => None,
        }
    }
}

/// Pushing lines never touches the closed groups, and fills the open group,
/// if there is one, in order.
pub proof fn lemma_push_all(c: ContainerView, lines: Seq<Seq<char>>)
    ensures
        c.push_all(lines).closed == c.closed,
        c.push_all(lines).open == match c.open {
            Some(group) => Some(group + lines),
            None => None,
        },
    decreases lines.len(),
{
    if lines.len() > 0 {
        lemma_push_all(c, lines.drop_last());
        if let Some(group) = c.open {
            assert((group + lines.drop_last()).push(lines.last()) =~= group + lines);
        }
    } else if let Some(group) = c.open {
        assert(group + lines =~= group);
    }
}

/// The text of a container never shows a line of a group that is open or
/// was discarded: opening a group, pushing lines and discarding leave the
/// text as it was, and a group that was opened, filled and discarded leaves
/// the same container as discarding alone.
pub proof fn lemma_only_closed_groups_show(c: ContainerView, lines: Seq<Seq<char>>)
    ensures
        c.open_new_group().lines() == c.lines(),
        c.push_all(lines).lines() == c.lines(),
        c.discard().lines() == c.lines(),
        c.open_new_group().push_all(lines).lines() == c.lines(),
        c.open_new_group().push_all(lines).discard() == c.discard(),
{
    lemma_push_all(c, lines);
    lemma_push_all(c.open_new_group(), lines);
}

/// A group that is opened, filled and closed stands last among the closed
/// groups, with exactly the lines that were pushed.
pub proof fn lemma_closed_group_is_kept(c: ContainerView, lines: Seq<Seq<char>>)
    ensures
        c.open_new_group().push_all(lines).close_group() == (ContainerView {
            closed: c.closed.push(lines),
            open: None,
        }),
{
    lemma_push_all(c.open_new_group(), lines);
    assert(Seq::<Seq<char>>::empty() + lines =~= lines);
}

/// Closed groups of lines, and at most one group that is still open.
#[derive(Debug)]
pub struct CodeContainer {
    blocks: Vec<Vec<String>>,
    open: Option<Vec<String>>,
}

impl View for CodeContainer {
    type V = ContainerView;

    closed spec fn view(&self) -> ContainerView {
        ContainerView {
            closed: self.blocks.deep_view(),
            open: match self.open {
                Some(group) => Some(group.deep_view()),
                None => None,
            },
        }
    }
}

impl CodeContainer {
    /// A container without any group.
    pub fn new() -> (container: CodeContainer)
        ensures
            container@ == ContainerView::empty(),
    {
        let container = CodeContainer { blocks: Vec::new(), open: None };
        assert(container.blocks.deep_view() =~= Seq::empty());
        container
    }

    /// Starts an empty group. A group that was still open is lost.
    pub fn open_new_group(&mut self)
        ensures
            final(self)@ == old(self)@.open_new_group(),
    {
        let group: Vec<String> = Vec::new();
        assert(group.deep_view() =~= Seq::empty());
        self.open = Some(group);
    }

    /// Moves the open group behind the closed ones. Without an open group
    /// nothing changes.
    pub fn close_group(&mut self)
        ensures
            final(self)@ == old(self)@.close_group(),
    {
        if let Some(group) = self.open.take() {
            let ghost before = self.blocks.deep_view();
            let ghost lines = group.deep_view();
            self.blocks.push(group);
            assert(self.blocks.deep_view() =~= before.push(lines));
        }
    }

    /// Forgets the open group.
    pub fn discard(&mut self)
        ensures
            final(self)@ == old(self)@.discard(),
    {
        self.open = None;
    }

    /// Appends `line` to the open group. Without an open group the line is
    /// dropped.
    pub fn push(&mut self, line: String)
        ensures
            final(self)@ == old(self)@.push(line@),
    {
        if let Some(mut group) = self.open.take() {
            let ghost before = group.deep_view();
            group.push(line);
            assert(group.deep_view() =~= before.push(line@));
            self.open = Some(group);
        }
    }

    /// Whether a group is open.
    pub fn is_open(&self) -> (r: bool)
        ensures
            r == self@.is_open(),
    {
        self.open.is_some()
    }

    /// Whether a group is open and some line of it is not empty.
    pub fn has_text(&self) -> (r: bool)
        ensures
            r == self@.has_text(),
    {
        match &self.open {
            Some(group) => {
                let mut i: usize = 0;
                while i < group.len()
                    invariant
                        i <= group.len(),
                        self@.open == Some(group.deep_view()),
                        forall|j: int| 0 <= j < i ==> (#[trigger] group.deep_view()[j]).len() == 0,
                    decreases group.len() - i,
                {
                    if !group[i].as_str().is_empty() {
                        assert(group.deep_view()[i as int].len() > 0);
                        assert(group_has_text(group.deep_view()));
                        return true;
                    }
                    i = i + 1;
                }
                false
            },
            None => false,
        }
    }

    /// The text of the closed groups, one line after the other.
    pub fn lines(&self) -> (text: String)
        ensures
            text@ == self@.lines(),
    {
        let ghost render = |group: Seq<Seq<char>>| joined(group, "\n"@);
        let mut texts: Vec<String> = Vec::new();
        let mut i: usize = 0;
        while i < self.blocks.len()
            invariant
                i <= self.blocks.len(),
                render == |group: Seq<Seq<char>>| joined(group, "\n"@),
                texts.deep_view() == self.blocks.deep_view().take(i as int).map_values(render),
            decreases self.blocks.len() - i,
        {
            let ghost before = texts.deep_view();
            let text = join(&self.blocks[i], "\n");
            texts.push(text);
            assert(texts.deep_view() =~= before.push(text@));
            i = i + 1;
        }
        proof {
            assert(self.blocks.deep_view().take(i as int) =~= self.blocks.deep_view());
        }
        join(&texts, "\n")
    }

    /// The text of the open group, if one is open.
    pub fn open_lines(&self) -> (text: Option<String>)
        ensures
            match text {
                Some(t) => self@.open_lines() == Some(t@),
                None => self@.open_lines() is None,
            },
    {
        match &self.open {
            Some(group) => Some(join(group, "\n")),
            None => None,
        }
    }
}

} // verus!
