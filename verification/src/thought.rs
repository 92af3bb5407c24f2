//! A thought as it is stored, and the digest page that lists a batch of them.

use crate::text::{decimal, push_decimal};
use crate::writer_config::ThoughtType;
use vstd::prelude::*;
use vstd::string::StringExecFns;

verus! {

/// One stored note: its key, its category, its text, and whether a drain has
/// taken it already.
#[derive(Debug)]
pub struct Thought {
    id: i32,
    thought_type: ThoughtType,
    content: String,
    reviewed: bool,
}

/// What a [`Thought`] is to the contracts.
pub struct ThoughtView {
    pub id: int,
    pub thought_type: ThoughtType,
    pub content: Seq<char>,
    pub reviewed: bool,
}

impl View for Thought {
    type V = ThoughtView;

    closed spec fn view(&self) -> ThoughtView {
        ThoughtView {
            id: self.id as int,
            thought_type: self.thought_type,
            content: self.content@,
            reviewed: self.reviewed,
        }
    }
}

/// The views of a run of thoughts, one for one.
pub open spec fn views(thoughts: Seq<Thought>) -> Seq<ThoughtView> {
    thoughts.map_values(|t: Thought| t@)
}

impl Clone for Thought {
    fn clone(&self) -> (r: Thought)
        ensures
            r@ == self@,
    {
        Thought {
            id: self.id,
            thought_type: self.thought_type,
            content: self.content.clone(),
            reviewed: self.reviewed,
        }
    }
}

impl Thought {
    pub fn new(id: i32, thought_type: ThoughtType, content: String, reviewed: bool) -> (t: Thought)
        ensures
            t@ == (ThoughtView { id: id as int, thought_type, content: content@, reviewed }),
    {
        Thought { id, thought_type, content, reviewed }
    }

    pub fn id(&self) -> (r: &i32)
        ensures
            *r == self@.id,
    {
        &self.id
    }

    pub fn thought_type(&self) -> (r: &ThoughtType)
        ensures
            *r == self@.thought_type,
    {
        &self.thought_type
    }

    pub fn content(&self) -> (r: &String)
        ensures
            r@ == self@.content,
    {
        &self.content
    }

    pub fn reviewed(&self) -> (r: bool)
        ensures
            r == self@.reviewed,
    {
        self.reviewed
    }
}

/// The whole page when there is nothing to list.
pub const EMPTY_PAGE: &'static str =
    "<html><body style=\"font-size: 16px;\">\n    \
     <h2>Weekly Thoughts Summary</h2>\n    \
     <p>No thoughts recorded this week.</p>\n    \
     </body></html>";

/// What stands before the entries of a page that lists thoughts.
pub const PAGE_OPEN: &'static str =
    "<html><body style=\"font-size: 16px;\">\n        <h2>Weekly Thoughts Summary</h2>\n        ";

/// What stands after the entries.
pub const PAGE_CLOSE: &'static str =
    "\n        <p>End of weekly roundup</p>\n        </body></html>";

/// An entry up to its number.
pub const ENTRY_OPEN: &'static str =
    "<div style=\"font-size: 14px; margin-bottom: 20px;\">\n                <strong>";

/// Between an entry's number and its category.
pub const ENTRY_NUMBER_END: &'static str = ". ";

/// Between an entry's category and its text.
pub const ENTRY_HEAD_END: &'static str = ": </strong>\n                <p>";

/// An entry after its text.
pub const ENTRY_CLOSE: &'static str =
    "</p>\n                <hr/>\n                </div>";

/// The entry of the thought that stands at `position`, counted from one.
pub open spec fn entry_html(position: nat, thought: ThoughtView) -> Seq<char> {
    ENTRY_OPEN@ + decimal(position) + ENTRY_NUMBER_END@ + thought.thought_type.canonical()
        + ENTRY_HEAD_END@ + thought.content + ENTRY_CLOSE@
}

/// The entries of a batch, in order and with nothing between them.
pub open spec fn entries_html(thoughts: Seq<ThoughtView>) -> Seq<char>
    decreases thoughts.len(),
{
    if thoughts.len() == 0 {
        Seq::empty()
    } else {
        entries_html(thoughts.drop_last()) + entry_html(thoughts.len(), thoughts.last())
    }
}

/// The digest page of a batch. An empty batch gets a page of its own, which
/// says that there is nothing to report.
pub open spec fn digest_html(thoughts: Seq<ThoughtView>) -> Seq<char> {
    if thoughts.len() == 0 {
        EMPTY_PAGE@
    } else {
        PAGE_OPEN@ + entries_html(thoughts) + PAGE_CLOSE@
    }
}

/// A batch of thoughts on its way into the body of a digest.
pub struct ThoughtsEmailBody<'a> {
    thoughts: &'a [Thought],
}

impl<'a> View for ThoughtsEmailBody<'a> {
    type V = Seq<ThoughtView>;

    closed spec fn view(&self) -> Seq<ThoughtView> {
        views(self.thoughts@)
    }
}

impl<'a> ThoughtsEmailBody<'a> {
    pub fn new(thoughts: &'a [Thought]) -> (body: ThoughtsEmailBody<'a>)
        ensures
            body@ == views(thoughts@),
    {
        ThoughtsEmailBody { thoughts }
    }

    /// Renders the digest page of the batch.
    pub fn body_text(&self) -> (page: String)
        ensures
            page@ == digest_html(self@),
    {
        let count = self.thoughts.len();
        if count == 0 {
            return EMPTY_PAGE.to_owned();
        }
        let ghost all = views(self.thoughts@);
        let mut page = PAGE_OPEN.to_owned();
        let mut i: usize = 0;
        while i < count
            invariant
                i <= count,
                count == self.thoughts@.len(),
                all == views(self.thoughts@),
                page@ == PAGE_OPEN@ + entries_html(all.take(i as int)),
            decreases count - i,
        {
            let thought = &self.thoughts[i];
            proof {
                let upto = all.take(i + 1);
                assert(upto.drop_last() =~= all.take(i as int));
                assert(upto.last() == thought@);
            }
            let ghost before = page@;
            page.append(ENTRY_OPEN);
            push_decimal(&mut page, i + 1);
            page.append(ENTRY_NUMBER_END);
            page.append(thought.thought_type.to_string().as_str());
            page.append(ENTRY_HEAD_END);
            page.append(thought.content.as_str());
            page.append(ENTRY_CLOSE);
            proof {
                assert(page@ =~= before + entry_html((i + 1) as nat, thought@));
                assert(page@ =~= PAGE_OPEN@ + entries_html(all.take(i + 1)));
            }
            i += 1;
        }
        proof {
            assert(all.take(count as int) =~= all);
        }
        page.append(PAGE_CLOSE);
        page
    }
}

} // verus!
