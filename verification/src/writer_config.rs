//! What the writing side takes in: a category and a text.

use crate::errors::AppError;
use crate::text::{lowercase, lowered};
use vstd::prelude::*;

verus! {

/// The closed set of categories a thought can be filed under.
#[derive(Clone, Copy, Debug, PartialEq, Eq, Structural)]
pub enum ThoughtType {
    Notes,
    Project,
    Misc,
    Todo,
    Question,
}

/// The category that a text names, whatever the case of its ASCII letters.
pub open spec fn parse_thought_type(s: Seq<char>) -> Option<ThoughtType> {
    let lower = lowered(s);
    if lower == "notes"@ {
        Some(ThoughtType::Notes)
    } else if lower == "project"@ {
        Some(ThoughtType::Project)
    } else if lower == "misc"@ {
        Some(ThoughtType::Misc)
    } else if lower == "todo"@ {
        Some(ThoughtType::Todo)
    } else if lower == "question"@ {
        Some(ThoughtType::Question)
    } else {
        None
    }
}

/// Reading the canonical spelling of a category gives that category back.
pub proof fn lemma_parse_canonical(t: ThoughtType)
    ensures
        parse_thought_type(t.canonical()) == Some(t),
{
    reveal_strlit("Notes");
    reveal_strlit("Project");
    reveal_strlit("Misc");
    reveal_strlit("Todo");
    reveal_strlit("Question");
    reveal_strlit("notes");
    reveal_strlit("project");
    reveal_strlit("misc");
    reveal_strlit("todo");
    reveal_strlit("question");
    let lower = lowered(t.canonical());
    match t {
        ThoughtType::Notes => {
            assert(lower =~= "notes"@);
        },
        ThoughtType::Project => {
            assert(lower =~= "project"@);
        },
        ThoughtType::Misc => {
            assert(lower =~= "misc"@);
        },
        ThoughtType::Todo => {
            assert(lower =~= "todo"@);
            assert(lower[0] != "misc"@[0]);
        },
        ThoughtType::Question => {
            assert(lower =~= "question"@);
        },
    }
}

impl ThoughtType {
    /// The one spelling under which a category is written out.
    pub open spec fn canonical(self) -> Seq<char> {
        match self {
            ThoughtType::Notes => "Notes"@,
            ThoughtType::Project => "Project"@,
            ThoughtType::Misc => "Misc"@,
            ThoughtType::Todo => "Todo"@,
            ThoughtType::Question => "Question"@,
        }
    }

    /// Reads a category, ignoring the case of ASCII letters. A text that names
    /// none is rejected, and the error carries it in lower case.
    pub fn from_str(string: &str) -> (r: Result<ThoughtType, AppError>)
        ensures
            match parse_thought_type(string@) {
                Some(t) => r == Ok::<ThoughtType, AppError>(t),
                None => r matches Err(AppError::InvalidCategory(text)) && text@ == lowered(
                    string@,
                ),
            },
    {
        let lower = lowercase(string);
        if lower == "notes".to_owned() {
            Ok(ThoughtType::Notes)
        } else if lower == "project".to_owned() {
            Ok(ThoughtType::Project)
        } else if lower == "misc".to_owned() {
            Ok(ThoughtType::Misc)
        } else if lower == "todo".to_owned() {
            Ok(ThoughtType::Todo)
        } else if lower == "question".to_owned() {
            Ok(ThoughtType::Question)
        } else {
            Err(AppError::InvalidCategory(lower))
        }
    }

    /// The canonical spelling of the category.
    pub fn to_string(&self) -> (r: String)
        ensures
            r@ == self.canonical(),
    {
        match self {
            ThoughtType::Notes => "Notes".to_owned(),
            ThoughtType::Project => "Project".to_owned(),
            ThoughtType::Misc => "Misc".to_owned(),
            ThoughtType::Todo => "Todo".to_owned(),
            ThoughtType::Question => "Question".to_owned(),
        }
    }
}

/// What the writing side was asked to record.
#[derive(Debug)]
pub struct Args {
    thought_type: ThoughtType,
    content: String,
}

impl Args {
    pub fn new(thought_type: ThoughtType, content: String) -> (args: Args)
        ensures
            args.spec_thought_type() == thought_type,
            args.spec_content() == content@,
    {
        Args { thought_type, content }
    }

    /// The category to record under.
    pub closed spec fn spec_thought_type(&self) -> ThoughtType {
        self.thought_type
    }

    /// The text to record.
    pub closed spec fn spec_content(&self) -> Seq<char> {
        self.content@
    }

    pub fn thought_type(&self) -> (r: &ThoughtType)
        ensures
            *r == self.spec_thought_type(),
    {
        &self.thought_type
    }

    pub fn content(&self) -> (r: &str)
        ensures
            r@ == self.spec_content(),
    {
        self.content.as_str()
    }
}

} // verus!
