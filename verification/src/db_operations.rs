//! The table of thoughts, and the two operations that the rest of the crate
//! performs on it: appending a thought, and claiming those not yet reviewed.

use crate::errors::AppError;
use crate::text::lowered;
use crate::thought::{views, Thought, ThoughtView};
use crate::writer_config::{parse_thought_type, Args, ThoughtType};
use vstd::prelude::*;

verus! {

/// Whether the keys of the rows rise strictly from each row to the next.
pub open spec fn ascending(rows: Seq<ThoughtView>) -> bool {
    forall|i: int, j: int| 0 <= i < j < rows.len() ==> rows[i].id < rows[j].id
}

/// The key that the next appended row gets: one for the first row, and one
/// more than the last key after that.
pub open spec fn next_id(rows: Seq<ThoughtView>) -> int {
    if rows.len() == 0 {
        1
    } else {
        rows.last().id + 1
    }
}

/// The table after one more thought was appended: it stands last, under the
/// next key, and is not reviewed.
pub open spec fn appended(
    rows: Seq<ThoughtView>,
    thought_type: ThoughtType,
    content: Seq<char>,
) -> Seq<ThoughtView> {
    rows.push(ThoughtView { id: next_id(rows), thought_type, content, reviewed: false })
}

/// The rows that no drain has taken yet, in the order of the table.
pub open spec fn pending(rows: Seq<ThoughtView>) -> Seq<ThoughtView> {
    rows.filter(|t: ThoughtView| !t.reviewed)
}

/// The same row, reviewed.
pub open spec fn reviewed_row(row: ThoughtView) -> ThoughtView {
    ThoughtView { reviewed: true, ..row }
}

/// The table with every row reviewed.
pub open spec fn all_reviewed(rows: Seq<ThoughtView>) -> Seq<ThoughtView> {
    rows.map_values(|t: ThoughtView| reviewed_row(t))
}

/// The detail of the error for a table whose keys do not rise.
pub const KEYS_OUT_OF_ORDER: &'static str = "thought ids are not in ascending order";

/// The detail of the error for a table whose last key is the largest there is.
pub const NO_KEY_LEFT: &'static str = "no id is left for another thought";

/// The table: rows under strictly rising keys.
pub struct ThoughtTable {
    rows: Vec<Thought>,
}

impl View for ThoughtTable {
    type V = Seq<ThoughtView>;

    closed spec fn view(&self) -> Seq<ThoughtView> {
        views(self.rows@)
    }
}

impl ThoughtTable {
    /// What holds of every table that this module hands out: its keys rise.
    pub open spec fn wf(&self) -> bool {
        ascending(self@)
    }

    /// A table without rows.
    pub fn new() -> (table: ThoughtTable)
        ensures
            table.wf(),
            table@ == Seq::<ThoughtView>::empty(),
    {
        let table = ThoughtTable { rows: Vec::new() };
        assert(table@ =~= Seq::<ThoughtView>::empty());
        table
    }

    /// The rows of the table, in key order.
    pub fn rows(&self) -> (rows: &Vec<Thought>)
        ensures
            views(rows@) == self@,
    {
        &self.rows
    }

    /// Appends a thought that is not reviewed, and returns its key. Fails,
    /// and changes nothing, when the last key is the largest there is.
    pub fn insert(&mut self, thought_type: ThoughtType, content: String) -> (r: Result<
        i32,
        AppError,
    >)
        requires
            old(self).wf(),
        ensures
            final(self).wf(),
            if next_id(old(self)@) <= i32::MAX {
                &&& r == Ok::<i32, AppError>(next_id(old(self)@) as i32)
                &&& final(self)@ == appended(old(self)@, thought_type, content@)
            } else {
                &&& r matches Err(AppError::Database(detail)) && detail@ == NO_KEY_LEFT@
                &&& final(self)@ == old(self)@
            },
    {
        let count = self.rows.len();
        let id: i32 = if count == 0 {
            1
        } else {
            let last: i32 = *self.rows[count - 1].id();
            if last == i32::MAX {
                return Err(AppError::Database(NO_KEY_LEFT.to_owned()));
            }
            last + 1
        };
        let ghost before = views(self.rows@);
        let thought = Thought::new(id, thought_type, content, false);
        self.rows.push(thought);
        proof {
            assert(views(self.rows@) =~= before.push(thought@));
        }
        Ok(id)
    }

    /// Makes a table of rows that were stored before. Rows whose keys do not
    /// rise from each to the next are no table, and are refused.
    pub fn from_thoughts(rows: Vec<Thought>) -> (r: Result<ThoughtTable, AppError>)
        ensures
            if ascending(views(rows@)) {
                r matches Ok(table) && table.wf() && table@ == views(rows@)
            } else {
                r matches Err(AppError::Database(detail)) && detail@ == KEYS_OUT_OF_ORDER@
            },
    {
        let count = rows.len();
        let ghost all = views(rows@);
        let mut i: usize = 1;
        while i < count
            invariant
                1 <= i,
                count == rows@.len(),
                all == views(rows@),
                forall|a: int, b: int| 0 <= a < b < i && b < count ==> all[a].id < all[b].id,
            decreases count - i,
        {
            let earlier: i32 = *rows[i - 1].id();
            let later: i32 = *rows[i].id();
            if earlier >= later {
                proof {
                    assert(all[i - 1].id >= all[i as int].id);
                }
                return Err(AppError::Database(KEYS_OUT_OF_ORDER.to_owned()));
            }
            proof {
                assert forall|a: int, b: int| 0 <= a < b < i + 1 && b < count implies all[a].id
                    < all[b].id by {
                    if b == i && a < i - 1 {
                        assert(all[a].id < all[i - 1].id);
                    }
                }
            }
            i += 1;
        }
        Ok(ThoughtTable { rows })
    }

    /// Appends a thought under the category that `category` names, and
    /// returns its key. A text that names no category is rejected before
    /// anything is written.
    pub fn append(&mut self, category: &str, body: &str) -> (r: Result<i32, AppError>)
        requires
            old(self).wf(),
        ensures
            final(self).wf(),
            match parse_thought_type(category@) {
                None => {
                    &&& r matches Err(AppError::InvalidCategory(text)) && text@ == lowered(
                        category@,
                    )
                    &&& final(self)@ == old(self)@
                },
                Some(thought_type) => if next_id(old(self)@) <= i32::MAX {
                    &&& r == Ok::<i32, AppError>(next_id(old(self)@) as i32)
                    &&& final(self)@ == appended(old(self)@, thought_type, body@)
                } else {
                    &&& r matches Err(AppError::Database(detail)) && detail@ == NO_KEY_LEFT@
                    &&& final(self)@ == old(self)@
                },
            },
    {
        match ThoughtType::from_str(category) {
            Ok(thought_type) => self.insert(thought_type, body.to_owned()),
            Err(e) => Err(e),
        }
    }

    /// Claims the thoughts that are not reviewed: returns them as they stand,
    /// in key order, and leaves every row of the table reviewed.
    pub fn claim_unreviewed(&mut self) -> (batch: Vec<Thought>)
        requires
            old(self).wf(),
        ensures
            final(self).wf(),
            views(batch@) == pending(old(self)@),
            final(self)@ == all_reviewed(old(self)@),
            ascending(views(batch@)),
            forall|i: int| 0 <= i < batch@.len() ==> !(#[trigger] batch@[i])@.reviewed,
    {
        let ghost before = self@;
        let count = self.rows.len();
        let mut batch: Vec<Thought> = Vec::new();
        let mut marked: Vec<Thought> = Vec::new();
        let mut i: usize = 0;
        proof {
            assert(before.take(0) =~= Seq::<ThoughtView>::empty());
            assert(views(batch@) =~= Seq::<ThoughtView>::empty());
            assert(views(marked@) =~= all_reviewed(before.take(0)));
            reveal(Seq::filter);
            assert(pending(before.take(0)) =~= Seq::<ThoughtView>::empty());
        }
        while i < count
            invariant
                i <= count,
                count == self.rows@.len(),
                before == views(self.rows@),
                views(batch@) == pending(before.take(i as int)),
                views(marked@) == all_reviewed(before.take(i as int)),
            decreases count - i,
        {
            let row = &self.rows[i];
            proof {
                assert(before.take(i + 1) =~= before.take(i as int).push(row@));
                before.take(i as int).lemma_filter_push(row@, |t: ThoughtView| !t.reviewed);
            }
            if !row.reviewed() {
                let ghost taken = views(batch@);
                let copy = row.clone();
                batch.push(copy);
                proof {
                    assert(views(batch@) =~= taken.push(copy@));
                }
            }
            let ghost done = views(marked@);
            let flipped = Thought::new(*row.id(), *row.thought_type(), row.content().clone(), true);
            marked.push(flipped);
            proof {
                assert(flipped@ == reviewed_row(row@));
                assert(views(marked@) =~= done.push(flipped@));
                assert(all_reviewed(before.take(i + 1)) =~= all_reviewed(
                    before.take(i as int),
                ).push(reviewed_row(row@)));
            }
            i += 1;
        }
        proof {
            assert(before.take(count as int) =~= before);
            lemma_pending_ascending(before);
            lemma_pending_not_reviewed(before);
            assert forall|k: int| 0 <= k < batch@.len() implies !(#[trigger] batch@[k])@.reviewed by {
                assert(views(batch@)[k] == batch@[k]@);
            }
        }
        self.rows = marked;
        batch
    }
}

/// What is left of a table whose keys rise, when rows are taken out, has
/// rising keys too.
pub proof fn lemma_pending_ascending(rows: Seq<ThoughtView>)
    requires
        ascending(rows),
    ensures
        ascending(pending(rows)),
    decreases rows.len(),
{
    let pred = |t: ThoughtView| !t.reviewed;
    reveal(Seq::filter);
    if rows.len() > 0 {
        let front = rows.drop_last();
        lemma_pending_ascending(front);
        if pred(rows.last()) {
            let kept = pending(front);
            assert forall|i: int, j: int| 0 <= i < j < pending(rows).len() implies pending(
                rows,
            )[i].id < pending(rows)[j].id by {
                if j == kept.len() {
                    assert(kept.contains(kept[i]));
                    front.lemma_filter_contains_rev(pred, kept[i]);
                    let k = choose|k: int| 0 <= k < front.len() && front[k] == kept[i];
                    assert(rows[k] == front[k]);
                    assert(rows[k].id < rows[rows.len() - 1].id);
                }
            }
        }
    }
}

/// Every pending row is a row that is not reviewed.
pub proof fn lemma_pending_not_reviewed(rows: Seq<ThoughtView>)
    ensures
        forall|i: int| 0 <= i < pending(rows).len() ==> !(#[trigger] pending(rows)[i]).reviewed,
{
    let pred = |t: ThoughtView| !t.reviewed;
    assert forall|i: int| 0 <= i < pending(rows).len() implies !(#[trigger] pending(
        rows,
    )[i]).reviewed by {
        rows.lemma_filter_pred(pred, i);
    }
}

/// Claims the thoughts that are not reviewed, as [`ThoughtTable::claim_unreviewed`]
/// does. On a table in memory this cannot fail.
pub fn read(table: &mut ThoughtTable) -> (r: Result<Vec<Thought>, AppError>)
    requires
        old(table).wf(),
    ensures
        final(table).wf(),
        r matches Ok(batch) && views(batch@) == pending(old(table)@) && ascending(views(batch@)),
        final(table)@ == all_reviewed(old(table)@),
{
    Ok(table.claim_unreviewed())
}

/// Appends what the writing side was asked to record.
pub fn write_to_db(table: &mut ThoughtTable, args: &Args) -> (r: Result<(), AppError>)
    requires
        old(table).wf(),
    ensures
        final(table).wf(),
        if next_id(old(table)@) <= i32::MAX {
            &&& r is Ok
            &&& final(table)@ == appended(
                old(table)@,
                args.spec_thought_type(),
                args.spec_content(),
            )
        } else {
            &&& r matches Err(AppError::Database(detail)) && detail@ == NO_KEY_LEFT@
            &&& final(table)@ == old(table)@
        },
{
    match table.insert(*args.thought_type(), args.content().to_owned()) {
        Ok(_) => Ok(()),
        Err(e) => Err(e),
    }
}

/// A row as the store holds it: the category is still text.
#[derive(Debug)]
pub struct StoredRow {
    pub id: i32,
    pub thought_type: String,
    pub content: String,
    pub reviewed: bool,
}

/// Whether the category of a stored row can be read.
pub open spec fn row_readable(row: StoredRow) -> bool {
    parse_thought_type(row.thought_type@) is Some
}

/// The thought that a stored row holds, if its category can be read.
pub open spec fn row_thought(row: StoredRow) -> ThoughtView {
    ThoughtView {
        id: row.id as int,
        thought_type: parse_thought_type(row.thought_type@).unwrap(),
        content: row.content@,
        reviewed: row.reviewed,
    }
}

/// Whether the category of every row can be read.
pub open spec fn all_readable(rows: Seq<StoredRow>) -> bool {
    forall|i: int| 0 <= i < rows.len() ==> row_readable(#[trigger] rows[i])
}

/// The thoughts that stored rows hold, one for one.
pub open spec fn stored(rows: Seq<StoredRow>) -> Seq<ThoughtView> {
    rows.map_values(|row: StoredRow| row_thought(row))
}

/// Reads stored rows into thoughts, one for one and in order. The first row
/// whose category names none fails the whole reading.
pub fn thoughts_from_rows(rows: &Vec<StoredRow>) -> (r: Result<Vec<Thought>, AppError>)
    ensures
        match r {
            Ok(thoughts) => {
                &&& all_readable(rows@)
                &&& views(thoughts@) == stored(rows@)
            },
            Err(e) => exists|i: int|
                {
                    &&& 0 <= i < rows@.len()
                    &&& !row_readable(#[trigger] rows@[i])
                    &&& forall|j: int| 0 <= j < i ==> row_readable(#[trigger] rows@[j])
                    &&& e matches AppError::InvalidCategory(text) && text@ == lowered(
                        rows@[i].thought_type@,
                    )
                },
        },
{
    let count = rows.len();
    let mut thoughts: Vec<Thought> = Vec::new();
    let mut i: usize = 0;
    while i < count
        invariant
            i <= count,
            count == rows@.len(),
            forall|j: int| 0 <= j < i ==> row_readable(#[trigger] rows@[j]),
            views(thoughts@) == rows@.take(i as int).map_values(|row: StoredRow| row_thought(row)),
        decreases count - i,
    {
        let row = &rows[i];
        match ThoughtType::from_str(row.thought_type.as_str()) {
            Ok(thought_type) => {
                let ghost read = views(thoughts@);
                let thought = Thought::new(row.id, thought_type, row.content.clone(), row.reviewed);
                thoughts.push(thought);
                proof {
                    assert(thought@ == row_thought(*row));
                    assert(views(thoughts@) =~= read.push(thought@));
                    assert(rows@.take(i + 1) =~= rows@.take(i as int).push(*row));
                    assert(rows@.take(i + 1).map_values(|row: StoredRow| row_thought(row))
                        =~= rows@.take(i as int).map_values(|row: StoredRow| row_thought(row)).push(
                        row_thought(*row),
                    ));
                }
            },
            Err(e) => {
                proof {
                    assert(!row_readable(rows@[i as int]));
                }
                return Err(e);
            },
        }
        i += 1;
    }
    proof {
        assert(rows@.take(count as int) =~= rows@);
    }
    Ok(thoughts)
}

/// Claims the pending thoughts among rows that come straight from the store:
/// reads the rows, holds them to be a table, and claims from it. Returns the
/// thoughts whose rows the store has to mark as reviewed.
///
/// Fails on the first row whose category names none; if there is no such
/// row, fails where the keys of the rows do not rise.
pub fn claim_stored(rows: &Vec<StoredRow>) -> (r: Result<Vec<Thought>, AppError>)
    ensures
        match r {
            Ok(batch) => {
                &&& all_readable(rows@)
                &&& ascending(stored(rows@))
                &&& views(batch@) == pending(stored(rows@))
                &&& ascending(views(batch@))
            },
            Err(AppError::InvalidCategory(text)) => exists|i: int|
                {
                    &&& 0 <= i < rows@.len()
                    &&& !row_readable(#[trigger] rows@[i])
                    &&& forall|j: int| 0 <= j < i ==> row_readable(#[trigger] rows@[j])
                    &&& text@ == lowered(rows@[i].thought_type@)
                },
            Err(AppError::Database(detail)) => {
                &&& all_readable(rows@)
                &&& !ascending(stored(rows@))
                &&& detail@ == KEYS_OUT_OF_ORDER@
            },
            Err(_) => false,
        },
{
    let thoughts = match thoughts_from_rows(rows) {
        Ok(thoughts) => thoughts,
        Err(e) => {
            return Err(e);
        },
    };
    let mut table = match ThoughtTable::from_thoughts(thoughts) {
        Ok(table) => table,
        Err(e) => {
            return Err(e);
        },
    };
    Ok(table.claim_unreviewed())
}

/// The table after a run of thoughts was appended, one after the other. A
/// thought to append is a category and a text.
pub open spec fn appended_all(
    rows: Seq<ThoughtView>,
    notes: Seq<(ThoughtType, Seq<char>)>,
) -> Seq<ThoughtView>
    decreases notes.len(),
{
    if notes.len() == 0 {
        rows
    } else {
        appended(appended_all(rows, notes.drop_last()), notes.last().0, notes.last().1)
    }
}

/// The category and the text of each row, in order.
pub open spec fn notes_of(rows: Seq<ThoughtView>) -> Seq<(ThoughtType, Seq<char>)> {
    rows.map_values(|t: ThoughtView| (t.thought_type, t.content))
}

/// Appending keeps the keys rising.
pub proof fn lemma_appended_ascending(
    rows: Seq<ThoughtView>,
    thought_type: ThoughtType,
    content: Seq<char>,
)
    requires
        ascending(rows),
    ensures
        ascending(appended(rows, thought_type, content)),
{
    let after = appended(rows, thought_type, content);
    assert forall|i: int, j: int| 0 <= i < j < after.len() implies after[i].id < after[j].id by {
        if j == rows.len() {
            if i < rows.len() - 1 {
                assert(rows[i].id < rows[rows.len() - 1].id);
            }
        }
    }
}

/// A run of appends keeps the keys rising.
pub proof fn lemma_appended_all_ascending(
    rows: Seq<ThoughtView>,
    notes: Seq<(ThoughtType, Seq<char>)>,
)
    requires
        ascending(rows),
    ensures
        ascending(appended_all(rows, notes)),
    decreases notes.len(),
{
    if notes.len() > 0 {
        lemma_appended_all_ascending(rows, notes.drop_last());
        lemma_appended_ascending(
            appended_all(rows, notes.drop_last()),
            notes.last().0,
            notes.last().1,
        );
    }
}

/// What is pending after a run of appends is what was pending before,
/// followed by the appended thoughts in the order in which they came.
pub proof fn lemma_pending_after_appends(
    rows: Seq<ThoughtView>,
    notes: Seq<(ThoughtType, Seq<char>)>,
)
    ensures
        appended_all(rows, notes).len() == rows.len() + notes.len(),
        pending(appended_all(rows, notes)) == pending(rows) + appended_all(rows, notes).skip(
            rows.len() as int,
        ),
        notes_of(pending(appended_all(rows, notes))) == notes_of(pending(rows)) + notes,
    decreases notes.len(),
{
    if notes.len() == 0 {
        assert(notes_of(pending(rows)) + notes =~= notes_of(pending(rows)));
        assert(pending(rows) + rows.skip(rows.len() as int) =~= pending(rows));
    } else {
        let front = notes.drop_last();
        let table = appended_all(rows, front);
        lemma_pending_after_appends(rows, front);
        let row = ThoughtView {
            id: next_id(table),
            thought_type: notes.last().0,
            content: notes.last().1,
            reviewed: false,
        };
        table.lemma_filter_push(row, |t: ThoughtView| !t.reviewed);
        assert(pending(table.push(row)) == pending(table).push(row));
        assert(notes_of(pending(table).push(row)) =~= notes_of(pending(table)).push(notes.last()));
        assert(notes =~= front.push(notes.last()));
        assert(notes_of(pending(rows)) + front.push(notes.last()) =~= (notes_of(pending(rows))
            + front).push(notes.last()));
        assert(pending(rows) + table.push(row).skip(rows.len() as int) =~= (pending(rows)
            + table.skip(rows.len() as int)).push(row));
    }
}

/// After a claim nothing is pending: a second claim with no append between
/// the two comes back empty.
pub proof fn lemma_second_claim_empty(rows: Seq<ThoughtView>)
    ensures
        pending(all_reviewed(rows)) == Seq::<ThoughtView>::empty(),
    decreases rows.len(),
{
    reveal(Seq::filter);
    if rows.len() > 0 {
        lemma_second_claim_empty(rows.drop_last());
        assert(all_reviewed(rows).drop_last() =~= all_reviewed(rows.drop_last()));
    }
    assert(pending(all_reviewed(rows)) =~= Seq::<ThoughtView>::empty());
}

/// Appends to a new table followed by one claim: the claim returns exactly
/// the appended thoughts, in the order in which they were appended.
pub proof fn lemma_claim_returns_appends(notes: Seq<(ThoughtType, Seq<char>)>)
    ensures
        pending(appended_all(Seq::empty(), notes)) == appended_all(Seq::empty(), notes),
        notes_of(pending(appended_all(Seq::empty(), notes))) == notes,
        ascending(pending(appended_all(Seq::empty(), notes))),
{
    let empty = Seq::<ThoughtView>::empty();
    reveal(Seq::filter);
    assert(pending(empty) =~= empty);
    lemma_pending_after_appends(empty, notes);
    assert(notes_of(empty) + notes =~= notes);
    assert(empty + appended_all(empty, notes).skip(0) =~= appended_all(empty, notes));
    lemma_appended_all_ascending(empty, notes);
}

/// Appends after a claim followed by another claim: the second claim returns
/// the thoughts appended since the first, and no others.
pub proof fn lemma_claim_after_claim(rows: Seq<ThoughtView>, notes: Seq<(ThoughtType, Seq<char>)>)
    ensures
        pending(appended_all(all_reviewed(rows), notes)) == appended_all(
            all_reviewed(rows),
            notes,
        ).skip(rows.len() as int),
        notes_of(pending(appended_all(all_reviewed(rows), notes))) == notes,
{
    let empty = Seq::<ThoughtView>::empty();
    lemma_second_claim_empty(rows);
    lemma_pending_after_appends(all_reviewed(rows), notes);
    assert(notes_of(empty) + notes =~= notes);
    assert(empty + appended_all(all_reviewed(rows), notes).skip(rows.len() as int)
        =~= appended_all(all_reviewed(rows), notes).skip(rows.len() as int));
}

} // verus!
