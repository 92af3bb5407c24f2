use thought::db_operations::{
    claim_stored, read, thoughts_from_rows, write_to_db, StoredRow, ThoughtTable,
};
use thought::errors::AppError;
use thought::thought::Thought;
use thought::writer_config::{Args, ThoughtType};

fn notes(batch: &[Thought]) -> Vec<(ThoughtType, String)> {
    batch
        .iter()
        .map(|t| (*t.thought_type(), t.content().clone()))
        .collect()
}

fn row(id: i32, thought_type: &str, content: &str, reviewed: bool) -> StoredRow {
    StoredRow {
        id,
        thought_type: thought_type.to_string(),
        content: content.to_string(),
        reviewed,
    }
}

#[test]
fn keys_start_at_one_and_rise_by_one() {
    let mut table = ThoughtTable::new();
    assert_eq!(table.append("notes", "a").unwrap(), 1);
    assert_eq!(table.append("project", "b").unwrap(), 2);
    assert_eq!(table.insert(ThoughtType::Todo, "c".to_string()).unwrap(), 3);
    let keys: Vec<i32> = table.rows().iter().map(|t| *t.id()).collect();
    assert_eq!(keys, vec![1, 2, 3]);
}

#[test]
fn the_next_key_follows_the_last_key() {
    let mut table = ThoughtTable::from_thoughts(vec![
        Thought::new(3, ThoughtType::Notes, "a".to_string(), true),
        Thought::new(10, ThoughtType::Notes, "b".to_string(), true),
    ])
    .unwrap();
    assert_eq!(table.append("misc", "c").unwrap(), 11);
}

#[test]
fn an_appended_thought_is_not_reviewed() {
    let mut table = ThoughtTable::new();
    table.append("Question", "why?").unwrap();
    let stored = &table.rows()[0];
    assert_eq!(*stored.id(), 1);
    assert_eq!(*stored.thought_type(), ThoughtType::Question);
    assert_eq!(stored.content(), "why?");
    assert!(!stored.reviewed());
}

#[test]
fn a_claim_returns_the_appends_in_order() {
    let mut table = ThoughtTable::new();
    let appended = vec![
        (ThoughtType::Misc, "one".to_string()),
        (ThoughtType::Notes, "two".to_string()),
        (ThoughtType::Misc, "one".to_string()),
        (ThoughtType::Project, "three".to_string()),
    ];
    for (t, c) in &appended {
        table.insert(*t, c.clone()).unwrap();
    }
    let batch = table.claim_unreviewed();
    assert_eq!(notes(&batch), appended);
    let keys: Vec<i32> = batch.iter().map(|t| *t.id()).collect();
    assert_eq!(keys, vec![1, 2, 3, 4]);
}

#[test]
fn claimed_thoughts_read_as_pending_and_are_stored_as_reviewed() {
    let mut table = ThoughtTable::new();
    table.append("notes", "a").unwrap();
    table.append("todo", "b").unwrap();
    let batch = table.claim_unreviewed();
    assert!(batch.iter().all(|t| !t.reviewed()));
    assert!(table.rows().iter().all(|t| t.reviewed()));
    assert_eq!(table.rows().len(), 2);
}

#[test]
fn a_second_claim_is_empty() {
    let mut table = ThoughtTable::new();
    table.append("notes", "a").unwrap();
    assert_eq!(table.claim_unreviewed().len(), 1);
    assert_eq!(table.claim_unreviewed().len(), 0);
    assert_eq!(table.claim_unreviewed().len(), 0);
}

#[test]
fn a_claim_after_a_claim_returns_what_was_appended_since() {
    let mut table = ThoughtTable::new();
    table.append("notes", "before").unwrap();
    table.append("project", "before too").unwrap();
    let first = read(&mut table).unwrap();
    assert_eq!(first.len(), 2);
    table.append("todo", "after").unwrap();
    table.append("misc", "after too").unwrap();
    let second = read(&mut table).unwrap();
    assert_eq!(
        notes(&second),
        vec![
            (ThoughtType::Todo, "after".to_string()),
            (ThoughtType::Misc, "after too".to_string()),
        ]
    );
    let keys: Vec<i32> = second.iter().map(|t| *t.id()).collect();
    assert_eq!(keys, vec![3, 4]);
}

#[test]
fn a_claim_leaves_texts_and_categories_alone() {
    let mut table = ThoughtTable::new();
    table.append("question", "q").unwrap();
    let _ = table.claim_unreviewed();
    let stored = &table.rows()[0];
    assert_eq!(*stored.id(), 1);
    assert_eq!(*stored.thought_type(), ThoughtType::Question);
    assert_eq!(stored.content(), "q");
}

#[test]
fn an_unknown_category_is_rejected_before_anything_is_written() {
    let mut table = ThoughtTable::new();
    table.append("notes", "a").unwrap();
    match table.append("Idea", "b") {
        Err(AppError::InvalidCategory(text)) => assert_eq!(text, "idea"),
        other => panic!("unexpected: {:?}", other),
    }
    assert_eq!(table.rows().len(), 1);
    assert_eq!(table.append("todo", "c").unwrap(), 2);
}

#[test]
fn no_key_after_the_largest() {
    let mut table = ThoughtTable::from_thoughts(vec![Thought::new(
        i32::MAX,
        ThoughtType::Notes,
        "last".to_string(),
        false,
    )])
    .unwrap();
    match table.append("notes", "one more") {
        Err(AppError::Database(detail)) => {
            assert_eq!(detail, "no id is left for another thought")
        }
        other => panic!("unexpected: {:?}", other),
    }
    assert_eq!(table.rows().len(), 1);
    let args = Args::new(ThoughtType::Notes, "one more".to_string());
    assert!(matches!(
        write_to_db(&mut table, &args),
        Err(AppError::Database(_))
    ));
    assert_eq!(table.rows().len(), 1);
}

#[test]
fn the_key_before_the_largest_still_has_a_successor() {
    let mut table = ThoughtTable::from_thoughts(vec![Thought::new(
        i32::MAX - 1,
        ThoughtType::Notes,
        "a".to_string(),
        false,
    )])
    .unwrap();
    assert_eq!(table.append("notes", "b").unwrap(), i32::MAX);
}

#[test]
fn rows_out_of_key_order_are_no_table() {
    let unordered = vec![
        Thought::new(2, ThoughtType::Notes, "a".to_string(), false),
        Thought::new(1, ThoughtType::Notes, "b".to_string(), false),
    ];
    match ThoughtTable::from_thoughts(unordered) {
        Err(AppError::Database(detail)) => {
            assert_eq!(detail, "thought ids are not in ascending order")
        }
        Ok(_) => panic!("accepted"),
        Err(other) => panic!("unexpected: {:?}", other),
    }
}

#[test]
fn rows_under_one_key_are_no_table() {
    let twice = vec![
        Thought::new(1, ThoughtType::Notes, "a".to_string(), false),
        Thought::new(5, ThoughtType::Notes, "b".to_string(), false),
        Thought::new(5, ThoughtType::Notes, "c".to_string(), false),
    ];
    assert!(matches!(
        ThoughtTable::from_thoughts(twice),
        Err(AppError::Database(_))
    ));
}

#[test]
fn rows_with_gaps_and_negative_keys_are_a_table() {
    let table = ThoughtTable::from_thoughts(vec![
        Thought::new(-4, ThoughtType::Notes, "a".to_string(), false),
        Thought::new(0, ThoughtType::Notes, "b".to_string(), true),
        Thought::new(9, ThoughtType::Notes, "c".to_string(), false),
    ])
    .unwrap();
    assert_eq!(table.rows().len(), 3);
    assert!(ThoughtTable::from_thoughts(Vec::new()).unwrap().rows().is_empty());
}

#[test]
fn stored_rows_are_read_one_for_one() {
    let rows = vec![
        row(1, "Notes", "a", false),
        row(2, "PROJECT", "b", true),
        row(5, "todo", "c", false),
    ];
    let thoughts = thoughts_from_rows(&rows).unwrap();
    assert_eq!(thoughts.len(), 3);
    assert_eq!(*thoughts[1].id(), 2);
    assert_eq!(*thoughts[1].thought_type(), ThoughtType::Project);
    assert_eq!(thoughts[1].content(), "b");
    assert!(thoughts[1].reviewed());
    assert_eq!(*thoughts[2].id(), 5);
    assert_eq!(*thoughts[2].thought_type(), ThoughtType::Todo);
    assert!(!thoughts[2].reviewed());
    assert!(thoughts_from_rows(&Vec::new()).unwrap().is_empty());
}

#[test]
fn the_first_unreadable_row_fails_the_reading() {
    let rows = vec![
        row(1, "Notes", "a", false),
        row(2, "Idea", "b", false),
        row(3, "Plan", "c", false),
    ];
    match thoughts_from_rows(&rows) {
        Err(AppError::InvalidCategory(text)) => assert_eq!(text, "idea"),
        other => panic!("unexpected: {:?}", other),
    }
}

#[test]
fn writing_appends_what_was_asked() {
    let mut table = ThoughtTable::new();
    let args = Args::new(ThoughtType::Project, "build it".to_string());
    assert_eq!(*args.thought_type(), ThoughtType::Project);
    assert_eq!(args.content(), "build it");
    write_to_db(&mut table, &args).unwrap();
    let batch = read(&mut table).unwrap();
    assert_eq!(notes(&batch), vec![(ThoughtType::Project, "build it".to_string())]);
}

#[test]
fn a_claim_over_stored_rows_returns_the_pending_ones() {
    let rows = vec![
        row(1, "Notes", "a", true),
        row(2, "project", "b", false),
        row(7, "TODO", "c", false),
        row(9, "misc", "d", true),
    ];
    let batch = claim_stored(&rows).unwrap();
    let seen: Vec<(i32, ThoughtType, String, bool)> = batch
        .iter()
        .map(|t| (*t.id(), *t.thought_type(), t.content().clone(), t.reviewed()))
        .collect();
    assert_eq!(
        seen,
        vec![
            (2, ThoughtType::Project, "b".to_string(), false),
            (7, ThoughtType::Todo, "c".to_string(), false),
        ]
    );
    assert!(claim_stored(&Vec::new()).unwrap().is_empty());
}

#[test]
fn a_claim_over_stored_rows_fails_on_an_unknown_category_first() {
    let rows = vec![row(2, "Notes", "a", false), row(1, "Idea", "b", false)];
    match claim_stored(&rows) {
        Err(AppError::InvalidCategory(text)) => assert_eq!(text, "idea"),
        other => panic!("unexpected: {:?}", other),
    }
}

#[test]
fn a_claim_over_stored_rows_fails_on_keys_out_of_order() {
    let rows = vec![row(2, "Notes", "a", false), row(1, "Todo", "b", false)];
    match claim_stored(&rows) {
        Err(AppError::Database(detail)) => {
            assert_eq!(detail, "thought ids are not in ascending order")
        }
        other => panic!("unexpected: {:?}", other),
    }
}
