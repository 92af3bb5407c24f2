use thought::db_operations::{read, ThoughtTable};
use thought::thought::Thought;
use thought::writer_config::ThoughtType;

fn count_reviewed(table: &ThoughtTable, reviewed: bool) -> usize {
    table.rows().iter().filter(|t| t.reviewed() == reviewed).count()
}

#[test]
fn test_read_end_to_end() {
    let mut table = ThoughtTable::new();

    table.append("Notes", "First unreviewed").unwrap();
    table.append("Todo", "Second unreviewed").unwrap();

    let thoughts = read(&mut table).unwrap();

    assert_eq!(thoughts.len(), 2);

    let unreviewed = count_reviewed(&table, false);
    assert_eq!(unreviewed, 0);

    let reviewed = count_reviewed(&table, true);
    assert_eq!(reviewed, 2);
}

#[test]
fn test_read_twice_returns_empty() {
    let mut table = ThoughtTable::new();

    table.append("Notes", "Test thought").unwrap();

    let first_read = read(&mut table).unwrap();
    assert_eq!(first_read.len(), 1);

    let second_read = read(&mut table).unwrap();
    assert_eq!(second_read.len(), 0);
}

#[test]
fn test_read_ignores_already_reviewed() {
    let mut table = ThoughtTable::from_thoughts(vec![
        Thought::new(1, ThoughtType::Notes, "Already reviewed".to_string(), true),
        Thought::new(2, ThoughtType::Todo, "Not reviewed".to_string(), false),
    ])
    .unwrap();

    let thoughts = read(&mut table).unwrap();

    assert_eq!(thoughts.len(), 1);
    assert_eq!(thoughts[0].content(), "Not reviewed");
}

#[test]
fn test_read_empty_database() {
    let mut table = ThoughtTable::new();

    let thoughts = read(&mut table).unwrap();
    assert_eq!(thoughts.len(), 0);
}

#[test]
fn test_read_multiple_thought_types() {
    let mut table = ThoughtTable::new();

    let types = vec!["Notes", "Project", "Todo", "Question", "Misc"];
    for thought_type in &types {
        table
            .append(thought_type, &format!("{} content", thought_type))
            .unwrap();
    }

    let thoughts = read(&mut table).unwrap();

    assert_eq!(thoughts.len(), 5);

    let mut read_types: Vec<String> = thoughts
        .iter()
        .map(|t| t.thought_type().to_string())
        .collect();
    read_types.sort();

    let mut expected_types: Vec<String> = types.iter().map(|s| s.to_string()).collect();
    expected_types.sort();

    assert_eq!(read_types, expected_types);
}
