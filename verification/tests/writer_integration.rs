use thought::db_operations::{write_to_db, ThoughtTable};
use thought::writer_config::{Args, ThoughtType};

#[test]
fn test_write_and_verify_end_to_end() {
    let mut table = ThoughtTable::new();

    let args = Args::new(ThoughtType::Notes, "Integration test thought".to_string());

    write_to_db(&mut table, &args).unwrap();

    let count = table.rows().len();
    assert_eq!(count, 1);

    let stored = table.rows().iter().find(|t| *t.id() == 1).unwrap();
    assert_eq!(stored.content(), "Integration test thought");
}

#[test]
fn test_write_multiple_thoughts() {
    let mut table = ThoughtTable::new();

    let thoughts = vec![
        Args::new(ThoughtType::Notes, "First thought".to_string()),
        Args::new(ThoughtType::Project, "Second thought".to_string()),
        Args::new(ThoughtType::Todo, "Third thought".to_string()),
        Args::new(ThoughtType::Question, "Fourth thought".to_string()),
        Args::new(ThoughtType::Misc, "Fifth thought".to_string()),
    ];

    for args in &thoughts {
        write_to_db(&mut table, args).unwrap();
    }

    let count = table.rows().len();
    assert_eq!(count, 5);

    let unreviewed = table.rows().iter().filter(|t| !t.reviewed()).count();
    assert_eq!(unreviewed, 5);
}

#[test]
fn test_write_different_thought_types() {
    let mut table = ThoughtTable::new();

    let thought_types = vec![
        ThoughtType::Notes,
        ThoughtType::Project,
        ThoughtType::Todo,
        ThoughtType::Question,
        ThoughtType::Misc,
    ];

    for (i, thought_type) in thought_types.iter().enumerate() {
        let args = Args::new(thought_type.clone(), format!("Thought {}", i));
        write_to_db(&mut table, &args).unwrap();
    }

    for thought_type in thought_types {
        let count = table
            .rows()
            .iter()
            .filter(|t| t.thought_type().to_string() == thought_type.to_string())
            .count();

        assert_eq!(count, 1);
    }
}
