use thought::errors::AppError;

#[test]
fn every_error_names_its_origin() {
    assert_eq!(AppError::Clap("x".to_string()).to_string(), "Argument error: x");
    assert_eq!(AppError::Database("x".to_string()).to_string(), "Database error: x");
    assert_eq!(AppError::SmtpEmail("x".to_string()).to_string(), "Smtp error: x");
    assert_eq!(AppError::Config("x".to_string()).to_string(), "Config error: x");
    assert_eq!(AppError::IO("x".to_string()).to_string(), "IO error: x");
    assert_eq!(
        AppError::InvalidCategory("x".to_string()).to_string(),
        "Unknown thought type: x"
    );
    assert_eq!(AppError::Analyzer("x".to_string()).to_string(), "Analyzer error: x");
}

#[test]
fn an_empty_detail_leaves_the_origin() {
    assert_eq!(AppError::Database(String::new()).to_string(), "Database error: ");
}
