use xynpro::omnixerror::InitError;

#[test]
fn init_error_messages() {
    assert_eq!(
        InitError::ProjectDirCreationError("denied".to_string()).render(),
        "Failed to create the project directory: denied"
    );
    assert_eq!(
        InitError::ArgumentCountError(1).render(),
        "Invalid number of arguments provided: expected at least 2, got 1"
    );
    assert_eq!(
        InitError::FileCreationError { file_name: "a.rs".to_string(), source: "denied".to_string() }.render(),
        "Error while creating file 'a.rs': denied"
    );
    assert_eq!(
        InitError::ContentGenerationError { file_name: "a.rs".to_string(), source: "full".to_string() }.render(),
        "Error while generating content for 'a.rs': full"
    );
    assert_eq!(InitError::UnknownError("odd".to_string()).render(), "Unknown error occurred: odd");
}

#[test]
fn init_error_reports() {
    assert_eq!(InitError::ProjectDirCreationError("denied".to_string()).report(), "Error: denied");
    assert_eq!(
        InitError::ArgumentCountError(1).report(),
        "Error: Incorrect number of arguments provided. Expected at least 2, but got 1."
    );
    assert_eq!(
        InitError::FileCreationError { file_name: "a.rs".to_string(), source: "denied".to_string() }.report(),
        "Error: Failed to create file 'a.rs': denied"
    );
    assert_eq!(
        InitError::ContentGenerationError { file_name: "a.rs".to_string(), source: "full".to_string() }.report(),
        "Error: Failed to generate content for file 'a.rs': full"
    );
    assert_eq!(InitError::UnknownError("odd".to_string()).report(), "Error: odd");
}
