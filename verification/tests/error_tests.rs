use vecx::errors::{GlueError, GlueLLMError, GlueValidationError};

#[test]
fn test_glue_error() {
    let msg = "test error";
    let error = GlueError::new(msg);

    assert_eq!(error.display_string(), msg);
}

#[test]
fn test_glue_llm_error() {
    let msg = "llm error";
    let exception = "stack trace";
    let error = GlueLLMError::new(msg, exception);

    let expected = format!(
        "LLM exception\nException: {}\nException logs: {}",
        msg, exception
    );
    assert_eq!(error.display_string(), expected);
}

#[test]
fn test_glue_validation_error() {
    let msg = "validation error";
    let exception = "invalid input";
    let error = GlueValidationError::new(msg, exception);

    let expected = format!(
        "[Invalid user input detected]\nException: {}\nException logs: {}",
        msg, exception
    );
    assert_eq!(error.display_string(), expected);
}

#[test]
fn test_error_conversions() {
    let llm_error = GlueLLMError::new("llm error", "stack trace");
    let glue_error: GlueError = llm_error.into();
    assert!(glue_error.display_string().contains("LLM exception"));

    let validation_error = GlueValidationError::new("validation error", "invalid input");
    let glue_error: GlueError = validation_error.into();
    assert!(glue_error
        .display_string()
        .contains("Invalid user input detected"));
}

#[test]
fn test_error_debug_format() {
    let error = GlueError::new("test error");
    assert!(format!("{:?}", error).contains("GlueError"));

    let llm_error = GlueLLMError::new("llm error", "stack trace");
    assert!(format!("{:?}", llm_error).contains("GlueLLMError"));

    let validation_error = GlueValidationError::new("validation error", "invalid input");
    assert!(format!("{:?}", validation_error).contains("GlueValidationError"));
}

#[test]
fn test_model_error_display() {
    let api = vecx::llm::ModelError::ApiError("timeout".to_string());
    assert_eq!(api.display_string(), "API Error: timeout");

    let config = vecx::llm::ModelError::ConfigError("missing key".to_string());
    assert_eq!(config.display_string(), "Configuration Error: missing key");

    let auth = vecx::llm::ModelError::AuthenticationError("denied".to_string());
    assert_eq!(auth.display_string(), "Authentication Error: denied");
}
