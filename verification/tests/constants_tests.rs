use vecx::constants::{Constants, DirNames, FileConstants, LLMOutputTypes, OAILiterals};

#[test]
fn test_dirnames() {
    assert_eq!(DirNames::MODEL_DIR, "/tmp/model");
    assert_eq!(DirNames::PACKAGE_BASE_DIR, "/tmp/packages");
}

#[test]
fn test_fileconstants() {
    assert_eq!(FileConstants::LOGFILE_NAME, "glue_logs.log");
    assert_eq!(FileConstants::LOGFILE_PREFIX, "glue_logs_");
}

#[test]
fn test_llmoutputtypes() {
    assert_eq!(LLMOutputTypes::COMPLETION, "completion");
    assert_eq!(LLMOutputTypes::CHAT, "chat");
    assert_eq!(LLMOutputTypes::EMBEDDINGS, "embeddings");
    assert_eq!(LLMOutputTypes::MULTI_MODAL, "multimodal");
}

#[test]
fn test_oailiterals() {
    assert_eq!(OAILiterals::OPENAI_API_KEY, "OPENAI_API_KEY");
    assert_eq!(OAILiterals::OPENAI_API_BASE, "OPENAI_API_BASE");
    assert_eq!(OAILiterals::OPENAI_API_TYPE, "OPENAI_API_TYPE");
    assert_eq!(OAILiterals::OPENAI_API_VERSION, "OPENAI_API_VERSION");
}

#[test]
fn test_constants() {
    assert_eq!(Constants::INPUTS, "inputs");
    assert_eq!(Constants::OUTPUTS, "outputs");
    assert_eq!(Constants::META, "meta");
    assert_eq!(Constants::ID, "id");
    assert_eq!(Constants::TIMESTAMP, "timestamp");
    assert_eq!(Constants::EXEC_SEC, "execution_time_sec");
    assert_eq!(Constants::EVAL_RESULT, "eval_result");
    assert_eq!(Constants::METHOD_NAME, "method_name");
    assert_eq!(Constants::DIR_NAME, "io_logs");
}
