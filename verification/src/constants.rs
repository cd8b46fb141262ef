//! Named constants: directory and file names, LLM output kinds, OpenAI
//! environment literals, and the field names of logger records.

use vstd::prelude::*;

verus! {

pub struct DirNames {}

impl DirNames {
    pub const MODEL_DIR: &'static str = "/tmp/model";

    pub const PACKAGE_BASE_DIR: &'static str = "/tmp/packages";
}

pub struct FileConstants {}

impl FileConstants {
    pub const LOGFILE_NAME: &'static str = "glue_logs.log";

    pub const LOGFILE_PREFIX: &'static str = "glue_logs_";
}

pub struct LLMOutputTypes {}

impl LLMOutputTypes {
    pub const COMPLETION: &'static str = "completion";

    pub const CHAT: &'static str = "chat";

    pub const EMBEDDINGS: &'static str = "embeddings";

    pub const MULTI_MODAL: &'static str = "multimodal";
}

pub struct OAILiterals {}

impl OAILiterals {
    pub const OPENAI_API_KEY: &'static str = "OPENAI_API_KEY";

    pub const OPENAI_API_BASE: &'static str = "OPENAI_API_BASE";

    pub const OPENAI_API_TYPE: &'static str = "OPENAI_API_TYPE";

    pub const OPENAI_API_VERSION: &'static str = "OPENAI_API_VERSION";
}

/// Field names of the logger's JSON records.
pub struct Constants {}

impl Constants {
    pub const INPUTS: &'static str = "inputs";

    pub const OUTPUTS: &'static str = "outputs";

    pub const META: &'static str = "meta";

    pub const ID: &'static str = "id";

    pub const TIMESTAMP: &'static str = "timestamp";

    pub const EXEC_SEC: &'static str = "execution_time_sec";

    pub const EVAL_RESULT: &'static str = "eval_result";

    pub const METHOD_NAME: &'static str = "method_name";

    pub const DIR_NAME: &'static str = "io_logs";
}

} // verus!
