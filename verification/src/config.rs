//! Configuration data: model and endpoint descriptions, run setup, task
//! descriptions and the command-line argument record. Loading these from
//! YAML and flags happens outside the library; the values live here.

use vstd::prelude::*;

verus! {

/// One configured language model endpoint.
#[derive(Debug, Clone)]
pub struct ConfigLLM {
    pub name: String,
    pub api: String,
    pub key: String,
    pub endpoint: String,
}

/// The full configuration a run starts from.
#[derive(Debug, Clone)]
pub struct ConfigData {
    pub llm: Vec<ConfigLLM>,
}

/// The parsed command line: the configuration file to read and the version
/// text to print.
#[derive(Debug, Clone)]
pub struct Argument {
    pub config_file: String,
    pub version_info: String,
}

/// Description of one deployable model.
#[derive(Debug, Clone)]
pub struct LLMModel {
    pub unique_model_id: String,
    pub model_type: String,
    pub track_tokens: String,
    pub req_per_min: i32,
    pub tokens_per_min: i32,
    pub error_backoff_in_seconds: i32,
}

/// Per-user request limits.
#[derive(Debug, Clone)]
pub struct UserLimits {
    pub max_num_requests_in_time_window: i32,
    pub time_window_length_in_seconds: i32,
}

/// Limits of the request queue scheduler.
#[derive(Debug, Clone)]
pub struct LLMQueueSchedulerLimits {
    pub ttl_in_seconds: i32,
    pub max_queue_size: i32,
}

/// An Azure OpenAI model entry.
#[derive(Debug, Clone)]
pub struct AzureAOIModels {
    pub base: LLMModel,
    pub model_name_in_azure: String,
    pub deployment_name_in_azure: String,
}

/// An Azure OpenAI account with its models.
#[derive(Debug, Clone)]
pub struct AzureAOILM {
    pub api_key: String,
    pub api_version: String,
    pub api_type: String,
    pub azure_endpoint: String,
    pub azure_oai_models: Vec<AzureAOIModels>,
}

/// A user-supplied model adapter, selected by name from a closed set.
#[derive(Debug, Clone)]
pub struct CustomLLM {
    pub base: LLMModel,
    pub path_to_py_file: String,
    pub class_name: String,
}

/// The LLM section of the configuration.
#[derive(Debug, Clone)]
pub struct LLMConfig {
    pub azure_open_ai: AzureAOILM,
    pub user_limits: UserLimits,
    pub scheduler_limits: LLMQueueSchedulerLimits,
    pub custom_models: Vec<CustomLLM>,
}

/// The assistant model driving prompt optimization.
#[derive(Debug, Clone)]
pub struct AssistantLLM {
    pub prompt_opt: String,
}

/// Where a run keeps its files.
#[derive(Debug, Clone)]
pub struct Dir {
    pub base_dir: String,
    pub log_dir_name: String,
}

/// Whether the run talks to a live endpoint or replays recorded traffic.
#[derive(Debug, Clone, PartialEq, Eq, Structural)]
pub enum OperationMode {
    Online,
    Offline,
}

/// The experiment setup of one run.
#[derive(Debug, Clone)]
pub struct SetupConfig {
    pub assistant_llm: AssistantLLM,
    pub dir_info: Dir,
    pub experiment_name: String,
    pub mode: OperationMode,
    pub description: String,
}

/// One task in the prompt library.
#[derive(Debug, Clone)]
pub struct TaskConfig {
    pub name: String,
    pub prompt_template: String,
    pub llm_request_type: String,
    pub prepend_system_prompts: bool,
    pub prepend_system_guidelines: bool,
    pub emb_model_id: Option<String>,
    pub llm_model_id: Option<String>,
}

/// The default for the prepend switches of a task.
pub fn default_true() -> (r: bool)
    ensures
        r,
{
    true
}

/// The chat and generation task lists.
#[derive(Debug, Clone)]
pub struct Mode {
    pub chat: Vec<TaskConfig>,
    pub generation: Vec<TaskConfig>,
}

/// The prompt library with its optional shared prompts.
#[derive(Debug, Clone)]
pub struct PromptLibraryConfig {
    pub mode: Mode,
    pub system_prompts: Option<String>,
    pub system_guidelines: Option<String>,
}

/// The optimizer as configured for one run.
#[derive(Clone)]
pub struct Optimizer {
    pub config: ConfigData,
}

impl Optimizer {
    pub fn new(config: ConfigData) -> (r: Optimizer)
        ensures
            r.config == config,
    {
        Optimizer { config }
    }
}

/// Identification of the optimization technique in use.
#[derive(Debug, Clone)]
pub struct PromptOptimizationParams {
    pub prompt_technique_name: String,
}

impl PromptOptimizationParams {
    pub fn new(prompt_technique_name: String) -> (r: PromptOptimizationParams)
        ensures
            r.prompt_technique_name == prompt_technique_name,
    {
        PromptOptimizationParams { prompt_technique_name }
    }
}

} // verus!
