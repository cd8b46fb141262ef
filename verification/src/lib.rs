//! Core of a prompt-optimization engine. Given a task description, a base
//! instruction and a small labelled dataset, the engine searches for a
//! prompt that maximizes an external LLM's accuracy on the task: it
//! generates stylistic variations of the instruction, scores each against
//! random dataset batches, keeps the top scorers, rewrites them through
//! LLM critiques, selects or synthesizes few-shot examples, and assembles
//! the final prompt. Every decision lives here and is verified; the LLM
//! exchanges and file writes are performed by the caller, one
//! `engine::EngineAction` at a time.

pub mod config;
pub mod constants;
pub mod dataset;
pub mod engine;
pub mod errors;
pub mod examples;
pub mod file_utils;
pub mod llm;
pub mod logger;
pub mod mutate;
pub mod pool;
pub mod refine;
pub mod rng;
pub mod score;
pub mod scorer;
pub mod text;
pub mod utils;
