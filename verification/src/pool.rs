//! The prompt pool: an immutable bundle of template strings, and the
//! optimization parameters that steer the search. Templates are filled by
//! literal replacement of `{name}` tokens only.

use vstd::prelude::*;
use crate::text::{replace_all, replace_all_in, str_to_chars, chars_to_string, u64_to_chars, dec_rep};

verus! {

/// Base templates shared by every optimizer.
pub struct PromptPool {
    pub system_prompt: String,
    pub final_prompt: String,
    pub eval_prompt: String,
}

/// The full template bundle of the critique-and-refine optimizer. All
/// templates are uninterpreted text; substitution is literal.
pub struct CritiqueNRefinePromptPool {
    pub base: PromptPool,
    pub quest_reason_ans: String,
    pub expert_profile: String,
    pub ans_delimiter_instruction: String,
    pub intent_template: String,
    pub thinking_styles: Vec<String>,
    pub meta_critique_template: String,
    pub meta_positive_critique_template: String,
    pub critique_refine_template: String,
    pub solve_template: String,
    pub examples_critique_template: String,
    pub examples_optimization_template: String,
    pub meta_sample_template: String,
    pub expert_template: String,
    pub generate_reason_template: String,
    pub reason_optimization_template: String,
    pub examples_critique_template_zero_shot: String,
}

/// Parameters of one optimization run. All counts are non-negative;
/// `base_instruction` is the one field the orchestrator rewrites.
pub struct CritiqueNRefineParams {
    pub unique_model_id: String,
    pub style_variation: u32,
    pub questions_batch_size: u32,
    pub min_correct_count: u32,
    pub max_eval_batches: u32,
    pub top_n: u32,
    pub mutation_rounds: u32,
    pub refine_instruction: bool,
    pub mutate_refine_iterations: u32,
    pub refine_task_eg_iterations: u32,
    pub task_description: String,
    pub base_instruction: String,
    pub answer_format: String,
    pub seen_set_size: u32,
    pub few_shot_count: u32,
    pub generate_reasoning: bool,
    pub generate_expert_identity: bool,
    pub generate_intent_keywords: bool,
    pub num_train_examples: u32,
}

impl CritiqueNRefineParams {
    /// Parameters the optimization loop can run on.
    pub open spec fn wf(&self) -> bool {
        self.top_n >= 1 && self.questions_batch_size >= 1
    }
}

// ---------------------------------------------------------------------------
// Template filling
// ---------------------------------------------------------------------------

/// Replace one `{name}` token, literally.
pub fn fill(template: &Vec<char>, token: &str, value: &Vec<char>) -> (r: Vec<char>)
    ensures
        r@ == replace_all(template@, token@, value@),
{
    let pat = str_to_chars(token);
    replace_all_in(template, &pat, value)
}

/// The meta-sample prompt of one mutation round: the mutation template with
/// the task description, the joined thinking styles, their count, and the
/// instruction substituted in.
pub open spec fn meta_sample_prompt_spec(
    template: Seq<char>,
    task_description: Seq<char>,
    meta_prompts: Seq<char>,
    num_variations: nat,
    prompt_instruction: Seq<char>,
) -> Seq<char> {
    replace_all(
        replace_all(
            replace_all(
                replace_all(template, "{task_description}"@, task_description),
                "{meta_prompts}"@,
                meta_prompts,
            ),
            "{num_variations}"@,
            dec_rep(num_variations),
        ),
        "{prompt_instruction}"@,
        prompt_instruction,
    )
}

/// The solve prompt of one evaluation batch.
pub open spec fn solve_prompt_spec(
    template: Seq<char>,
    questions_batch_size: nat,
    answer_format: Seq<char>,
    instruction: Seq<char>,
    questions: Seq<char>,
) -> Seq<char> {
    replace_all(
        replace_all(
            replace_all(
                replace_all(template, "{questions_batch_size}"@, dec_rep(questions_batch_size)),
                "{answer_format}"@,
                answer_format,
            ),
            "{instruction}"@,
            instruction,
        ),
        "{questions}"@,
        questions,
    )
}

/// Exec construction of the solve prompt.
pub fn build_solve_prompt(
    template: &str,
    questions_batch_size: u32,
    answer_format: &str,
    instruction: &str,
    questions: &Vec<char>,
) -> (r: String)
    ensures
        r@ == solve_prompt_spec(
            template@,
            questions_batch_size as nat,
            answer_format@,
            instruction@,
            questions@,
        ),
{
    let t = str_to_chars(template);
    let bs = u64_to_chars(questions_batch_size as u64);
    let s1 = fill(&t, "{questions_batch_size}", &bs);
    let s2 = fill(&s1, "{answer_format}", &str_to_chars(answer_format));
    let s3 = fill(&s2, "{instruction}", &str_to_chars(instruction));
    let s4 = fill(&s3, "{questions}", questions);
    chars_to_string(&s4)
}

/// The final composed prompt: instruction, answer format, and the few-shot
/// block substituted into the final-prompt template.
pub open spec fn final_prompt_spec(
    template: Seq<char>,
    instruction: Seq<char>,
    answer_format: Seq<char>,
    few_shot_examples: Seq<char>,
) -> Seq<char> {
    replace_all(
        replace_all(
            replace_all(template, "{instruction}"@, instruction),
            "{answer_format}"@,
            answer_format,
        ),
        "{few_shot_examples}"@,
        few_shot_examples,
    )
}

/// Exec construction of the final prompt.
pub fn build_final_prompt(
    template: &str,
    instruction: &str,
    answer_format: &str,
    few_shot_examples: &Vec<char>,
) -> (r: String)
    ensures
        r@ == final_prompt_spec(template@, instruction@, answer_format@, few_shot_examples@),
{
    let t = str_to_chars(template);
    let s1 = fill(&t, "{instruction}", &str_to_chars(instruction));
    let s2 = fill(&s1, "{answer_format}", &str_to_chars(answer_format));
    let s3 = fill(&s2, "{few_shot_examples}", few_shot_examples);
    chars_to_string(&s3)
}

/// A one-placeholder template filled with the task description.
pub open spec fn task_prompt_spec(template: Seq<char>, task_description: Seq<char>) -> Seq<char> {
    replace_all(template, "{task_description}"@, task_description)
}

/// Exec construction of the expert-identity prompt.
pub fn build_expert_prompt(template: &str, task_description: &str) -> (r: String)
    ensures
        r@ == task_prompt_spec(template@, task_description@),
{
    let t = str_to_chars(template);
    let s1 = fill(&t, "{task_description}", &str_to_chars(task_description));
    chars_to_string(&s1)
}

/// The intent-keywords prompt: task description and instruction substituted.
pub open spec fn intent_prompt_spec(
    template: Seq<char>,
    task_description: Seq<char>,
    instruction: Seq<char>,
) -> Seq<char> {
    replace_all(
        replace_all(template, "{task_description}"@, task_description),
        "{instruction}"@,
        instruction,
    )
}

/// Exec construction of the intent-keywords prompt.
pub fn build_intent_prompt(template: &str, task_description: &str, instruction: &str) -> (r:
    String)
    ensures
        r@ == intent_prompt_spec(template@, task_description@, instruction@),
{
    let t = str_to_chars(template);
    let s1 = fill(&t, "{task_description}", &str_to_chars(task_description));
    let s2 = fill(&s1, "{instruction}", &str_to_chars(instruction));
    chars_to_string(&s2)
}

/// The chain-of-thought prompt: task description, instruction, question and
/// answer substituted into the reasoning template.
pub open spec fn reason_prompt_spec(
    template: Seq<char>,
    task_description: Seq<char>,
    instruction: Seq<char>,
    question: Seq<char>,
    answer: Seq<char>,
) -> Seq<char> {
    replace_all(
        replace_all(
            replace_all(
                replace_all(template, "{task_description}"@, task_description),
                "{instruction}"@,
                instruction,
            ),
            "{question}"@,
            question,
        ),
        "{answer}"@,
        answer,
    )
}

/// Exec construction of the chain-of-thought prompt.
pub fn build_reason_prompt(
    template: &str,
    task_description: &str,
    instruction: &str,
    question: &str,
    answer: &str,
) -> (r: String)
    ensures
        r@ == reason_prompt_spec(template@, task_description@, instruction@, question@, answer@),
{
    let t = str_to_chars(template);
    let s1 = fill(&t, "{task_description}", &str_to_chars(task_description));
    let s2 = fill(&s1, "{instruction}", &str_to_chars(instruction));
    let s3 = fill(&s2, "{question}", &str_to_chars(question));
    let s4 = fill(&s3, "{answer}", &str_to_chars(answer));
    chars_to_string(&s4)
}

} // verus!
