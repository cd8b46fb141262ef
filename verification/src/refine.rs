//! Critique-and-refine: solicit a textual critique of an instruction over a
//! set of examples it got wrong (or a positive critique when it already
//! performs well), then ask the LLM to rewrite the instruction, and take the
//! first `<START>…<END>` chunk of the rewrite.

use vstd::prelude::*;
use crate::dataset::{
    start_pat, end_pat, start_marker_chars, end_marker_chars, Example, collate_spec,
    DatasetSpecificProcessing,
};
use crate::text::{replace_all, extract_between_spec, extract_between_in, str_to_chars,
    chars_to_string};
use crate::pool::fill;

verus! {

/// The failure of a refinement round: the rewrite reply carried no
/// `<START>…<END>` chunk.
#[derive(Debug)]
pub enum RefineError {
    MalformedResponse,
}

impl RefineError {
    /// A human-readable account of the failure.
    pub fn message(&self) -> (r: &'static str)
        ensures
            r@ == "The LLM output is not in the expected format. Please rerun the code..."@,
    {
        "The LLM output is not in the expected format. Please rerun the code..."
    }
}

/// The critique request: instruction and collated examples substituted into
/// the chosen meta-critique template.
pub open spec fn critique_prompt_spec(
    template: Seq<char>,
    instruction: Seq<char>,
    examples_text: Seq<char>,
) -> Seq<char> {
    replace_all(
        replace_all(template, "{instruction}"@, instruction),
        "{examples}"@,
        examples_text,
    )
}

/// The rewrite request: instruction, examples, the critique text, and a
/// step count of 1 substituted into the critique-refine template.
pub open spec fn refine_prompt_spec(
    template: Seq<char>,
    instruction: Seq<char>,
    examples_text: Seq<char>,
    critique: Seq<char>,
) -> Seq<char> {
    replace_all(
        replace_all(
            replace_all(
                replace_all(template, "{instruction}"@, instruction),
                "{examples}"@,
                examples_text,
            ),
            "{critique}"@,
            critique,
        ),
        "{steps_per_sample}"@,
        "1"@,
    )
}

/// Build the critique request. The positive template asks how to improve a
/// prompt that already performs well; the plain one diagnoses failures.
pub fn build_critique_request(template: &str, instruction: &str, examples_text: &str) -> (r:
    String)
    ensures
        r@ == critique_prompt_spec(template@, instruction@, examples_text@),
{
    let t = str_to_chars(template);
    let s1 = fill(&t, "{instruction}", &str_to_chars(instruction));
    let s2 = fill(&s1, "{examples}", &str_to_chars(examples_text));
    chars_to_string(&s2)
}

/// Build the rewrite request from the critique the LLM returned.
pub fn build_refine_request(
    template: &str,
    instruction: &str,
    examples_text: &str,
    critique: &str,
) -> (r: String)
    ensures
        r@ == refine_prompt_spec(template@, instruction@, examples_text@, critique@),
{
    let t = str_to_chars(template);
    let s1 = fill(&t, "{instruction}", &str_to_chars(instruction));
    let s2 = fill(&s1, "{examples}", &str_to_chars(examples_text));
    let s3 = fill(&s2, "{critique}", &str_to_chars(critique));
    let s4 = fill(&s3, "{steps_per_sample}", &str_to_chars("1"));
    chars_to_string(&s4)
}

/// The refined instruction carried by a rewrite reply: the first
/// `<START>…<END>` chunk. Returns the error exactly when no such chunk
/// exists.
pub fn extract_refined(reply: &str) -> (r: Result<String, RefineError>)
    ensures
        match r {
            Ok(s) => extract_between_spec(reply@, start_pat(), end_pat()) == Some(s@),
            Err(_) => extract_between_spec(reply@, start_pat(), end_pat()) is None,
        },
{
    let text = str_to_chars(reply);
    match extract_between_in(&text, &start_marker_chars(), &end_marker_chars()) {
        Some(chunk) => Ok(chars_to_string(&chunk)),
        None => Err(RefineError::MalformedResponse),
    }
}

/// One full critique-and-refine exchange over the two LLM replies: render
/// the wrong examples, choose the critique template (`further_enhance`
/// picks the positive one), and extract the first `<START>…<END>` chunk of
/// the rewrite reply. Returns the two requests that carry the exchange and
/// the outcome, which fails with `MalformedResponse` exactly when the
/// rewrite reply holds no chunk.
pub fn critique_and_refine(
    instruction: &str,
    critique_example_set: &Vec<Example>,
    quest_reason_ans_template: &str,
    meta_critique_template: &str,
    meta_positive_critique_template: &str,
    critique_refine_template: &str,
    further_enhance: bool,
    critique_reply: &str,
    refine_reply: &str,
) -> (r: (String, String, Result<String, RefineError>))
    ensures
        r.0@ == critique_prompt_spec(
            if further_enhance {
                meta_positive_critique_template@
            } else {
                meta_critique_template@
            },
            instruction@,
            collate_spec(critique_example_set@, quest_reason_ans_template@),
        ),
        r.1@ == refine_prompt_spec(
            critique_refine_template@,
            instruction@,
            collate_spec(critique_example_set@, quest_reason_ans_template@),
            critique_reply@,
        ),
        match r.2 {
            Ok(s) => extract_between_spec(refine_reply@, start_pat(), end_pat()) == Some(s@),
            Err(_) => extract_between_spec(refine_reply@, start_pat(), end_pat()) is None,
        },
{
    let example_string = DatasetSpecificProcessing::collate_to_str(
        critique_example_set,
        quest_reason_ans_template,
    );
    let template = if further_enhance {
        meta_positive_critique_template
    } else {
        meta_critique_template
    };
    let critique_request = build_critique_request(template, instruction, example_string.as_str());
    let refine_request = build_refine_request(
        critique_refine_template,
        instruction,
        example_string.as_str(),
        critique_reply,
    );
    let outcome = extract_refined(refine_reply);
    (critique_request, refine_request, outcome)
}

/// Refine the base instruction once by critique over the current examples:
/// the diagnostic critique request, its rewrite request, and the first
/// `<START>…<END>` chunk of the rewrite reply when one exists.
pub fn get_best_instr_by_critique(
    base_instruction: &str,
    examples: &Vec<Example>,
    quest_reason_ans_template: &str,
    meta_critique_template: &str,
    critique_refine_template: &str,
    critique_reply: &str,
    refine_reply: &str,
) -> (r: (String, String, Option<String>))
    ensures
        r.0@ == critique_prompt_spec(
            meta_critique_template@,
            base_instruction@,
            collate_spec(examples@, quest_reason_ans_template@),
        ),
        r.1@ == refine_prompt_spec(
            critique_refine_template@,
            base_instruction@,
            collate_spec(examples@, quest_reason_ans_template@),
            critique_reply@,
        ),
        match r.2 {
            Some(s) => extract_between_spec(refine_reply@, start_pat(), end_pat()) == Some(s@),
            None => extract_between_spec(refine_reply@, start_pat(), end_pat()) is None,
        },
{
    let example_string = DatasetSpecificProcessing::collate_to_str(
        examples,
        quest_reason_ans_template,
    );
    let critique_request = build_critique_request(
        meta_critique_template,
        base_instruction,
        example_string.as_str(),
    );
    let refine_request = build_refine_request(
        critique_refine_template,
        base_instruction,
        example_string.as_str(),
        critique_reply,
    );
    let refined = match extract_refined(refine_reply) {
        Ok(s) => Some(s),
        Err(_) => None,
    };
    (critique_request, refine_request, refined)
}

/// The chunks carried by the first `n` rewrite replies, in reply order,
/// skipping replies without one.
pub open spec fn refined_of(refine_replies: Seq<String>, n: int) -> Seq<Seq<char>>
    decreases n,
{
    if n <= 0 {
        Seq::empty()
    } else {
        refined_of(refine_replies, n - 1) + (match extract_between_spec(
            refine_replies[n - 1]@,
            start_pat(),
            end_pat(),
        ) {
            Some(s) => seq![s],
            None => Seq::<Seq<char>>::empty(),
        })
    }
}

/// Rewrite each retained prompt through its own critique-and-refine
/// exchange, drawing one critique reply and one rewrite reply per prompt. A
/// prompt whose score clears `min_correct_count / max_eval_batches` (by
/// real-valued comparison) gets the positive critique template, the rest
/// the diagnostic one. The first result carries the two requests of each
/// prompt in order; the second the rewritten instructions: one per rewrite
/// reply carrying a `<START>…<END>` chunk, in prompt order, each equal to
/// its own reply's first chunk.
pub fn refine_prompts(
    prompt_score_list: &Vec<crate::score::ScoredPrompt>,
    quest_reason_ans_template: &str,
    meta_critique_template: &str,
    meta_positive_critique_template: &str,
    critique_refine_template: &str,
    min_correct_count: u32,
    max_eval_batches: u32,
    critique_replies: &Vec<String>,
    refine_replies: &Vec<String>,
) -> (r: (Vec<(String, String)>, Vec<String>))
    requires
        critique_replies@.len() >= prompt_score_list@.len(),
        refine_replies@.len() >= prompt_score_list@.len(),
    ensures
        r.0@.len() == prompt_score_list@.len(),
        forall|i: int|
            0 <= i < r.0@.len() ==> (#[trigger] r.0@[i]).0@ == critique_prompt_spec(
                if crate::score::clears_refine_threshold(
                    prompt_score_list@[i].score,
                    min_correct_count,
                    max_eval_batches,
                ) {
                    meta_positive_critique_template@
                } else {
                    meta_critique_template@
                },
                prompt_score_list@[i].instruction@,
                collate_spec(prompt_score_list@[i].wrong_examples@, quest_reason_ans_template@),
            ) && r.0@[i].1@ == refine_prompt_spec(
                critique_refine_template@,
                prompt_score_list@[i].instruction@,
                collate_spec(prompt_score_list@[i].wrong_examples@, quest_reason_ans_template@),
                critique_replies@[i]@,
            ),
        r.1@.map_values(|s: String| s@) == refined_of(
            refine_replies@,
            prompt_score_list@.len() as int,
        ),
{
    let n = prompt_score_list.len();
    let mut requests: Vec<(String, String)> = Vec::new();
    let mut out: Vec<String> = Vec::new();
    let mut i: usize = 0;
    while i < n
        invariant
            n == prompt_score_list@.len(),
            critique_replies@.len() >= n,
            refine_replies@.len() >= n,
            i <= n,
            requests@.len() == i,
            forall|k: int|
                0 <= k < i ==> (#[trigger] requests@[k]).0@ == critique_prompt_spec(
                    if crate::score::clears_refine_threshold(
                        prompt_score_list@[k].score,
                        min_correct_count,
                        max_eval_batches,
                    ) {
                        meta_positive_critique_template@
                    } else {
                        meta_critique_template@
                    },
                    prompt_score_list@[k].instruction@,
                    collate_spec(
                        prompt_score_list@[k].wrong_examples@,
                        quest_reason_ans_template@,
                    ),
                ) && requests@[k].1@ == refine_prompt_spec(
                    critique_refine_template@,
                    prompt_score_list@[k].instruction@,
                    collate_spec(
                        prompt_score_list@[k].wrong_examples@,
                        quest_reason_ans_template@,
                    ),
                    critique_replies@[k]@,
                ),
            out@.map_values(|s: String| s@) == refined_of(refine_replies@, i as int),
        decreases n - i,
    {
        proof {
            assert((prompt_score_list@[i as int].score.num as int) * (max_eval_batches as int)
                <= 0xFFFF_FFFF_FFFF_FFFF && (min_correct_count as int) * (
            prompt_score_list@[i as int].score.den as int) <= 0xFFFF_FFFF_FFFF_FFFF)
                by (nonlinear_arith)
                requires
                    0 <= prompt_score_list@[i as int].score.num <= 0xFFFF_FFFF,
                    0 <= max_eval_batches <= 0xFFFF_FFFF,
                    0 <= min_correct_count <= 0xFFFF_FFFF,
                    0 <= prompt_score_list@[i as int].score.den <= 0xFFFF_FFFF,
            ;
        }
        let further_enhance = (prompt_score_list[i].score.num as u64) * (max_eval_batches as u64)
            >= (min_correct_count as u64) * (prompt_score_list[i].score.den as u64);
        let (creq, rreq, outcome) = critique_and_refine(
            prompt_score_list[i].instruction.as_str(),
            &prompt_score_list[i].wrong_examples,
            quest_reason_ans_template,
            meta_critique_template,
            meta_positive_critique_template,
            critique_refine_template,
            further_enhance,
            critique_replies[i].as_str(),
            refine_replies[i].as_str(),
        );
        requests.push((creq, rreq));
        let ghost out0 = out@;
        match outcome {
            Ok(s) => {
                let ghost sv = s@;
                out.push(s);
                proof {
                    let m = |x: String| x@;
                    assert(out@.map_values(m) =~= out0.map_values(m).push(sv));
                    assert(out0.map_values(m).push(sv) =~= out0.map_values(m) + seq![sv]);
                }
            },
            Err(_) => {
                proof {
                    let m = |x: String| x@;
                    assert(out0.map_values(m) + Seq::<Seq<char>>::empty() =~= out0.map_values(m));
                }
            },
        }
        i += 1;
    }
    (requests, out)
}

} // verus!
