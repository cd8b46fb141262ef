//! The example engine: re-extract structured training examples from an LLM
//! reply, and build the critique and optimization requests used to improve
//! or synthesize few-shot examples.

use vstd::prelude::*;
use crate::dataset::{
    Example, start_pat, end_pat, start_marker_chars, end_marker_chars, extract_final_answer_spec,
    DatasetSpecificProcessing, collate_spec,
};
use crate::text::{
    replace_all, extract_all_between, extract_all_between_in, extract_between_spec,
    extract_between_in, find_sub, find_in, suffix_from, trim_spec, trim_in, str_to_chars,
    chars_to_string, contains_sub,
};
use crate::pool::fill;

verus! {

/// `"[Question]"`, the key that opens a question inside a chunk.
pub open spec fn question_key() -> Seq<char> {
    seq!['[', 'Q', 'u', 'e', 's', 't', 'i', 'o', 'n', ']']
}

/// `"[Answer]"`, the key that opens an answer inside a chunk.
pub open spec fn answer_key() -> Seq<char> {
    seq!['[', 'A', 'n', 's', 'w', 'e', 'r', ']']
}

pub fn question_key_chars() -> (r: Vec<char>)
    ensures
        r@ == question_key(),
{
    let v = str_to_chars("[Question]");
    proof {
        reveal_strlit("[Question]");
        assert(v@ =~= question_key());
    }
    v
}

pub fn answer_key_chars() -> (r: Vec<char>)
    ensures
        r@ == answer_key(),
{
    let v = str_to_chars("[Answer]");
    proof {
        reveal_strlit("[Answer]");
        assert(v@ =~= answer_key());
    }
    v
}

/// The text after the first occurrence of `pat`, or all of `s` when `pat`
/// does not occur.
pub open spec fn after_first(s: Seq<char>, pat: Seq<char>) -> Seq<char> {
    match find_sub(s, pat) {
        Some(i) => s.skip(i + pat.len() as int),
        None => s,
    }
}

/// The question a chunk carries: the trimmed text between `[Question]` and
/// `[Answer]`, or empty when the pair is not found in that order.
pub open spec fn chunk_question(t: Seq<char>) -> Seq<char> {
    match extract_between_spec(t, question_key(), answer_key()) {
        Some(x) => trim_spec(x),
        None => Seq::empty(),
    }
}

/// The reasoned answer a chunk carries: the trimmed text after `[Answer]`.
pub open spec fn chunk_answer(t: Seq<char>) -> Seq<char> {
    trim_spec(after_first(t, answer_key()))
}

/// A chunk yields an example when it mentions both keys: the question, the
/// reasoned answer, and the final answer carried between the answer markers
/// inside the reasoned answer.
pub open spec fn example_of_chunk(chunk: Seq<char>) -> Option<(Seq<char>, Seq<char>, Seq<char>)> {
    let t = trim_spec(chunk);
    if contains_sub(t, question_key()) && contains_sub(t, answer_key()) {
        let awr = chunk_answer(t);
        Some((chunk_question(t), awr, extract_final_answer_spec(awr)))
    } else {
        None
    }
}

/// Every example carried by the chunks, in order.
pub open spec fn examples_of_chunks(chunks: Seq<Seq<char>>) -> Seq<(Seq<char>, Seq<char>, Seq<
    char,
>)>
    decreases chunks.len(),
{
    if chunks.len() == 0 {
        Seq::empty()
    } else {
        let head: Seq<(Seq<char>, Seq<char>, Seq<char>)> = match example_of_chunk(chunks[0]) {
            Some(e) => seq![e],
            None => Seq::empty(),
        };
        head + examples_of_chunks(chunks.skip(1))
    }
}

/// The triples a sequence of examples stands for: question, reasoned
/// answer, final answer.
pub open spec fn example_triples(examples: Seq<Example>) -> Seq<(Seq<char>, Seq<char>, Seq<char>)> {
    examples.map_values(
        |e: Example|
            (
                e.question@,
                match e.answer_with_reason {
                    Some(a) => a@,
                    None => Seq::<char>::empty(),
                },
                e.final_answer@,
            ),
    )
}

/// Extract the example of one chunk, when it carries both keys.
fn extract_one_example(chunk: &Vec<char>) -> (r: Option<Example>)
    ensures
        match r {
            Some(e) => example_of_chunk(chunk@) == Some(
                (
                    e.question@,
                    match e.answer_with_reason {
                        Some(a) => a@,
                        None => Seq::<char>::empty(),
                    },
                    e.final_answer@,
                ),
            ) && e.answer_with_reason is Some,
            None => example_of_chunk(chunk@) is None,
        },
{
    let t = trim_in(chunk);
    let qk = question_key_chars();
    let ak = answer_key_chars();
    let has_q = match find_in(&t, &qk) {
        Some(_) => true,
        None => false,
    };
    let has_a = match find_in(&t, &ak) {
        Some(_) => true,
        None => false,
    };
    if !(has_q && has_a) {
        return None;
    }
    let question = match extract_between_in(&t, &qk, &ak) {
        Some(x) => trim_in(&x),
        None => Vec::new(),
    };
    proof {
        if extract_between_spec(t@, question_key(), answer_key()) is None {
            assert(Seq::<char>::empty() =~= chunk_question(t@));
        }
    }
    let tlen = t.len();
    let awr = match find_in(&t, &ak) {
        Some(i) => {
            proof {
                assert(i + answer_key().len() <= tlen);
            }
            let tail = suffix_from(&t, i + ak.len());
            trim_in(&tail)
        },
        None => trim_in(&t),
    };
    let proc = DatasetSpecificProcessing {};
    let awr_s = chars_to_string(&awr);
    let final_answer = proc.extract_final_answer(awr_s.as_str());
    Some(
        Example {
            question: chars_to_string(&question),
            final_answer,
            answer_with_reason: Some(awr_s),
        },
    )
}

/// Re-extract structured examples from a reply: take every `<START>…<END>`
/// chunk and keep those carrying a `[Question] … [Answer] …` pair, reading
/// the final answer from between the answer markers.
pub fn extract_examples_from_response(response_with_examples: &str) -> (r: Vec<Example>)
    ensures
        example_triples(r@) == examples_of_chunks(
            extract_all_between(response_with_examples@, start_pat(), end_pat()),
        ),
        forall|i: int| 0 <= i < r@.len() ==> (#[trigger] r@[i]).answer_with_reason is Some,
{
    let text = str_to_chars(response_with_examples);
    let chunks = extract_all_between_in(&text, &start_marker_chars(), &end_marker_chars());
    let ghost cseq = chunks@.map_values(|v: Vec<char>| v@);
    let n = chunks.len();
    let mut out: Vec<Example> = Vec::new();
    let mut i: usize = 0;
    proof {
        assert(cseq.skip(0) =~= cseq);
        assert(example_triples(out@) =~= Seq::<(Seq<char>, Seq<char>, Seq<char>)>::empty());
        assert(Seq::<(Seq<char>, Seq<char>, Seq<char>)>::empty() + examples_of_chunks(cseq)
            =~= examples_of_chunks(cseq));
    }
    while i < n
        invariant
            n == chunks@.len(),
            cseq == chunks@.map_values(|v: Vec<char>| v@),
            i <= n,
            examples_of_chunks(cseq) == example_triples(out@) + examples_of_chunks(
                cseq.skip(i as int),
            ),
            forall|k: int| 0 <= k < out@.len() ==> (#[trigger] out@[k]).answer_with_reason is Some,
        decreases n - i,
    {
        proof {
            let tail = cseq.skip(i as int);
            assert(tail[0] == cseq[i as int]);
            assert(tail.skip(1) =~= cseq.skip(i + 1));
        }
        let got = extract_one_example(&chunks[i]);
        match got {
            Some(e) => {
                proof {
                    let f = |e: Example|
                        (
                            e.question@,
                            match e.answer_with_reason {
                                Some(a) => a@,
                                None => Seq::<char>::empty(),
                            },
                            e.final_answer@,
                        );
                    assert(example_triples(out@.push(e)) =~= example_triples(out@).push(f(e)));
                    assert(example_triples(out@).push(f(e)) + examples_of_chunks(cseq.skip(i + 1))
                        =~= example_triples(out@) + (seq![f(e)] + examples_of_chunks(
                        cseq.skip(i + 1),
                    )));
                }
                out.push(e);
            },
            None => {
                proof {
                    assert(Seq::<(Seq<char>, Seq<char>, Seq<char>)>::empty() + examples_of_chunks(
                        cseq.skip(i + 1),
                    ) =~= examples_of_chunks(cseq.skip(i + 1)));
                }
            },
        }
        i += 1;
    }
    proof {
        assert(cseq.skip(n as int) =~= Seq::<Seq<char>>::empty());
        assert(example_triples(out@) + Seq::<(Seq<char>, Seq<char>, Seq<char>)>::empty()
            =~= example_triples(out@));
    }
    out
}

// ---------------------------------------------------------------------------
// Requests for improving or synthesizing examples
// ---------------------------------------------------------------------------

/// The critique request over the current few-shot examples.
pub open spec fn examples_critique_prompt_spec(
    template: Seq<char>,
    base_instruction: Seq<char>,
    examples_text: Seq<char>,
    task_description: Seq<char>,
    num_examples: nat,
) -> Seq<char> {
    replace_all(
        replace_all(
            replace_all(
                replace_all(template, "{prompt}"@, base_instruction),
                "{examples}"@,
                examples_text,
            ),
            "{task_description}"@,
            task_description,
        ),
        "{num_examples}"@,
        crate::text::dec_rep(num_examples),
    )
}

/// Exec construction of the examples-critique request. For the zero-shot
/// variant, pass the zero-shot template and an empty examples text.
pub fn build_examples_critique_request(
    template: &str,
    base_instruction: &str,
    examples_text: &str,
    task_description: &str,
    num_examples: u32,
) -> (r: String)
    ensures
        r@ == examples_critique_prompt_spec(
            template@,
            base_instruction@,
            examples_text@,
            task_description@,
            num_examples as nat,
        ),
{
    let t = str_to_chars(template);
    let s1 = fill(&t, "{prompt}", &str_to_chars(base_instruction));
    let s2 = fill(&s1, "{examples}", &str_to_chars(examples_text));
    let s3 = fill(&s2, "{task_description}", &str_to_chars(task_description));
    let s4 = fill(&s3, "{num_examples}", &crate::text::u64_to_chars(num_examples as u64));
    chars_to_string(&s4)
}

/// The optimization request that asks for a rewritten example set.
pub open spec fn examples_optimization_prompt_spec(
    template: Seq<char>,
    base_instruction: Seq<char>,
    examples_text: Seq<char>,
    gt_example_text: Seq<char>,
    critique: Seq<char>,
    task_description: Seq<char>,
    num_examples: nat,
) -> Seq<char> {
    replace_all(
        replace_all(
            replace_all(
                replace_all(
                    replace_all(
                        replace_all(template, "{prompt}"@, base_instruction),
                        "{examples}"@,
                        examples_text,
                    ),
                    "{gt_example}"@,
                    gt_example_text,
                ),
                "{critique}"@,
                critique,
            ),
            "{task_description}"@,
            task_description,
        ),
        "{num_examples}"@,
        crate::text::dec_rep(num_examples),
    )
}

/// Exec construction of the examples-optimization request. For the
/// zero-shot variant, pass empty examples and ground-truth texts.
pub fn build_examples_optimization_request(
    template: &str,
    base_instruction: &str,
    examples_text: &str,
    gt_example_text: &str,
    critique: &str,
    task_description: &str,
    num_examples: u32,
) -> (r: String)
    ensures
        r@ == examples_optimization_prompt_spec(
            template@,
            base_instruction@,
            examples_text@,
            gt_example_text@,
            critique@,
            task_description@,
            num_examples as nat,
        ),
{
    let t = str_to_chars(template);
    let s1 = fill(&t, "{prompt}", &str_to_chars(base_instruction));
    let s2 = fill(&s1, "{examples}", &str_to_chars(examples_text));
    let s3 = fill(&s2, "{gt_example}", &str_to_chars(gt_example_text));
    let s4 = fill(&s3, "{critique}", &str_to_chars(critique));
    let s5 = fill(&s4, "{task_description}", &str_to_chars(task_description));
    let s6 = fill(&s5, "{num_examples}", &crate::text::u64_to_chars(num_examples as u64));
    chars_to_string(&s6)
}

/// Improve the few-shot example set through a critique-and-optimize
/// exchange: the critique request over the current examples, the
/// optimization request carrying the critique reply and a randomly drawn
/// ground-truth example, and the examples re-extracted from the
/// optimization reply.
pub fn generate_best_examples(
    examples: &Vec<Example>,
    dataset: &Vec<Example>,
    quest_reason_ans_template: &str,
    examples_critique_template: &str,
    examples_optimization_template: &str,
    base_instruction: &str,
    task_description: &str,
    few_shot_count: u32,
    critique_reply: &str,
    optimization_reply: &str,
    rng: &mut rand::rngs::StdRng,
) -> (r: (String, String, Vec<Example>))
    requires
        dataset@.len() >= 1,
    ensures
        r.0@ == examples_critique_prompt_spec(
            examples_critique_template@,
            base_instruction@,
            collate_spec(examples@, quest_reason_ans_template@),
            task_description@,
            few_shot_count as nat,
        ),
        exists|g: Seq<Example>|
            g.len() == 1 && dataset@.contains(g[0]) && r.1@
                == examples_optimization_prompt_spec(
                examples_optimization_template@,
                base_instruction@,
                collate_spec(examples@, quest_reason_ans_template@),
                collate_spec(g, quest_reason_ans_template@),
                critique_reply@,
                task_description@,
                few_shot_count as nat,
            ),
        example_triples(r.2@) == examples_of_chunks(
            extract_all_between(optimization_reply@, start_pat(), end_pat()),
        ),
{
    let example_string = DatasetSpecificProcessing::collate_to_str(
        examples,
        quest_reason_ans_template,
    );
    let critique_request = build_examples_critique_request(
        examples_critique_template,
        base_instruction,
        example_string.as_str(),
        task_description,
        few_shot_count,
    );
    let gt_idx = crate::rng::random_index(rng, dataset.len());
    let mut gt: Vec<Example> = Vec::new();
    gt.push(dataset[gt_idx].clone());
    let gt_string = DatasetSpecificProcessing::collate_to_str(&gt, quest_reason_ans_template);
    let optimization_request = build_examples_optimization_request(
        examples_optimization_template,
        base_instruction,
        example_string.as_str(),
        gt_string.as_str(),
        critique_reply,
        task_description,
        few_shot_count,
    );
    let extracted = extract_examples_from_response(optimization_reply);
    proof {
        let g = gt@;
        assert(g[0] == dataset@[gt_idx as int]);
        assert(dataset@.contains(g[0]));
    }
    (critique_request, optimization_request, extracted)
}

/// Synthesize training examples from the two replies of the zero-shot
/// exchange: the optimization reply is parsed for examples; the critique
/// reply only shaped that request.
pub fn generate_best_examples_zero_shot(optimization_reply: &str) -> (r: Vec<Example>)
    ensures
        example_triples(r@) == examples_of_chunks(
            extract_all_between(optimization_reply@, start_pat(), end_pat()),
        ),
        forall|i: int| 0 <= i < r@.len() ==> (#[trigger] r@[i]).answer_with_reason is Some,
{
    extract_examples_from_response(optimization_reply)
}

} // verus!
