//! The orchestrator: drives mutation, scoring, top-k selection, critique
//! refinement, few-shot example selection and final prompt assembly as an
//! explicit state machine. The caller performs each LLM exchange and file
//! write: `start` yields the first action, and every reply is handed back
//! through `step`, which yields the next one. The decisions are all here
//! and verified; only the I/O lives outside.

use vstd::prelude::*;
use crate::dataset::{Example, DatasetSpecificProcessing, collate_spec, start_pat, end_pat,
    ans_start_pat, ans_end_pat};
use crate::score::{ScoredPrompt, select_top_prompts, all_dens_positive, clears_refine_threshold};
use crate::scorer::{ScoreState, begin_scoring, solve_request, absorb_solve_reply, finish_scoring,
    evaluate, wrong_of};
use crate::mutate::{MutationSession, begin_mutation, mutation_absorb, seed_candidate};
use crate::refine::{build_critique_request, build_refine_request, extract_refined,
    critique_prompt_spec, refine_prompt_spec};
use crate::examples::{extract_examples_from_response, build_examples_critique_request,
    build_examples_optimization_request, examples_critique_prompt_spec,
    examples_optimization_prompt_spec, example_triples, examples_of_chunks};
use crate::pool::{CritiqueNRefinePromptPool, CritiqueNRefineParams, build_solve_prompt,
    build_final_prompt, build_expert_prompt, build_intent_prompt, build_reason_prompt,
    solve_prompt_spec, final_prompt_spec, meta_sample_prompt_spec, task_prompt_spec,
    intent_prompt_spec, reason_prompt_spec};
use crate::logger::{Logger, json_string, json_string_in};
use crate::text::{str_to_chars, chars_to_string, push_all, u64_to_chars, dec_rep, join_with,
    extract_all_between, extract_between_spec};
use crate::rng::{random_bool, random_index, sample_distinct_indices};

verus! {

/// What the engine asks its driver to do next.
pub enum EngineAction {
    /// Send one chat completion: the user prompt, and the system prompt to
    /// use in place of the default one, if any.
    Chat { user_prompt: String, system_prompt: Option<String> },
    /// The run is over: write `lines` (one JSON record per line) to
    /// `file_name` under the log base when one is named, print the texts of
    /// `printout`, and return `(final_prompt, expert_identity)`.
    Finish {
        file_name: Option<String>,
        lines: Vec<String>,
        printout: Vec<String>,
        final_prompt: String,
        expert_identity: String,
    },
}

/// Where the optimization stands between two exchanges.
pub enum Phase {
    /// Branch A: awaiting the zero-shot critique reply.
    ZeroShotCritique,
    /// Branch A: awaiting the zero-shot optimization reply.
    ZeroShotOptimize,
    /// Mutation: awaiting one meta-sample reply of the current round.
    Mutating { round: u32, session: MutationSession },
    /// Branch B: awaiting the expert identity for one printed variation.
    VariationExpert { idx: usize, candidates: Vec<String> },
    /// Branch B: awaiting the intent keywords for one printed variation.
    VariationIntent { idx: usize, candidates: Vec<String>, expert: String },
    /// Branch C: awaiting one solve reply while scoring candidates.
    Scoring {
        round: u32,
        candidates: Vec<String>,
        next: usize,
        st: ScoreState,
        scored: Vec<ScoredPrompt>,
        refining: Option<Vec<ScoredPrompt>>,
    },
    /// Branch C: awaiting the critique of one retained prompt.
    RefineCritique { round: u32, kept: Vec<ScoredPrompt>, idx: usize, refined: Vec<String> },
    /// Branch C: awaiting the rewrite of one retained prompt.
    RefineRewrite { round: u32, kept: Vec<ScoredPrompt>, idx: usize, refined: Vec<String> },
    /// Branch C: awaiting one single-question solve reply while collecting
    /// hard examples for the few-shot set.
    SelectExamples { ds_idx: usize },
    /// Inner refinement: awaiting the critique of the base instruction.
    InnerCritique { iter: u32 },
    /// Inner refinement: awaiting its rewrite.
    InnerRewrite { iter: u32 },
    /// Inner refinement: awaiting the critique of the example set.
    InnerExamplesCritique { iter: u32 },
    /// Inner refinement: awaiting the rewritten example set.
    InnerExamplesOptimize { iter: u32 },
    /// Awaiting the chain-of-thought rationale for one example.
    Reasoning { idx: usize },
    /// Awaiting the generated expert identity for the final prompt.
    ExpertIdentity { final_prompt: String },
    /// Awaiting the intent keywords appended to the final prompt.
    Intent { final_prompt: String, expert: String },
    /// The run has finished.
    Done,
}

/// The record of one outer round, kept in the chained log: round number,
/// the winning prompt, and its score with six decimal places.
pub open spec fn round_record_spec(round: nat, best_prompt: Seq<char>, score_micros: nat)
    -> Seq<char> {
    "{\"round_num\":"@ + dec_rep(round) + ",\"best_prompt\":"@ + json_string(best_prompt)
        + ",\"score\":"@ + crate::logger::seconds_text(score_micros) + "}"@
}

/// One synthetic training example as a JSON-lines record.
pub open spec fn train_record_spec(question: Seq<char>, answer: Seq<char>, final_answer: Seq<char>)
    -> Seq<char> {
    "{\"question\":"@ + json_string(question) + ",\"answer\":"@ + json_string(answer)
        + ",\"final_answer\":"@ + json_string(final_answer) + "}"@
}

/// One printed variation block of branch B.
pub open spec fn variation_block_spec(
    number: nat,
    expert: Seq<char>,
    final_best: Seq<char>,
) -> Seq<char> {
    "Variations "@ + dec_rep(number) + ":\nExpert Profile:\n"@ + expert + ":\nPrompt:\n"@
        + final_best
}

/// The round record is one line holding one JSON object, whatever the
/// winning prompt contains.
pub proof fn lemma_round_record_one_line(round: nat, best_prompt: Seq<char>, score_micros: nat)
    ensures
        crate::logger::is_one_line_object(round_record_spec(round, best_prompt, score_micros)),
{
    let p0 = "{\"round_num\":"@;
    let p1 = ",\"best_prompt\":"@;
    let p2 = ",\"score\":"@;
    let p3 = "}"@;
    reveal_strlit("{\"round_num\":");
    reveal_strlit(",\"best_prompt\":");
    reveal_strlit(",\"score\":");
    reveal_strlit("}");
    crate::logger::lemma_json_string_line_safe(best_prompt);
    crate::logger::lemma_dec_rep_line_safe(round);
    crate::logger::lemma_dec_rep_line_safe(score_micros / 1000000);
    let r = round_record_spec(round, best_prompt, score_micros);
    assert(r[0] == p0[0]);
    assert(r[r.len() - 1] == p3[0]);
    assert forall|j: int| 0 <= j < r.len() implies r[j] != '\n' by {
        let a1 = p0 + dec_rep(round);
        let a2 = a1 + p1;
        let a3 = a2 + json_string(best_prompt);
        let a4 = a3 + p2;
        let a5 = a4 + crate::logger::seconds_text(score_micros);
        assert(r == a5 + p3);
        assert(forall|k: int| 0 <= k < p0.len() ==> p0[k] != '\n');
        assert(forall|k: int| 0 <= k < p1.len() ==> p1[k] != '\n');
        assert(forall|k: int| 0 <= k < p2.len() ==> p2[k] != '\n');
        assert(forall|k: int| 0 <= k < p3.len() ==> p3[k] != '\n');
        assert(forall|k: int|
            0 <= k < crate::logger::seconds_text(score_micros).len()
                ==> crate::logger::seconds_text(score_micros)[k] != '\n');
    }
}

/// The synthetic-example record is one line holding one JSON object,
/// whatever texts the LLM produced.
pub proof fn lemma_train_record_one_line(
    question: Seq<char>,
    answer: Seq<char>,
    final_answer: Seq<char>,
)
    ensures
        crate::logger::is_one_line_object(train_record_spec(question, answer, final_answer)),
{
    let p0 = "{\"question\":"@;
    let p1 = ",\"answer\":"@;
    let p2 = ",\"final_answer\":"@;
    let p3 = "}"@;
    reveal_strlit("{\"question\":");
    reveal_strlit(",\"answer\":");
    reveal_strlit(",\"final_answer\":");
    reveal_strlit("}");
    crate::logger::lemma_json_string_line_safe(question);
    crate::logger::lemma_json_string_line_safe(answer);
    crate::logger::lemma_json_string_line_safe(final_answer);
    let r = train_record_spec(question, answer, final_answer);
    assert(r[0] == p0[0]);
    assert(r[r.len() - 1] == p3[0]);
    assert forall|j: int| 0 <= j < r.len() implies r[j] != '\n' by {
        let a1 = p0 + json_string(question);
        let a2 = a1 + p1;
        let a3 = a2 + json_string(answer);
        let a4 = a3 + p2;
        let a5 = a4 + json_string(final_answer);
        assert(r == a5 + p3);
        assert(forall|k: int| 0 <= k < p0.len() ==> p0[k] != '\n');
        assert(forall|k: int| 0 <= k < p1.len() ==> p1[k] != '\n');
        assert(forall|k: int| 0 <= k < p2.len() ==> p2[k] != '\n');
        assert(forall|k: int| 0 <= k < p3.len() ==> p3[k] != '\n');
    }
}

/// The final prompt a plain run composes: the final-prompt template with
/// the adopted instruction, the answer format, and the collated few-shot
/// examples (an empty block when none are asked for).
pub open spec fn composed_final_prompt(eng: CritiqueNRefine) -> Seq<char> {
    final_prompt_spec(
        eng.prompt_pool.base.final_prompt@,
        eng.params.base_instruction@,
        eng.params.answer_format@,
        if eng.params.few_shot_count == 0 {
            Seq::<char>::empty()
        } else {
            collate_spec(eng.examples@, eng.prompt_pool.quest_reason_ans@)
        },
    )
}

/// A reply's evaluation leaves the scoring loop of `st` open: the batch was
/// perfect, and both the streak and the attempt budget still have room.
pub open spec fn scoring_continues(
    st: ScoreState,
    reply: Seq<char>,
    dataset: Seq<Example>,
    params: CritiqueNRefineParams,
) -> bool {
    &&& wrong_of(
        extract_all_between(reply, ans_start_pat(), ans_end_pat()),
        st.batch@.map_values(|i: usize| dataset[i as int]),
    ).len() == 0
    &&& st.correct_count + 1 < params.min_correct_count
    &&& st.count + 1 < params.max_eval_batches
}

/// The wrong set of solving one dataset example alone: the examples this
/// reply adds to the few-shot selection.
pub open spec fn selected_wrong(reply: Seq<char>, ex: Example) -> Seq<Example> {
    wrong_of(extract_all_between(reply, ans_start_pat(), ans_end_pat()), seq![ex])
}

/// The solve request for the current batch of `st`.
pub open spec fn solve_request_spec(
    st: ScoreState,
    dataset: Seq<Example>,
    pool: CritiqueNRefinePromptPool,
    params: CritiqueNRefineParams,
) -> Seq<char> {
    solve_prompt_spec(
        pool.solve_template@,
        params.questions_batch_size as nat,
        params.answer_format@,
        st.instruction@,
        join_with(st.batch@.map_values(|k: usize| dataset[k as int].question@), seq!['\n']),
    )
}


/// What every step preserves: the dataset, the template pool and the run
/// flags never change.
pub open spec fn step_frame(pre: CritiqueNRefine, post: CritiqueNRefine) -> bool {
    &&& post.prompt_pool == pre.prompt_pool
    &&& post.dataset == pre.dataset
    &&& post.generate_synthetic_examples == pre.generate_synthetic_examples
    &&& post.run_without_train_examples == pre.run_without_train_examples
    &&& post.use_examples == pre.use_examples
}

/// How the chained log flows through a step: it only grows until a finish,
/// a named finish file other than the synthetic one carries exactly the
/// buffered records of `best_prompt.jsonl` and leaves the buffer empty, and
/// a file-less finish is the empty-pair return of a variation run.
pub open spec fn step_log_flow(pre: CritiqueNRefine, post: CritiqueNRefine, action: EngineAction)
    -> bool {
    &&& !(action is Finish) ==> (post.iolog.chained_log@ == pre.iolog.chained_log@
        || pre.iolog.chained_log@.is_prefix_of(post.iolog.chained_log@))
    &&& (action matches EngineAction::Finish { file_name: Some(f), lines, .. } ==> (!(pre.phase
        is ZeroShotOptimize) ==> f@ == "best_prompt.jsonl"@ && lines@ == pre.iolog.chained_log@
        && post.iolog.chained_log@.len() == 0))
    &&& (action matches EngineAction::Finish { file_name: None, final_prompt, expert_identity, lines, .. }
        ==> final_prompt@ == Seq::<char>::empty() && expert_identity@ == Seq::<char>::empty()
        && lines@.len() == 0 && (pre.phase matches Phase::Mutating { .. } || pre.phase matches
        Phase::VariationIntent { .. }))
}

/// The synthetic branch: the critique reply shapes the zero-shot
/// optimization request.
pub open spec fn step_zero_shot(
    pre: CritiqueNRefine,
    post: CritiqueNRefine,
    reply: Seq<char>,
    action: EngineAction,
) -> bool {
    pre.phase is ZeroShotCritique ==> (action matches EngineAction::Chat {
        user_prompt,
        system_prompt,
    } && user_prompt@ == examples_optimization_prompt_spec(
        pre.prompt_pool.examples_optimization_template@,
        pre.params.base_instruction@,
        Seq::<char>::empty(),
        Seq::<char>::empty(),
        reply,
        pre.params.task_description@,
        pre.params.num_train_examples as nat,
    ) && (system_prompt matches Some(s) && s@ == pre.prompt_pool.expert_profile@))
}

/// Mutation rounds: each reply's `<START>…<END>` chunks extend the
/// candidates; while rounds remain the same request is asked again, and a
/// hand-off into scoring carries exactly the grown candidate list.
pub open spec fn step_mutating(
    pre: CritiqueNRefine,
    post: CritiqueNRefine,
    reply: Seq<char>,
    action: EngineAction,
) -> bool {
    pre.phase matches Phase::Mutating { round, session } ==> {
        &&& (session.rounds_left > 1 ==> (post.phase matches Phase::Mutating {
            round: r2,
            session: s2,
        } && r2 == round && s2.rounds_left == session.rounds_left - 1 && s2.request
            == session.request && s2.candidates@.map_values(|c: String| c@)
            == session.candidates@.map_values(|c: String| c@) + extract_all_between(
            reply,
            start_pat(),
            end_pat(),
        )) && (action matches EngineAction::Chat { user_prompt, system_prompt } && user_prompt@
            == session.request@ && system_prompt is None))
        &&& (post.phase matches Phase::Scoring { round: r2, candidates: c2, refining: rf2, .. }
            ==> r2 == round && rf2 is None && c2@.map_values(|c: String| c@)
            == session.candidates@.map_values(|c: String| c@) + extract_all_between(
            reply,
            start_pat(),
            end_pat(),
        ))
    }
}

/// A finish that composes the prompt without the optional expert-identity
/// and intent-keyword exchanges returns the final-prompt template filled
/// with the adopted instruction, the answer format and the collated (or
/// empty) few-shot block, beside the pool's own system prompt.
pub open spec fn step_plain_finish(
    pre: CritiqueNRefine,
    post: CritiqueNRefine,
    action: EngineAction,
) -> bool {
    action matches EngineAction::Finish { file_name: Some(f), final_prompt, expert_identity, .. }
        ==> (!(pre.phase is ZeroShotOptimize) && !(pre.phase matches Phase::Intent { .. }) && !(
    pre.phase matches Phase::ExpertIdentity { .. }) ==> final_prompt@ == composed_final_prompt(
        post,
    ) && expert_identity@ == post.prompt_pool.base.system_prompt@
        && !post.params.generate_intent_keywords && !post.params.generate_expert_identity)
}

/// Scoring: while the reply leaves the loop of the current instruction
/// open, the step counts the attempt and the perfect batch and asks for the
/// next solve reply, with everything else unchanged.
pub open spec fn step_scoring(
    pre: CritiqueNRefine,
    post: CritiqueNRefine,
    reply: Seq<char>,
    action: EngineAction,
) -> bool {
    pre.phase matches Phase::Scoring { round, candidates, next, st, scored, refining } ==> (
    scoring_continues(st, reply, pre.dataset@, pre.params) ==> (post.phase matches Phase::Scoring {
        round: r2,
        candidates: c2,
        next: n2,
        st: st2,
        scored: sc2,
        refining: rf2,
    } && r2 == round && c2 == candidates && n2 == next && sc2 == scored && rf2 == refining
        && st2.instruction == st.instruction && st2.count == st.count + 1 && st2.correct_count
        == st.correct_count + 1 && st2.wrong@.len() == 0) && action is Chat)
}

/// Critique refinement of the retained prompts: the critique reply shapes
/// the rewrite request of the same prompt, and each rewrite reply's first
/// chunk (when one exists) joins the refined list in prompt order.
pub open spec fn step_refining(
    pre: CritiqueNRefine,
    post: CritiqueNRefine,
    reply: Seq<char>,
    action: EngineAction,
) -> bool {
    &&& (pre.phase matches Phase::RefineCritique { round, kept, idx, refined } ==> post.phase == (
    Phase::RefineRewrite { round, kept, idx, refined }) && (action matches EngineAction::Chat {
        user_prompt,
        system_prompt,
    } && user_prompt@ == refine_prompt_spec(
        pre.prompt_pool.critique_refine_template@,
        kept@[idx as int].instruction@,
        collate_spec(kept@[idx as int].wrong_examples@, pre.prompt_pool.quest_reason_ans@),
        reply,
    ) && (system_prompt matches Some(s) && s@ == pre.prompt_pool.expert_profile@)))
    &&& (pre.phase matches Phase::RefineRewrite { round, kept, idx, refined } ==> (idx + 1
        < kept@.len() ==> (post.phase matches Phase::RefineCritique {
        round: r2,
        kept: k2,
        idx: i2,
        refined: rf2,
    } && r2 == round && k2 == kept && i2 == idx + 1 && rf2@.map_values(|s: String| s@)
        == refined@.map_values(|s: String| s@) + (match extract_between_spec(
        reply,
        start_pat(),
        end_pat(),
    ) {
        Some(s) => seq![s],
        None => Seq::<Seq<char>>::empty(),
    })) && action is Chat))
}

/// Few-shot selection: the examples this reply got wrong join the set, in
/// order, ahead of anything a later top-up appends; while the dataset and
/// the quota allow, the next entry is asked about.
pub open spec fn step_selecting(
    pre: CritiqueNRefine,
    post: CritiqueNRefine,
    reply: Seq<char>,
    action: EngineAction,
) -> bool {
    pre.phase matches Phase::SelectExamples { ds_idx } ==> {
        let grown = pre.examples@ + selected_wrong(reply, pre.dataset@[ds_idx as int]);
        &&& post.examples@.len() >= grown.len()
        &&& post.examples@.subrange(0, grown.len() as int) == grown
        &&& (post.phase matches Phase::SelectExamples { ds_idx: d2 } ==> d2 == ds_idx + 1
            && post.examples@ == grown)
    }
}

/// The inner refinement loop: a critique reply shapes the rewrite request
/// of the base instruction; an examples-critique reply shapes the
/// optimization request over the current set and a drawn ground-truth
/// example; and an optimization reply replaces the set with the examples it
/// carries.
pub open spec fn step_inner_loop(
    pre: CritiqueNRefine,
    post: CritiqueNRefine,
    reply: Seq<char>,
    action: EngineAction,
) -> bool {
    &&& (pre.phase matches Phase::InnerCritique { iter } ==> post.phase == (Phase::InnerRewrite {
        iter,
    }) && (action matches EngineAction::Chat { user_prompt, system_prompt } && user_prompt@
        == refine_prompt_spec(
        pre.prompt_pool.critique_refine_template@,
        pre.params.base_instruction@,
        collate_spec(pre.examples@, pre.prompt_pool.quest_reason_ans@),
        reply,
    ) && system_prompt is None))
    &&& (pre.phase matches Phase::InnerExamplesCritique { iter } ==> post.phase == (
    Phase::InnerExamplesOptimize { iter }) && (action matches EngineAction::Chat {
        user_prompt,
        system_prompt,
    } && (exists|g: Seq<Example>|
        g.len() == 1 && pre.dataset@.contains(g[0]) && user_prompt@
            == examples_optimization_prompt_spec(
            pre.prompt_pool.examples_optimization_template@,
            pre.params.base_instruction@,
            collate_spec(pre.examples@, pre.prompt_pool.quest_reason_ans@),
            collate_spec(g, pre.prompt_pool.quest_reason_ans@),
            reply,
            pre.params.task_description@,
            pre.params.few_shot_count as nat,
        )) && (system_prompt matches Some(s) && s@ == pre.prompt_pool.expert_profile@)))
    &&& (pre.phase matches Phase::InnerExamplesOptimize { iter } ==> example_triples(
        post.examples@,
    ) == examples_of_chunks(extract_all_between(reply, start_pat(), end_pat())))
}

/// Composing the output: a rationale reply wraps one example's answer in
/// the marked form, the expert identity and intent keywords land in the
/// returned pair, and the printed variation blocks of a no-training run are
/// assembled one per reply.
pub open spec fn step_composing(
    pre: CritiqueNRefine,
    post: CritiqueNRefine,
    reply: Seq<char>,
    action: EngineAction,
) -> bool {
    &&& (pre.phase matches Phase::Reasoning { idx } ==> {
        &&& post.examples@.len() == pre.examples@.len()
        &&& (forall|k: int|
            0 <= k < pre.examples@.len() && k != idx ==> post.examples@[k] == pre.examples@[k])
        &&& post.examples@[idx as int].question == pre.examples@[idx as int].question
        &&& post.examples@[idx as int].final_answer == pre.examples@[idx as int].final_answer
        &&& (post.examples@[idx as int].answer_with_reason matches Some(a) && a@ == reply
            + seq![' '] + ans_start_pat() + pre.examples@[idx as int].final_answer@
            + ans_end_pat())
    })
    &&& (pre.phase matches Phase::ExpertIdentity { final_prompt } ==> {
        &&& (pre.params.generate_intent_keywords ==> (post.phase matches Phase::Intent {
            final_prompt: fp2,
            expert: ex2,
        } && fp2 == final_prompt && ex2@ == reply) && action is Chat)
        &&& (!pre.params.generate_intent_keywords ==> (action matches EngineAction::Finish {
            final_prompt: fp,
            expert_identity,
            ..
        } && fp == final_prompt && expert_identity@ == reply))
    })
    &&& (pre.phase matches Phase::Intent { final_prompt, expert } ==> (action matches
        EngineAction::Finish { final_prompt: fp, expert_identity, .. } && fp@ == final_prompt@
        + "Keywords: "@ + reply && expert_identity == expert))
    &&& (pre.phase matches Phase::VariationExpert { idx, candidates } ==> (post.phase matches
        Phase::VariationIntent { idx: i2, candidates: c2, expert } && i2 == idx && c2 == candidates
        && expert@ == reply) && action is Chat)
    &&& (pre.phase matches Phase::VariationIntent { idx, candidates, expert } ==> {
        let block = variation_block_spec(
            (idx + 1) as nat,
            expert@,
            final_prompt_spec(
                pre.prompt_pool.base.final_prompt@,
                candidates@[idx as int]@,
                pre.params.answer_format@,
                Seq::<char>::empty(),
            ) + "Keywords: "@ + reply,
        );
        &&& (action is Chat ==> post.variation_blocks@.map_values(|b: String| b@)
            == pre.variation_blocks@.map_values(|b: String| b@).push(block))
        &&& (action matches EngineAction::Finish { printout, .. } ==> printout@.map_values(
            |b: String| b@,
        ) == pre.variation_blocks@.map_values(|b: String| b@).push(block))
    })
}

fn build_round_record(round: u32, best_prompt: &str, score_num: u32, score_den: u32) -> (r: String)
    requires
        score_den >= 1,
    ensures
        r@ == round_record_spec(
            round as nat,
            best_prompt@,
            ((score_num as nat) * 1000000nat / (score_den as nat)),
        ),
{
    proof {
        assert((score_num as int) * 1000000 <= 0xFFFF_FFFF_FFFF_FFFF) by (nonlinear_arith)
            requires
                0 <= score_num <= 0xFFFF_FFFF,
        ;
        assert((score_num as int) * 1000000 / (score_den as int) <= (score_num as int) * 1000000)
            by (nonlinear_arith)
            requires
                score_den >= 1,
                0 <= score_num,
        ;
    }
    let micros: u64 = (score_num as u64) * 1000000u64 / (score_den as u64);
    let mut out = str_to_chars("{\"round_num\":");
    push_all(&mut out, &u64_to_chars(round as u64));
    push_all(&mut out, &str_to_chars(",\"best_prompt\":"));
    push_all(&mut out, &json_string_in(&str_to_chars(best_prompt)));
    push_all(&mut out, &str_to_chars(",\"score\":"));
    push_all(&mut out, &crate::logger::seconds_chars(micros));
    push_all(&mut out, &str_to_chars("}"));
    proof {
        assert(out@ =~= round_record_spec(
            round as nat,
            best_prompt@,
            ((score_num as nat) * 1000000nat / (score_den as nat)),
        ));
    }
    chars_to_string(&out)
}

fn build_train_record(e: &Example) -> (r: String)
    requires
        e.answer_with_reason is Some,
    ensures
        r@ == train_record_spec(
            e.question@,
            e.answer_with_reason->Some_0@,
            e.final_answer@,
        ),
{
    let mut out = str_to_chars("{\"question\":");
    push_all(&mut out, &json_string_in(&str_to_chars(e.question.as_str())));
    push_all(&mut out, &str_to_chars(",\"answer\":"));
    let awr = match &e.answer_with_reason {
        Some(a) => str_to_chars(a.as_str()),
        None => Vec::new(),
    };
    push_all(&mut out, &json_string_in(&awr));
    push_all(&mut out, &str_to_chars(",\"final_answer\":"));
    push_all(&mut out, &json_string_in(&str_to_chars(e.final_answer.as_str())));
    push_all(&mut out, &str_to_chars("}"));
    proof {
        assert(out@ =~= train_record_spec(
            e.question@,
            e.answer_with_reason->Some_0@,
            e.final_answer@,
        ));
    }
    chars_to_string(&out)
}

fn build_variation_block(number: u64, expert: &str, final_best: &str) -> (r: String)
    ensures
        r@ == variation_block_spec(number as nat, expert@, final_best@),
{
    let mut out = str_to_chars("Variations ");
    push_all(&mut out, &u64_to_chars(number));
    push_all(&mut out, &str_to_chars(":\nExpert Profile:\n"));
    push_all(&mut out, &str_to_chars(expert));
    push_all(&mut out, &str_to_chars(":\nPrompt:\n"));
    push_all(&mut out, &str_to_chars(final_best));
    proof {
        assert(out@ =~= variation_block_spec(number as nat, expert@, final_best@));
    }
    chars_to_string(&out)
}

/// The critique-and-refine optimizer: the dataset, the template pool, the
/// run parameters, and the state machine that drives one optimization run.
pub struct CritiqueNRefine {
    pub dataset: Vec<Example>,
    pub prompt_pool: CritiqueNRefinePromptPool,
    pub params: CritiqueNRefineParams,
    pub use_examples: bool,
    pub run_without_train_examples: bool,
    pub generate_synthetic_examples: bool,
    pub current_base_instruction: String,
    pub examples: Vec<Example>,
    pub variation_blocks: Vec<String>,
    pub iolog: Logger,
    pub rng: rand::rngs::StdRng,
    pub phase: Phase,
}

impl CritiqueNRefine {
    /// The per-phase bounds the step function relies on.
    pub open spec fn phase_wf(&self) -> bool {
        match self.phase {
            Phase::Mutating { round, session } => round >= 1 && session.candidates@.len() >= 1
                && session.rounds_left >= 1 && (self.run_without_train_examples
                || self.dataset@.len() >= 1),
            Phase::VariationExpert { idx, candidates } => idx < candidates@.len(),
            Phase::VariationIntent { idx, candidates, expert } => idx < candidates@.len(),
            Phase::Scoring { round, candidates, next, st, scored, refining } => {
                &&& next < candidates@.len()
                &&& self.dataset@.len() >= 1
                &&& st.wf(self.dataset@.len() as int)
                &&& st.active(self.params)
                &&& all_dens_positive(scored@)
                &&& (refining is Some ==> refining->Some_0@.len() >= 1 && all_dens_positive(
                    refining->Some_0@,
                ))
            },
            Phase::RefineCritique { round, kept, idx, refined } => idx < kept@.len()
                && kept@.len() >= 1 && all_dens_positive(kept@) && self.dataset@.len() >= 1,
            Phase::RefineRewrite { round, kept, idx, refined } => idx < kept@.len() && kept@.len()
                >= 1 && all_dens_positive(kept@) && self.dataset@.len() >= 1,
            Phase::SelectExamples { ds_idx } => ds_idx < self.dataset@.len(),
            Phase::InnerExamplesCritique { iter } => self.dataset@.len() >= 1 && iter
                < self.params.refine_task_eg_iterations,
            Phase::InnerExamplesOptimize { iter } => self.dataset@.len() >= 1 && iter
                < self.params.refine_task_eg_iterations,
            Phase::InnerCritique { iter } => self.dataset@.len() >= 1 && iter
                < self.params.refine_task_eg_iterations,
            Phase::InnerRewrite { iter } => self.dataset@.len() >= 1 && iter
                < self.params.refine_task_eg_iterations,
            Phase::Reasoning { idx } => idx < self.examples@.len(),
            _ => true,
        }
    }

    /// The standing well-formedness of a run.
    pub open spec fn wf(&self) -> bool {
        &&& self.params.top_n >= 1
        &&& self.params.questions_batch_size >= 1
        &&& self.params.style_variation <= self.prompt_pool.thinking_styles@.len()
        &&& self.params.mutation_rounds < 0xFFFF_FFFFu32
        &&& (self.generate_synthetic_examples || self.run_without_train_examples
            || self.dataset@.len() >= 1)
        &&& self.phase_wf()
    }

    /// Begin one optimization run and return the first action. Branch A
    /// (synthetic examples) asks for the zero-shot critique; the other
    /// branches open the first mutation round.
    pub fn start(
        dataset: Vec<Example>,
        prompt_pool: CritiqueNRefinePromptPool,
        params: CritiqueNRefineParams,
        use_examples: bool,
        run_without_train_examples: bool,
        generate_synthetic_examples: bool,
        iolog: Logger,
        seed: u64,
    ) -> (r: (CritiqueNRefine, EngineAction))
        requires
            params.top_n >= 1,
            params.questions_batch_size >= 1,
            params.style_variation <= prompt_pool.thinking_styles@.len(),
            params.mutation_rounds < 0xFFFF_FFFFu32,
            generate_synthetic_examples || dataset@.len() >= 1 || (run_without_train_examples
                && params.mutate_refine_iterations >= 1),
        ensures
            r.0.wf(),
            !(r.0.phase is Done),
            r.1 is Chat,
            r.0.params.base_instruction@ == params.base_instruction@,
            r.0.prompt_pool == prompt_pool,
            r.0.dataset == dataset,
            r.0.examples@.len() == 0,
            r.0.iolog.chained_log == iolog.chained_log,
            r.0.generate_synthetic_examples == generate_synthetic_examples,
            r.0.run_without_train_examples == run_without_train_examples,
            r.0.use_examples == use_examples,
            generate_synthetic_examples ==> r.0.phase is ZeroShotCritique && (r.1 matches
                EngineAction::Chat { user_prompt, system_prompt } && user_prompt@
                == examples_critique_prompt_spec(
                prompt_pool.examples_critique_template_zero_shot@,
                params.base_instruction@,
                Seq::<char>::empty(),
                params.task_description@,
                params.num_train_examples as nat,
            ) && (system_prompt matches Some(s) && s@ == prompt_pool.expert_profile@)),
            !generate_synthetic_examples && params.mutate_refine_iterations == 0 ==> r.0.phase
                == (Phase::SelectExamples { ds_idx: 0usize }) && (r.1 matches EngineAction::Chat {
                user_prompt,
                system_prompt,
            } && user_prompt@ == solve_prompt_spec(
                prompt_pool.solve_template@,
                1nat,
                params.answer_format@,
                params.base_instruction@,
                dataset@[0].question@,
            ) && system_prompt is None),
            !generate_synthetic_examples && params.mutate_refine_iterations >= 1 ==> (r.0.phase
                matches Phase::Mutating { round, session } && round == 1 && session.rounds_left
                == params.mutation_rounds + 1 && session.candidates@.len() == 1
                && session.candidates@[0]@ == seed_candidate(
                params.task_description@,
                params.base_instruction@,
            ) && session.request@ == meta_sample_prompt_spec(
                prompt_pool.meta_sample_template@,
                params.task_description@,
                join_with(
                    prompt_pool.thinking_styles@.take(params.style_variation as int).map_values(
                        |t: String| t@,
                    ),
                    seq!['\n'],
                ),
                params.style_variation as nat,
                params.base_instruction@,
            )) && (r.1 matches EngineAction::Chat { user_prompt, system_prompt } && user_prompt@
                == meta_sample_prompt_spec(
                prompt_pool.meta_sample_template@,
                params.task_description@,
                join_with(
                    prompt_pool.thinking_styles@.take(params.style_variation as int).map_values(
                        |t: String| t@,
                    ),
                    seq!['\n'],
                ),
                params.style_variation as nat,
                params.base_instruction@,
            ) && system_prompt is None),
    {
        proof {
            reveal_strlit("");
            assert(""@ =~= Seq::<char>::empty());
        }
        let mut engine = CritiqueNRefine {
            dataset,
            prompt_pool,
            params,
            use_examples,
            run_without_train_examples,
            generate_synthetic_examples,
            current_base_instruction: String::new(),
            examples: Vec::new(),
            variation_blocks: Vec::new(),
            iolog,
            rng: crate::rng::rng_from_seed(seed),
            phase: Phase::Done,
        };
        engine.current_base_instruction = chars_to_string(
            &str_to_chars(engine.params.base_instruction.as_str()),
        );
        if engine.generate_synthetic_examples {
            let req = build_examples_critique_request(
                engine.prompt_pool.examples_critique_template_zero_shot.as_str(),
                engine.params.base_instruction.as_str(),
                "",
                engine.params.task_description.as_str(),
                engine.params.num_train_examples,
            );
            engine.phase = Phase::ZeroShotCritique;
            let system = chars_to_string(&str_to_chars(engine.prompt_pool.expert_profile.as_str()));
            let action = EngineAction::Chat { user_prompt: req, system_prompt: Some(system) };
            (engine, action)
        } else if engine.params.mutate_refine_iterations == 0 {
            let action = engine.leave_mutation_loop();
            (engine, action)
        } else {
            let action = engine.begin_round(1);
            (engine, action)
        }
    }

    /// Open mutation round `round`: seed the candidates and ask for the
    /// first meta-sample reply.
    fn begin_round(&mut self, round: u32) -> (action: EngineAction)
        requires
            old(self).wf(),
            round >= 1,
            old(self).run_without_train_examples || old(self).dataset@.len() >= 1,
        ensures
            final(self).wf(),
            step_frame(*old(self), *final(self)),
            !(final(self).phase is Done),
            final(self).params == old(self).params,
            final(self).iolog == old(self).iolog,
            final(self).current_base_instruction == old(self).current_base_instruction,
            final(self).examples == old(self).examples,
            final(self).phase matches Phase::Mutating { round: r2, session } && r2 == round
                && session.rounds_left == old(self).params.mutation_rounds + 1
                && session.candidates@.len() == 1 && session.candidates@[0]@ == seed_candidate(
                old(self).params.task_description@,
                old(self).current_base_instruction@,
            ) && session.request@ == meta_sample_prompt_spec(
                old(self).prompt_pool.meta_sample_template@,
                old(self).params.task_description@,
                join_with(
                    old(self).prompt_pool.thinking_styles@.take(
                        old(self).params.style_variation as int,
                    ).map_values(|t: String| t@),
                    seq!['\n'],
                ),
                old(self).params.style_variation as nat,
                old(self).current_base_instruction@,
            ),
            action matches EngineAction::Chat { user_prompt, system_prompt } && user_prompt@
                == meta_sample_prompt_spec(
                old(self).prompt_pool.meta_sample_template@,
                old(self).params.task_description@,
                join_with(
                    old(self).prompt_pool.thinking_styles@.take(
                        old(self).params.style_variation as int,
                    ).map_values(|t: String| t@),
                    seq!['\n'],
                ),
                old(self).params.style_variation as nat,
                old(self).current_base_instruction@,
            ) && system_prompt is None,
    {
        let session = begin_mutation(
            self.current_base_instruction.as_str(),
            self.params.task_description.as_str(),
            self.params.mutation_rounds + 1,
            self.params.style_variation,
            &self.prompt_pool.thinking_styles,
            self.prompt_pool.meta_sample_template.as_str(),
        );
        let req = chars_to_string(&str_to_chars(session.request.as_str()));
        self.phase = Phase::Mutating { round, session };
        EngineAction::Chat { user_prompt: req, system_prompt: None }
    }

    /// Score `candidates` for this round, or — when the loop guard is
    /// already closed — record their scores without any call and move on.
    fn advance_scoring(
        &mut self,
        round: u32,
        candidates: Vec<String>,
        next: usize,
        st: ScoreState,
        scored: Vec<ScoredPrompt>,
        refining: Option<Vec<ScoredPrompt>>,
    ) -> (action: EngineAction)
        requires
            old(self).wf(),
            old(self).dataset@.len() >= 1,
            next < candidates@.len(),
            st.wf(old(self).dataset@.len() as int),
            all_dens_positive(scored@),
            refining is Some ==> refining->Some_0@.len() >= 1 && all_dens_positive(
                refining->Some_0@,
            ),
        ensures
            final(self).wf(),
            step_frame(*old(self), *final(self)),
            action is Chat,
            !(final(self).phase is Done),
            old(self).iolog.chained_log@.is_prefix_of(final(self).iolog.chained_log@),
            final(self).phase matches Phase::Scoring { round: r2, candidates: c2, refining: rf2, .. }
                ==> r2 == round && c2 == candidates && rf2 == refining,
            st.active(old(self).params) ==> final(self).phase == (Phase::Scoring {
                round,
                candidates,
                next,
                st,
                scored,
                refining,
            }) && (action matches EngineAction::Chat { user_prompt, system_prompt } && user_prompt@
                == solve_request_spec(st, old(self).dataset@, old(self).prompt_pool, old(self).params)
                && system_prompt is None),
    {
        let first_active = st.wrong.len() == 0 && st.correct_count
            < self.params.min_correct_count && st.count < self.params.max_eval_batches;
        if first_active {
            let req = solve_request(
                &st,
                &self.dataset,
                self.prompt_pool.solve_template.as_str(),
                &self.params,
            );
            self.phase = Phase::Scoring { round, candidates, next, st, scored, refining };
            return EngineAction::Chat { user_prompt: req, system_prompt: None };
        }
        self.continue_scoring(round, candidates, next, st, scored, refining)
    }

    /// Record finished instructions and move to the next one, asking for a
    /// solve reply as soon as a loop guard opens, or close the pass.
    fn continue_scoring(
        &mut self,
        round: u32,
        candidates: Vec<String>,
        next: usize,
        st: ScoreState,
        scored: Vec<ScoredPrompt>,
        refining: Option<Vec<ScoredPrompt>>,
    ) -> (action: EngineAction)
        requires
            old(self).wf(),
            old(self).dataset@.len() >= 1,
            next < candidates@.len(),
            st.wf(old(self).dataset@.len() as int),
            all_dens_positive(scored@),
            refining is Some ==> refining->Some_0@.len() >= 1 && all_dens_positive(
                refining->Some_0@,
            ),
        ensures
            final(self).wf(),
            step_frame(*old(self), *final(self)),
            action is Chat,
            !(final(self).phase is Done),
            old(self).iolog.chained_log@.is_prefix_of(final(self).iolog.chained_log@),
            final(self).phase matches Phase::Scoring { round: r2, candidates: c2, refining: rf2, .. }
                ==> r2 == round && c2 == candidates && rf2 == refining,
    {
        let mut next = next;
        let mut st = st;
        let mut scored = scored;
        let n = candidates.len();
        loop
            invariant
                self.wf(),
                self.dataset == old(self).dataset,
                self.params == old(self).params,
                self.prompt_pool == old(self).prompt_pool,
                self.phase == old(self).phase,
                self.examples == old(self).examples,
                self.iolog == old(self).iolog,
                self.current_base_instruction == old(self).current_base_instruction,
                self.variation_blocks == old(self).variation_blocks,
                self.use_examples == old(self).use_examples,
                self.run_without_train_examples == old(self).run_without_train_examples,
                self.generate_synthetic_examples == old(self).generate_synthetic_examples,
                self.dataset@.len() >= 1,
                n == candidates@.len(),
                next < n,
                st.wf(self.dataset@.len() as int),
                all_dens_positive(scored@),
                refining is Some ==> refining->Some_0@.len() >= 1 && all_dens_positive(
                    refining->Some_0@,
                ),
            decreases n - next,
        {
            let active = st.wrong.len() == 0 && st.correct_count < self.params.min_correct_count
                && st.count < self.params.max_eval_batches;
            if active {
                let req = solve_request(
                    &st,
                    &self.dataset,
                    self.prompt_pool.solve_template.as_str(),
                    &self.params,
                );
                self.phase = Phase::Scoring { round, candidates, next, st, scored, refining };
                return EngineAction::Chat { user_prompt: req, system_prompt: None };
            }
            let sp = finish_scoring(st);
            scored.push(sp);
            if next + 1 < n {
                next = next + 1;
                let instruction = chars_to_string(&str_to_chars(candidates[next].as_str()));
                let dlen = self.dataset.len();
                st = begin_scoring(instruction, dlen, self.params.questions_batch_size, &mut self.rng);
            } else {
                return self.finish_scoring_round(round, scored, refining);
            }
        }
    }

    /// Close the scoring pass of a round: keep the top prompts, and either
    /// open the critique-refinement pass or end the round.
    fn finish_scoring_round(
        &mut self,
        round: u32,
        scored: Vec<ScoredPrompt>,
        refining: Option<Vec<ScoredPrompt>>,
    ) -> (action: EngineAction)
        requires
            old(self).wf(),
            old(self).dataset@.len() >= 1,
            scored@.len() >= 1 || (refining is Some && refining->Some_0@.len() >= 1),
            all_dens_positive(scored@),
            refining is Some ==> all_dens_positive(refining->Some_0@),
        ensures
            final(self).wf(),
            step_frame(*old(self), *final(self)),
            action is Chat,
            !(final(self).phase is Done),
            old(self).iolog.chained_log@.is_prefix_of(final(self).iolog.chained_log@),
            final(self).phase matches Phase::RefineCritique { .. } || final(self).phase matches
                Phase::Mutating { .. } || final(self).phase matches Phase::SelectExamples { .. },
    {
        match refining {
            None => {
                let kept = select_top_prompts(scored, self.params.top_n as usize);
                if self.params.refine_instruction {
                    self.begin_refine_critique(round, kept, 0, Vec::new())
                } else {
                    self.round_end(kept, round)
                }
            },
            Some(kept) => {
                let mut union = scored;
                let mut kv = kept;
                union.append(&mut kv);
                let top = select_top_prompts(union, self.params.top_n as usize);
                self.round_end(top, round)
            },
        }
    }

    /// Ask for the critique of retained prompt `idx`: the positive template
    /// when its score clears `min_correct_count / max_eval_batches`, the
    /// diagnostic one otherwise.
    fn begin_refine_critique(
        &mut self,
        round: u32,
        kept: Vec<ScoredPrompt>,
        idx: usize,
        refined: Vec<String>,
    ) -> (action: EngineAction)
        requires
            old(self).wf(),
            old(self).dataset@.len() >= 1,
            idx < kept@.len(),
            all_dens_positive(kept@),
        ensures
            final(self).wf(),
            step_frame(*old(self), *final(self)),
            !(final(self).phase is Done),
            final(self).phase == (Phase::RefineCritique { round, kept, idx, refined }),
            final(self).params == old(self).params,
            final(self).iolog == old(self).iolog,
            action matches EngineAction::Chat { user_prompt, system_prompt } && user_prompt@
                == critique_prompt_spec(
                if clears_refine_threshold(
                    kept@[idx as int].score,
                    old(self).params.min_correct_count,
                    old(self).params.max_eval_batches,
                ) {
                    old(self).prompt_pool.meta_positive_critique_template@
                } else {
                    old(self).prompt_pool.meta_critique_template@
                },
                kept@[idx as int].instruction@,
                collate_spec(
                    kept@[idx as int].wrong_examples@,
                    old(self).prompt_pool.quest_reason_ans@,
                ),
            ) && (system_prompt matches Some(s) && s@ == old(self).prompt_pool.expert_profile@),
    {
        let examples_text = DatasetSpecificProcessing::collate_to_str(
            &kept[idx].wrong_examples,
            self.prompt_pool.quest_reason_ans.as_str(),
        );
        proof {
            assert((kept@[idx as int].score.num as int) * (self.params.max_eval_batches as int)
                <= 0xFFFF_FFFF_FFFF_FFFF && (self.params.min_correct_count as int) * (
            kept@[idx as int].score.den as int) <= 0xFFFF_FFFF_FFFF_FFFF) by (nonlinear_arith)
                requires
                    0 <= kept@[idx as int].score.num <= 0xFFFF_FFFF,
                    0 <= self.params.max_eval_batches <= 0xFFFF_FFFF,
                    0 <= self.params.min_correct_count <= 0xFFFF_FFFF,
                    0 <= kept@[idx as int].score.den <= 0xFFFF_FFFF,
            ;
        }
        let further_enhance = (kept[idx].score.num as u64) * (self.params.max_eval_batches as u64)
            >= (self.params.min_correct_count as u64) * (kept[idx].score.den as u64);
        let template = if further_enhance {
            self.prompt_pool.meta_positive_critique_template.as_str()
        } else {
            self.prompt_pool.meta_critique_template.as_str()
        };
        let req = build_critique_request(
            template,
            kept[idx].instruction.as_str(),
            examples_text.as_str(),
        );
        let system = chars_to_string(&str_to_chars(self.prompt_pool.expert_profile.as_str()));
        self.phase = Phase::RefineCritique { round, kept, idx, refined };
        EngineAction::Chat { user_prompt: req, system_prompt: Some(system) }
    }

    /// End one outer round: adopt the winning instruction, log the round,
    /// and open the next round or the example-selection stage.
    fn round_end(&mut self, top: Vec<ScoredPrompt>, round: u32) -> (action: EngineAction)
        requires
            old(self).wf(),
            old(self).dataset@.len() >= 1,
            top@.len() >= 1,
            all_dens_positive(top@),
        ensures
            final(self).wf(),
            step_frame(*old(self), *final(self)),
            action is Chat,
            !(final(self).phase is Done),
            final(self).current_base_instruction@ == top@[0].instruction@,
            final(self).iolog.chained_log@.len() == old(self).iolog.chained_log@.len() + 1,
            final(self).iolog.chained_log@.subrange(
                0,
                old(self).iolog.chained_log@.len() as int,
            ) == old(self).iolog.chained_log@,
            final(self).iolog.chained_log@.last()@ == round_record_spec(
                round as nat,
                top@[0].instruction@,
                (top@[0].score.num as nat) * 1000000nat / (top@[0].score.den as nat),
            ),
            final(self).phase matches Phase::Mutating { .. } || final(self).phase matches
                Phase::SelectExamples { .. },
    {
        self.current_base_instruction = chars_to_string(
            &str_to_chars(top[0].instruction.as_str()),
        );
        let record = build_round_record(
            round,
            top[0].instruction.as_str(),
            top[0].score.num,
            top[0].score.den,
        );
        self.iolog.append_dict_to_chained_logs(record);
        if round < self.params.mutate_refine_iterations {
            self.begin_round(round + 1)
        } else {
            self.leave_mutation_loop()
        }
    }

    /// After the outer loop: fix the winning instruction in the parameters
    /// and start collecting hard few-shot examples from the dataset.
    fn leave_mutation_loop(&mut self) -> (action: EngineAction)
        requires
            old(self).wf(),
            old(self).dataset@.len() >= 1,
        ensures
            final(self).wf(),
            step_frame(*old(self), *final(self)),
            !(final(self).phase is Done),
            final(self).phase == (Phase::SelectExamples { ds_idx: 0usize }),
            final(self).params.base_instruction@ == old(self).current_base_instruction@,
            final(self).examples@.len() == 0,
            final(self).iolog == old(self).iolog,
            final(self).current_base_instruction == old(self).current_base_instruction,
            action matches EngineAction::Chat { user_prompt, system_prompt } && user_prompt@
                == solve_prompt_spec(
                old(self).prompt_pool.solve_template@,
                1nat,
                old(self).params.answer_format@,
                old(self).current_base_instruction@,
                old(self).dataset@[0].question@,
            ) && system_prompt is None,
    {
        self.phase = Phase::Done;
        self.params.base_instruction = chars_to_string(
            &str_to_chars(self.current_base_instruction.as_str()),
        );
        self.examples = Vec::new();
        self.begin_select(0)
    }

    /// Ask the LLM to solve dataset entry `ds_idx` alone under the current
    /// instruction; a wrong answer makes it a few-shot example.
    fn begin_select(&mut self, ds_idx: usize) -> (action: EngineAction)
        requires
            old(self).wf(),
            ds_idx < old(self).dataset@.len(),
        ensures
            final(self).wf(),
            step_frame(*old(self), *final(self)),
            !(final(self).phase is Done),
            final(self).phase == (Phase::SelectExamples { ds_idx }),
            final(self).params == old(self).params,
            final(self).examples == old(self).examples,
            final(self).iolog == old(self).iolog,
            final(self).current_base_instruction == old(self).current_base_instruction,
            action matches EngineAction::Chat { user_prompt, system_prompt } && user_prompt@
                == solve_prompt_spec(
                old(self).prompt_pool.solve_template@,
                1nat,
                old(self).params.answer_format@,
                old(self).params.base_instruction@,
                old(self).dataset@[ds_idx as int].question@,
            ) && system_prompt is None,
    {
        let q = str_to_chars(self.dataset[ds_idx].question.as_str());
        let req = build_solve_prompt(
            self.prompt_pool.solve_template.as_str(),
            1,
            self.params.answer_format.as_str(),
            self.params.base_instruction.as_str(),
            &q,
        );
        self.phase = Phase::SelectExamples { ds_idx };
        EngineAction::Chat { user_prompt: req, system_prompt: None }
    }

    /// Top the few-shot set up with random dataset entries when the pass
    /// over the dataset left it short, then enter the inner refinement
    /// loop.
    fn top_up_and_inner(&mut self) -> (action: EngineAction)
        requires
            old(self).wf(),
            old(self).dataset@.len() >= 1,
        ensures
            final(self).wf(),
            step_frame(*old(self), *final(self)),
            !(final(self).phase is SelectExamples),
            !(action is Finish) ==> final(self).iolog == old(self).iolog,
            action is Finish ==> final(self).phase is Done,
            !(action is Finish) ==> !(final(self).phase is Done),
            final(self).params == old(self).params,
            final(self).prompt_pool == old(self).prompt_pool,
            final(self).examples@.len() >= old(self).examples@.len(),
            final(self).examples@.subrange(0, old(self).examples@.len() as int) == old(self).examples@,
            action matches EngineAction::Finish {
                file_name,
                lines,
                printout,
                final_prompt: fp,
                expert_identity,
            } ==> ((file_name matches Some(f) && f@ == "best_prompt.jsonl"@) && lines@ == old(self).iolog.chained_log@ && printout@.len() == 0 && fp@ == composed_final_prompt(
                *final(self),
            ) && expert_identity@ == final(self).prompt_pool.base.system_prompt@ && final(self).iolog.chained_log@.len() == 0 && !final(self).params.generate_intent_keywords
                && !final(self).params.generate_expert_identity),
    {
        self.phase = Phase::Done;
        proof {
            assert(self.examples@.subrange(0, self.examples@.len() as int) =~= self.examples@);
        }
        let have = self.examples.len();
        let want = self.params.few_shot_count as usize;
        if have < want {
            let need = want - have;
            let avail = self.dataset.len();
            let k = if need < avail {
                need
            } else {
                avail
            };
            let picks = sample_distinct_indices(&mut self.rng, avail, k);
            let m = picks.len();
            let mut i: usize = 0;
            while i < m
                invariant
                    self.wf(),
                    self.phase is Done,
                    self.dataset == old(self).dataset,
                    self.dataset@.len() >= 1,
                    self.params == old(self).params,
                    self.prompt_pool == old(self).prompt_pool,
                    self.iolog == old(self).iolog,
                    self.generate_synthetic_examples == old(self).generate_synthetic_examples,
                    self.run_without_train_examples == old(self).run_without_train_examples,
                    self.use_examples == old(self).use_examples,
                    self.examples@.len() >= old(self).examples@.len(),
                    self.examples@.subrange(0, old(self).examples@.len() as int) == old(self).examples@,
                    m == picks@.len(),
                    i <= m,
                    forall|j: int| 0 <= j < m ==> #[trigger] picks@[j] < self.dataset@.len(),
                decreases m - i,
            {
                let idx = picks[i];
                let e = self.dataset[idx].clone();
                self.examples.push(e);
                i += 1;
            }
        }
        self.inner_next(0)
    }

    /// Run the inner refinement loop from iteration `iter`: each round a
    /// fair coin picks between refining the instruction by critique and
    /// regenerating the example set; when the iterations are spent, move on
    /// to composing the final prompt.
    fn inner_next(&mut self, iter: u32) -> (action: EngineAction)
        requires
            old(self).wf(),
            old(self).dataset@.len() >= 1,
        ensures
            final(self).wf(),
            step_frame(*old(self), *final(self)),
            !(final(self).phase is SelectExamples),
            !(action is Finish) ==> final(self).iolog == old(self).iolog,
            action is Finish ==> final(self).phase is Done,
            !(action is Finish) ==> !(final(self).phase is Done),
            final(self).params == old(self).params,
            final(self).examples == old(self).examples,
            final(self).prompt_pool == old(self).prompt_pool,
            action matches EngineAction::Finish {
                file_name,
                lines,
                printout,
                final_prompt: fp,
                expert_identity,
            } ==> ((file_name matches Some(f) && f@ == "best_prompt.jsonl"@) && lines@ == old(self).iolog.chained_log@ && printout@.len() == 0 && fp@ == composed_final_prompt(
                *final(self),
            ) && expert_identity@ == final(self).prompt_pool.base.system_prompt@ && final(self).iolog.chained_log@.len() == 0 && !final(self).params.generate_intent_keywords
                && !final(self).params.generate_expert_identity),
    {
        let mut iter = iter;
        loop
            invariant
                self.wf(),
                self.dataset == old(self).dataset,
                self.params == old(self).params,
                self.prompt_pool == old(self).prompt_pool,
                self.phase == old(self).phase,
                self.examples == old(self).examples,
                self.iolog == old(self).iolog,
                self.current_base_instruction == old(self).current_base_instruction,
                self.variation_blocks == old(self).variation_blocks,
                self.use_examples == old(self).use_examples,
                self.run_without_train_examples == old(self).run_without_train_examples,
                self.generate_synthetic_examples == old(self).generate_synthetic_examples,
                self.dataset@.len() >= 1,
                iter <= 0xFFFF_FFFFu32,
            decreases self.params.refine_task_eg_iterations - iter,
        {
            if iter >= self.params.refine_task_eg_iterations {
                return self.compose();
            }
            let heads = random_bool(&mut self.rng);
            if heads {
                let examples_text = DatasetSpecificProcessing::collate_to_str(
                    &self.examples,
                    self.prompt_pool.quest_reason_ans.as_str(),
                );
                let req = build_critique_request(
                    self.prompt_pool.meta_critique_template.as_str(),
                    self.params.base_instruction.as_str(),
                    examples_text.as_str(),
                );
                let system = chars_to_string(
                    &str_to_chars(self.prompt_pool.expert_profile.as_str()),
                );
                self.phase = Phase::InnerCritique { iter };
                return EngineAction::Chat { user_prompt: req, system_prompt: Some(system) };
            } else if self.use_examples {
                let examples_text = DatasetSpecificProcessing::collate_to_str(
                    &self.examples,
                    self.prompt_pool.quest_reason_ans.as_str(),
                );
                let req = build_examples_critique_request(
                    self.prompt_pool.examples_critique_template.as_str(),
                    self.params.base_instruction.as_str(),
                    examples_text.as_str(),
                    self.params.task_description.as_str(),
                    self.params.few_shot_count,
                );
                let system = chars_to_string(
                    &str_to_chars(self.prompt_pool.expert_profile.as_str()),
                );
                self.phase = Phase::InnerExamplesCritique { iter };
                return EngineAction::Chat { user_prompt: req, system_prompt: Some(system) };
            } else {
                iter = iter + 1;
            }
        }
    }

    /// Compose the final prompt: optionally annotate every example with a
    /// chain-of-thought rationale first.
    fn compose(&mut self) -> (action: EngineAction)
        requires
            old(self).wf(),
        ensures
            final(self).wf(),
            step_frame(*old(self), *final(self)),
            !(final(self).phase is SelectExamples),
            !(action is Finish) ==> final(self).iolog == old(self).iolog,
            action is Finish ==> final(self).phase is Done,
            !(action is Finish) ==> !(final(self).phase is Done),
            final(self).params == old(self).params,
            final(self).examples == old(self).examples,
            final(self).prompt_pool == old(self).prompt_pool,
            old(self).params.generate_reasoning && old(self).examples@.len() > 0 ==> final(self).phase == (Phase::Reasoning { idx: 0usize }) && (action matches EngineAction::Chat {
                user_prompt,
                system_prompt,
            } && user_prompt@ == reason_prompt_spec(
                old(self).prompt_pool.generate_reason_template@,
                old(self).params.task_description@,
                old(self).params.base_instruction@,
                old(self).examples@[0].question@,
                old(self).examples@[0].final_answer@,
            ) && system_prompt is None) && final(self).iolog == old(self).iolog,
            action matches EngineAction::Finish {
                file_name,
                lines,
                printout,
                final_prompt: fp,
                expert_identity,
            } ==> ((file_name matches Some(f) && f@ == "best_prompt.jsonl"@) && lines@ == old(self).iolog.chained_log@ && printout@.len() == 0 && fp@ == composed_final_prompt(
                *final(self),
            ) && expert_identity@ == final(self).prompt_pool.base.system_prompt@ && final(self).iolog.chained_log@.len() == 0 && !final(self).params.generate_intent_keywords
                && !final(self).params.generate_expert_identity),
    {
        if self.params.generate_reasoning && self.examples.len() > 0 {
            let req = build_reason_prompt(
                self.prompt_pool.generate_reason_template.as_str(),
                self.params.task_description.as_str(),
                self.params.base_instruction.as_str(),
                self.examples[0].question.as_str(),
                self.examples[0].final_answer.as_str(),
            );
            self.phase = Phase::Reasoning { idx: 0 };
            EngineAction::Chat { user_prompt: req, system_prompt: None }
        } else {
            self.after_reasoning()
        }
    }

    /// Build the final prompt from the template, the instruction, the
    /// answer format and the collated examples (empty when no few-shot
    /// examples are asked for), then generate the expert identity or fall
    /// back to the pool's system prompt.
    fn after_reasoning(&mut self) -> (action: EngineAction)
        requires
            old(self).wf(),
        ensures
            final(self).wf(),
            step_frame(*old(self), *final(self)),
            !(final(self).phase is SelectExamples),
            !(action is Finish) ==> final(self).iolog == old(self).iolog,
            action is Finish ==> final(self).phase is Done,
            !(action is Finish) ==> !(final(self).phase is Done),
            final(self).params == old(self).params,
            final(self).examples == old(self).examples,
            final(self).prompt_pool == old(self).prompt_pool,
            old(self).params.generate_expert_identity ==> (final(self).phase matches
                Phase::ExpertIdentity { final_prompt } && final_prompt@ == composed_final_prompt(
                *old(self),
            )) && (action matches EngineAction::Chat { user_prompt, system_prompt } && user_prompt@
                == task_prompt_spec(
                old(self).prompt_pool.expert_template@,
                old(self).params.task_description@,
            ) && system_prompt is None) && final(self).iolog == old(self).iolog,
            !old(self).params.generate_expert_identity && old(self).params.generate_intent_keywords ==> (final(self).phase matches Phase::Intent {
                final_prompt,
                expert,
            } && final_prompt@ == composed_final_prompt(*old(self)) && expert@ == old(self).prompt_pool.base.system_prompt@) && action is Chat && final(self).iolog == old(self).iolog,
            !old(self).params.generate_expert_identity && !old(self).params.generate_intent_keywords ==> final(self).iolog.chained_log@.len() == 0 && (
            action matches EngineAction::Finish {
                file_name,
                lines,
                printout,
                final_prompt: fp,
                expert_identity,
            } && (file_name matches Some(f) && f@ == "best_prompt.jsonl"@) && lines@ == old(self).iolog.chained_log@ && printout@.len() == 0 && fp@ == composed_final_prompt(
                *old(self),
            ) && expert_identity@ == old(self).prompt_pool.base.system_prompt@),
    {
        let fs_text: Vec<char> = if self.params.few_shot_count == 0 {
            Vec::new()
        } else {
            let collated = DatasetSpecificProcessing::collate_to_str(
                &self.examples,
                self.prompt_pool.quest_reason_ans.as_str(),
            );
            str_to_chars(collated.as_str())
        };
        let final_prompt = build_final_prompt(
            self.prompt_pool.base.final_prompt.as_str(),
            self.params.base_instruction.as_str(),
            self.params.answer_format.as_str(),
            &fs_text,
        );
        if self.params.generate_expert_identity {
            let req = build_expert_prompt(
                self.prompt_pool.expert_template.as_str(),
                self.params.task_description.as_str(),
            );
            self.phase = Phase::ExpertIdentity { final_prompt };
            EngineAction::Chat { user_prompt: req, system_prompt: None }
        } else {
            let expert = chars_to_string(
                &str_to_chars(self.prompt_pool.base.system_prompt.as_str()),
            );
            self.intent_or_finish(final_prompt, expert)
        }
    }

    /// Optionally append intent keywords, then finish the run.
    fn intent_or_finish(&mut self, final_prompt: String, expert: String) -> (action: EngineAction)
        requires
            old(self).wf(),
        ensures
            final(self).wf(),
            step_frame(*old(self), *final(self)),
            !(final(self).phase is SelectExamples),
            !(action is Finish) ==> final(self).iolog == old(self).iolog,
            action is Finish ==> final(self).phase is Done,
            !(action is Finish) ==> !(final(self).phase is Done),
            final(self).params == old(self).params,
            final(self).examples == old(self).examples,
            final(self).prompt_pool == old(self).prompt_pool,
            old(self).params.generate_intent_keywords ==> final(self).phase == (Phase::Intent {
                final_prompt,
                expert,
            }) && (action matches EngineAction::Chat { user_prompt, system_prompt } && user_prompt@
                == intent_prompt_spec(
                old(self).prompt_pool.intent_template@,
                old(self).params.task_description@,
                old(self).params.base_instruction@,
            ) && system_prompt is None) && final(self).iolog == old(self).iolog,
            !old(self).params.generate_intent_keywords ==> final(self).iolog.chained_log@.len()
                == 0 && (action matches EngineAction::Finish {
                file_name,
                lines,
                printout,
                final_prompt: fp,
                expert_identity,
            } && (file_name matches Some(f) && f@ == "best_prompt.jsonl"@) && lines@ == old(self).iolog.chained_log@ && printout@.len() == 0 && fp == final_prompt && expert_identity
                == expert),
    {
        if self.params.generate_intent_keywords {
            let req = build_intent_prompt(
                self.prompt_pool.intent_template.as_str(),
                self.params.task_description.as_str(),
                self.params.base_instruction.as_str(),
            );
            self.phase = Phase::Intent { final_prompt, expert };
            EngineAction::Chat { user_prompt: req, system_prompt: None }
        } else {
            self.finish_run(final_prompt, expert)
        }
    }

    /// Drain the chained log for the caller to append to
    /// `best_prompt.jsonl` and hand the composed prompt back.
    fn finish_run(&mut self, final_prompt: String, expert: String) -> (action: EngineAction)
        requires
            old(self).wf(),
        ensures
            final(self).wf(),
            step_frame(*old(self), *final(self)),
            !(final(self).phase is SelectExamples),
            final(self).phase is Done,
            final(self).params == old(self).params,
            final(self).examples == old(self).examples,
            final(self).prompt_pool == old(self).prompt_pool,
            final(self).iolog.chained_log@.len() == 0,
            action matches EngineAction::Finish {
                file_name,
                lines,
                printout,
                final_prompt: fp,
                expert_identity,
            } && (file_name matches Some(f) && f@ == "best_prompt.jsonl"@) && lines@ == old(self).iolog.chained_log@ && printout@.len() == 0 && fp == final_prompt && expert_identity
                == expert,
    {
        let lines = self.iolog.drain_chained_log();
        self.phase = Phase::Done;
        EngineAction::Finish {
            file_name: Some(chars_to_string(&str_to_chars("best_prompt.jsonl"))),
            lines,
            printout: Vec::new(),
            final_prompt,
            expert_identity: expert,
        }
    }

    /// Work on printed variation `idx` of branch B: ask for its expert
    /// identity when one is to be generated, else go straight to the intent
    /// keywords.
    fn variation_next(&mut self, idx: usize, candidates: Vec<String>) -> (action: EngineAction)
        requires
            old(self).wf(),
            idx < candidates@.len(),
        ensures
            final(self).wf(),
            step_frame(*old(self), *final(self)),
            action is Chat,
            !(final(self).phase is Done),
            final(self).params == old(self).params,
            final(self).variation_blocks == old(self).variation_blocks,
            final(self).iolog == old(self).iolog,
            old(self).params.generate_expert_identity ==> final(self).phase == (
            Phase::VariationExpert { idx, candidates }) && (action matches EngineAction::Chat {
                user_prompt,
                system_prompt,
            } && user_prompt@ == task_prompt_spec(
                old(self).prompt_pool.expert_template@,
                old(self).params.task_description@,
            ) && system_prompt is None),
            !old(self).params.generate_expert_identity ==> (final(self).phase matches
                Phase::VariationIntent { idx: i2, candidates: c2, expert } && i2 == idx && c2
                == candidates && expert@ == old(self).prompt_pool.base.system_prompt@) && (
            action matches EngineAction::Chat { user_prompt, system_prompt } && user_prompt@
                == intent_prompt_spec(
                old(self).prompt_pool.intent_template@,
                old(self).params.task_description@,
                old(self).params.base_instruction@,
            ) && system_prompt is None),
    {
        if self.params.generate_expert_identity {
            let req = build_expert_prompt(
                self.prompt_pool.expert_template.as_str(),
                self.params.task_description.as_str(),
            );
            self.phase = Phase::VariationExpert { idx, candidates };
            EngineAction::Chat { user_prompt: req, system_prompt: None }
        } else {
            let expert = chars_to_string(
                &str_to_chars(self.prompt_pool.base.system_prompt.as_str()),
            );
            let req = build_intent_prompt(
                self.prompt_pool.intent_template.as_str(),
                self.params.task_description.as_str(),
                self.params.base_instruction.as_str(),
            );
            self.phase = Phase::VariationIntent { idx, candidates, expert };
            EngineAction::Chat { user_prompt: req, system_prompt: None }
        }
    }


    /// Absorb one LLM reply and produce the next action. The optimization
    /// advances exactly as the phase dictates; in particular a rewrite
    /// reply without a `<START>…<END>` chunk is a no-op on the base
    /// instruction, and branch A finishes by writing one JSON record per
    /// synthesized example and returning a pair of empty texts.
    #[verifier::rlimit(100)]
    #[verifier::spinoff_prover]
    pub fn step(&mut self, reply: &str) -> (action: EngineAction)
        requires
            old(self).wf(),
            !(old(self).phase is Done),
        ensures
            final(self).wf(),
            action is Finish ==> final(self).phase is Done,
            !(action is Finish) ==> !(final(self).phase is Done),
            old(self).phase is ZeroShotCritique ==> action is Chat && final(self).phase
                is ZeroShotOptimize,
            old(self).phase is ZeroShotOptimize ==> (action matches EngineAction::Finish {
                file_name,
                lines,
                printout,
                final_prompt,
                expert_identity,
            } && final_prompt@ == Seq::<char>::empty() && expert_identity@ == Seq::<char>::empty()
                && printout@.len() == 0 && (file_name matches Some(f) && f@
                == "train_synthetic.jsonl"@) && lines@.map_values(|l: String| l@)
                == crate::examples::examples_of_chunks(
                crate::text::extract_all_between(
                    reply@,
                    crate::dataset::start_pat(),
                    crate::dataset::end_pat(),
                ),
            ).map_values(
                |t: (Seq<char>, Seq<char>, Seq<char>)| train_record_spec(t.0, t.1, t.2),
            )),
            old(self).phase is InnerRewrite && crate::text::extract_between_spec(
                reply@,
                crate::dataset::start_pat(),
                crate::dataset::end_pat(),
            ) is None ==> final(self).params.base_instruction == old(self).params.base_instruction,
            old(self).phase is InnerRewrite && crate::text::extract_between_spec(
                reply@,
                crate::dataset::start_pat(),
                crate::dataset::end_pat(),
            ) is Some ==> final(self).params.base_instruction@ == crate::text::extract_between_spec(
                reply@,
                crate::dataset::start_pat(),
                crate::dataset::end_pat(),
            )->Some_0,
            step_frame(*old(self), *final(self)),
            step_log_flow(*old(self), *final(self), action),
            step_zero_shot(*old(self), *final(self), reply@, action),
            step_plain_finish(*old(self), *final(self), action),
            step_mutating(*old(self), *final(self), reply@, action),
            step_scoring(*old(self), *final(self), reply@, action),
            step_refining(*old(self), *final(self), reply@, action),
            step_selecting(*old(self), *final(self), reply@, action),
            step_inner_loop(*old(self), *final(self), reply@, action),
            step_composing(*old(self), *final(self), reply@, action),
    {
        let mut ph = Phase::Done;
        core::mem::swap(&mut ph, &mut self.phase);
        match ph {
            Phase::ZeroShotCritique => {
                proof {
                    reveal_strlit("");
                    assert(""@ =~= Seq::<char>::empty());
                }
                let req = build_examples_optimization_request(
                    self.prompt_pool.examples_optimization_template.as_str(),
                    self.params.base_instruction.as_str(),
                    "",
                    "",
                    reply,
                    self.params.task_description.as_str(),
                    self.params.num_train_examples,
                );
                let system = chars_to_string(
                    &str_to_chars(self.prompt_pool.expert_profile.as_str()),
                );
                self.phase = Phase::ZeroShotOptimize;
                EngineAction::Chat { user_prompt: req, system_prompt: Some(system) }
            },
            Phase::ZeroShotOptimize => {
                let exs = extract_examples_from_response(reply);
                let n = exs.len();
                let mut lines: Vec<String> = Vec::new();
                let mut i: usize = 0;
                let ghost triples = crate::examples::example_triples(exs@);
                let ghost tr = |t: (Seq<char>, Seq<char>, Seq<char>)| train_record_spec(
                    t.0,
                    t.1,
                    t.2,
                );
                while i < n
                    invariant
                        n == exs@.len(),
                        i <= n,
                        triples == crate::examples::example_triples(exs@),
                        forall|k: int| 0 <= k < n ==> (#[trigger] exs@[k]).answer_with_reason
                            is Some,
                        tr == (|t: (Seq<char>, Seq<char>, Seq<char>)| train_record_spec(
                            t.0,
                            t.1,
                            t.2,
                        )),
                        lines@.map_values(|l: String| l@) == triples.take(i as int).map_values(tr),
                    decreases n - i,
                {
                    let line = build_train_record(&exs[i]);
                    lines.push(line);
                    proof {
                        assert(triples[i as int] == (
                            exs@[i as int].question@,
                            exs@[i as int].answer_with_reason->Some_0@,
                            exs@[i as int].final_answer@,
                        ));
                        assert(triples.take(i + 1) =~= triples.take(i as int).push(
                            triples[i as int],
                        ));
                        assert(triples.take(i + 1).map_values(tr) =~= triples.take(
                            i as int,
                        ).map_values(tr).push(tr(triples[i as int])));
                        assert(lines@.map_values(|l: String| l@) =~= triples.take(
                            i as int,
                        ).map_values(tr).push(tr(triples[i as int])));
                    }
                    i += 1;
                }
                proof {
                    assert(triples.take(n as int) =~= triples);
                }
                self.phase = Phase::Done;
                EngineAction::Finish {
                    file_name: Some(chars_to_string(&str_to_chars("train_synthetic.jsonl"))),
                    lines,
                    printout: Vec::new(),
                    final_prompt: String::new(),
                    expert_identity: String::new(),
                }
            },
            Phase::Mutating { round, session } => {
                let mut session = session;
                mutation_absorb(&mut session, reply);
                proof {
                    let f = |c: String| c@;
                    assert(session.candidates@.map_values(f).len() == session.candidates@.len());
                }
                if session.rounds_left > 0 {
                    let req = chars_to_string(&str_to_chars(session.request.as_str()));
                    self.phase = Phase::Mutating { round, session };
                    EngineAction::Chat { user_prompt: req, system_prompt: None }
                } else {
                    let candidates = session.candidates;
                    if self.run_without_train_examples {
                        let lim_rounds = self.params.mutation_rounds as usize;
                        let limit = if lim_rounds < candidates.len() {
                            lim_rounds
                        } else {
                            candidates.len()
                        };
                        if limit == 0 {
                            self.phase = Phase::Done;
                            let mut blocks: Vec<String> = Vec::new();
                            core::mem::swap(&mut blocks, &mut self.variation_blocks);
                            EngineAction::Finish {
                                file_name: None,
                                lines: Vec::new(),
                                printout: blocks,
                                final_prompt: String::new(),
                                expert_identity: String::new(),
                            }
                        } else {
                            self.variation_next(0, candidates)
                        }
                    } else {
                        let instruction = chars_to_string(&str_to_chars(candidates[0].as_str()));
                        let dlen = self.dataset.len();
                        let st = begin_scoring(
                            instruction,
                            dlen,
                            self.params.questions_batch_size,
                            &mut self.rng,
                        );
                        self.advance_scoring(round, candidates, 0, st, Vec::new(), None)
                    }
                }
            },
            Phase::VariationExpert { idx, candidates } => {
                let expert = chars_to_string(&str_to_chars(reply));
                let req = build_intent_prompt(
                    self.prompt_pool.intent_template.as_str(),
                    self.params.task_description.as_str(),
                    self.params.base_instruction.as_str(),
                );
                self.phase = Phase::VariationIntent { idx, candidates, expert };
                EngineAction::Chat { user_prompt: req, system_prompt: None }
            },
            Phase::VariationIntent { idx, candidates, expert } => {
                let empty: Vec<char> = Vec::new();
                let fp = build_final_prompt(
                    self.prompt_pool.base.final_prompt.as_str(),
                    candidates[idx].as_str(),
                    self.params.answer_format.as_str(),
                    &empty,
                );
                let mut fpc = str_to_chars(fp.as_str());
                push_all(&mut fpc, &str_to_chars("Keywords: "));
                push_all(&mut fpc, &str_to_chars(reply));
                let final_best = chars_to_string(&fpc);
                proof {
                    assert(final_best@ =~= final_prompt_spec(
                        self.prompt_pool.base.final_prompt@,
                        candidates@[idx as int]@,
                        self.params.answer_format@,
                        Seq::<char>::empty(),
                    ) + "Keywords: "@ + reply@) by {
                        reveal_strlit("");
                        assert(""@ =~= Seq::<char>::empty());
                    }
                }
                let clen = candidates.len();
                let block = build_variation_block(
                    (idx as u64) + 1,
                    expert.as_str(),
                    final_best.as_str(),
                );
                let ghost blockv = block@;
                let ghost blocks0 = self.variation_blocks@;
                self.variation_blocks.push(block);
                proof {
                    let m = |b: String| b@;
                    assert(self.variation_blocks@.map_values(m) =~= blocks0.map_values(m).push(
                        blockv,
                    ));
                }
                let lim_rounds = self.params.mutation_rounds as usize;
                let limit = if lim_rounds < clen {
                    lim_rounds
                } else {
                    clen
                };
                if idx + 1 < limit {
                    self.variation_next(idx + 1, candidates)
                } else {
                    self.phase = Phase::Done;
                    let mut blocks: Vec<String> = Vec::new();
                    core::mem::swap(&mut blocks, &mut self.variation_blocks);
                    proof {
                        let m = |b: String| b@;
                        assert(blocks@.map_values(m) =~= blocks0.map_values(m).push(blockv));
                    }
                    EngineAction::Finish {
                        file_name: None,
                        lines: Vec::new(),
                        printout: blocks,
                        final_prompt: String::new(),
                        expert_identity: String::new(),
                    }
                }
            },
            Phase::Scoring { round, candidates, next, st, scored, refining } => {
                let mut st = st;
                absorb_solve_reply(&mut st, reply, &self.dataset, &self.params, &mut self.rng);
                self.advance_scoring(round, candidates, next, st, scored, refining)
            },
            Phase::RefineCritique { round, kept, idx, refined } => {
                let examples_text = DatasetSpecificProcessing::collate_to_str(
                    &kept[idx].wrong_examples,
                    self.prompt_pool.quest_reason_ans.as_str(),
                );
                let req = build_refine_request(
                    self.prompt_pool.critique_refine_template.as_str(),
                    kept[idx].instruction.as_str(),
                    examples_text.as_str(),
                    reply,
                );
                let system = chars_to_string(
                    &str_to_chars(self.prompt_pool.expert_profile.as_str()),
                );
                self.phase = Phase::RefineRewrite { round, kept, idx, refined };
                EngineAction::Chat { user_prompt: req, system_prompt: Some(system) }
            },
            Phase::RefineRewrite { round, kept, idx, refined } => {
                let ghost refined0 = refined@;
                let mut refined = refined;
                match extract_refined(reply) {
                    Ok(s) => {
                        let ghost sv = s@;
                        refined.push(s);
                        proof {
                            let m = |x: String| x@;
                            assert(refined@.map_values(m) =~= refined0.map_values(m).push(sv));
                            assert(refined0.map_values(m).push(sv) =~= refined0.map_values(m)
                                + seq![sv]);
                        }
                    },
                    Err(_) => {
                        proof {
                            let m = |x: String| x@;
                            assert(refined0.map_values(m) + Seq::<Seq<char>>::empty()
                                =~= refined0.map_values(m));
                        }
                    },
                }
                let klen = kept.len();
                if idx + 1 < klen {
                    self.begin_refine_critique(round, kept, idx + 1, refined)
                } else {
                    if refined.len() >= 1 {
                        let instruction = chars_to_string(&str_to_chars(refined[0].as_str()));
                        let dlen = self.dataset.len();
                        let st = begin_scoring(
                            instruction,
                            dlen,
                            self.params.questions_batch_size,
                            &mut self.rng,
                        );
                        self.advance_scoring(round, refined, 0, st, Vec::new(), Some(kept))
                    } else {
                        self.round_end(kept, round)
                    }
                }
            },
            Phase::SelectExamples { ds_idx } => {
                let mut single: Vec<Example> = Vec::new();
                single.push(self.dataset[ds_idx].clone());
                proof {
                    assert(single@ =~= seq![self.dataset@[ds_idx as int]]);
                }
                let mut wrong = evaluate(reply, &single);
                let ghost ex0 = self.examples@;
                self.examples.append(&mut wrong);
                proof {
                    assert(self.examples@ == ex0 + selected_wrong(
                        reply@,
                        self.dataset@[ds_idx as int],
                    ));
                }
                let fsc = self.params.few_shot_count as usize;
                let dlen = self.dataset.len();
                let act = if self.examples.len() >= fsc || ds_idx + 1 >= dlen {
                    self.top_up_and_inner()
                } else {
                    self.begin_select(ds_idx + 1)
                };
                proof {
                    assert(self.examples@.subrange(0, self.examples@.len() as int)
                        =~= self.examples@);
                }
                act
            },
            Phase::InnerCritique { iter } => {
                let examples_text = DatasetSpecificProcessing::collate_to_str(
                    &self.examples,
                    self.prompt_pool.quest_reason_ans.as_str(),
                );
                let req = build_refine_request(
                    self.prompt_pool.critique_refine_template.as_str(),
                    self.params.base_instruction.as_str(),
                    examples_text.as_str(),
                    reply,
                );
                self.phase = Phase::InnerRewrite { iter };
                EngineAction::Chat { user_prompt: req, system_prompt: None }
            },
            Phase::InnerRewrite { iter } => {
                match extract_refined(reply) {
                    Ok(s) => {
                        self.params.base_instruction = s;
                    },
                    Err(_) => {},
                }
                self.inner_next(iter + 1)
            },
            Phase::InnerExamplesCritique { iter } => {
                let dlen = self.dataset.len();
                let gt_idx = random_index(&mut self.rng, dlen);
                let mut gt: Vec<Example> = Vec::new();
                gt.push(self.dataset[gt_idx].clone());
                let gt_text = DatasetSpecificProcessing::collate_to_str(
                    &gt,
                    self.prompt_pool.quest_reason_ans.as_str(),
                );
                let examples_text = DatasetSpecificProcessing::collate_to_str(
                    &self.examples,
                    self.prompt_pool.quest_reason_ans.as_str(),
                );
                let req = build_examples_optimization_request(
                    self.prompt_pool.examples_optimization_template.as_str(),
                    self.params.base_instruction.as_str(),
                    examples_text.as_str(),
                    gt_text.as_str(),
                    reply,
                    self.params.task_description.as_str(),
                    self.params.few_shot_count,
                );
                let system = chars_to_string(
                    &str_to_chars(self.prompt_pool.expert_profile.as_str()),
                );
                self.phase = Phase::InnerExamplesOptimize { iter };
                EngineAction::Chat { user_prompt: req, system_prompt: Some(system) }
            },
            Phase::InnerExamplesOptimize { iter } => {
                let new_examples = extract_examples_from_response(reply);
                self.examples = new_examples;
                self.inner_next(iter + 1)
            },
            Phase::Reasoning { idx } => {
                let ghost ex0 = self.examples@;
                let mut awr = str_to_chars(reply);
                awr.push(' ');
                push_all(&mut awr, &crate::dataset::ans_start_chars());
                push_all(&mut awr, &str_to_chars(self.examples[idx].final_answer.as_str()));
                push_all(&mut awr, &crate::dataset::ans_end_chars());
                proof {
                    assert(awr@ =~= reply@ + seq![' '] + ans_start_pat()
                        + ex0[idx as int].final_answer@ + ans_end_pat());
                }
                let e_old = self.examples.remove(idx);
                let e_new = Example {
                    question: e_old.question,
                    final_answer: e_old.final_answer,
                    answer_with_reason: Some(chars_to_string(&awr)),
                };
                self.examples.insert(idx, e_new);
                proof {
                    assert(self.examples@ =~= ex0.update(idx as int, e_new));
                }
                let elen = self.examples.len();
                if idx + 1 < elen {
                    let req = build_reason_prompt(
                        self.prompt_pool.generate_reason_template.as_str(),
                        self.params.task_description.as_str(),
                        self.params.base_instruction.as_str(),
                        self.examples[idx + 1].question.as_str(),
                        self.examples[idx + 1].final_answer.as_str(),
                    );
                    self.phase = Phase::Reasoning { idx: idx + 1 };
                    EngineAction::Chat { user_prompt: req, system_prompt: None }
                } else {
                    self.after_reasoning()
                }
            },
            Phase::ExpertIdentity { final_prompt } => {
                let expert = chars_to_string(&str_to_chars(reply));
                self.intent_or_finish(final_prompt, expert)
            },
            Phase::Intent { final_prompt, expert } => {
                let mut fpc = str_to_chars(final_prompt.as_str());
                push_all(&mut fpc, &str_to_chars("Keywords: "));
                push_all(&mut fpc, &str_to_chars(reply));
                self.finish_run(chars_to_string(&fpc), expert)
            },
            Phase::Done => {
                proof {
                    assert(false);
                }
                self.phase = Phase::Done;
                EngineAction::Finish {
                    file_name: None,
                    lines: Vec::new(),
                    printout: Vec::new(),
                    final_prompt: String::new(),
                    expert_identity: String::new(),
                }
            },
        }
    }
}


/// Run one whole optimization with the LLM replies supplied in order:
/// start the engine and feed it one reply per chat request until it
/// finishes or the replies run out. The finishing action carries the
/// composed prompt and expert identity together with the records and
/// texts to write out; `None` means the transcript ended early.
pub fn get_best_prompt(
    dataset: Vec<Example>,
    prompt_pool: CritiqueNRefinePromptPool,
    params: CritiqueNRefineParams,
    use_examples: bool,
    run_without_train_examples: bool,
    generate_synthetic_examples: bool,
    iolog: Logger,
    seed: u64,
    replies: &Vec<String>,
) -> (r: Option<EngineAction>)
    requires
        params.top_n >= 1,
        params.questions_batch_size >= 1,
        params.style_variation <= prompt_pool.thinking_styles@.len(),
        params.mutation_rounds < 0xFFFF_FFFFu32,
        generate_synthetic_examples || dataset@.len() >= 1 || (run_without_train_examples
            && params.mutate_refine_iterations >= 1),
    ensures
        r is Some ==> r->Some_0 is Finish,
        generate_synthetic_examples && replies@.len() >= 2 ==> (r matches Some(a) && (a matches
            EngineAction::Finish { file_name, lines, printout, final_prompt, expert_identity }
            && final_prompt@ == Seq::<char>::empty() && expert_identity@ == Seq::<char>::empty()
            && (file_name matches Some(f) && f@ == "train_synthetic.jsonl"@)
            && lines@.map_values(|l: String| l@) == examples_of_chunks(
            extract_all_between(replies@[1]@, start_pat(), end_pat()),
        ).map_values(|t: (Seq<char>, Seq<char>, Seq<char>)| train_record_spec(t.0, t.1, t.2)))),
{
    let (mut engine, mut action) = CritiqueNRefine::start(
        dataset,
        prompt_pool,
        params,
        use_examples,
        run_without_train_examples,
        generate_synthetic_examples,
        iolog,
        seed,
    );
    let n = replies.len();
    let mut i: usize = 0;
    while i < n
        invariant
            n == replies@.len(),
            i <= n,
            engine.wf(),
            !(action is Finish) ==> !(engine.phase is Done),
            action is Finish ==> engine.phase is Done,
            engine.generate_synthetic_examples == generate_synthetic_examples,
            generate_synthetic_examples ==> (engine.phase is ZeroShotCritique || engine.phase
                is ZeroShotOptimize || engine.phase is Done),
            generate_synthetic_examples && engine.phase is ZeroShotCritique ==> i == 0 && action
                is Chat,
            generate_synthetic_examples && engine.phase is ZeroShotOptimize ==> i == 1 && action
                is Chat,
            generate_synthetic_examples && engine.phase is Done ==> i == 2 && (action matches
                EngineAction::Finish {
                file_name,
                lines,
                printout,
                final_prompt,
                expert_identity,
            } && final_prompt@ == Seq::<char>::empty() && expert_identity@
                == Seq::<char>::empty() && (file_name matches Some(f) && f@
                == "train_synthetic.jsonl"@) && lines@.map_values(|l: String| l@)
                == examples_of_chunks(
                extract_all_between(replies@[1]@, start_pat(), end_pat()),
            ).map_values(|t: (Seq<char>, Seq<char>, Seq<char>)| train_record_spec(t.0, t.1, t.2))),
        decreases n - i,
    {
        match action {
            EngineAction::Finish { .. } => {
                return Some(action);
            },
            EngineAction::Chat { .. } => {
                action = engine.step(replies[i].as_str());
                i += 1;
            },
        }
    }
    match action {
        EngineAction::Finish { .. } => Some(action),
        EngineAction::Chat { .. } => None,
    }
}

} // verus!
