//! The scorer: evaluate an LLM reply against a sampled batch, and run the
//! early-exit mini-batch loop that scores one instruction. A batch with any
//! wrong answer ends the loop and leaves those examples as the critique
//! seed; a perfect batch counts toward the required streak and resamples.

use vstd::prelude::*;
use crate::dataset::{
    Example, ans_start_pat, ans_end_pat, ans_start_chars, ans_end_chars, answer_is_correct,
};
use crate::score::{Score, ScoredPrompt};
use crate::text::{extract_all_between, extract_all_between_in, str_to_chars, chars_to_string,
    join_with, join_with_in};
use crate::pool::{solve_prompt_spec, build_solve_prompt, CritiqueNRefineParams};
use crate::rng::sample_distinct_indices;

verus! {

// ---------------------------------------------------------------------------
// Evaluating one reply against a batch
// ---------------------------------------------------------------------------

/// The examples answered wrongly: position `i` of the batch is wrong when
/// the `i`-th extracted answer does not match its ground truth. Extra
/// answers are dropped; unanswered examples are not judged.
pub open spec fn wrong_of(answers: Seq<Seq<char>>, subset: Seq<Example>) -> Seq<Example>
    decreases subset.len(),
{
    if answers.len() == 0 || subset.len() == 0 {
        Seq::empty()
    } else {
        let head: Seq<Example> = if answer_is_correct(answers[0], subset[0].final_answer@) {
            Seq::empty()
        } else {
            seq![subset[0]]
        };
        head + wrong_of(answers.skip(1), subset.skip(1))
    }
}

/// Extract every `<ANS_START>…<ANS_END>` answer from `generated_text` and
/// collect the batch examples whose answers are wrong, in batch order.
pub fn evaluate(generated_text: &str, dataset_subset: &Vec<Example>) -> (r: Vec<Example>)
    ensures
        r@ == wrong_of(
            extract_all_between(generated_text@, ans_start_pat(), ans_end_pat()),
            dataset_subset@,
        ),
        r@.len() <= dataset_subset@.len(),
{
    let text = str_to_chars(generated_text);
    let answers = extract_all_between_in(&text, &ans_start_chars(), &ans_end_chars());
    proof {
        lemma_wrong_of_len(answers@.map_values(|v: Vec<char>| v@), dataset_subset@);
    }
    let acount = answers.len();
    let scount = dataset_subset.len();
    let n = if acount < scount {
        acount
    } else {
        scount
    };
    let mut wrong: Vec<Example> = Vec::new();
    let mut i: usize = 0;
    let ghost aseq = answers@.map_values(|v: Vec<char>| v@);
    proof {
        assert(aseq.skip(0) =~= aseq);
        assert(dataset_subset@.skip(0) =~= dataset_subset@);
        assert(Seq::<Example>::empty() + wrong_of(aseq, dataset_subset@) =~= wrong_of(
            aseq,
            dataset_subset@,
        ));
    }
    while i < n
        invariant
            n == vstd::math::min(aseq.len() as int, dataset_subset@.len() as int),
            aseq == answers@.map_values(|v: Vec<char>| v@),
            i <= n,
            wrong_of(aseq, dataset_subset@) == wrong@ + wrong_of(
                aseq.skip(i as int),
                dataset_subset@.skip(i as int),
            ),
            wrong@.len() <= i,
        decreases n - i,
    {
        let ans = chars_to_string(&answers[i]);
        let proc = crate::dataset::DatasetSpecificProcessing {};
        let (is_correct, _predicted) = proc.assess_answer(
            ans.as_str(),
            dataset_subset[i].final_answer.as_str(),
        );
        proof {
            let atail = aseq.skip(i as int);
            let stail = dataset_subset@.skip(i as int);
            assert(atail[0] == aseq[i as int]);
            assert(stail[0] == dataset_subset@[i as int]);
            assert(atail.skip(1) =~= aseq.skip(i + 1));
            assert(stail.skip(1) =~= dataset_subset@.skip(i + 1));
            if answer_is_correct(atail[0], stail[0].final_answer@) {
                assert(Seq::<Example>::empty() + wrong_of(aseq.skip(i + 1), dataset_subset@.skip(
                    i + 1,
                )) =~= wrong_of(aseq.skip(i + 1), dataset_subset@.skip(i + 1)));
            } else {
                assert(wrong@ + (seq![stail[0]] + wrong_of(aseq.skip(i + 1), dataset_subset@.skip(
                    i + 1,
                ))) =~= wrong@.push(dataset_subset@[i as int]) + wrong_of(
                    aseq.skip(i + 1),
                    dataset_subset@.skip(i + 1),
                ));
            }
        }
        if !is_correct {
            wrong.push(dataset_subset[i].clone());
        }
        i += 1;
    }
    proof {
        assert(aseq.skip(n as int).len() == 0 || dataset_subset@.skip(n as int).len() == 0);
        assert(wrong_of(aseq.skip(n as int), dataset_subset@.skip(n as int)) == Seq::<
            Example,
        >::empty());
        assert(wrong@ + Seq::<Example>::empty() =~= wrong@);
        lemma_wrong_of_len(aseq, dataset_subset@);
    }
    wrong
}

/// The wrong set never exceeds the batch.
proof fn lemma_wrong_of_len(answers: Seq<Seq<char>>, subset: Seq<Example>)
    ensures
        wrong_of(answers, subset).len() <= subset.len(),
    decreases subset.len(),
{
    if answers.len() == 0 || subset.len() == 0 {
    } else {
        lemma_wrong_of_len(answers.skip(1), subset.skip(1));
    }
}

// ---------------------------------------------------------------------------
// The early-exit scoring loop for one instruction
// ---------------------------------------------------------------------------

/// The state of scoring one instruction: counters, the current sampled
/// batch, and the wrong examples of the last evaluated batch.
pub struct ScoreState {
    pub instruction: String,
    pub correct_count: u32,
    pub count: u32,
    pub batch: Vec<usize>,
    pub wrong: Vec<Example>,
}

impl ScoreState {
    /// Batch indices stay inside the dataset, and no more perfect batches
    /// than attempts have been recorded.
    pub open spec fn wf(&self, dataset_len: int) -> bool {
        &&& forall|i: int| 0 <= i < self.batch@.len() ==> #[trigger] self.batch@[i] < dataset_len
        &&& self.correct_count <= self.count
    }

    /// The loop keeps going while no batch has failed, the streak is short
    /// of `min_correct_count`, and attempts remain.
    pub open spec fn active(&self, params: CritiqueNRefineParams) -> bool {
        self.wrong@.len() == 0 && self.correct_count < params.min_correct_count && self.count
            < params.max_eval_batches
    }
}

/// Start scoring `instruction`: zero counters and a fresh random batch of
/// `min(questions_batch_size, dataset_len)` distinct dataset indices.
pub fn begin_scoring(
    instruction: String,
    dataset_len: usize,
    questions_batch_size: u32,
    rng: &mut rand::rngs::StdRng,
) -> (st: ScoreState)
    requires
        dataset_len >= 1,
    ensures
        st.wf(dataset_len as int),
        st.instruction == instruction,
        st.correct_count == 0,
        st.count == 0,
        st.wrong@.len() == 0,
        st.batch@.len() == vstd::math::min(questions_batch_size as int, dataset_len as int),
{
    let want = questions_batch_size as usize;
    let amount = if want < dataset_len {
        want
    } else {
        dataset_len
    };
    let batch = sample_distinct_indices(rng, dataset_len, amount);
    ScoreState { instruction, correct_count: 0, count: 0, batch, wrong: Vec::new() }
}

/// The joined questions of the current batch.
pub fn batch_questions(st: &ScoreState, dataset: &Vec<Example>) -> (r: Vec<char>)
    requires
        st.wf(dataset@.len() as int),
    ensures
        r@ == join_with(
            st.batch@.map_values(|k: usize| dataset@[k as int].question@),
            seq!['\n'],
        ),
{
    let mut qs: Vec<Vec<char>> = Vec::new();
    let n = st.batch.len();
    let mut i: usize = 0;
    while i < n
        invariant
            n == st.batch@.len(),
            st.wf(dataset@.len() as int),
            i <= n,
            qs@.map_values(|v: Vec<char>| v@) == st.batch@.subrange(0, i as int).map_values(
                |k: usize| dataset@[k as int].question@,
            ),
        decreases n - i,
    {
        let idx = st.batch[i];
        qs.push(str_to_chars(dataset[idx].question.as_str()));
        proof {
            let f = |k: usize| dataset@[k as int].question@;
            let g = |v: Vec<char>| v@;
            let pre = st.batch@.subrange(0, i as int);
            let post = st.batch@.subrange(0, i + 1);
            assert(post =~= pre.push(st.batch@[i as int]));
            assert(post.map_values(f) =~= pre.map_values(f).push(f(st.batch@[i as int])));
            assert(qs@[i as int]@ == f(st.batch@[i as int]));
            assert(qs@.map_values(g) =~= pre.map_values(f).push(f(st.batch@[i as int])));
        }
        i += 1;
    }
    proof {
        assert(st.batch@.subrange(0, n as int) =~= st.batch@);
    }
    let mut sep: Vec<char> = Vec::new();
    sep.push('\n');
    proof {
        assert(sep@ =~= seq!['\n']);
    }
    join_with_in(&qs, &sep)
}

/// The solve prompt for the current batch of `st`.
pub fn solve_request(
    st: &ScoreState,
    dataset: &Vec<Example>,
    solve_template: &str,
    params: &CritiqueNRefineParams,
) -> (r: String)
    requires
        st.wf(dataset@.len() as int),
    ensures
        r@ == solve_prompt_spec(
            solve_template@,
            params.questions_batch_size as nat,
            params.answer_format@,
            st.instruction@,
            join_with(st.batch@.map_values(|k: usize| dataset@[k as int].question@), seq!['\n']),
        ),
{
    let qs = batch_questions(st, dataset);
    build_solve_prompt(
        solve_template,
        params.questions_batch_size,
        params.answer_format.as_str(),
        st.instruction.as_str(),
        &qs,
    )
}

/// Absorb one LLM reply for the current batch: count the attempt, collect
/// the wrong examples, and on a perfect batch extend the streak and draw a
/// fresh batch.
pub fn absorb_solve_reply(
    st: &mut ScoreState,
    reply: &str,
    dataset: &Vec<Example>,
    params: &CritiqueNRefineParams,
    rng: &mut rand::rngs::StdRng,
)
    requires
        old(st).wf(dataset@.len() as int),
        old(st).active(*params),
        dataset@.len() >= 1,
    ensures
        final(st).wf(dataset@.len() as int),
        final(st).instruction == old(st).instruction,
        final(st).count == old(st).count + 1,
        final(st).wrong@ == wrong_of(
            extract_all_between(reply@, ans_start_pat(), ans_end_pat()),
            old(st).batch@.map_values(|i: usize| dataset@[i as int]),
        ),
        final(st).wrong@.len() == 0 ==> final(st).correct_count == old(st).correct_count + 1,
        final(st).wrong@.len() > 0 ==> final(st).correct_count == old(st).correct_count,
        final(st).wrong@.len() <= old(st).batch@.len(),
        final(st).wrong@.len() == 0 ==> final(st).batch@.len() == vstd::math::min(
            params.questions_batch_size as int,
            dataset@.len() as int,
        ),
        final(st).wrong@.len() > 0 ==> final(st).batch == old(st).batch,
{
    let mut subset: Vec<Example> = Vec::new();
    let n = st.batch.len();
    let mut i: usize = 0;
    while i < n
        invariant
            n == st.batch@.len(),
            st.wf(dataset@.len() as int),
            i <= n,
            subset@ == st.batch@.subrange(0, i as int).map_values(|k: usize| dataset@[k as int]),
        decreases n - i,
    {
        let idx = st.batch[i];
        subset.push(dataset[idx].clone());
        proof {
            assert(subset@ =~= st.batch@.subrange(0, i + 1 as int).map_values(
                |k: usize| dataset@[k as int],
            ));
        }
        i += 1;
    }
    proof {
        assert(st.batch@.subrange(0, n as int) =~= st.batch@);
    }
    let wrong = evaluate(reply, &subset);
    st.count = st.count + 1;
    if wrong.len() == 0 {
        st.correct_count = st.correct_count + 1;
        let want = params.questions_batch_size as usize;
        let dlen = dataset.len();
        let amount = if want < dlen {
            want
        } else {
            dlen
        };
        st.batch = sample_distinct_indices(rng, dlen, amount);
    }
    st.wrong = wrong;
}

/// The scored record of a finished loop: `correct_count` perfect batches
/// out of `max(count, 1)` attempts, with the last batch's wrong examples.
pub fn finish_scoring(st: ScoreState) -> (r: ScoredPrompt)
    requires
        st.correct_count <= st.count,
    ensures
        r.instruction == st.instruction,
        r.score.num == st.correct_count,
        r.score.den == vstd::math::max(st.count as int, 1),
        r.score.num <= r.score.den,
        r.score.den >= 1,
        r.wrong_examples == st.wrong,
{
    let den = if st.count == 0 {
        1
    } else {
        st.count
    };
    ScoredPrompt {
        instruction: st.instruction,
        score: Score { num: st.correct_count, den },
        wrong_examples: st.wrong,
    }
}

/// Score one instruction against the dataset, drawing one reply per batch
/// from `replies` starting at `*next_reply`. The loop ends as soon as a
/// batch fails, the streak reaches `min_correct_count`, `max_eval_batches`
/// attempts are spent, or the replies run out. The returned score counts
/// exactly the perfectly answered batches over `max(count, 1)` attempts:
/// the wrong set is non-empty exactly when the last counted batch failed,
/// which makes the score `(count - 1) / count` there and `count / count`
/// otherwise (or 0/1 when no batch was attempted).
pub fn score_instruction(
    instruction: String,
    dataset: &Vec<Example>,
    solve_template: &str,
    params: &CritiqueNRefineParams,
    replies: &Vec<String>,
    next_reply: &mut usize,
    rng: &mut rand::rngs::StdRng,
) -> (r: ScoredPrompt)
    requires
        dataset@.len() >= 1,
        *old(next_reply) <= replies@.len(),
    ensures
        r.instruction == instruction,
        r.score.num <= r.score.den,
        r.score.den >= 1,
        r.score.den == vstd::math::max(*final(next_reply) - *old(next_reply), 1),
        *old(next_reply) <= *final(next_reply) <= replies@.len(),
        *final(next_reply) - *old(next_reply) <= params.max_eval_batches,
        r.wrong_examples@.len() > 0 || r.score.num >= params.min_correct_count
            || *final(next_reply) - *old(next_reply) >= params.max_eval_batches
            || *final(next_reply) == replies@.len(),
        params.min_correct_count >= 1 && params.max_eval_batches >= 1 && *old(next_reply)
            < replies@.len() ==> *final(next_reply) > *old(next_reply),
        r.score.num == *final(next_reply) - *old(next_reply) - (if r.wrong_examples@.len() > 0 {
            1int
        } else {
            0int
        }),
        r.wrong_examples@.len() > 0 ==> r.score.num + 1 == r.score.den,
        r.wrong_examples@.len() == 0 ==> r.score.num == r.score.den || (r.score.num == 0
            && r.score.den == 1),
        r.wrong_examples@.len() <= vstd::math::min(
            params.questions_batch_size as int,
            dataset@.len() as int,
        ),
{
    let mut st = begin_scoring(instruction, dataset.len(), params.questions_batch_size, rng);
    let ghost start = *next_reply;
    while st.wrong.len() == 0 && st.correct_count < params.min_correct_count && st.count
        < params.max_eval_batches && *next_reply < replies.len()
        invariant
            dataset@.len() >= 1,
            st.wf(dataset@.len() as int),
            st.instruction == instruction,
            start <= *next_reply <= replies@.len(),
            st.count == *next_reply - start,
            st.count <= params.max_eval_batches,
            st.count == 0 ==> st.wrong@.len() == 0,
            st.wrong@.len() == 0 ==> st.correct_count == st.count,
            st.wrong@.len() > 0 ==> st.correct_count + 1 == st.count,
            st.wrong@.len() == 0 ==> st.batch@.len() == vstd::math::min(
                params.questions_batch_size as int,
                dataset@.len() as int,
            ),
            st.wrong@.len() <= vstd::math::min(
                params.questions_batch_size as int,
                dataset@.len() as int,
            ),
        decreases params.max_eval_batches - st.count,
    {
        let reply = &replies[*next_reply];
        absorb_solve_reply(&mut st, reply.as_str(), dataset, params, rng);
        *next_reply = *next_reply + 1;
    }
    proof {
        assert(st.instruction == instruction);
        if params.min_correct_count >= 1 && params.max_eval_batches >= 1 && start
            < replies@.len() && st.count == 0 {
            assert(st.wrong@.len() == 0);
            assert(*next_reply == start);
        }
    }
    finish_scoring(st)
}

/// Score each instruction in turn against the dataset, drawing replies in
/// order from `replies`: one scored record per instruction, in instruction
/// order. Each score lies in [0, 1] over at least one counted attempt; a
/// non-empty wrong set means exactly the last attempted batch failed (the
/// score is then `(count-1)/count`), an empty one that every attempted
/// batch was perfect; and no wrong set exceeds one batch.
pub fn get_prompt_score(
    instructions: Vec<String>,
    dataset: &Vec<Example>,
    solve_template: &str,
    params: &CritiqueNRefineParams,
    replies: &Vec<String>,
    rng: &mut rand::rngs::StdRng,
) -> (r: Vec<ScoredPrompt>)
    requires
        dataset@.len() >= 1,
    ensures
        r@.len() == instructions@.len(),
        forall|i: int| 0 <= i < r@.len() ==> (#[trigger] r@[i]).instruction == instructions@[i],
        forall|i: int|
            0 <= i < r@.len() ==> (#[trigger] r@[i]).score.num <= r@[i].score.den && r@[i].score.den
                >= 1,
        forall|i: int|
            0 <= i < r@.len() && (#[trigger] r@[i]).wrong_examples@.len() > 0 ==> r@[i].score.num
                + 1 == r@[i].score.den,
        forall|i: int|
            0 <= i < r@.len() && (#[trigger] r@[i]).wrong_examples@.len() == 0 ==> r@[i].score.num
                == r@[i].score.den || (r@[i].score.num == 0 && r@[i].score.den == 1),
        forall|i: int|
            0 <= i < r@.len() ==> (#[trigger] r@[i]).wrong_examples@.len() <= vstd::math::min(
                params.questions_batch_size as int,
                dataset@.len() as int,
            ),
{
    let n = instructions.len();
    let mut out: Vec<ScoredPrompt> = Vec::new();
    let mut next: usize = 0;
    let mut rest = instructions;
    let ghost insts = rest@;
    let mut i: usize = 0;
    while i < n
        invariant
            dataset@.len() >= 1,
            n == insts.len(),
            i <= n,
            rest@ == insts.skip(i as int),
            next <= replies@.len(),
            out@.len() == i,
            forall|k: int| 0 <= k < i ==> (#[trigger] out@[k]).instruction == insts[k],
            forall|k: int|
                0 <= k < i ==> (#[trigger] out@[k]).score.num <= out@[k].score.den
                    && out@[k].score.den >= 1,
            forall|k: int|
                0 <= k < i && (#[trigger] out@[k]).wrong_examples@.len() > 0 ==> out@[k].score.num
                    + 1 == out@[k].score.den,
            forall|k: int|
                0 <= k < i && (#[trigger] out@[k]).wrong_examples@.len() == 0 ==> out@[k].score.num
                    == out@[k].score.den || (out@[k].score.num == 0 && out@[k].score.den == 1),
            forall|k: int|
                0 <= k < i ==> (#[trigger] out@[k]).wrong_examples@.len() <= vstd::math::min(
                    params.questions_batch_size as int,
                    dataset@.len() as int,
                ),
        decreases n - i,
    {
        let instruction = rest.remove(0);
        proof {
            assert(insts.skip(i as int)[0] == insts[i as int]);
            assert(insts.skip(i as int).skip(1) =~= insts.skip(i + 1));
            assert(rest@ =~= insts.skip(i + 1));
        }
        let sp = score_instruction(
            instruction,
            dataset,
            solve_template,
            params,
            replies,
            &mut next,
            rng,
        );
        out.push(sp);
        i += 1;
    }
    out
}

} // verus!
