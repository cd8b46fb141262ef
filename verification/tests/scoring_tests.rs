use vecx::dataset::Example;
use vecx::pool::CritiqueNRefineParams;
use vecx::score::{select_top_prompts, Score, ScoredPrompt};
use vecx::scorer::{evaluate, score_instruction};

fn params(batch: u32, min_correct: u32, max_batches: u32) -> CritiqueNRefineParams {
    CritiqueNRefineParams {
        unique_model_id: String::new(),
        style_variation: 0,
        questions_batch_size: batch,
        min_correct_count: min_correct,
        max_eval_batches: max_batches,
        top_n: 1,
        mutation_rounds: 0,
        refine_instruction: false,
        mutate_refine_iterations: 0,
        refine_task_eg_iterations: 0,
        task_description: "task".to_string(),
        base_instruction: "base".to_string(),
        answer_format: "fmt".to_string(),
        seen_set_size: 0,
        few_shot_count: 0,
        generate_reasoning: false,
        generate_expert_identity: false,
        generate_intent_keywords: false,
        num_train_examples: 0,
    }
}

fn dataset3() -> Vec<Example> {
    vec![
        Example::new("q1".to_string(), "a".to_string(), None),
        Example::new("q2".to_string(), "a".to_string(), None),
        Example::new("q3".to_string(), "a".to_string(), None),
    ]
}

#[test]
fn evaluate_collects_wrong_examples_in_order() {
    let subset = dataset3();
    let reply = "<ANS_START>a<ANS_END> <ANS_START>b<ANS_END> <ANS_START>a<ANS_END>";
    let wrong = evaluate(reply, &subset);
    assert_eq!(wrong.len(), 1);
    assert_eq!(wrong[0].question, "q2");
}

#[test]
fn evaluate_truncates_extra_answers_and_skips_unanswered() {
    let subset = dataset3();
    let too_many = "<ANS_START>b<ANS_END><ANS_START>b<ANS_END><ANS_START>b<ANS_END><ANS_START>b<ANS_END>";
    assert_eq!(evaluate(too_many, &subset).len(), 3);

    let too_few = "<ANS_START>b<ANS_END>";
    assert_eq!(evaluate(too_few, &subset).len(), 1);

    assert_eq!(evaluate("nothing extracted", &subset).len(), 0);
}

#[test]
fn scorer_early_exit_stops_after_one_failing_batch() {
    let dataset = dataset3();
    let p = params(3, 1, 5);
    let replies = vec![
        "<ANS_START>bad<ANS_END> <ANS_START>bad<ANS_END> <ANS_START>bad<ANS_END>".to_string(),
        "unused".to_string(),
    ];
    let mut next: usize = 0;
    let mut rng = vecx::rng::rng_from_seed(7);
    let scored = score_instruction(
        "I".to_string(),
        &dataset,
        "{instruction} {questions}",
        &p,
        &replies,
        &mut next,
        &mut rng,
    );
    assert_eq!(next, 1, "exactly one LLM call");
    assert_eq!(scored.instruction, "I");
    assert_eq!(scored.score.num, 0);
    assert_eq!(scored.score.den, 1);
    assert_eq!(scored.wrong_examples.len(), 3, "whole batch is wrong");
}

#[test]
fn scorer_full_credit_needs_min_correct_batches() {
    let dataset = dataset3();
    let p = params(3, 2, 5);
    let correct = "<ANS_START>a<ANS_END> <ANS_START>a<ANS_END> <ANS_START>a<ANS_END>".to_string();
    let replies = vec![
        correct.clone(),
        correct.clone(),
        correct.clone(),
        correct.clone(),
        correct,
    ];
    let mut next: usize = 0;
    let mut rng = vecx::rng::rng_from_seed(7);
    let scored = score_instruction(
        "I".to_string(),
        &dataset,
        "{instruction} {questions}",
        &p,
        &replies,
        &mut next,
        &mut rng,
    );
    assert_eq!(next, 2, "exactly two LLM calls");
    assert_eq!(scored.score.num, 2);
    assert_eq!(scored.score.den, 2);
    assert!(scored.wrong_examples.is_empty());
}

fn scored(instruction: &str, num: u32, den: u32) -> ScoredPrompt {
    ScoredPrompt {
        instruction: instruction.to_string(),
        score: Score::new(num, den),
        wrong_examples: Vec::new(),
    }
}

#[test]
fn top_k_breaks_ties_by_longer_instruction() {
    let list = vec![
        scored("short", 1, 2),
        scored("longer instruction", 1, 2),
        scored("mid ins", 9, 10),
    ];
    let top = select_top_prompts(list, 2);
    assert_eq!(top.len(), 2);
    assert_eq!(top[0].instruction, "mid ins");
    assert_eq!(top[1].instruction, "longer instruction");
}

#[test]
fn top_k_returns_at_most_top_n_sorted_by_score() {
    let list = vec![
        scored("a", 1, 4),
        scored("b", 3, 4),
        scored("c", 2, 4),
        scored("d", 4, 4),
    ];
    let top = select_top_prompts(list, 3);
    assert_eq!(top.len(), 3);
    assert_eq!(top[0].instruction, "d");
    assert_eq!(top[1].instruction, "b");
    assert_eq!(top[2].instruction, "c");

    let all = select_top_prompts(
        vec![scored("only", 1, 1)],
        10,
    );
    assert_eq!(all.len(), 1);
}

#[test]
fn top_k_keeps_stable_order_on_exact_ties() {
    let list = vec![
        scored("aa", 1, 2),
        scored("bb", 2, 4),
        scored("cc", 1, 2),
    ];
    let top = select_top_prompts(list, 3);
    assert_eq!(top[0].instruction, "aa");
    assert_eq!(top[1].instruction, "bb");
    assert_eq!(top[2].instruction, "cc");
}

#[test]
fn get_prompt_score_scores_each_instruction_in_turn() {
    let dataset = dataset3();
    let p = params(3, 1, 2);
    let correct = "<ANS_START>a<ANS_END> <ANS_START>a<ANS_END> <ANS_START>a<ANS_END>".to_string();
    let wrong = "<ANS_START>x<ANS_END> <ANS_START>x<ANS_END> <ANS_START>x<ANS_END>".to_string();
    let replies = vec![correct, wrong];
    let mut rng = vecx::rng::rng_from_seed(7);
    let scored = vecx::scorer::get_prompt_score(
        vec!["good".to_string(), "bad".to_string()],
        &dataset,
        "{instruction} {questions}",
        &p,
        &replies,
        &mut rng,
    );
    assert_eq!(scored.len(), 2);
    assert_eq!(scored[0].instruction, "good");
    assert_eq!(scored[0].score.num, 1);
    assert_eq!(scored[0].score.den, 1);
    assert!(scored[0].wrong_examples.is_empty());
    assert_eq!(scored[1].instruction, "bad");
    assert_eq!(scored[1].score.num, 0);
    assert_eq!(scored[1].score.den, 1);
    assert_eq!(scored[1].wrong_examples.len(), 3);
}
