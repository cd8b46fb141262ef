use vecx::dataset::Example;
use vecx::engine::{CritiqueNRefine, EngineAction};
use vecx::logger::Logger;
use vecx::mutate::gen_different_styles;
use vecx::pool::{CritiqueNRefineParams, CritiqueNRefinePromptPool, PromptPool};
use vecx::refine::extract_refined;

fn pool() -> CritiqueNRefinePromptPool {
    CritiqueNRefinePromptPool {
        base: PromptPool {
            system_prompt: "default system".to_string(),
            final_prompt: "{instruction}".to_string(),
            eval_prompt: String::new(),
        },
        quest_reason_ans: "[Question] {question}\n[Answer] {answer}\n".to_string(),
        expert_profile: "expert".to_string(),
        ans_delimiter_instruction: String::new(),
        intent_template: "intent {task_description} {instruction}".to_string(),
        thinking_styles: vec!["style one".to_string(), "style two".to_string()],
        meta_critique_template: "critique {instruction} {examples}".to_string(),
        meta_positive_critique_template: "positive {instruction} {examples}".to_string(),
        critique_refine_template: "refine {instruction} {critique} {steps_per_sample}".to_string(),
        solve_template: "{instruction} {questions}".to_string(),
        examples_critique_template: "excrit {prompt} {examples} {num_examples}".to_string(),
        examples_optimization_template: "exopt {prompt} {critique} {num_examples}".to_string(),
        meta_sample_template: "mutate {task_description} {prompt_instruction}".to_string(),
        expert_template: "expert for {task_description}".to_string(),
        generate_reason_template: "reason {question} {answer}".to_string(),
        reason_optimization_template: String::new(),
        examples_critique_template_zero_shot: "zscrit {prompt} {num_examples}".to_string(),
    }
}

fn params() -> CritiqueNRefineParams {
    CritiqueNRefineParams {
        unique_model_id: String::new(),
        style_variation: 2,
        questions_batch_size: 1,
        min_correct_count: 1,
        max_eval_batches: 1,
        top_n: 1,
        mutation_rounds: 0,
        refine_instruction: false,
        mutate_refine_iterations: 1,
        refine_task_eg_iterations: 0,
        task_description: "task".to_string(),
        base_instruction: "base".to_string(),
        answer_format: "fmt".to_string(),
        seen_set_size: 0,
        few_shot_count: 0,
        generate_reasoning: false,
        generate_expert_identity: false,
        generate_intent_keywords: false,
        num_train_examples: 2,
    }
}

fn one_example() -> Vec<Example> {
    vec![Example::new("q1".to_string(), "a".to_string(), None)]
}

#[test]
fn mutator_seeds_then_harvests_variations() {
    let styles = vec!["style one".to_string(), "style two".to_string()];
    let replies = vec!["prefix <START>v1<END> middle <START>v2<END> suffix".to_string()];
    let out = gen_different_styles("base", "task", 1, 2, &styles, "template", &replies);
    assert_eq!(out, vec!["task\nbase".to_string(), "v1".to_string(), "v2".to_string()]);
}

#[test]
fn branch_a_writes_two_synthetic_records_and_returns_empty() {
    let mut p = params();
    p.num_train_examples = 2;
    let (mut engine, first) = CritiqueNRefine::start(
        Vec::new(),
        pool(),
        p,
        false,
        false,
        true,
        Logger::new("logs"),
        7,
    );
    assert!(matches!(first, EngineAction::Chat { .. }));

    let second = engine.step("any critique");
    assert!(matches!(second, EngineAction::Chat { .. }));

    let stub = "<START>[Question] q1 [Answer] reason <ANS_START>a1<ANS_END> <END>\
<START>[Question] q2 [Answer] reason <ANS_START>a2<ANS_END> <END>";
    let last = engine.step(stub);
    match last {
        EngineAction::Finish { file_name, lines, final_prompt, expert_identity, .. } => {
            assert_eq!(file_name.as_deref(), Some("train_synthetic.jsonl"));
            assert_eq!(final_prompt, "");
            assert_eq!(expert_identity, "");
            assert_eq!(lines.len(), 2);
            let rec1: serde_json::Value = serde_json::from_str(&lines[0]).unwrap();
            let rec2: serde_json::Value = serde_json::from_str(&lines[1]).unwrap();
            assert_eq!(rec1["question"], "q1");
            assert_eq!(rec1["final_answer"], "a1");
            assert_eq!(rec2["question"], "q2");
            assert_eq!(rec2["final_answer"], "a2");
        }
        _ => panic!("expected the run to finish with the synthetic records"),
    }
}

#[test]
fn malformed_refinement_reply_surfaces_error() {
    let err = extract_refined("text without the expected markers");
    assert!(err.is_err());

    let ok = extract_refined("before <START>better instruction<END> after");
    assert_eq!(ok.unwrap(), "better instruction");
}

#[test]
fn malformed_refinement_leaves_instruction_unchanged() {
    let mut p = params();
    p.refine_instruction = true;
    let (mut engine, mut action) = CritiqueNRefine::start(
        one_example(),
        pool(),
        p,
        false,
        false,
        false,
        Logger::new("logs"),
        7,
    );

    // Mutation round: no variation chunks, so the seed stays the only
    // candidate.
    assert!(matches!(action, EngineAction::Chat { .. }));
    action = engine.step("no chunks in this reply");
    // One scoring call for the seed: the answer is wrong, so the round
    // stops and the seed is kept with its wrong example.
    assert!(matches!(action, EngineAction::Chat { .. }));
    action = engine.step("<ANS_START>wrong<ANS_END>");
    // Critique of the kept prompt.
    assert!(matches!(action, EngineAction::Chat { .. }));
    action = engine.step("a critique");
    // Rewrite reply is malformed: the refinement round is a no-op.
    assert!(matches!(action, EngineAction::Chat { .. }));
    action = engine.step("reply without markers");
    // Example selection: one single-question solve for the one example.
    assert!(matches!(action, EngineAction::Chat { .. }));
    let last = engine.step("<ANS_START>a<ANS_END>");
    match last {
        EngineAction::Finish { final_prompt, expert_identity, .. } => {
            assert_eq!(final_prompt, "task\nbase");
            assert_eq!(expert_identity, "default system");
        }
        _ => panic!("expected the run to finish"),
    }
}

#[test]
fn branch_b_prints_variations_and_returns_empty() {
    let mut p = params();
    p.mutation_rounds = 1;
    p.generate_intent_keywords = true;
    let (mut engine, mut action) = CritiqueNRefine::start(
        Vec::new(),
        pool(),
        p,
        false,
        true,
        false,
        Logger::new("logs"),
        7,
    );
    // Two mutation rounds (mutation_rounds + 1), same request each time.
    assert!(matches!(action, EngineAction::Chat { .. }));
    action = engine.step("<START>v1<END>");
    assert!(matches!(action, EngineAction::Chat { .. }));
    action = engine.step("no chunk");
    // One printed variation (mutation_rounds = 1): intent keywords only.
    assert!(matches!(action, EngineAction::Chat { .. }));
    let last = engine.step("speed, accuracy");
    match last {
        EngineAction::Finish { printout, final_prompt, expert_identity, file_name, .. } => {
            assert_eq!(file_name, None);
            assert_eq!(final_prompt, "");
            assert_eq!(expert_identity, "");
            assert_eq!(printout.len(), 1);
            assert!(printout[0].starts_with("Variations 1:"));
            assert!(printout[0].contains("default system"));
            assert!(printout[0].contains("task\nbase"));
            assert!(printout[0].contains("Keywords: speed, accuracy"));
        }
        _ => panic!("expected the run to finish with printed variations"),
    }
}

#[test]
fn zero_outer_iterations_skip_mutation_and_scoring() {
    let mut p = params();
    p.mutate_refine_iterations = 0;
    let (mut engine, action) = CritiqueNRefine::start(
        one_example(),
        pool(),
        p,
        false,
        false,
        false,
        Logger::new("logs"),
        7,
    );
    // Straight to example selection: one single-question solve.
    assert!(matches!(action, EngineAction::Chat { .. }));
    let last = engine.step("<ANS_START>a<ANS_END>");
    match last {
        EngineAction::Finish { final_prompt, lines, .. } => {
            assert_eq!(final_prompt, "base", "the base instruction is untouched");
            assert!(lines.is_empty(), "no outer round was logged");
        }
        _ => panic!("expected the run to finish"),
    }
}
