use vecx::dataset::Example;
use vecx::refine::{critique_and_refine, get_best_instr_by_critique, refine_prompts};
use vecx::score::{Score, ScoredPrompt};

fn wrong_example() -> Example {
    Example::new("q1".to_string(), "a1".to_string(), None)
}

#[test]
fn critique_and_refine_builds_requests_and_extracts_rewrite() {
    let wrong = vec![wrong_example()];
    let (creq, rreq, outcome) = critique_and_refine(
        "the instruction",
        &wrong,
        "[Question] {question}\n[Answer] {answer}\n",
        "diagnose {instruction} on {examples}",
        "improve {instruction} on {examples}",
        "rewrite {instruction} per {critique} in {steps_per_sample} steps",
        false,
        "the critique",
        "noise <START>a better instruction<END> trailer",
    );
    assert_eq!(creq, "diagnose the instruction on [Question] q1\n[Answer] a1\n");
    assert_eq!(rreq, "rewrite the instruction per the critique in 1 steps");
    assert_eq!(outcome.unwrap(), "a better instruction");
}

#[test]
fn positive_critique_template_is_used_when_enhancing() {
    let wrong: Vec<Example> = Vec::new();
    let (creq, _rreq, outcome) = critique_and_refine(
        "inst",
        &wrong,
        "{question}{answer}",
        "diagnose {instruction}",
        "improve {instruction}",
        "rewrite {instruction}",
        true,
        "crit",
        "reply with no chunk",
    );
    assert_eq!(creq, "improve inst");
    assert!(outcome.is_err());
}

#[test]
fn best_instruction_by_critique_takes_first_chunk() {
    let examples = vec![wrong_example()];
    let (_c, _r, refined) = get_best_instr_by_critique(
        "base",
        &examples,
        "{question}:{answer};",
        "critique {instruction} {examples}",
        "refine {instruction} {critique}",
        "why it fails",
        "<START>first<END><START>second<END>",
    );
    assert_eq!(refined, Some("first".to_string()));

    let (_c2, _r2, none) = get_best_instr_by_critique(
        "base",
        &examples,
        "{question}:{answer};",
        "critique {instruction} {examples}",
        "refine {instruction} {critique}",
        "why it fails",
        "nothing delimited",
    );
    assert_eq!(none, None);
}

#[test]
fn refine_prompts_drops_malformed_rewrites() {
    let list = vec![
        ScoredPrompt {
            instruction: "good".to_string(),
            score: Score::new(1, 1),
            wrong_examples: Vec::new(),
        },
        ScoredPrompt {
            instruction: "bad".to_string(),
            score: Score::new(0, 1),
            wrong_examples: vec![wrong_example()],
        },
    ];
    let critiques = vec!["c1".to_string(), "c2".to_string()];
    let rewrites = vec![
        "<START>refined good<END>".to_string(),
        "malformed".to_string(),
    ];
    let (requests, refined) = refine_prompts(
        &list,
        "{question}{answer}",
        "diagnose {instruction}",
        "improve {instruction}",
        "rewrite {instruction}",
        1,
        1,
        &critiques,
        &rewrites,
    );
    assert_eq!(refined, vec!["refined good".to_string()]);
    assert_eq!(requests.len(), 2);
    // The perfect score clears the threshold and gets the positive
    // critique; the failing one gets the diagnostic critique.
    assert_eq!(requests[0].0, "improve good");
    assert_eq!(requests[1].0, "diagnose bad");
    assert_eq!(requests[1].1, "rewrite bad");
}

#[test]
fn generate_best_examples_reextracts_the_set() {
    let current = vec![wrong_example()];
    let dataset = vec![wrong_example()];
    let (creq, _oreq, new_set) = vecx::examples::generate_best_examples(
        &current,
        &dataset,
        "{question}|{answer};",
        "critique set {prompt} {examples} want {num_examples}",
        "optimize {prompt} {critique} want {num_examples}",
        "base",
        "task",
        2,
        "weak examples",
        "<START>[Question] better q [Answer] step by step <ANS_START>42<ANS_END><END>",
        &mut vecx::rng::rng_from_seed(7),
    );
    assert_eq!(creq, "critique set base q1|a1; want 2");
    assert_eq!(new_set.len(), 1);
    assert_eq!(new_set[0].question, "better q");
    assert_eq!(new_set[0].final_answer, "42");
}

#[test]
fn scripted_run_reaches_the_final_prompt() {
    let dataset = vec![Example::new("q1".to_string(), "a".to_string(), None)];
    let pool = vecx::pool::CritiqueNRefinePromptPool {
        base: vecx::pool::PromptPool {
            system_prompt: "sys".to_string(),
            final_prompt: "final: {instruction} / {answer_format} / {few_shot_examples}".to_string(),
            eval_prompt: String::new(),
        },
        quest_reason_ans: "{question}={answer};".to_string(),
        expert_profile: "expert".to_string(),
        ans_delimiter_instruction: String::new(),
        intent_template: "intent".to_string(),
        thinking_styles: vec!["s1".to_string()],
        meta_critique_template: "mc".to_string(),
        meta_positive_critique_template: "mpc".to_string(),
        critique_refine_template: "crt".to_string(),
        solve_template: "{instruction}?{questions}".to_string(),
        examples_critique_template: "ect".to_string(),
        examples_optimization_template: "eot".to_string(),
        meta_sample_template: "mst".to_string(),
        expert_template: "et".to_string(),
        generate_reason_template: "grt".to_string(),
        reason_optimization_template: String::new(),
        examples_critique_template_zero_shot: "zs".to_string(),
    };
    let params = vecx::pool::CritiqueNRefineParams {
        unique_model_id: String::new(),
        style_variation: 1,
        questions_batch_size: 1,
        min_correct_count: 1,
        max_eval_batches: 1,
        top_n: 1,
        mutation_rounds: 0,
        refine_instruction: false,
        mutate_refine_iterations: 1,
        refine_task_eg_iterations: 0,
        task_description: "task".to_string(),
        base_instruction: "base".to_string(),
        answer_format: "fmt".to_string(),
        seen_set_size: 0,
        few_shot_count: 0,
        generate_reasoning: false,
        generate_expert_identity: false,
        generate_intent_keywords: false,
        num_train_examples: 0,
    };
    // One mutation reply, one scoring reply (correct), one selection reply.
    let replies = vec![
        "no chunks".to_string(),
        "<ANS_START>a<ANS_END>".to_string(),
        "<ANS_START>a<ANS_END>".to_string(),
    ];
    let finish = vecx::engine::get_best_prompt(
        dataset,
        pool,
        params,
        false,
        false,
        false,
        vecx::logger::Logger::new("logs"),
        7,
        &replies,
    )
    .expect("the transcript covers the whole run");
    match finish {
        vecx::engine::EngineAction::Finish { final_prompt, expert_identity, lines, .. } => {
            assert_eq!(final_prompt, "final: task\nbase / fmt / ");
            assert_eq!(expert_identity, "sys");
            assert_eq!(lines.len(), 1, "one chained record per outer round");
            let rec: serde_json::Value = serde_json::from_str(&lines[0]).unwrap();
            assert_eq!(rec["round_num"], 1);
            assert_eq!(rec["best_prompt"], "task\nbase");
            assert_eq!(rec["score"], 1.0);
        }
        _ => panic!("expected a finishing action"),
    }
}

#[test]
fn full_featured_run_annotates_examples_and_composes_the_prompt() {
    let dataset = vec![Example::new("q1".to_string(), "a".to_string(), None)];
    let pool = vecx::pool::CritiqueNRefinePromptPool {
        base: vecx::pool::PromptPool {
            system_prompt: "sys".to_string(),
            final_prompt: "F {instruction} | {few_shot_examples}".to_string(),
            eval_prompt: String::new(),
        },
        quest_reason_ans: "{question}={answer};".to_string(),
        expert_profile: "expert".to_string(),
        ans_delimiter_instruction: String::new(),
        intent_template: "intent for {task_description}".to_string(),
        thinking_styles: vec!["s1".to_string()],
        meta_critique_template: "mc".to_string(),
        meta_positive_critique_template: "mpc".to_string(),
        critique_refine_template: "crt".to_string(),
        solve_template: "{instruction}?{questions}".to_string(),
        examples_critique_template: "ect".to_string(),
        examples_optimization_template: "eot".to_string(),
        meta_sample_template: "mst".to_string(),
        expert_template: "you are an expert in {task_description}".to_string(),
        generate_reason_template: "explain {question} -> {answer}".to_string(),
        reason_optimization_template: String::new(),
        examples_critique_template_zero_shot: "zs".to_string(),
    };
    let params = vecx::pool::CritiqueNRefineParams {
        unique_model_id: String::new(),
        style_variation: 1,
        questions_batch_size: 1,
        min_correct_count: 1,
        max_eval_batches: 1,
        top_n: 1,
        mutation_rounds: 0,
        refine_instruction: false,
        mutate_refine_iterations: 1,
        refine_task_eg_iterations: 0,
        task_description: "task".to_string(),
        base_instruction: "base".to_string(),
        answer_format: "fmt".to_string(),
        seen_set_size: 0,
        few_shot_count: 1,
        generate_reasoning: true,
        generate_expert_identity: true,
        generate_intent_keywords: true,
        num_train_examples: 0,
    };
    let replies = vec![
        // Mutation: no chunks, the seed stays the only candidate.
        "plain".to_string(),
        // Scoring: the batch is answered correctly, one perfect round.
        "<ANS_START>a<ANS_END>".to_string(),
        // Example selection: the answer is wrong, the example is kept.
        "<ANS_START>x<ANS_END>".to_string(),
        // Chain-of-thought rationale for the kept example.
        "because".to_string(),
        // Expert identity.
        "math expert".to_string(),
        // Intent keywords.
        "kw".to_string(),
    ];
    let finish = vecx::engine::get_best_prompt(
        dataset,
        pool,
        params,
        true,
        false,
        false,
        vecx::logger::Logger::new("logs"),
        7,
        &replies,
    )
    .expect("the transcript covers the whole run");
    match finish {
        vecx::engine::EngineAction::Finish { final_prompt, expert_identity, .. } => {
            assert_eq!(
                final_prompt,
                "F task
base | q1=because <ANS_START>a<ANS_END>;Keywords: kw"
            );
            assert_eq!(expert_identity, "math expert");
        }
        _ => panic!("expected a finishing action"),
    }
}
