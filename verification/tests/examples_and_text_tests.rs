use vecx::examples::extract_examples_from_response;
use vecx::llm::{build_chat_messages, is_supported_model, LLM};
use vecx::config::{ConfigData, ConfigLLM};
use vecx::rng::{random_index, sample_distinct_indices};

#[test]
fn extracts_structured_examples_from_chunks() {
    let reply = "<START>[Question] what is 2+2 [Answer] add them <ANS_START>4<ANS_END><END>\
junk<START>no keys here<END>\
<START>[Question] capital of France [Answer] recall <ANS_START>Paris<ANS_END><END>";
    let examples = extract_examples_from_response(reply);
    assert_eq!(examples.len(), 2);
    assert_eq!(examples[0].question, "what is 2+2");
    assert_eq!(examples[0].final_answer, "4");
    assert_eq!(
        examples[0].answer_with_reason.as_deref(),
        Some("add them <ANS_START>4<ANS_END>")
    );
    assert_eq!(examples[1].question, "capital of France");
    assert_eq!(examples[1].final_answer, "Paris");
}

#[test]
fn chunks_without_both_keys_are_skipped() {
    assert_eq!(extract_examples_from_response("<START>only [Question] x<END>").len(), 0);
    assert_eq!(extract_examples_from_response("<START>only [Answer] y<END>").len(), 0);
    assert_eq!(extract_examples_from_response("no chunks at all").len(), 0);
}

#[test]
fn chat_messages_carry_system_then_user() {
    let msgs = build_chat_messages("solve this", None, "default system");
    assert_eq!(msgs.len(), 2);
    assert_eq!(msgs[0].role, "system");
    assert_eq!(msgs[0].content, "default system");
    assert_eq!(msgs[1].role, "user");
    assert_eq!(msgs[1].content, "solve this");

    let msgs2 = build_chat_messages("solve this", Some("expert"), "default system");
    assert_eq!(msgs2[0].content, "expert");
}

#[test]
fn supported_model_names_form_a_closed_set() {
    assert!(is_supported_model("doubao"));
    assert!(is_supported_model("openai"));
    assert!(!is_supported_model("other"));
    assert!(!is_supported_model(""));
}

#[test]
fn list_model_type_names_every_configured_model() {
    let llm = LLM::new(ConfigData {
        llm: vec![
            ConfigLLM {
                name: "openai".to_string(),
                api: "https://example.invalid/v1".to_string(),
                key: "SECRET-REDACTED".to_string(),
                endpoint: "gpt".to_string(),
            },
            ConfigLLM {
                name: "doubao".to_string(),
                api: "https://example.invalid/v2".to_string(),
                key: "SECRET-REDACTED".to_string(),
                endpoint: "db".to_string(),
            },
        ],
    });
    assert_eq!(llm.list_model_type(), vec!["openai".to_string(), "doubao".to_string()]);

    let empty = LLM::new(ConfigData { llm: Vec::new() });
    assert!(empty.list_model_type().is_empty());
}

#[test]
fn sampling_respects_range_and_distinctness() {
    let mut rng = vecx::rng::rng_from_seed(7);
    let picks = sample_distinct_indices(&mut rng, 5, 3);
    assert_eq!(picks.len(), 3);
    for (i, a) in picks.iter().enumerate() {
        assert!(*a < 5);
        for b in picks.iter().skip(i + 1) {
            assert_ne!(a, b);
        }
    }
    assert!(sample_distinct_indices(&mut rng, 4, 0).is_empty());
    assert_eq!(random_index(&mut rng, 1), 0);
}

#[test]
fn equal_seeds_draw_equal_samples() {
    let mut a = vecx::rng::rng_from_seed(42);
    let mut b = vecx::rng::rng_from_seed(42);
    assert_eq!(
        sample_distinct_indices(&mut a, 100, 10),
        sample_distinct_indices(&mut b, 100, 10)
    );
    assert_eq!(random_index(&mut a, 50), random_index(&mut b, 50));
}
