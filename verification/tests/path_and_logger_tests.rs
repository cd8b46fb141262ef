use std::path::PathBuf;
use vecx::logger::Logger;

#[test]
fn utils_test_test_str_list_to_dir_path() {
    let str_list = vec!["path".to_string(), "to".to_string(), "dir".to_string()];
    let result = vecx::utils::FileUtils::str_list_to_dir_path(&str_list);
    assert_eq!(
        PathBuf::from(result),
        PathBuf::from("path").join("to").join("dir")
    );
}

#[test]
fn file_utils_test_test_str_list_to_dir_path() {
    let input = vec![
        "path".to_string(),
        "to".to_string(),
        "directory".to_string(),
    ];
    let result = vecx::file_utils::FileUtils::str_list_to_dir_path(&input);

    let expected = PathBuf::from("path").join("to").join("directory");
    assert_eq!(PathBuf::from(result), expected);
}

#[test]
fn test_new_logger() {
    let logger = Logger::new("logs");
    assert!(logger.sample_unq_id.is_none());
    assert!(logger.chained_log.is_empty());
    assert!(logger.del_self_arg);
}

#[test]
fn chained_log_appends_one_valid_json_line_per_record() {
    let mut logger = Logger::new("logs");
    logger.append_to_chained_log("first", "plain output", 12, "2024-01-01T00:00:00+00:00");
    logger.append_to_chained_log(
        "second",
        "tricky \"quoted\"\nmulti\tline\\output",
        2_500_000,
        "2024-01-01T00:00:01+00:00",
    );
    logger.append_dict_to_chained_logs("{\"free\":true}".to_string());
    assert_eq!(logger.chained_log.len(), 3);

    let lines = logger.drain_chained_log();
    assert!(logger.chained_log.is_empty());
    assert_eq!(lines.len(), 3);
    for line in &lines {
        assert!(!line.contains('\n'));
        let parsed: serde_json::Value = serde_json::from_str(line).expect("each line parses");
        assert!(parsed.is_object());
    }
    let first: serde_json::Value = serde_json::from_str(&lines[0]).unwrap();
    assert_eq!(first["outputs"], "plain output");
    assert_eq!(first["meta"]["method_name"], "first");
    assert_eq!(first["meta"]["execution_time_sec"], 0.000012);
    let second: serde_json::Value = serde_json::from_str(&lines[1]).unwrap();
    assert_eq!(second["outputs"], "tricky \"quoted\"\nmulti\tline\\output");
    assert_eq!(second["meta"]["execution_time_sec"], 2.5);
}

#[test]
fn log_io_params_builds_identified_record_and_clears_id() {
    let mut logger = Logger::new("logs");
    let line = logger.log_io_params("solve", "the result", 1_000_000);
    assert!(logger.sample_unq_id.is_none());
    let parsed: serde_json::Value = serde_json::from_str(&line).expect("record parses");
    assert_eq!(parsed["outputs"], "the result");
    assert_eq!(parsed["meta"]["method_name"], "solve");
    assert_eq!(parsed["meta"]["execution_time_sec"], 1.0);
    assert!(parsed["id"].is_string());
}

#[test]
fn eval_record_is_valid_json() {
    let line = vecx::logger::build_eval_record("id-1", "ok", "2024-01-01T00:00:00+00:00");
    let parsed: serde_json::Value = serde_json::from_str(&line).expect("record parses");
    assert_eq!(parsed["id"], "id-1");
    assert_eq!(parsed["eval_result"], "ok");
    assert_eq!(parsed["meta"]["timestamp"], "2024-01-01T00:00:00+00:00");
}

#[test]
fn reset_eval_glue_clears_state() {
    let mut logger = Logger::new("logs");
    logger.append_dict_to_chained_logs("{}".to_string());
    logger.reset_eval_glue("other");
    assert!(logger.sample_unq_id.is_none());
    assert!(logger.chained_log.is_empty());
}
