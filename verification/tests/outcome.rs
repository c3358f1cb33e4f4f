use worker_bridge::bridge::{classify, spawn_failure, OutcomeResult};

fn failure_text(outcome: OutcomeResult) -> String {
    match outcome {
        OutcomeResult::Failure(text) => text,
        OutcomeResult::Success(payload) => panic!("expected a failure, got success: {payload}"),
    }
}

#[test]
fn clean_exit_with_output_is_success() {
    let outcome = classify("42 rows processed".to_string(), String::new(), Some(0));
    assert_eq!(outcome, OutcomeResult::Success("42 rows processed".to_string()));
}

#[test]
fn clean_exit_with_output_and_warnings_is_success() {
    let outcome = classify("done".to_string(), "warning: slow disk".to_string(), Some(0));
    assert_eq!(outcome, OutcomeResult::Success("done".to_string()));
}

#[test]
fn clean_exit_without_any_output_is_an_empty_success() {
    let outcome = classify(String::new(), String::new(), Some(0));
    assert_eq!(outcome, OutcomeResult::Success(String::new()));
}

#[test]
fn clean_exit_with_only_stderr_is_failure() {
    let outcome = classify(String::new(), "columna no encontrada".to_string(), Some(0));
    assert_eq!(outcome, OutcomeResult::Failure("columna no encontrada".to_string()));
}

#[test]
fn exit_code_one_fails_with_code_and_stderr() {
    let text = failure_text(classify(String::new(), "File not found".to_string(), Some(1)));
    assert!(text.contains("1"));
    assert!(text.contains("File not found"));
    assert_eq!(
        text,
        "El script de Python falló (código de salida 1). Detalles: File not found"
    );
}

#[test]
fn nonzero_exit_fails_even_with_output() {
    let text = failure_text(classify("partial".to_string(), "boom".to_string(), Some(2)));
    assert_eq!(text, "El script de Python falló (código de salida 2). Detalles: boom");
    assert!(!text.contains("partial"));
}

#[test]
fn nonzero_exit_fails_with_empty_stderr() {
    let text = failure_text(classify("out".to_string(), String::new(), Some(127)));
    assert_eq!(text, "El script de Python falló (código de salida 127). Detalles: ");
}

#[test]
fn negative_exit_code_is_written_with_its_sign() {
    let text = failure_text(classify(String::new(), "crash".to_string(), Some(-1073741819)));
    assert_eq!(
        text,
        "El script de Python falló (código de salida -1073741819). Detalles: crash"
    );
    let text = failure_text(classify(String::new(), String::new(), Some(i32::MIN)));
    assert!(text.contains("-2147483648"));
}

#[test]
fn missing_exit_code_fails_like_a_nonzero_one() {
    let text = failure_text(classify("out".to_string(), "killed".to_string(), None));
    assert_eq!(text, "El script de Python falló (sin código de salida). Detalles: killed");
}

#[test]
fn failure_keeps_the_whole_stderr() {
    let stderr = "line one\nline two\n\ttabbed ñandú\n".repeat(100);
    for code in [Some(1), Some(-1), Some(255), None] {
        let text = failure_text(classify(String::new(), stderr.clone(), code));
        assert!(text.ends_with(&stderr));
    }
}

#[test]
fn launch_failure_carries_the_launcher_account() {
    let outcome = spawn_failure("No such file or directory (os error 2)");
    assert_eq!(
        outcome,
        OutcomeResult::Failure(
            "Fallo al ejecutar el script: No such file or directory (os error 2)".to_string()
        )
    );
}

#[test]
fn outcome_converts_to_a_result() {
    assert_eq!(OutcomeResult::Success("ok".to_string()).into_result(), Ok("ok".to_string()));
    assert_eq!(OutcomeResult::Failure("bad".to_string()).into_result(), Err("bad".to_string()));
}
