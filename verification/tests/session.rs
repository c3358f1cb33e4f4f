use worker_bridge::bridge::{Aggregator, OutcomeResult, Phase, StreamEvent};
use worker_bridge::session::run;

fn out(text: &str) -> StreamEvent {
    StreamEvent::StdoutChunk(text.as_bytes().to_vec())
}

fn err(text: &str) -> StreamEvent {
    StreamEvent::StderrChunk(text.as_bytes().to_vec())
}

fn exit(code: i32) -> StreamEvent {
    StreamEvent::Terminated(Some(code))
}

#[test]
fn worker_that_prints_and_exits_cleanly_succeeds() {
    let outcome = run(&vec![out("42 rows processed"), exit(0)]);
    assert_eq!(outcome, OutcomeResult::Success("42 rows processed".to_string()));
}

#[test]
fn worker_that_complains_and_exits_with_one_fails() {
    let outcome = run(&vec![err("File not found"), exit(1)]);
    match outcome {
        OutcomeResult::Failure(text) => {
            assert!(text.contains("1"));
            assert!(text.contains("File not found"));
        }
        OutcomeResult::Success(_) => panic!("expected a failure"),
    }
}

#[test]
fn chunks_are_joined_in_arrival_order_per_stream() {
    let outcome = run(&vec![out("a"), err("x"), out("b"), err("y"), out("c"), exit(0)]);
    assert_eq!(outcome, OutcomeResult::Success("abc".to_string()));

    let outcome = run(&vec![err("x"), out("a"), err("y"), exit(3), err("z")]);
    assert_eq!(
        outcome,
        OutcomeResult::Failure(
            "El script de Python falló (código de salida 3). Detalles: xyz".to_string()
        )
    );
}

#[test]
fn output_after_the_termination_notice_is_still_gathered() {
    let outcome = run(&vec![out("first "), exit(0), out("second")]);
    assert_eq!(outcome, OutcomeResult::Success("first second".to_string()));

    let outcome = run(&vec![exit(0), err("late complaint")]);
    assert_eq!(outcome, OutcomeResult::Failure("late complaint".to_string()));
}

#[test]
fn signal_termination_fails_with_the_stderr() {
    let outcome = run(&vec![out("working"), err("Killed"), StreamEvent::Terminated(None)]);
    assert_eq!(
        outcome,
        OutcomeResult::Failure(
            "El script de Python falló (sin código de salida). Detalles: Killed".to_string()
        )
    );
}

#[test]
fn failing_termination_stays_on_record() {
    let outcome = run(&vec![err("bad"), exit(1), exit(0), out("fine")]);
    assert_eq!(
        outcome,
        OutcomeResult::Failure(
            "El script de Python falló (código de salida 1). Detalles: bad".to_string()
        )
    );
    let outcome = run(&vec![StreamEvent::Terminated(None), exit(4)]);
    assert_eq!(
        outcome,
        OutcomeResult::Failure(
            "El script de Python falló (sin código de salida). Detalles: ".to_string()
        )
    );
    let outcome = run(&vec![exit(0), exit(5)]);
    assert_eq!(
        outcome,
        OutcomeResult::Failure(
            "El script de Python falló (código de salida 5). Detalles: ".to_string()
        )
    );
}

#[test]
fn events_that_end_without_a_termination_are_judged_by_output() {
    assert_eq!(run(&vec![out("payload")]), OutcomeResult::Success("payload".to_string()));
    assert_eq!(run(&vec![err("oops")]), OutcomeResult::Failure("oops".to_string()));
    assert_eq!(run(&Vec::new()), OutcomeResult::Success(String::new()));
}

#[test]
fn invalid_bytes_become_replacement_characters() {
    let outcome = run(&vec![StreamEvent::StdoutChunk(vec![b'a', 0xff, b'b']), exit(0)]);
    assert_eq!(outcome, OutcomeResult::Success("a\u{fffd}b".to_string()));

    let outcome = run(&vec![StreamEvent::StderrChunk(vec![0xc3, 0x28]), exit(0)]);
    assert_eq!(outcome, OutcomeResult::Failure("\u{fffd}(".to_string()));
}

#[test]
fn multibyte_text_is_decoded_within_a_chunk() {
    let outcome = run(&vec![out("año "), out("señal ✓"), exit(0)]);
    assert_eq!(outcome, OutcomeResult::Success("año señal ✓".to_string()));
}

#[test]
fn a_character_cut_by_a_chunk_boundary_is_read_whole() {
    // "é" is the two bytes c3 a9, here the last of one chunk and the first
    // of the next.
    let outcome = run(&vec![
        StreamEvent::StdoutChunk(vec![b'x', 0xc3]),
        err("!"),
        StreamEvent::StdoutChunk(vec![0xa9, b'y']),
        exit(0),
    ]);
    assert_eq!(outcome, OutcomeResult::Success("x\u{e9}y".to_string()));
}

#[test]
fn a_character_left_unfinished_becomes_a_replacement_character() {
    let outcome = run(&vec![StreamEvent::StdoutChunk(vec![b'x', 0xc3]), exit(0)]);
    assert_eq!(outcome, OutcomeResult::Success("x\u{fffd}".to_string()));
}

#[test]
fn empty_chunks_add_nothing() {
    let outcome = run(&vec![out(""), err(""), exit(0)]);
    assert_eq!(outcome, OutcomeResult::Success(String::new()));
}

#[test]
fn ten_megabytes_of_output_are_gathered_alongside_stderr() {
    let chunk = vec![b'z'; 64 * 1024];
    let mut events = Vec::new();
    for i in 0..160 {
        events.push(StreamEvent::StdoutChunk(chunk.clone()));
        if i % 16 == 0 {
            events.push(err("progress\n"));
        }
    }
    events.push(exit(0));
    match run(&events) {
        OutcomeResult::Success(payload) => {
            assert_eq!(payload.len(), 10 * 1024 * 1024);
            assert!(payload.bytes().all(|b| b == b'z'));
        }
        OutcomeResult::Failure(text) => panic!("expected a success, got: {text}"),
    }
}

#[test]
fn aggregator_walks_through_its_phases() {
    let mut aggregator = Aggregator::new();
    assert_eq!(aggregator.phase(), Phase::Spawned);
    aggregator.accept(&out("data"));
    assert_eq!(aggregator.phase(), Phase::Draining);
    aggregator.accept(&err("note"));
    assert_eq!(aggregator.phase(), Phase::Draining);
    aggregator.accept(&exit(0));
    assert_eq!(aggregator.phase(), Phase::Terminated);
    aggregator.accept(&out(" more"));
    assert_eq!(aggregator.phase(), Phase::Terminated);
    let outcome = aggregator.finish();
    assert_eq!(aggregator.phase(), Phase::Classified);
    assert_eq!(outcome, Some(OutcomeResult::Success("data more".to_string())));
}

#[test]
fn termination_may_be_the_first_event() {
    let mut aggregator = Aggregator::new();
    aggregator.accept(&exit(9));
    assert_eq!(aggregator.phase(), Phase::Terminated);
    assert_eq!(
        aggregator.finish(),
        Some(OutcomeResult::Failure(
            "El script de Python falló (código de salida 9). Detalles: ".to_string()
        ))
    );
}

#[test]
fn outcome_is_given_exactly_once() {
    let mut aggregator = Aggregator::new();
    aggregator.accept(&out("result"));
    aggregator.accept(&exit(0));
    assert_eq!(aggregator.finish(), Some(OutcomeResult::Success("result".to_string())));
    assert_eq!(aggregator.finish(), None);
    aggregator.accept(&err("too late"));
    aggregator.accept(&exit(1));
    assert_eq!(aggregator.phase(), Phase::Classified);
    assert_eq!(aggregator.finish(), None);
}

#[test]
fn fresh_aggregator_closed_at_once_gives_an_empty_success() {
    let mut aggregator = Aggregator::new();
    assert_eq!(aggregator.finish(), Some(OutcomeResult::Success(String::new())));
    assert_eq!(aggregator.phase(), Phase::Classified);
}

#[test]
fn run_agrees_with_feeding_an_aggregator_by_hand() {
    let events = vec![err("e1"), out("o1"), exit(0), err("e2"), out("o2")];
    let mut aggregator = Aggregator::new();
    for event in &events {
        aggregator.accept(event);
    }
    assert_eq!(aggregator.finish(), Some(run(&events)));
}
