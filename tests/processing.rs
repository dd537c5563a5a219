use std::sync::mpsc::{channel, sync_channel, Receiver, TrySendError};

use rhai::{Dynamic, Engine};
use ryk::error::{Phase, RunError, Stage};
use ryk::output::{frame_line, output_line};
use ryk::pipeline::{first_error, LINE_QUEUE_CAPACITY};
use ryk::processor::{compile_programs, ProcState, Processor, LINE_VARIABLE};

fn engine_with_emit() -> (Engine, Receiver<Dynamic>) {
    let (tx, rx) = channel();
    let mut engine = Engine::new();
    engine.register_fn("p", move |x: Dynamic| {
        tx.send(x).unwrap();
    });
    (engine, rx)
}

fn rendered(rx: Receiver<Dynamic>) -> Vec<String> {
    rx.iter()
        .map(|v| {
            let mut s = output_line(&v);
            assert_eq!(s.pop(), Some('\n'));
            s
        })
        .collect()
}

fn run(
    before: Option<&str>,
    main: &str,
    after: Option<&str>,
    lines: &[&str],
) -> (Result<(), RunError>, Vec<String>) {
    let (engine, rx) = engine_with_emit();
    let programs = compile_programs(&engine, before, main, after).expect("programs compile");
    let mut processor = Processor::new(engine, programs);
    let lines: Vec<String> = lines.iter().map(|l| l.to_string()).collect();
    let r = processor.process_lines(&lines);
    drop(processor);
    (r, rendered(rx))
}

#[test]
fn lines_come_out_in_order() {
    let (r, out) = run(None, "p(line.to_upper());", None, &["a", "b", "c"]);
    assert!(r.is_ok());
    assert_eq!(out, vec!["A", "B", "C"]);
}

#[test]
fn counter_persists_from_before_to_after() {
    let (r, out) = run(
        Some("let count = 0;"),
        "count += 1;",
        Some("p(count);"),
        &["l1", "l2", "l3", "l4", "l5"],
    );
    assert!(r.is_ok());
    assert_eq!(out, vec!["5"]);
}

#[test]
fn lines_that_emit_nothing_write_nothing() {
    let (r, out) = run(None, "if line.starts_with(\"x\") { p(line); }", None, &["a", "xb", "c"]);
    assert!(r.is_ok());
    assert_eq!(out, vec!["xb"]);
}

#[test]
fn empty_input_runs_both_brackets() {
    let (r, out) = run(Some("p(\"start\");"), "p(line);", Some("p(\"end\");"), &[]);
    assert!(r.is_ok());
    assert_eq!(out, vec!["start", "end"]);
}

#[test]
fn empty_input_without_brackets_writes_nothing() {
    let (r, out) = run(None, "p(line);", None, &[]);
    assert!(r.is_ok());
    assert!(out.is_empty());
}

#[test]
fn invalid_main_program_fails_to_compile() {
    let (engine, rx) = engine_with_emit();
    let r = compile_programs(&engine, None, "p(line", None);
    assert!(matches!(r, Err(RunError::Compile { phase: Phase::Main, .. })));
    drop(engine);
    assert!(rendered(rx).is_empty());
}

#[test]
fn invalid_bracket_programs_name_their_phase() {
    let engine = Engine::new();
    let r = compile_programs(&engine, Some("let = ;"), "p(line);", None);
    assert!(matches!(r, Err(RunError::Compile { phase: Phase::Before, .. })));
    let r = compile_programs(&engine, None, "p(line);", Some("}"));
    assert!(matches!(r, Err(RunError::Compile { phase: Phase::After, .. })));
    let r = compile_programs(&engine, Some("}"), "(", Some("}"));
    assert!(matches!(r, Err(RunError::Compile { phase: Phase::Before, .. })));
}

#[test]
fn compiled_programs_keep_their_brackets() {
    let engine = Engine::new();
    let p = compile_programs(&engine, Some("let a = 1;"), "a += 1;", None).unwrap();
    assert!(p.before.is_some());
    assert!(p.after.is_none());
}

#[test]
fn runtime_failure_halts_the_stream() {
    let (r, out) = run(
        None,
        "if line == \"3\" { throw \"bad line\"; } p(line);",
        Some("p(\"after\");"),
        &["1", "2", "3", "4", "5"],
    );
    assert!(matches!(r, Err(RunError::Script { phase: Phase::Main, .. })));
    assert_eq!(out, vec!["1", "2"]);
}

#[test]
fn failing_before_runs_no_line() {
    let (r, out) = run(Some("throw \"no\";"), "p(line);", Some("p(\"after\");"), &["1", "2"]);
    assert!(matches!(r, Err(RunError::Script { phase: Phase::Before, .. })));
    assert!(out.is_empty());
}

#[test]
fn failing_after_keeps_line_output() {
    let (r, out) = run(None, "p(line);", Some("throw \"late\";"), &["1", "2"]);
    assert!(matches!(r, Err(RunError::Script { phase: Phase::After, .. })));
    assert_eq!(out, vec!["1", "2"]);
}

#[test]
fn ten_thousand_lines_keep_order_and_count() {
    let n = 10_000;
    assert!(n > LINE_QUEUE_CAPACITY);
    let lines: Vec<String> = (0..n).map(|i| i.to_string()).collect();
    let refs: Vec<&str> = lines.iter().map(|s| s.as_str()).collect();
    let (r, out) = run(None, "p(line);", None, &refs);
    assert!(r.is_ok());
    assert_eq!(out, lines);
}

#[test]
fn line_binding_is_overwritten_each_line() {
    let (r, out) = run(
        Some("let seen = [];"),
        "seen.push(line);",
        Some("p(seen.len()); p(line);"),
        &["first", "second"],
    );
    assert!(r.is_ok());
    assert_eq!(out, vec!["2", "second"]);
    assert_eq!(LINE_VARIABLE, "line");
}

#[test]
fn processor_steps_one_line_at_a_time() {
    let (engine, rx) = engine_with_emit();
    let programs = compile_programs(&engine, Some("let n = 10;"), "n += 1; p(n);", None).unwrap();
    let mut processor = Processor::new(engine, programs);
    assert_eq!(processor.state(), ProcState::Ready);
    assert!(processor.start().is_ok());
    assert_eq!(processor.state(), ProcState::Running);
    assert!(processor.feed("a".to_string()).is_ok());
    assert!(processor.feed("b".to_string()).is_ok());
    assert!(processor.finish().is_ok());
    assert_eq!(processor.state(), ProcState::Finished);
    drop(processor);
    assert_eq!(rendered(rx), vec!["11", "12"]);
}

#[test]
fn failed_feed_leaves_processor_failed() {
    let engine = Engine::new();
    let programs = compile_programs(&engine, None, "throw line;", None).unwrap();
    let mut processor = Processor::new(engine, programs);
    assert!(processor.start().is_ok());
    assert!(processor.feed("x".to_string()).is_err());
    assert_eq!(processor.state(), ProcState::Failed);
}

#[test]
fn first_error_follows_join_order() {
    let reader = Err(RunError::InputIo { message: "read".to_string() });
    let processor = Err(RunError::ChannelClosed { stage: Stage::Processor });
    let writer = Err(RunError::OutputIo { message: "write".to_string() });
    assert!(matches!(first_error(reader, processor, writer), Err(RunError::InputIo { .. })));

    let processor = Err(RunError::ChannelClosed { stage: Stage::Processor });
    let writer = Err(RunError::OutputIo { message: "write".to_string() });
    assert!(matches!(
        first_error(Ok(()), processor, writer),
        Err(RunError::ChannelClosed { stage: Stage::Processor })
    ));

    let writer = Err(RunError::OutputIo { message: "write".to_string() });
    assert!(matches!(first_error(Ok(()), Ok(()), writer), Err(RunError::OutputIo { .. })));
    assert!(first_error(Ok(()), Ok(()), Ok(())).is_ok());
}

#[test]
fn frame_line_appends_a_line_end() {
    assert_eq!(frame_line("abc".to_string()), "abc\n");
    assert_eq!(frame_line(String::new()), "\n");
}

#[test]
fn output_line_renders_values() {
    assert_eq!(output_line(&Dynamic::from("hi".to_string())), "hi\n");
    assert_eq!(output_line(&Dynamic::from(42_i64)), "42\n");
    assert_eq!(output_line(&Dynamic::from(true)), "true\n");
}

#[test]
fn scope_can_be_inspected_after_a_run() {
    let engine = Engine::new();
    let programs = compile_programs(&engine, Some("let count = 0;"), "count += 1;", None).unwrap();
    let mut processor = Processor::new(engine, programs);
    let lines: Vec<String> = vec!["a".to_string(), "b".to_string(), "c".to_string()];
    assert!(processor.process_lines(&lines).is_ok());
    assert_eq!(processor.variable_text("count"), Some("3".to_string()));
    assert_eq!(processor.variable_text("line"), Some("c".to_string()));
    assert_eq!(processor.variable_text("missing"), None);
}

#[test]
fn bounded_line_queue_feeds_every_line_in_order() {
    let n: usize = 10_000;
    let (line_tx, line_rx) = sync_channel::<String>(LINE_QUEUE_CAPACITY);
    let (engine, out_rx) = engine_with_emit();
    let programs = compile_programs(&engine, None, "p(line);", None).unwrap();
    let mut processor = Processor::new(engine, programs);
    assert!(processor.start().is_ok());
    let mut next: usize = 0;
    while next < n {
        // fill the queue until it pushes back, then drain it into the processor
        loop {
            if next == n {
                break;
            }
            match line_tx.try_send(next.to_string()) {
                Ok(()) => next += 1,
                Err(TrySendError::Full(_)) => break,
                Err(TrySendError::Disconnected(_)) => panic!("the queue closed early"),
            }
        }
        assert!(next == n || next % LINE_QUEUE_CAPACITY == 0);
        while let Ok(line) = line_rx.try_recv() {
            assert!(processor.feed(line).is_ok());
        }
    }
    drop(line_tx);
    assert!(line_rx.recv().is_err());
    assert!(processor.finish().is_ok());
    drop(processor);
    let expected: Vec<String> = (0..n).map(|i| i.to_string()).collect();
    assert_eq!(rendered(out_rx), expected);
}
