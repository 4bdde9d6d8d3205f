use ai_terminal::command_block::BlockState;
use ai_terminal::command_block::CommandBlock;
use ai_terminal::driver::apply_event;
use ai_terminal::driver::drive_block;
use ai_terminal::events::ExecutionEvent;
use ai_terminal::pty_executor::WaitOutcome;
use ai_terminal::pty_executor::build_event_sequence;
use ai_terminal::pty_executor::setup_failure_events;
use ai_terminal::pty_executor::terminal_event;

fn fresh_block() -> CommandBlock {
    CommandBlock::new("demo".to_string(), "/tmp".to_string())
}

#[test]
fn test_apply_event_normal_run() {
    let mut block = fresh_block();

    let done = apply_event(&mut block, &ExecutionEvent::Started);
    assert!(!done);
    assert_eq!(block.state, BlockState::Running);

    let done = apply_event(&mut block, &ExecutionEvent::StdoutData("one ".to_string()));
    assert!(!done);
    let done = apply_event(&mut block, &ExecutionEvent::StderrData("two".to_string()));
    assert!(!done);
    assert_eq!(block.output, "one two");
    assert_eq!(block.stdout, "one ");
    assert_eq!(block.stderr, "two");

    let done = apply_event(&mut block, &ExecutionEvent::Completed { exit_code: 0, duration: 42 });
    assert!(done);
    assert_eq!(block.state, BlockState::Success);
    assert_eq!(block.exit_code, Some(0));
    assert_eq!(block.duration, Some(42));
}

#[test]
fn test_apply_failed_event_appends_diagnostic() {
    let mut block = fresh_block();
    apply_event(&mut block, &ExecutionEvent::Started);
    let done = apply_event(&mut block, &ExecutionEvent::Failed("boom".to_string()));
    assert!(done);
    assert_eq!(block.state, BlockState::Failed);
    assert_eq!(block.output, "\n[Error: boom]");
    assert_eq!(block.stderr, "\n[Error: boom]");
    assert_eq!(block.exit_code, None);
    assert_eq!(block.duration, None);
}

#[test]
fn test_apply_cancelled_event() {
    let mut block = fresh_block();
    apply_event(&mut block, &ExecutionEvent::Started);
    let done = apply_event(&mut block, &ExecutionEvent::Cancelled);
    assert!(done);
    assert_eq!(block.state, BlockState::Cancelled);
    assert_eq!(block.exit_code, None);
}

#[test]
fn test_terminal_block_ignores_late_events() {
    let mut block = fresh_block();
    apply_event(&mut block, &ExecutionEvent::Started);
    apply_event(&mut block, &ExecutionEvent::Completed { exit_code: 0, duration: 5 });

    apply_event(&mut block, &ExecutionEvent::StdoutData("late".to_string()));
    assert_eq!(block.output, "");
    assert_eq!(block.state, BlockState::Success);

    apply_event(&mut block, &ExecutionEvent::Failed("late failure".to_string()));
    assert_eq!(block.state, BlockState::Success);
    assert_eq!(block.exit_code, Some(0));

    apply_event(&mut block, &ExecutionEvent::Started);
    assert_eq!(block.state, BlockState::Success);
}

#[test]
fn test_drive_block_stops_at_terminal_event() {
    let mut block = fresh_block();
    let events = vec![
        ExecutionEvent::Started,
        ExecutionEvent::StdoutData("kept".to_string()),
        ExecutionEvent::Completed { exit_code: 0, duration: 1 },
        ExecutionEvent::StdoutData("never delivered".to_string()),
    ];
    drive_block(&mut block, &events);
    assert_eq!(block.output, "kept");
    assert_eq!(block.state, BlockState::Success);
}

#[test]
fn test_event_stream_has_exactly_one_terminal_event() {
    let chunks = vec![b"foo".to_vec(), b"bar".to_vec()];
    let events = build_event_sequence(&chunks, &WaitOutcome::Exited(0), 7);

    let terminal_count = events
        .iter()
        .filter(|event| {
            matches!(
                event,
                ExecutionEvent::Completed { .. }
                | ExecutionEvent::Failed(_)
                | ExecutionEvent::Cancelled
            )
        })
        .count();
    assert_eq!(terminal_count, 1);
    assert!(matches!(events.first(), Some(ExecutionEvent::Started)));
    assert!(matches!(events.last(), Some(ExecutionEvent::Completed { exit_code: 0, duration: 7 })));

    let mut block = fresh_block();
    drive_block(&mut block, &events);
    assert_eq!(block.output, "foobar");
    assert_eq!(block.state, BlockState::Success);
    assert_eq!(block.exit_code, Some(0));
    assert_eq!(block.duration, Some(7));
}

#[test]
fn test_wait_failure_becomes_failed_event() {
    let event = terminal_event(&WaitOutcome::WaitFailed("io broke".to_string()), 3);
    assert!(matches!(event, ExecutionEvent::Failed(message) if message == "Process error: io broke"));
}

#[test]
fn test_setup_failure_stream() {
    let events = setup_failure_events("Failed to open PTY".to_string());
    assert_eq!(events.len(), 1);

    let mut block = fresh_block();
    drive_block(&mut block, &events);
    assert_eq!(block.state, BlockState::Failed);
    assert_eq!(block.output, "\n[Error: Failed to open PTY]");
    assert_eq!(block.exit_code, None);
}

#[test]
fn test_nonzero_exit_drives_block_to_failed() {
    let chunks: Vec<Vec<u8>> = Vec::new();
    let events = build_event_sequence(&chunks, &WaitOutcome::Exited(7), 11);
    let mut block = fresh_block();
    drive_block(&mut block, &events);
    assert_eq!(block.state, BlockState::Failed);
    assert_eq!(block.exit_code, Some(7));
    assert_eq!(block.duration, Some(11));
    assert_eq!(block.output, "");
}

#[test]
fn test_ansi_escapes_are_stripped_from_chunks() {
    let chunks = vec![b"\x1b[32mgreen\x1b[0m plain".to_vec()];
    let events = build_event_sequence(&chunks, &WaitOutcome::Exited(0), 1);
    let mut block = fresh_block();
    drive_block(&mut block, &events);
    assert_eq!(block.output, "green plain");
}

#[test]
fn test_invalid_utf8_is_replaced_not_lost() {
    let chunks = vec![vec![b'o', b'k', 0xff]];
    let events = build_event_sequence(&chunks, &WaitOutcome::Exited(0), 1);
    let mut block = fresh_block();
    drive_block(&mut block, &events);
    assert!(block.output.starts_with("ok"));
    assert!(block.output.contains('\u{FFFD}'));
}
