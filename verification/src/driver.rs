//! The execution driver: how a stream of events mutates a command block.
//!
//! Each event is applied exhaustively, so a new event kind forces every
//! consumer through here to handle it.  The driver never mutates a block
//! that has already reached a terminal state: a late event is a
//! programming error and is not applied.

use vstd::prelude::*;
use vstd::string::*;

use crate::command_block::BlockModel;
use crate::command_block::BlockState;
use crate::command_block::CommandBlock;
use crate::command_block::is_terminal_state;
use crate::command_block::state_step_allowed;
use crate::events::ExecutionEvent;
use crate::events::delivered_text;
use crate::events::event_text;
use crate::events::is_data_event;
use crate::events::is_terminal_event;
use crate::events::wf_event_seq;

verus! {

/// The diagnostic line appended to a block's output when execution fails
/// before or besides any process output.
pub open spec fn failure_note(message: Seq<char>) -> Seq<char> {
    "\n[Error: "@ + message + "]"@
}

/// What one event does to a block: the driver contract, as a function.
pub open spec fn apply_event_spec(m: BlockModel, event: ExecutionEvent) -> BlockModel {
    match event {
        ExecutionEvent::Started => if m.state is Editing {
            (BlockModel { state: BlockState::Running, ..m })
        } else {
            m
        },
        ExecutionEvent::StdoutData(text) => if !is_terminal_state(m.state) {
            (BlockModel { output: m.output + text@, stdout: m.stdout + text@, ..m })
        } else {
            m
        },
        ExecutionEvent::StderrData(text) => if !is_terminal_state(m.state) {
            (BlockModel { output: m.output + text@, stderr: m.stderr + text@, ..m })
        } else {
            m
        },
        ExecutionEvent::Completed { exit_code, duration } => if m.state is Running {
            (BlockModel {
                exit_code: Some(exit_code),
                duration: Some(duration),
                state: if exit_code == 0 {
                    BlockState::Success
                } else {
                    BlockState::Failed
                },
                ..m
            })
        } else {
            m
        },
        ExecutionEvent::Failed(message) => if !is_terminal_state(m.state) {
            (BlockModel {
                state: BlockState::Failed,
                output: m.output + failure_note(message@),
                stderr: m.stderr + failure_note(message@),
                ..m
            })
        } else {
            m
        },
        ExecutionEvent::Cancelled => if !is_terminal_state(m.state) {
            (BlockModel { state: BlockState::Cancelled, ..m })
        } else {
            m
        },
    }
}

/// Applying an event takes an allowed lifecycle step and preserves
/// well-formedness.
pub proof fn lemma_apply_event_preserves_wf(m: BlockModel, event: ExecutionEvent)
    ensures
        state_step_allowed(m.state, apply_event_spec(m, event).state),
        m.wf() ==> apply_event_spec(m, event).wf(),
{
}

/// Apply one event to a block, exactly as `apply_event_spec` says, and
/// report whether it was the terminal event of its stream.
pub fn apply_event(block: &mut CommandBlock, event: &ExecutionEvent) -> (done: bool)
    ensures
        final(block)@ == apply_event_spec(old(block)@, *event),
        done == is_terminal_event(*event),
        state_step_allowed(old(block)@.state, final(block)@.state),
        old(block)@.wf() ==> final(block)@.wf(),
{
    proof {
        lemma_apply_event_preserves_wf(old(block)@, *event);
    }
    match event {
        ExecutionEvent::Started => {
            if block.state == BlockState::Editing {
                block.state = BlockState::Running;
            }
            proof {
                assert(block@ =~= apply_event_spec(old(block)@, *event));
            }
            false
        },
        ExecutionEvent::StdoutData(text) => {
            if !block.is_complete() {
                block.append_output(text.as_str(), false);
            }
            proof {
                assert(block@ =~= apply_event_spec(old(block)@, *event));
            }
            false
        },
        ExecutionEvent::StderrData(text) => {
            if !block.is_complete() {
                block.append_output(text.as_str(), true);
            }
            proof {
                assert(block@ =~= apply_event_spec(old(block)@, *event));
            }
            false
        },
        ExecutionEvent::Completed { exit_code, duration } => {
            if block.state == BlockState::Running {
                block.complete(*exit_code, *duration);
            }
            proof {
                assert(block@ =~= apply_event_spec(old(block)@, *event));
            }
            true
        },
        ExecutionEvent::Failed(message) => {
            if !block.is_complete() {
                let mut note = "\n[Error: ".to_owned();
                note.append(message.as_str());
                note.append("]");
                assert(note@ =~= failure_note(message@));
                block.append_output(note.as_str(), true);
                block.state = BlockState::Failed;
            }
            proof {
                assert(block@ =~= apply_event_spec(old(block)@, *event));
            }
            true
        },
        ExecutionEvent::Cancelled => {
            if !block.is_complete() {
                block.state = BlockState::Cancelled;
            }
            proof {
                assert(block@ =~= apply_event_spec(old(block)@, *event));
            }
            true
        },
    }
}

/// What a whole stream does to a block: events are applied in order until
/// the first terminal event, which ends the stream.
pub open spec fn drive_spec(m: BlockModel, events: Seq<ExecutionEvent>) -> BlockModel
    decreases events.len(),
{
    if events.len() == 0 {
        m
    } else {
        let next = apply_event_spec(m, events[0]);
        if is_terminal_event(events[0]) {
            next
        } else {
            drive_spec(next, events.drop_first())
        }
    }
}

/// Driving over one more event, none terminal so far, applies it last.
proof fn lemma_drive_snoc(m: BlockModel, events: Seq<ExecutionEvent>, event: ExecutionEvent)
    requires
        forall|j: int| 0 <= j < events.len() ==> !is_terminal_event(#[trigger] events[j]),
    ensures
        drive_spec(m, events.push(event)) == apply_event_spec(drive_spec(m, events), event),
    decreases events.len(),
{
    let pushed = events.push(event);
    if events.len() == 0 {
        assert(pushed[0] == event);
        assert(pushed.drop_first() =~= Seq::<ExecutionEvent>::empty());
        let next = apply_event_spec(m, pushed[0]);
        assert(drive_spec(next, pushed.drop_first()) == next);
        assert(drive_spec(m, pushed) == apply_event_spec(m, event));
        assert(drive_spec(m, events) == m);
    } else {
        assert(pushed[0] == events[0]);
        assert(!is_terminal_event(events[0]));
        assert(pushed.drop_first() =~= events.drop_first().push(event));
        let next = apply_event_spec(m, events[0]);
        assert(drive_spec(m, pushed) == drive_spec(next, events.drop_first().push(event)));
        assert forall|j: int| 0 <= j < events.drop_first().len() implies !is_terminal_event(
            #[trigger] events.drop_first()[j],
        ) by {
            assert(events.drop_first()[j] == events[j + 1]);
        }
        lemma_drive_snoc(next, events.drop_first(), event);
        assert(drive_spec(m, events) == drive_spec(next, events.drop_first()));
    }
}

/// A stream is driven only up to its first terminal event: whatever
/// follows one is never applied.
proof fn lemma_drive_stops_at_terminal(m: BlockModel, events: Seq<ExecutionEvent>, k: int)
    requires
        0 <= k < events.len(),
        forall|j: int| 0 <= j < k ==> !is_terminal_event(#[trigger] events[j]),
        is_terminal_event(events[k]),
    ensures
        drive_spec(m, events) == apply_event_spec(drive_spec(m, events.take(k)), events[k]),
    decreases k,
{
    if k == 0 {
        assert(events.take(0) =~= Seq::<ExecutionEvent>::empty());
    } else {
        let next = apply_event_spec(m, events[0]);
        let rest = events.drop_first();
        assert(forall|j: int| 0 <= j < k - 1 ==> !is_terminal_event(#[trigger] rest[j]));
        assert(rest[k - 1] == events[k]);
        lemma_drive_stops_at_terminal(next, rest, k - 1);
        assert(events.take(k)[0] == events[0]);
        assert(events.take(k).drop_first() =~= rest.take(k - 1));
        assert(drive_spec(m, events.take(k)) == drive_spec(next, rest.take(k - 1)));
    }
}

/// Drive a block through a finished stream of events: apply each in
/// order, stopping after the terminal event.
pub fn drive_block(block: &mut CommandBlock, events: &Vec<ExecutionEvent>)
    ensures
        final(block)@ == drive_spec(old(block)@, events@),
        old(block)@.wf() ==> final(block)@.wf(),
{
    proof {
        if old(block)@.wf() {
            lemma_drive_preserves_wf(old(block)@, events@);
        }
    }
    let ghost start = block@;
    let mut i: usize = 0;
    let mut done = false;
    while i < events.len() && !done
        invariant
            0 <= i <= events@.len(),
            !done ==> block@ == drive_spec(start, events@.take(i as int)),
            !done ==> forall|j: int| 0 <= j < i ==> !is_terminal_event(#[trigger] events@[j]),
            done ==> block@ == drive_spec(start, events@),
        decreases events@.len() - i,
    {
        let ghost before = block@;
        let ghost prefix = events@.take(i as int);
        done = apply_event(block, &events[i]);
        proof {
            assert(forall|j: int|
                0 <= j < prefix.len() ==> !is_terminal_event(#[trigger] prefix[j]));
            lemma_drive_snoc(start, prefix, events@[i as int]);
            assert(events@.take(i + 1) =~= prefix.push(events@[i as int]));
            if done {
                lemma_drive_stops_at_terminal(start, events@, i as int);
            }
        }
        i += 1;
    }
    proof {
        if !done {
            assert(events@.take(events@.len() as int) =~= events@);
        }
    }
}

/// Driving preserves well-formedness.
pub proof fn lemma_drive_preserves_wf(m: BlockModel, events: Seq<ExecutionEvent>)
    requires
        m.wf(),
    ensures
        drive_spec(m, events).wf(),
    decreases events.len(),
{
    if events.len() > 0 {
        lemma_apply_event_preserves_wf(m, events[0]);
        if !is_terminal_event(events[0]) {
            lemma_drive_preserves_wf(apply_event_spec(m, events[0]), events.drop_first());
        }
    }
}

/// Characterization of the running phase: a running block driven through
/// data events and one terminal event, last.
proof fn lemma_drive_running_phase(m: BlockModel, events: Seq<ExecutionEvent>)
    requires
        m.state is Running,
        events.len() >= 1,
        is_terminal_event(events.last()),
        forall|j: int| 0 <= j < events.len() - 1 ==> is_data_event(#[trigger] events[j]),
    ensures
        is_terminal_state(drive_spec(m, events).state),
        drive_spec(m, events).id == m.id,
        drive_spec(m, events).command == m.command,
        drive_spec(m, events).working_dir == m.working_dir,
        drive_spec(m, events).timestamp == m.timestamp,
        events.last() matches ExecutionEvent::Completed { exit_code, duration } ==> {
            &&& drive_spec(m, events).exit_code == Some(exit_code)
            &&& drive_spec(m, events).duration == Some(duration)
            &&& drive_spec(m, events).state == (if exit_code == 0 {
                BlockState::Success
            } else {
                BlockState::Failed
            })
            &&& drive_spec(m, events).output == m.output + delivered_text(events)
        },
        events.last() matches ExecutionEvent::Failed(message) ==> {
            &&& drive_spec(m, events).state is Failed
            &&& drive_spec(m, events).exit_code == m.exit_code
            &&& drive_spec(m, events).duration == m.duration
            &&& drive_spec(m, events).output == m.output + delivered_text(events) + failure_note(
                message@,
            )
        },
        events.last() is Cancelled ==> {
            &&& drive_spec(m, events).state is Cancelled
            &&& drive_spec(m, events).exit_code == m.exit_code
            &&& drive_spec(m, events).duration == m.duration
            &&& drive_spec(m, events).output == m.output + delivered_text(events)
        },
    decreases events.len(),
{
    let f = drive_spec(m, events);
    if events.len() == 1 {
        let e = events[0];
        assert(e == events.last());
        assert(f == apply_event_spec(m, e));
        assert(delivered_text(events.drop_first()) == Seq::<char>::empty());
        assert(delivered_text(events) == event_text(e) + Seq::<char>::empty());
        match e {
            ExecutionEvent::Completed { exit_code, duration } => {
                assert(f.output =~= m.output + delivered_text(events));
            },
            ExecutionEvent::Failed(message) => {
                assert(f.output =~= m.output + delivered_text(events) + failure_note(message@));
            },
            ExecutionEvent::Cancelled => {
                assert(f.output =~= m.output + delivered_text(events));
            },
            _ => {
                assert(false);
            },
        }
    } else {
        let e0 = events[0];
        assert(is_data_event(e0));
        assert(!is_terminal_event(e0));
        let next = apply_event_spec(m, e0);
        assert(next.state is Running);
        assert(next.output == m.output + event_text(e0));
        assert(next.exit_code == m.exit_code && next.duration == m.duration);
        let rest = events.drop_first();
        assert(rest.last() == events.last());
        assert forall|j: int| 0 <= j < rest.len() - 1 implies is_data_event(
            #[trigger] rest[j],
        ) by {
            assert(rest[j] == events[j + 1]);
        }
        lemma_drive_running_phase(next, rest);
        assert(f == drive_spec(next, rest));
        assert(delivered_text(events) == event_text(e0) + delivered_text(rest));
        match events.last() {
            ExecutionEvent::Completed { exit_code, duration } => {
                assert(f.output == next.output + delivered_text(rest));
                assert(f.output =~= m.output + delivered_text(events));
            },
            ExecutionEvent::Failed(message) => {
                assert(f.output == next.output + delivered_text(rest) + failure_note(message@));
                assert(m.output + delivered_text(events) =~= next.output + delivered_text(rest));
                assert(f.output =~= m.output + delivered_text(events) + failure_note(message@));
            },
            ExecutionEvent::Cancelled => {
                assert(f.output == next.output + delivered_text(rest));
                assert(f.output =~= m.output + delivered_text(events));
            },
            _ => {
                assert(false);
            },
        }
    }
}

/// Steps shared by the laws over a well-formed stream that begins with
/// `Started`: the first event sets the block running, and the rest of the
/// stream is a running phase.
proof fn lemma_drive_started_stream(m: BlockModel, events: Seq<ExecutionEvent>)
    requires
        wf_event_seq(events),
        events.len() >= 2,
        m.state is Editing || m.state is Running,
    ensures
        drive_spec(m, events) == drive_spec(
            apply_event_spec(m, events[0]),
            events.drop_first(),
        ),
        apply_event_spec(m, events[0]) == (BlockModel { state: BlockState::Running, ..m }),
        events.drop_first().len() >= 1,
        is_terminal_event(events.drop_first().last()),
        forall|j: int|
            0 <= j < events.drop_first().len() - 1 ==> is_data_event(
                #[trigger] events.drop_first()[j],
            ),
{
    assert(events[0] is Started);
    let rest = events.drop_first();
    assert(rest.last() == events.last());
    assert forall|j: int| 0 <= j < rest.len() - 1 implies is_data_event(#[trigger] rest[j]) by {
        assert(rest[j] == events[j + 1]);
    }
}

/// Law: every execution ends.  Driving an unfinished block through any
/// well-formed event stream leaves it in a terminal state, whether the
/// stream reports a completed process, a failure, or a cancellation.
pub proof fn lemma_wf_stream_reaches_terminal(m: BlockModel, events: Seq<ExecutionEvent>)
    requires
        wf_event_seq(events),
        m.state is Editing || m.state is Running,
    ensures
        is_terminal_state(drive_spec(m, events).state),
{
    if events.len() == 1 {
        assert(events[0] is Failed);
        assert(drive_spec(m, events) == apply_event_spec(m, events[0]));
    } else {
        lemma_drive_started_stream(m, events);
        lemma_drive_running_phase(apply_event_spec(m, events[0]), events.drop_first());
    }
}

/// Law: a normally completed run records exactly what it was given.  The
/// block ends with the reported exit code and elapsed time, in `Success`
/// exactly when the exit code is zero, and it carries an exit code and a
/// duration precisely because it ended by normal process completion.
pub proof fn lemma_completed_run(m: BlockModel, events: Seq<ExecutionEvent>, code: i32, dur: u64)
    requires
        wf_event_seq(events),
        m.state is Editing || m.state is Running,
        events.last() == (ExecutionEvent::Completed { exit_code: code, duration: dur }),
    ensures
        drive_spec(m, events).exit_code == Some(code),
        drive_spec(m, events).duration == Some(dur),
        drive_spec(m, events).state == (if code == 0 {
            BlockState::Success
        } else {
            BlockState::Failed
        }),
        drive_spec(m, events).exit_code is Some <==> (drive_spec(m, events).state is Success
            || drive_spec(m, events).state is Failed),
        drive_spec(m, events).duration is Some <==> (drive_spec(m, events).state is Success
            || drive_spec(m, events).state is Failed),
{
    assert(events.len() >= 2);
    lemma_drive_started_stream(m, events);
    lemma_drive_running_phase(apply_event_spec(m, events[0]), events.drop_first());
}

/// Law: the captured output is the ordered concatenation of the delivered
/// data chunks.  It holds of every run that does not end in a `Failed`
/// event; a failed run additionally appends its diagnostic note, as
/// `lemma_failed_run` states.
pub proof fn lemma_output_is_delivered_text(m: BlockModel, events: Seq<ExecutionEvent>)
    requires
        wf_event_seq(events),
        m.state is Editing || m.state is Running,
        !(events.last() is Failed),
    ensures
        drive_spec(m, events).output == m.output + delivered_text(events),
{
    assert(events.len() >= 2);
    lemma_drive_started_stream(m, events);
    let next = apply_event_spec(m, events[0]);
    let rest = events.drop_first();
    lemma_drive_running_phase(next, rest);
    assert(delivered_text(events) == event_text(events[0]) + delivered_text(rest));
    assert(drive_spec(m, events).output == next.output + delivered_text(rest));
    assert(drive_spec(m, events).output =~= m.output + delivered_text(events));
}

/// Law: a run that ends in a `Failed` event leaves the block in `Failed`
/// state, with its exit code and duration untouched, and its output is
/// the delivered text followed by the diagnostic note.
pub proof fn lemma_failed_run(m: BlockModel, events: Seq<ExecutionEvent>)
    requires
        wf_event_seq(events),
        m.state is Editing || m.state is Running,
        events.last() is Failed,
    ensures
        drive_spec(m, events).state is Failed,
        drive_spec(m, events).exit_code == m.exit_code,
        drive_spec(m, events).duration == m.duration,
        events.last() matches ExecutionEvent::Failed(message) ==> drive_spec(m, events).output
            == m.output + delivered_text(events) + failure_note(message@),
{
    if events.len() == 1 {
        assert(events[0] == events.last());
        let f = apply_event_spec(m, events[0]);
        assert(drive_spec(m, events) == f);
        assert(delivered_text(events.drop_first()) == Seq::<char>::empty());
        assert(delivered_text(events) == event_text(events[0]) + Seq::<char>::empty());
        match events[0] {
            ExecutionEvent::Failed(message) => {
                assert(f.output =~= m.output + delivered_text(events) + failure_note(message@));
            },
            _ => {
                assert(false);
            },
        }
    } else {
        lemma_drive_started_stream(m, events);
        let next = apply_event_spec(m, events[0]);
        let rest = events.drop_first();
        lemma_drive_running_phase(next, rest);
        assert(rest.last() == events.last());
        assert(delivered_text(events) == event_text(events[0]) + delivered_text(rest));
        match events.last() {
            ExecutionEvent::Failed(message) => {
                assert(drive_spec(m, events).output == next.output + delivered_text(rest)
                    + failure_note(message@));
                assert(m.output + delivered_text(events) =~= next.output + delivered_text(rest));
                assert(drive_spec(m, events).output =~= m.output + delivered_text(events)
                    + failure_note(message@));
            },
            _ => {
                assert(false);
            },
        }
    }
}

/// Law: a finished block never changes again.  Driving any stream of
/// events over a block in a terminal state leaves it untouched; in
/// particular `Running` is never re-entered.
pub proof fn lemma_terminal_block_unchanged(m: BlockModel, events: Seq<ExecutionEvent>)
    requires
        is_terminal_state(m.state),
    ensures
        drive_spec(m, events) == m,
    decreases events.len(),
{
    if events.len() > 0 {
        assert(apply_event_spec(m, events[0]) == m);
        if !is_terminal_event(events[0]) {
            lemma_terminal_block_unchanged(m, events.drop_first());
        }
    }
}

} // verus!
