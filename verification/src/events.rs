//! The ordered notification type emitted while a command runs, and the
//! shape of a well-formed stream of such notifications.

use vstd::prelude::*;

use crate::output::chunk_text;

verus! {

/// Events that can occur during command execution.
#[derive(Debug, Clone)]
pub enum ExecutionEvent {
    /// Command has started running
    Started,
    /// Output received from stdout
    StdoutData(String),
    /// Output received from stderr
    StderrData(String),
    /// Command completed with exit code
    Completed { exit_code: i32, duration: u64 },
    /// Command failed to execute
    Failed(String),
    /// Command was cancelled
    Cancelled,
}

/// An event that ends the stream for one invocation.
pub open spec fn is_terminal_event(event: ExecutionEvent) -> bool {
    event is Completed || event is Failed || event is Cancelled
}

/// An event that carries a chunk of captured output.
pub open spec fn is_data_event(event: ExecutionEvent) -> bool {
    event is StdoutData || event is StderrData
}

/// The text carried by a data event; empty for every other event.
pub open spec fn event_text(event: ExecutionEvent) -> Seq<char> {
    match event {
        ExecutionEvent::StdoutData(text) => text@,
        ExecutionEvent::StderrData(text) => text@,
        _ => Seq::<char>::empty(),
    }
}

/// The ordered concatenation of all data chunks delivered by a stream.
pub open spec fn delivered_text(events: Seq<ExecutionEvent>) -> Seq<char>
    decreases events.len(),
{
    if events.len() == 0 {
        Seq::<char>::empty()
    } else {
        event_text(events[0]) + delivered_text(events.drop_first())
    }
}

/// Appending one event extends the delivered text by that event's text.
pub proof fn lemma_delivered_text_push(events: Seq<ExecutionEvent>, event: ExecutionEvent)
    ensures
        delivered_text(events.push(event)) == delivered_text(events) + event_text(event),
    decreases events.len(),
{
    if events.len() == 0 {
        let pushed = events.push(event);
        assert(pushed[0] == event);
        assert(pushed.drop_first() =~= Seq::<ExecutionEvent>::empty());
        assert(delivered_text(pushed) == event_text(event) + delivered_text(
            Seq::<ExecutionEvent>::empty(),
        ));
        assert(delivered_text(pushed) =~= delivered_text(events) + event_text(event));
    } else {
        let pushed = events.push(event);
        assert(pushed[0] == events[0]);
        assert(pushed.drop_first() =~= events.drop_first().push(event));
        lemma_delivered_text_push(events.drop_first(), event);
        assert(delivered_text(pushed) == event_text(events[0]) + (delivered_text(
            events.drop_first(),
        ) + event_text(event)));
        assert(delivered_text(pushed) =~= delivered_text(events) + event_text(event));
    }
}

/// The text of a sequence of raw output chunks: each chunk cleaned, then
/// concatenated in arrival order.
pub open spec fn chunks_text(chunks: Seq<Seq<u8>>) -> Seq<char>
    decreases chunks.len(),
{
    if chunks.len() == 0 {
        Seq::<char>::empty()
    } else {
        chunk_text(chunks[0]) + chunks_text(chunks.drop_first())
    }
}

/// Appending one chunk extends the chunks' text by that chunk's text.
pub proof fn lemma_chunks_text_push(chunks: Seq<Seq<u8>>, chunk: Seq<u8>)
    ensures
        chunks_text(chunks.push(chunk)) == chunks_text(chunks) + chunk_text(chunk),
    decreases chunks.len(),
{
    if chunks.len() == 0 {
        let pushed = chunks.push(chunk);
        assert(pushed[0] == chunk);
        assert(pushed.drop_first() =~= Seq::<Seq<u8>>::empty());
        assert(chunks_text(pushed) == chunk_text(chunk) + chunks_text(Seq::<Seq<u8>>::empty()));
        assert(chunks_text(pushed) =~= chunks_text(chunks) + chunk_text(chunk));
    } else {
        let pushed = chunks.push(chunk);
        assert(pushed[0] == chunks[0]);
        assert(pushed.drop_first() =~= chunks.drop_first().push(chunk));
        lemma_chunks_text_push(chunks.drop_first(), chunk);
        assert(chunks_text(pushed) == chunk_text(chunks[0]) + (chunks_text(chunks.drop_first())
            + chunk_text(chunk)));
        assert(chunks_text(pushed) =~= chunks_text(chunks) + chunk_text(chunk));
    }
}

/// How many terminal events a stream holds.
pub open spec fn terminal_count(events: Seq<ExecutionEvent>) -> int
    decreases events.len(),
{
    if events.len() == 0 {
        0
    } else {
        (if is_terminal_event(events[0]) {
            1int
        } else {
            0int
        }) + terminal_count(events.drop_first())
    }
}

/// A well-formed event stream for one invocation: either a single `Failed`
/// event, when setup failed before the command ever started, or `Started`
/// first, data strictly in between, and a terminal event last.
pub open spec fn wf_event_seq(events: Seq<ExecutionEvent>) -> bool {
    ||| (events.len() == 1 && events[0] is Failed)
    ||| {
        &&& events.len() >= 2
        &&& events[0] is Started
        &&& is_terminal_event(events.last())
        &&& forall|i: int| 1 <= i < events.len() - 1 ==> is_data_event(#[trigger] events[i])
    }
}

proof fn lemma_terminal_only_last(events: Seq<ExecutionEvent>)
    requires
        events.len() >= 1,
        is_terminal_event(events.last()),
        forall|i: int| 0 <= i < events.len() - 1 ==> !is_terminal_event(#[trigger] events[i]),
    ensures
        terminal_count(events) == 1,
    decreases events.len(),
{
    if events.len() == 1 {
        assert(terminal_count(events.drop_first()) == 0);
    } else {
        let rest = events.drop_first();
        assert(rest.last() == events.last());
        assert forall|i: int| 0 <= i < rest.len() - 1 implies !is_terminal_event(
            #[trigger] rest[i],
        ) by {
            assert(rest[i] == events[i + 1]);
        }
        lemma_terminal_only_last(rest);
        assert(!is_terminal_event(events[0]));
    }
}

/// Law: a well-formed stream delivers exactly one terminal event, and it
/// comes last; no event can follow it.
pub proof fn lemma_exactly_one_terminal(events: Seq<ExecutionEvent>)
    requires
        wf_event_seq(events),
    ensures
        terminal_count(events) == 1,
        is_terminal_event(events.last()),
        forall|i: int| 0 <= i < events.len() - 1 ==> !is_terminal_event(#[trigger] events[i]),
{
    assert(forall|i: int| 0 <= i < events.len() - 1 ==> !is_terminal_event(#[trigger] events[i]));
    lemma_terminal_only_last(events);
}

} // verus!
