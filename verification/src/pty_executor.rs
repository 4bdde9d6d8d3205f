//! The PTY-backed executor's configuration and the decisions it makes for
//! one invocation: which process to spawn, which event each raw chunk of
//! output becomes, and which terminal event ends the stream.
//!
//! The OS resources themselves — the PTY pair, the child process and the
//! reader — are owned by the surrounding program for exactly one
//! invocation; everything it decides is taken from here.

use vstd::prelude::*;
use vstd::string::*;

use crate::events::ExecutionEvent;
use crate::events::chunks_text;
use crate::events::delivered_text;
use crate::events::is_data_event;
use crate::events::is_terminal_event;
use crate::events::lemma_chunks_text_push;
use crate::events::lemma_delivered_text_push;
use crate::events::wf_event_seq;
use crate::output::chunk_text;
use crate::output::clean_chunk;

verus! {

/// Default terminal geometry for the PTY: rows.
pub const PTY_ROWS: u16 = 24;

/// Default terminal geometry for the PTY: columns.
pub const PTY_COLS: u16 = 80;

/// An execution-level failure that must propagate out of an invocation
/// rather than be swallowed.
#[derive(Debug, Clone, PartialEq, Eq)]
pub enum ExecError {
    /// The consumer dropped its event receiver mid-execution.  The result
    /// of a real side-effecting command would be lost, so this is fatal
    /// for the invocation; the carried text names the event that could
    /// not be delivered.
    Channel(String),
}

/// The report carried by a `Channel` error, naming the kind of event
/// that could not be delivered.
pub open spec fn channel_failure_message(event: ExecutionEvent) -> Seq<char> {
    match event {
        ExecutionEvent::Started => "Failed to send start event"@,
        ExecutionEvent::StdoutData(_) => "Failed to send output event"@,
        ExecutionEvent::StderrData(_) => "Failed to send output event"@,
        ExecutionEvent::Completed { .. } => "Failed to send completion event"@,
        ExecutionEvent::Failed(_) => "Failed to send error event"@,
        ExecutionEvent::Cancelled => "Failed to send error event"@,
    }
}

/// The fatal error for an event whose consumer is gone.  Delivery failed
/// because the receiver was dropped, and the result of a real
/// side-effecting command must not be lost silently.
pub fn channel_failure(event: &ExecutionEvent) -> (error: ExecError)
    ensures
        error matches ExecError::Channel(message) && message@ == channel_failure_message(*event),
{
    let message: &'static str = match event {
        ExecutionEvent::Started => "Failed to send start event",
        ExecutionEvent::StdoutData(_) => "Failed to send output event",
        ExecutionEvent::StderrData(_) => "Failed to send output event",
        ExecutionEvent::Completed { .. } => "Failed to send completion event",
        ExecutionEvent::Failed(_) => "Failed to send error event",
        ExecutionEvent::Cancelled => "Failed to send error event",
    };
    ExecError::Channel(message.to_owned())
}

/// How waiting for the child process ended: a reaped exit status, or an
/// error from the wait itself.
#[derive(Debug, Clone)]
pub enum WaitOutcome {
    Exited(i32),
    WaitFailed(String),
}

/// The process invocation for one command: the configured shell, run with
/// `-c` and the command text, in the configured working directory.
#[derive(Debug, Clone)]
pub struct ShellInvocation {
    pub program: String,
    pub args: Vec<String>,
    pub cwd: String,
}

/// The configuration of an executor: its working directory and shell.
pub struct ExecutorConfig {
    pub working_dir: Seq<char>,
    pub shell: Seq<char>,
}

/// PTY-based command executor.  It is a configuration value, not a live
/// OS resource: each invocation creates and tears down its own resources.
#[derive(Debug, Clone)]
pub struct PtyExecutor {
    /// Current working directory
    working_dir: String,
    /// Shell to use (bash, zsh, etc.)
    shell: String,
}

impl View for PtyExecutor {
    type V = ExecutorConfig;

    closed spec fn view(&self) -> ExecutorConfig {
        (ExecutorConfig { working_dir: self.working_dir@, shell: self.shell@ })
    }
}

impl PtyExecutor {
    /// Create a new PTY executor from an already resolved working
    /// directory and shell.
    pub fn new(working_dir: String, shell: String) -> (executor: PtyExecutor)
        ensures
            executor@.working_dir == working_dir@,
            executor@.shell == shell@,
    {
        PtyExecutor { working_dir, shell }
    }

    /// Change the working directory.
    pub fn set_working_dir(&mut self, dir: String)
        ensures
            final(self)@.working_dir == dir@,
            final(self)@.shell == old(self)@.shell,
    {
        self.working_dir = dir;
    }

    /// Get the current working directory.
    pub fn working_dir(&self) -> (dir: &str)
        ensures
            dir@ == self@.working_dir,
    {
        self.working_dir.as_str()
    }

    /// The shell this executor runs commands with.
    pub fn shell(&self) -> (shell: &str)
        ensures
            shell@ == self@.shell,
    {
        self.shell.as_str()
    }

    /// Build the child-process invocation for a command: `<shell> -c
    /// <command>`, in the configured working directory.
    pub fn shell_invocation(&self, command: &str) -> (invocation: ShellInvocation)
        ensures
            invocation.program@ == self@.shell,
            invocation.args@.len() == 2,
            invocation.args@[0]@ == "-c"@,
            invocation.args@[1]@ == command@,
            invocation.cwd@ == self@.working_dir,
    {
        let mut args: Vec<String> = Vec::new();
        args.push("-c".to_owned());
        args.push(command.to_owned());
        ShellInvocation { program: self.shell.clone(), args, cwd: self.working_dir.clone() }
    }
}

/// The event a raw chunk of PTY output is delivered as: its cleaned text.
/// The PTY line discipline merges the child's stdout and stderr before
/// this engine ever sees them, so every chunk is delivered as stdout.
pub fn data_event(data: &[u8]) -> (event: ExecutionEvent)
    ensures
        event matches ExecutionEvent::StdoutData(text) && text@ == chunk_text(data@),
        is_data_event(event),
{
    ExecutionEvent::StdoutData(clean_chunk(data))
}

/// The terminal event for an invocation whose child was spawned: a normal
/// exit reports the code and the elapsed time; a failed wait reports the
/// error.
pub fn terminal_event(outcome: &WaitOutcome, duration: u64) -> (event: ExecutionEvent)
    ensures
        is_terminal_event(event),
        outcome matches WaitOutcome::Exited(code) ==> event == (ExecutionEvent::Completed {
            exit_code: *code,
            duration,
        }),
        outcome matches WaitOutcome::WaitFailed(msg) ==> event matches ExecutionEvent::Failed(text)
            && text@ == "Process error: "@ + msg@,
{
    match outcome {
        WaitOutcome::Exited(code) => ExecutionEvent::Completed { exit_code: *code, duration },
        WaitOutcome::WaitFailed(msg) => {
            let mut text = "Process error: ".to_owned();
            text.append(msg.as_str());
            ExecutionEvent::Failed(text)
        },
    }
}

/// The whole event stream for an invocation that never started: setup
/// failed (no PTY, or no child process), so a single `Failed` event
/// carries the message and the command never reaches `Running`.
pub fn setup_failure_events(message: String) -> (events: Vec<ExecutionEvent>)
    ensures
        events@.len() == 1,
        events@[0] matches ExecutionEvent::Failed(text) && text@ == message@,
        wf_event_seq(events@),
{
    let mut events: Vec<ExecutionEvent> = Vec::new();
    events.push(ExecutionEvent::Failed(message));
    events
}

/// The whole event stream for an invocation whose child was spawned:
/// `Started` first, one data event per raw chunk in arrival order, and
/// exactly one terminal event, last.
pub fn build_event_sequence(chunks: &Vec<Vec<u8>>, outcome: &WaitOutcome, duration: u64) -> (events:
    Vec<ExecutionEvent>)
    ensures
        events@.len() == chunks@.len() + 2,
        events@[0] is Started,
        forall|i: int|
            0 <= i < chunks@.len() ==> ((#[trigger] events@[i + 1]) matches
            ExecutionEvent::StdoutData(text) && text@ == chunk_text(chunks@[i]@)),
        outcome matches WaitOutcome::Exited(code) ==> events@.last() == (
        ExecutionEvent::Completed { exit_code: *code, duration }),
        outcome matches WaitOutcome::WaitFailed(msg) ==> events@.last() matches
            ExecutionEvent::Failed(text) && text@ == "Process error: "@ + msg@,
        wf_event_seq(events@),
        delivered_text(events@) == chunks_text(chunks@.map_values(|c: Vec<u8>| c@)),
{
    let ghost raw: Seq<Seq<u8>> = chunks@.map_values(|c: Vec<u8>| c@);
    let mut events: Vec<ExecutionEvent> = Vec::new();
    events.push(ExecutionEvent::Started);
    proof {
        assert(events@ =~= Seq::<ExecutionEvent>::empty().push(ExecutionEvent::Started));
        lemma_delivered_text_push(Seq::<ExecutionEvent>::empty(), ExecutionEvent::Started);
        assert(delivered_text(events@) =~= chunks_text(raw.take(0)));
    }
    let mut i: usize = 0;
    while i < chunks.len()
        invariant
            0 <= i <= chunks.len(),
            raw == chunks@.map_values(|c: Vec<u8>| c@),
            events@.len() == i + 1,
            events@[0] is Started,
            forall|j: int|
                0 <= j < i ==> ((#[trigger] events@[j + 1]) matches ExecutionEvent::StdoutData(
                text) && text@ == chunk_text(chunks@[j]@)),
            delivered_text(events@) == chunks_text(raw.take(i as int)),
        decreases chunks.len() - i,
    {
        let ghost before = events@;
        let event = data_event(chunks[i].as_slice());
        events.push(event);
        proof {
            lemma_delivered_text_push(before, event);
            lemma_chunks_text_push(raw.take(i as int), raw[i as int]);
            assert(raw.take(i + 1) =~= raw.take(i as int).push(raw[i as int]));
            assert(delivered_text(events@) =~= chunks_text(raw.take(i + 1)));
        }
        i += 1;
    }
    let ghost before = events@;
    let last = terminal_event(outcome, duration);
    events.push(last);
    proof {
        lemma_delivered_text_push(before, last);
        assert(raw.take(chunks@.len() as int) =~= raw);
        assert(delivered_text(events@) =~= chunks_text(raw));
        assert forall|i: int| 1 <= i < events@.len() - 1 implies is_data_event(
            #[trigger] events@[i],
        ) by {
            assert(before[(i - 1) + 1] matches ExecutionEvent::StdoutData(text) && text@
                == chunk_text(chunks@[i - 1]@));
            assert(events@[i] == before[i]);
        }
    }
    events
}

} // verus!
