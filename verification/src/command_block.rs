//! A command block: one issued command together with its captured output,
//! exit status and timing, tracked through an explicit lifecycle.

use vstd::prelude::*;

verus! {

/// The lifecycle state of a command block.
#[derive(Debug, Clone, Copy, PartialEq, Eq, Structural)]
pub enum BlockState {
    /// Command is being edited/typed
    Editing,
    /// Command is currently running
    Running,
    /// Command completed successfully (exit code 0)
    Success,
    /// Command failed (non-zero exit code)
    Failed,
    /// Command was cancelled/interrupted
    Cancelled,
    /// Command timed out
    TimedOut,
}

/// A state from which no further transition is allowed.
pub open spec fn is_terminal_state(s: BlockState) -> bool {
    s is Success || s is Failed || s is Cancelled || s is TimedOut
}

/// How far along the lifecycle a state is: a block is edited, then runs,
/// then finishes.  A setup failure may finish a block that never ran.
pub open spec fn state_rank(s: BlockState) -> int {
    if s is Editing {
        0
    } else if s is Running {
        1
    } else {
        2
    }
}

/// The transitions the lifecycle admits: stay put or move strictly
/// forward.  Monotonicity of the state machine is exactly the statement
/// that every mutation of a block takes an allowed step.
pub open spec fn state_step_allowed(from: BlockState, to: BlockState) -> bool {
    to == from || state_rank(from) < state_rank(to)
}

/// Law: a terminal state is absorbing.  No allowed step leaves it, and in
/// particular `Running` is never re-entered once a block has finished.
pub proof fn lemma_terminal_states_absorbing(from: BlockState, to: BlockState)
    requires
        state_step_allowed(from, to),
        is_terminal_state(from),
    ensures
        to == from,
        !(to is Running),
        !(to is Editing),
{
}

/// Represents a single command execution block in the terminal.
#[derive(Debug, Clone)]
pub struct CommandBlock {
    /// Unique identifier for this block
    pub id: u128,
    /// The command that was executed
    pub command: String,
    /// The complete output (stdout + stderr)
    pub output: String,
    /// Separate stdout for processing
    pub stdout: String,
    /// Separate stderr for error handling
    pub stderr: String,
    /// Exit code of the command
    pub exit_code: Option<i32>,
    /// When the command was started, in milliseconds since the epoch
    pub timestamp: i64,
    /// How long the command took to execute, in milliseconds
    pub duration: Option<u64>,
    /// Current state of the block
    pub state: BlockState,
    /// Working directory when command was executed
    pub working_dir: String,
}

/// The mathematical value of a command block: its text buffers as
/// character sequences, beside the plain fields.
#[verifier::ext_equal]
pub struct BlockModel {
    pub id: u128,
    pub command: Seq<char>,
    pub output: Seq<char>,
    pub stdout: Seq<char>,
    pub stderr: Seq<char>,
    pub exit_code: Option<i32>,
    pub timestamp: i64,
    pub duration: Option<u64>,
    pub state: BlockState,
    pub working_dir: Seq<char>,
}

impl BlockModel {
    /// Exit code and duration are recorded together, only by normal
    /// process completion, and a successful block always carries exit
    /// code zero.
    pub open spec fn wf(self) -> bool {
        &&& (self.exit_code is Some <==> self.duration is Some)
        &&& (self.exit_code is Some ==> (self.state is Success || self.state is Failed))
        &&& (self.state is Success ==> self.exit_code == Some(0i32))
    }
}

impl View for CommandBlock {
    type V = BlockModel;

    open spec fn view(&self) -> BlockModel {
        (BlockModel {
            id: self.id,
            command: self.command@,
            output: self.output@,
            stdout: self.stdout@,
            stderr: self.stderr@,
            exit_code: self.exit_code,
            timestamp: self.timestamp,
            duration: self.duration,
            state: self.state,
            working_dir: self.working_dir@,
        })
    }
}

/// Relies on `uuid::Uuid::new_v4` for a freshly generated identifier; the
/// result is random, so nothing is assumed about it.
#[verifier::external_body]
fn fresh_id() -> u128 {
    uuid::Uuid::new_v4().as_u128()
}

/// Relies on `chrono::Local::now` for the wall-clock time in milliseconds
/// since the epoch; the result depends on the clock, so nothing is assumed
/// about it.
#[verifier::external_body]
fn current_timestamp_ms() -> i64 {
    chrono::Local::now().timestamp_millis()
}

impl CommandBlock {
    /// Exit code and duration are recorded together, only by normal process
    /// completion, and a successful block always carries exit code zero.
    pub open spec fn wf(self) -> bool {
        self@.wf()
    }

    /// Create a new command block with the given command.
    pub fn new(command: String, working_dir: String) -> (block: CommandBlock)
        ensures
            block.command == command,
            block.working_dir == working_dir,
            block.output@ == Seq::<char>::empty(),
            block.stdout@ == Seq::<char>::empty(),
            block.stderr@ == Seq::<char>::empty(),
            block.exit_code is None,
            block.duration is None,
            block.state is Editing,
            block.wf(),
    {
        CommandBlock {
            id: fresh_id(),
            command,
            output: String::new(),
            stdout: String::new(),
            stderr: String::new(),
            exit_code: None,
            timestamp: current_timestamp_ms(),
            duration: None,
            state: BlockState::Editing,
            working_dir,
        }
    }

    /// Start executing this command.
    pub fn start_execution(&mut self)
        requires
            old(self).state is Editing,
        ensures
            final(self).state is Running,
            state_step_allowed(old(self).state, final(self).state),
            final(self).id == old(self).id,
            final(self).command == old(self).command,
            final(self).output == old(self).output,
            final(self).stdout == old(self).stdout,
            final(self).stderr == old(self).stderr,
            final(self).exit_code == old(self).exit_code,
            final(self).duration == old(self).duration,
            final(self).working_dir == old(self).working_dir,
            old(self).wf() ==> final(self).wf(),
    {
        self.state = BlockState::Running;
        self.timestamp = current_timestamp_ms();
    }

    /// Mark the command as completed: record the exit code and the elapsed
    /// time, and derive the terminal state from the exit code.
    pub fn complete(&mut self, exit_code: i32, duration: u64)
        requires
            old(self).state is Running,
        ensures
            final(self).exit_code == Some(exit_code),
            final(self).duration == Some(duration),
            final(self).state == (if exit_code == 0 {
                BlockState::Success
            } else {
                BlockState::Failed
            }),
            state_step_allowed(old(self).state, final(self).state),
            final(self).wf(),
            final(self).id == old(self).id,
            final(self).command == old(self).command,
            final(self).output == old(self).output,
            final(self).stdout == old(self).stdout,
            final(self).stderr == old(self).stderr,
            final(self).timestamp == old(self).timestamp,
            final(self).working_dir == old(self).working_dir,
    {
        self.exit_code = Some(exit_code);
        self.duration = Some(duration);
        self.state = if exit_code == 0 {
            BlockState::Success
        } else {
            BlockState::Failed
        };
    }

    /// Append output to the block.  Data is appended to the relevant
    /// separate buffer and, in arrival order, to the unified buffer.
    /// A finished block is never mutated, so late data is ruled out here.
    pub fn append_output(&mut self, text: &str, is_stderr: bool)
        requires
            !is_terminal_state(old(self).state),
        ensures
            final(self).output@ == old(self).output@ + text@,
            final(self).stdout@ == if is_stderr {
                old(self).stdout@
            } else {
                old(self).stdout@ + text@
            },
            final(self).stderr@ == if is_stderr {
                old(self).stderr@ + text@
            } else {
                old(self).stderr@
            },
            final(self).state == old(self).state,
            state_step_allowed(old(self).state, final(self).state),
            final(self).id == old(self).id,
            final(self).command == old(self).command,
            final(self).exit_code == old(self).exit_code,
            final(self).duration == old(self).duration,
            final(self).timestamp == old(self).timestamp,
            final(self).working_dir == old(self).working_dir,
            old(self).wf() ==> final(self).wf(),
    {
        if is_stderr {
            self.stderr.append(text);
        } else {
            self.stdout.append(text);
        }
        self.output.append(text);
    }

    /// Check if this block has completed execution.
    pub fn is_complete(&self) -> (complete: bool)
        ensures
            complete == is_terminal_state(self.state),
    {
        matches!(
            self.state,
            BlockState::Success | BlockState::Failed | BlockState::Cancelled | BlockState::TimedOut
        )
    }

    /// Get a display-friendly status icon.
    pub fn status_icon(&self) -> (icon: &'static str)
        ensures
            icon@ == status_icon_spec(self.state),
    {
        match self.state {
            BlockState::Editing => "📝",
            BlockState::Running => "⚡",
            BlockState::Success => "✅",
            BlockState::Failed => "❌",
            BlockState::Cancelled => "⛔",
            BlockState::TimedOut => "⏱️",
        }
    }

    /// Get a color for this block based on its state.
    pub fn status_color(&self) -> (color: (u8, u8, u8))
        ensures
            color == status_color_spec(self.state),
    {
        match self.state {
            BlockState::Editing => (100, 100, 100),    // Gray
            BlockState::Running => (255, 193, 7),      // Amber
            BlockState::Success => (76, 175, 80),      // Green
            BlockState::Failed => (244, 67, 54),       // Red
            BlockState::Cancelled => (255, 152, 0),    // Orange
            BlockState::TimedOut => (156, 39, 176),    // Purple
        }
    }
}

/// The icon shown for each lifecycle state.
pub open spec fn status_icon_spec(s: BlockState) -> Seq<char> {
    match s {
        BlockState::Editing => "📝"@,
        BlockState::Running => "⚡"@,
        BlockState::Success => "✅"@,
        BlockState::Failed => "❌"@,
        BlockState::Cancelled => "⛔"@,
        BlockState::TimedOut => "⏱️"@,
    }
}

/// The color shown for each lifecycle state.
pub open spec fn status_color_spec(s: BlockState) -> (u8, u8, u8) {
    match s {
        BlockState::Editing => (100u8, 100u8, 100u8),
        BlockState::Running => (255u8, 193u8, 7u8),
        BlockState::Success => (76u8, 175u8, 80u8),
        BlockState::Failed => (244u8, 67u8, 54u8),
        BlockState::Cancelled => (255u8, 152u8, 0u8),
        BlockState::TimedOut => (156u8, 39u8, 176u8),
    }
}

} // verus!
