//! Process management operations: the tool descriptions and their danger
//! classification.  Executing them touches live processes and lives
//! outside this library.

use vstd::prelude::*;
use vstd::string::*;

use crate::text_util::dec_rep;
use crate::text_util::u64_to_string;

verus! {

/// Process management operations
#[derive(Debug, Clone)]
pub enum ProcessTool {
    /// List running processes (ps)
    List { filter: Option<String>, show_all: bool },
    /// Get detailed process information
    Info { pid: u32 },
    /// Kill a process
    Kill { pid: u32, signal: Option<String>, force: bool },
    /// Send signal to process
    Signal { pid: u32, signal: String },
}

/// Whether a process tool can terminate or disturb another process.
pub open spec fn process_tool_is_dangerous(tool: ProcessTool) -> bool {
    tool is Kill || tool is Signal
}

pub fn is_dangerous_process_tool(tool: &ProcessTool) -> (dangerous: bool)
    ensures
        dangerous == process_tool_is_dangerous(*tool),
{
    matches!(tool, ProcessTool::Kill { .. } | ProcessTool::Signal { .. })
}

/// The signal name a kill uses when none was given.
pub open spec fn kill_signal_name(signal: Option<String>) -> Seq<char> {
    match signal {
        Some(name) => name@,
        None => "TERM"@,
    }
}

/// The one-line description of a process tool.
pub open spec fn process_tool_description(tool: ProcessTool) -> Seq<char> {
    match tool {
        ProcessTool::List { filter, show_all } => match filter {
            Some(pattern) => "List processes matching '"@ + pattern@ + "'"@,
            None => if show_all {
                "List all processes"@
            } else {
                "List user processes"@
            },
        },
        ProcessTool::Info { pid } => "Get information for process "@ + dec_rep(pid as nat),
        ProcessTool::Kill { pid, signal, force } => if force {
            "Force kill process "@ + dec_rep(pid as nat) + " with "@ + kill_signal_name(signal)
        } else {
            "Kill process "@ + dec_rep(pid as nat) + " with "@ + kill_signal_name(signal)
        },
        ProcessTool::Signal { pid, signal } => "Send "@ + signal@ + " signal to process "@
            + dec_rep(pid as nat),
    }
}

pub fn describe_process_tool(tool: &ProcessTool) -> (description: String)
    ensures
        description@ == process_tool_description(*tool),
{
    match tool {
        ProcessTool::List { filter, show_all } => {
            let mut s: String;
            match filter {
                Some(pattern) => {
                    s = "List processes matching '".to_owned();
                    s.append(pattern.as_str());
                    s.append("'");
                },
                None => {
                    if *show_all {
                        s = "List all processes".to_owned();
                    } else {
                        s = "List user processes".to_owned();
                    }
                },
            }
            proof {
                assert(s@ =~= process_tool_description(*tool));
            }
            s
        },
        ProcessTool::Info { pid } => {
            let mut s = "Get information for process ".to_owned();
            s.append(u64_to_string(*pid as u64).as_str());
            proof {
                assert(s@ =~= process_tool_description(*tool));
            }
            s
        },
        ProcessTool::Kill { pid, signal, force } => {
            let mut s: String;
            if *force {
                s = "Force kill process ".to_owned();
            } else {
                s = "Kill process ".to_owned();
            }
            s.append(u64_to_string(*pid as u64).as_str());
            s.append(" with ");
            match signal {
                Some(name) => s.append(name.as_str()),
                None => s.append("TERM"),
            }
            proof {
                assert(s@ =~= process_tool_description(*tool));
            }
            s
        },
        ProcessTool::Signal { pid, signal } => {
            let mut s = "Send ".to_owned();
            s.append(signal.as_str());
            s.append(" signal to process ");
            s.append(u64_to_string(*pid as u64).as_str());
            proof {
                assert(s@ =~= process_tool_description(*tool));
            }
            s
        },
    }
}

} // verus!
