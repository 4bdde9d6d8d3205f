//! The umbrella over all tool categories, and the execution context that
//! carries the security policy.  Running a tool does I/O and lives
//! outside this library; classifying and describing one is decided here.

use vstd::prelude::*;

use crate::filesystem_tools::FileSystemTool;
use crate::filesystem_tools::describe_filesystem_tool;
use crate::filesystem_tools::filesystem_tool_description;
use crate::filesystem_tools::filesystem_tool_is_dangerous;
use crate::filesystem_tools::is_dangerous_filesystem_tool;
use crate::network_tools::NetworkTool;
use crate::network_tools::describe_network_tool;
use crate::network_tools::is_dangerous_network_tool;
use crate::network_tools::network_tool_description;
use crate::network_tools::network_tool_is_dangerous;
use crate::process_tools::ProcessTool;
use crate::process_tools::describe_process_tool;
use crate::process_tools::is_dangerous_process_tool;
use crate::process_tools::process_tool_description;
use crate::process_tools::process_tool_is_dangerous;
use crate::security::ToolSecurity;
use crate::security::is_default_security;

verus! {

/// Main system tool enum that encompasses all tool categories
#[derive(Debug, Clone)]
pub enum SystemTool {
    FileSystem(FileSystemTool),
    Network(NetworkTool),
    Process(ProcessTool),
}

/// Whether a tool can modify or destroy state, whatever its category.
pub open spec fn system_tool_is_dangerous(tool: SystemTool) -> bool {
    match tool {
        SystemTool::FileSystem(fs_tool) => filesystem_tool_is_dangerous(fs_tool),
        SystemTool::Network(net_tool) => network_tool_is_dangerous(net_tool),
        SystemTool::Process(proc_tool) => process_tool_is_dangerous(proc_tool),
    }
}

/// The one-line description of a tool, whatever its category.
pub open spec fn system_tool_description(tool: SystemTool) -> Seq<char> {
    match tool {
        SystemTool::FileSystem(fs_tool) => filesystem_tool_description(fs_tool),
        SystemTool::Network(net_tool) => network_tool_description(net_tool),
        SystemTool::Process(proc_tool) => process_tool_description(proc_tool),
    }
}

/// Default timeout for one tool execution, in milliseconds.
pub const DEFAULT_TOOL_TIMEOUT_MS: u64 = 30000;

/// Tool execution context and settings
#[derive(Debug, Clone)]
pub struct ToolExecutor {
    pub security: ToolSecurity,
    /// Timeout for one execution, in milliseconds
    pub timeout: u64,
    pub working_directory: String,
}

impl ToolExecutor {
    /// A context with the default policy and timeout, rooted at an
    /// already resolved working directory.
    pub fn new(working_directory: String) -> (executor: ToolExecutor)
        ensures
            is_default_security(executor.security),
            executor.timeout == DEFAULT_TOOL_TIMEOUT_MS,
            executor.working_directory == working_directory,
    {
        ToolExecutor {
            security: ToolSecurity::default(),
            timeout: DEFAULT_TOOL_TIMEOUT_MS,
            working_directory,
        }
    }

    pub fn is_dangerous(&self, tool: &SystemTool) -> (dangerous: bool)
        ensures
            dangerous == system_tool_is_dangerous(*tool),
    {
        match tool {
            SystemTool::FileSystem(fs_tool) => is_dangerous_filesystem_tool(fs_tool),
            SystemTool::Network(net_tool) => is_dangerous_network_tool(net_tool),
            SystemTool::Process(proc_tool) => is_dangerous_process_tool(proc_tool),
        }
    }

    pub fn get_description(&self, tool: &SystemTool) -> (description: String)
        ensures
            description@ == system_tool_description(*tool),
    {
        match tool {
            SystemTool::FileSystem(fs_tool) => describe_filesystem_tool(fs_tool),
            SystemTool::Network(net_tool) => describe_network_tool(net_tool),
            SystemTool::Process(proc_tool) => describe_process_tool(proc_tool),
        }
    }
}

/// Represents the result of a tool execution
#[derive(Debug, Clone)]
pub struct ToolResponse {
    pub success: bool,
    pub output: String,
    pub error: Option<String>,
    pub execution_time_ms: u64,
}

/// System tools integration manager
#[derive(Debug, Clone)]
pub struct SystemToolsManager {
    pub executor: ToolExecutor,
}

impl SystemToolsManager {
    /// Create a new system tools manager rooted at an already resolved
    /// working directory.
    pub fn new(working_directory: String) -> (manager: SystemToolsManager)
        ensures
            is_default_security(manager.executor.security),
            manager.executor.timeout == DEFAULT_TOOL_TIMEOUT_MS,
            manager.executor.working_directory == working_directory,
    {
        SystemToolsManager { executor: ToolExecutor::new(working_directory) }
    }
}

} // verus!
