//! Security policy for tool execution: which tools may run without
//! confirmation, which are blocked outright, and which paths are
//! off-limits.

use vstd::prelude::*;
use vstd::string::*;

use crate::filesystem_tools::FileSystemTool;
use crate::network_tools::NetworkTool;
use crate::process_tools::ProcessTool;
use crate::text_util::contains_str;
use crate::text_util::str_starts_with;
use crate::tools::SystemTool;

verus! {

/// Security levels for tool execution
#[derive(Debug, Clone, Copy, PartialEq, Eq, Structural, PartialOrd)]
pub enum SecurityLevel {
    /// Safe operations that only read data
    Safe,
    /// Operations that might modify user data
    Moderate,
    /// Operations that can modify system state or be destructive
    Dangerous,
}

/// The order of the security levels: safe, then moderate, then dangerous.
pub open spec fn level_rank(level: SecurityLevel) -> int {
    match level {
        SecurityLevel::Safe => 0,
        SecurityLevel::Moderate => 1,
        SecurityLevel::Dangerous => 2,
    }
}

fn rank(level: SecurityLevel) -> (r: u8)
    ensures
        r == level_rank(level),
{
    match level {
        SecurityLevel::Safe => 0,
        SecurityLevel::Moderate => 1,
        SecurityLevel::Dangerous => 2,
    }
}

/// The short policy name of a tool: its category and its operation.
pub open spec fn tool_name_spec(tool: SystemTool) -> Seq<char> {
    match tool {
        SystemTool::FileSystem(fs_tool) => match fs_tool {
            FileSystemTool::List { .. } => "fs_list"@,
            FileSystemTool::Read { .. } => "fs_read"@,
            FileSystemTool::Search { .. } => "fs_search"@,
            FileSystemTool::Find { .. } => "fs_find"@,
            FileSystemTool::Info { .. } => "fs_info"@,
            FileSystemTool::Copy { .. } => "fs_copy"@,
            FileSystemTool::Move { .. } => "fs_move"@,
            FileSystemTool::Write { .. } => "fs_write"@,
            FileSystemTool::Delete { .. } => "fs_delete"@,
        },
        SystemTool::Network(net_tool) => match net_tool {
            NetworkTool::Ping { .. } => "net_ping"@,
            NetworkTool::Resolve { .. } => "net_resolve"@,
            NetworkTool::Curl { .. } => "net_curl"@,
            NetworkTool::Netcat { .. } => "net_netcat"@,
            NetworkTool::PortScan { .. } => "net_portscan"@,
        },
        SystemTool::Process(proc_tool) => match proc_tool {
            ProcessTool::List { .. } => "proc_list"@,
            ProcessTool::Info { .. } => "proc_info"@,
            ProcessTool::Kill { .. } => "proc_kill"@,
            ProcessTool::Signal { .. } => "proc_signal"@,
        },
    }
}

/// The security level each tool needs.
pub open spec fn tool_security_level(tool: SystemTool) -> SecurityLevel {
    match tool {
        SystemTool::FileSystem(fs_tool) => match fs_tool {
            FileSystemTool::List { .. } => SecurityLevel::Safe,
            FileSystemTool::Read { .. } => SecurityLevel::Safe,
            FileSystemTool::Info { .. } => SecurityLevel::Safe,
            FileSystemTool::Search { .. } => SecurityLevel::Safe,
            FileSystemTool::Find { .. } => SecurityLevel::Safe,
            FileSystemTool::Write { .. } => SecurityLevel::Dangerous,
            FileSystemTool::Delete { .. } => SecurityLevel::Dangerous,
            FileSystemTool::Copy { .. } => SecurityLevel::Moderate,
            FileSystemTool::Move { .. } => SecurityLevel::Moderate,
        },
        SystemTool::Network(net_tool) => match net_tool {
            NetworkTool::Ping { .. } => SecurityLevel::Safe,
            NetworkTool::Resolve { .. } => SecurityLevel::Safe,
            NetworkTool::Curl { .. } => SecurityLevel::Moderate,
            NetworkTool::PortScan { .. } => SecurityLevel::Moderate,
            NetworkTool::Netcat { .. } => SecurityLevel::Dangerous,
        },
        SystemTool::Process(proc_tool) => match proc_tool {
            ProcessTool::List { .. } => SecurityLevel::Safe,
            ProcessTool::Info { .. } => SecurityLevel::Safe,
            ProcessTool::Kill { .. } => SecurityLevel::Dangerous,
            ProcessTool::Signal { .. } => SecurityLevel::Dangerous,
        },
    }
}

/// Security configuration for tool execution
#[derive(Debug, Clone)]
pub struct ToolSecurity {
    /// Maximum security level allowed without confirmation
    pub max_auto_level: SecurityLevel,
    /// Explicitly allowed tools
    pub allowed_tools: Vec<String>,
    /// Explicitly blocked tools
    pub blocked_tools: Vec<String>,
    /// Whether to require confirmation for dangerous operations
    pub require_confirmation: bool,
    /// Paths that are off-limits for file operations
    pub restricted_paths: Vec<String>,
}

/// The default policy: moderate operations may run unconfirmed, nothing
/// is singled out, and the core system paths are off-limits.
pub open spec fn is_default_security(security: ToolSecurity) -> bool {
    &&& security.max_auto_level is Moderate
    &&& security.allowed_tools@.len() == 0
    &&& security.blocked_tools@.len() == 0
    &&& security.require_confirmation == true
    &&& security.restricted_paths@.len() == 5
    &&& security.restricted_paths@[0]@ == "/etc/passwd"@
    &&& security.restricted_paths@[1]@ == "/etc/shadow"@
    &&& security.restricted_paths@[2]@ == "/boot"@
    &&& security.restricted_paths@[3]@ == "/sys"@
    &&& security.restricted_paths@[4]@ == "/proc"@
}

impl Default for ToolSecurity {
    fn default() -> (security: ToolSecurity)
        ensures
            is_default_security(security),
    {
        let mut restricted_paths: Vec<String> = Vec::new();
        restricted_paths.push("/etc/passwd".to_owned());
        restricted_paths.push("/etc/shadow".to_owned());
        restricted_paths.push("/boot".to_owned());
        restricted_paths.push("/sys".to_owned());
        restricted_paths.push("/proc".to_owned());
        ToolSecurity {
            max_auto_level: SecurityLevel::Moderate,
            allowed_tools: Vec::new(),
            blocked_tools: Vec::new(),
            require_confirmation: true,
            restricted_paths,
        }
    }
}

impl ToolSecurity {
    /// Whether the policy blocks this tool by name.
    pub open spec fn blocks(self, tool: SystemTool) -> bool {
        exists|i: int|
            0 <= i < self.blocked_tools@.len() && self.blocked_tools@[i]@ == tool_name_spec(tool)
    }

    /// Whether the policy allows this tool by name.
    pub open spec fn allows(self, tool: SystemTool) -> bool {
        exists|i: int|
            0 <= i < self.allowed_tools@.len() && self.allowed_tools@[i]@ == tool_name_spec(tool)
    }

    /// Whether this tool may run under the policy: it is not blocked, and
    /// it is either allowed by name or within the automatic level.
    pub open spec fn permits(self, tool: SystemTool) -> bool {
        !self.blocks(tool) && (self.allows(tool) || level_rank(tool_security_level(tool))
            <= level_rank(self.max_auto_level))
    }

    pub fn new() -> (security: ToolSecurity)
        ensures
            is_default_security(security),
    {
        ToolSecurity::default()
    }

    /// A policy that lets everything run unconfirmed.
    pub fn permissive() -> (security: ToolSecurity)
        ensures
            security.max_auto_level is Dangerous,
            security.allowed_tools@.len() == 0,
            security.blocked_tools@.len() == 0,
            security.require_confirmation == false,
            security.restricted_paths@.len() == 0,
    {
        ToolSecurity {
            max_auto_level: SecurityLevel::Dangerous,
            allowed_tools: Vec::new(),
            blocked_tools: Vec::new(),
            require_confirmation: false,
            restricted_paths: Vec::new(),
        }
    }

    /// A policy that only lets read-only operations run unconfirmed.
    pub fn restrictive() -> (security: ToolSecurity)
        ensures
            security.max_auto_level is Safe,
            security.allowed_tools@.len() == 0,
            security.blocked_tools@.len() == 0,
            security.require_confirmation == true,
            security.restricted_paths@.len() == 5,
            security.restricted_paths@[0]@ == "/etc/passwd"@,
            security.restricted_paths@[1]@ == "/etc/shadow"@,
            security.restricted_paths@[2]@ == "/boot"@,
            security.restricted_paths@[3]@ == "/sys"@,
            security.restricted_paths@[4]@ == "/proc"@,
    {
        let base = ToolSecurity::default();
        ToolSecurity {
            max_auto_level: SecurityLevel::Safe,
            allowed_tools: Vec::new(),
            blocked_tools: Vec::new(),
            require_confirmation: true,
            restricted_paths: base.restricted_paths,
        }
    }

    /// The short policy name of a tool.
    pub fn get_tool_name(&self, tool: &SystemTool) -> (name: String)
        ensures
            name@ == tool_name_spec(*tool),
    {
        let name: &'static str = match tool {
            SystemTool::FileSystem(fs_tool) => match fs_tool {
                FileSystemTool::List { .. } => "fs_list",
                FileSystemTool::Read { .. } => "fs_read",
                FileSystemTool::Search { .. } => "fs_search",
                FileSystemTool::Find { .. } => "fs_find",
                FileSystemTool::Info { .. } => "fs_info",
                FileSystemTool::Copy { .. } => "fs_copy",
                FileSystemTool::Move { .. } => "fs_move",
                FileSystemTool::Write { .. } => "fs_write",
                FileSystemTool::Delete { .. } => "fs_delete",
            },
            SystemTool::Network(net_tool) => match net_tool {
                NetworkTool::Ping { .. } => "net_ping",
                NetworkTool::Resolve { .. } => "net_resolve",
                NetworkTool::Curl { .. } => "net_curl",
                NetworkTool::Netcat { .. } => "net_netcat",
                NetworkTool::PortScan { .. } => "net_portscan",
            },
            SystemTool::Process(proc_tool) => match proc_tool {
                ProcessTool::List { .. } => "proc_list",
                ProcessTool::Info { .. } => "proc_info",
                ProcessTool::Kill { .. } => "proc_kill",
                ProcessTool::Signal { .. } => "proc_signal",
            },
        };
        name.to_owned()
    }

    /// The security level a tool needs.
    pub fn get_security_level(&self, tool: &SystemTool) -> (level: SecurityLevel)
        ensures
            level == tool_security_level(*tool),
    {
        match tool {
            SystemTool::FileSystem(fs_tool) => match fs_tool {
                FileSystemTool::List { .. } => SecurityLevel::Safe,
                FileSystemTool::Read { .. } => SecurityLevel::Safe,
                FileSystemTool::Info { .. } => SecurityLevel::Safe,
                FileSystemTool::Search { .. } => SecurityLevel::Safe,
                FileSystemTool::Find { .. } => SecurityLevel::Safe,
                FileSystemTool::Write { .. } => SecurityLevel::Dangerous,
                FileSystemTool::Delete { .. } => SecurityLevel::Dangerous,
                FileSystemTool::Copy { .. } => SecurityLevel::Moderate,
                FileSystemTool::Move { .. } => SecurityLevel::Moderate,
            },
            SystemTool::Network(net_tool) => match net_tool {
                NetworkTool::Ping { .. } => SecurityLevel::Safe,
                NetworkTool::Resolve { .. } => SecurityLevel::Safe,
                NetworkTool::Curl { .. } => SecurityLevel::Moderate,
                NetworkTool::PortScan { .. } => SecurityLevel::Moderate,
                NetworkTool::Netcat { .. } => SecurityLevel::Dangerous,
            },
            SystemTool::Process(proc_tool) => match proc_tool {
                ProcessTool::List { .. } => SecurityLevel::Safe,
                ProcessTool::Info { .. } => SecurityLevel::Safe,
                ProcessTool::Kill { .. } => SecurityLevel::Dangerous,
                ProcessTool::Signal { .. } => SecurityLevel::Dangerous,
            },
        }
    }

    /// Decide whether a tool may run: blocked tools are refused, allowed
    /// tools run, and otherwise the tool's level must be within the
    /// policy's automatic level.  The error names the tool and the rule
    /// it fell to.
    pub fn check_permissions(&self, tool: &SystemTool) -> (decision: Result<(), String>)
        ensures
            decision is Ok <==> self.permits(*tool),
            self.blocks(*tool) ==> (decision matches Err(message) && message@ == "Tool '"@
                + tool_name_spec(*tool) + "' is blocked by security policy"@),
            (!self.blocks(*tool) && !self.allows(*tool) && tool_security_level(*tool) is Moderate
                && level_rank(self.max_auto_level) < 1) ==> (decision matches Err(message)
                && message@ == "Tool '"@ + tool_name_spec(*tool)
                + "' requires Moderate security level"@),
            (!self.blocks(*tool) && !self.allows(*tool) && tool_security_level(*tool) is Dangerous
                && level_rank(self.max_auto_level) < 2) ==> (decision matches Err(message)
                && message@ == "Tool '"@ + tool_name_spec(*tool)
                + "' requires Dangerous security level and confirmation"@),
    {
        let tool_name = self.get_tool_name(tool);
        let security_level = self.get_security_level(tool);

        if contains_str(&self.blocked_tools, tool_name.as_str()) {
            let mut message = "Tool '".to_owned();
            message.append(tool_name.as_str());
            message.append("' is blocked by security policy");
            proof {
                assert(message@ =~= "Tool '"@ + tool_name_spec(*tool)
                    + "' is blocked by security policy"@);
            }
            return Err(message);
        }
        if contains_str(&self.allowed_tools, tool_name.as_str()) {
            return Ok(());
        }
        match security_level {
            SecurityLevel::Safe => Ok(()),
            SecurityLevel::Moderate => {
                if rank(self.max_auto_level) >= 1 {
                    Ok(())
                } else {
                    let mut message = "Tool '".to_owned();
                    message.append(tool_name.as_str());
                    message.append("' requires Moderate security level");
                    proof {
                        assert(message@ =~= "Tool '"@ + tool_name_spec(*tool)
                            + "' requires Moderate security level"@);
                    }
                    Err(message)
                }
            },
            SecurityLevel::Dangerous => {
                if rank(self.max_auto_level) >= 2 {
                    Ok(())
                } else {
                    let mut message = "Tool '".to_owned();
                    message.append(tool_name.as_str());
                    message.append("' requires Dangerous security level and confirmation");
                    proof {
                        assert(message@ =~= "Tool '"@ + tool_name_spec(*tool)
                            + "' requires Dangerous security level and confirmation"@);
                    }
                    Err(message)
                }
            },
        }
    }

    /// Decide whether a path may be touched: no restricted path may be a
    /// prefix of it.
    pub fn check_path_access(&self, path: &str) -> (decision: Result<(), String>)
        ensures
            decision is Ok <==> (forall|i: int|
                0 <= i < self.restricted_paths@.len() ==> !(#[trigger] self.restricted_paths@[i]@).is_prefix_of(
                    path@,
                )),
            decision matches Err(message) ==> message@ == "Access to path '"@ + path@
                + "' is restricted"@,
    {
        let mut i: usize = 0;
        while i < self.restricted_paths.len()
            invariant
                0 <= i <= self.restricted_paths@.len(),
                forall|j: int|
                    0 <= j < i ==> !(#[trigger] self.restricted_paths@[j]@).is_prefix_of(path@),
            decreases self.restricted_paths@.len() - i,
        {
            if str_starts_with(path, self.restricted_paths[i].as_str()) {
                let mut message = "Access to path '".to_owned();
                message.append(path);
                message.append("' is restricted");
                proof {
                    assert(message@ =~= "Access to path '"@ + path@ + "' is restricted"@);
                }
                return Err(message);
            }
            i += 1;
        }
        Ok(())
    }
}

} // verus!
