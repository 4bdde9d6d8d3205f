//! File system operations: the tool descriptions and their danger
//! classification.  Executing them touches the disk and lives outside
//! this library.

use vstd::prelude::*;
use vstd::string::*;

use crate::text_util::dec_rep;
use crate::text_util::u64_to_string;

verus! {

/// File system operations
#[derive(Debug, Clone)]
pub enum FileSystemTool {
    /// List directory contents (ls)
    List { path: String, recursive: bool, show_hidden: bool },
    /// Read file contents (cat)
    Read { path: String, lines: Option<(usize, usize)>, max_size: Option<usize> },
    /// Search in files (grep)
    Search { path: String, pattern: String, recursive: bool, case_sensitive: bool },
    /// Find files by name pattern (find)
    Find { path: String, name_pattern: String, file_type: Option<String> },
    /// Display file information (stat)
    Info { path: String },
    /// Copy file or directory
    Copy { source: String, destination: String },
    /// Move file or directory
    Move { source: String, destination: String },
    /// Write content to file
    Write { path: String, content: String, append: bool },
    /// Delete file or directory
    Delete { path: String, recursive: bool },
}

/// Whether a file system tool can modify or destroy user data.
pub open spec fn filesystem_tool_is_dangerous(tool: FileSystemTool) -> bool {
    tool is Write || tool is Delete || tool is Move
}

pub fn is_dangerous_filesystem_tool(tool: &FileSystemTool) -> (dangerous: bool)
    ensures
        dangerous == filesystem_tool_is_dangerous(*tool),
{
    matches!(
        tool,
        FileSystemTool::Write { .. } | FileSystemTool::Delete { .. } | FileSystemTool::Move { .. }
    )
}

/// The one-line description of a file system tool.
pub open spec fn filesystem_tool_description(tool: FileSystemTool) -> Seq<char> {
    match tool {
        FileSystemTool::List { path, recursive, .. } => if recursive {
            "List contents of "@ + path@ + " recursively"@
        } else {
            "List contents of "@ + path@
        },
        FileSystemTool::Read { path, lines, .. } => match lines {
            Some((start, end)) => "Read lines "@ + dec_rep(start as nat) + "-"@ + dec_rep(
                end as nat,
            ) + " from "@ + path@,
            None => "Read contents of "@ + path@,
        },
        FileSystemTool::Search { path, pattern, recursive, .. } => if recursive {
            "Search for '"@ + pattern@ + "' in "@ + path@ + " and subdirectories"@
        } else {
            "Search for '"@ + pattern@ + "' in "@ + path@
        },
        FileSystemTool::Find { path, name_pattern, .. } => "Find files matching '"@
            + name_pattern@ + "' in "@ + path@,
        FileSystemTool::Info { path } => "Get information about "@ + path@,
        FileSystemTool::Copy { source, destination } => "Copy "@ + source@ + " to "@
            + destination@,
        FileSystemTool::Move { source, destination } => "Move "@ + source@ + " to "@
            + destination@,
        FileSystemTool::Write { path, append, .. } => if append {
            "Append content to "@ + path@
        } else {
            "Write content to "@ + path@
        },
        FileSystemTool::Delete { path, recursive } => if recursive {
            "Delete "@ + path@ + " recursively"@
        } else {
            "Delete "@ + path@
        },
    }
}

pub fn describe_filesystem_tool(tool: &FileSystemTool) -> (description: String)
    ensures
        description@ == filesystem_tool_description(*tool),
{
    match tool {
        FileSystemTool::List { path, recursive, .. } => {
            let mut s = "List contents of ".to_owned();
            s.append(path.as_str());
            if *recursive {
                s.append(" recursively");
            }
            proof {
                assert(s@ =~= filesystem_tool_description(*tool));
            }
            s
        },
        FileSystemTool::Read { path, lines, .. } => {
            let mut s: String;
            match lines {
                Some((start, end)) => {
                    s = "Read lines ".to_owned();
                    s.append(u64_to_string(*start as u64).as_str());
                    s.append("-");
                    s.append(u64_to_string(*end as u64).as_str());
                    s.append(" from ");
                    s.append(path.as_str());
                },
                None => {
                    s = "Read contents of ".to_owned();
                    s.append(path.as_str());
                },
            }
            proof {
                assert(s@ =~= filesystem_tool_description(*tool));
            }
            s
        },
        FileSystemTool::Search { path, pattern, recursive, .. } => {
            let mut s = "Search for '".to_owned();
            s.append(pattern.as_str());
            s.append("' in ");
            s.append(path.as_str());
            if *recursive {
                s.append(" and subdirectories");
            }
            proof {
                assert(s@ =~= filesystem_tool_description(*tool));
            }
            s
        },
        FileSystemTool::Find { path, name_pattern, .. } => {
            let mut s = "Find files matching '".to_owned();
            s.append(name_pattern.as_str());
            s.append("' in ");
            s.append(path.as_str());
            proof {
                assert(s@ =~= filesystem_tool_description(*tool));
            }
            s
        },
        FileSystemTool::Info { path } => {
            let mut s = "Get information about ".to_owned();
            s.append(path.as_str());
            proof {
                assert(s@ =~= filesystem_tool_description(*tool));
            }
            s
        },
        FileSystemTool::Copy { source, destination } => {
            let mut s = "Copy ".to_owned();
            s.append(source.as_str());
            s.append(" to ");
            s.append(destination.as_str());
            proof {
                assert(s@ =~= filesystem_tool_description(*tool));
            }
            s
        },
        FileSystemTool::Move { source, destination } => {
            let mut s = "Move ".to_owned();
            s.append(source.as_str());
            s.append(" to ");
            s.append(destination.as_str());
            proof {
                assert(s@ =~= filesystem_tool_description(*tool));
            }
            s
        },
        FileSystemTool::Write { path, append, .. } => {
            let mut s: String;
            if *append {
                s = "Append content to ".to_owned();
            } else {
                s = "Write content to ".to_owned();
            }
            s.append(path.as_str());
            proof {
                assert(s@ =~= filesystem_tool_description(*tool));
            }
            s
        },
        FileSystemTool::Delete { path, recursive } => {
            let mut s = "Delete ".to_owned();
            s.append(path.as_str());
            if *recursive {
                s.append(" recursively");
            }
            proof {
                assert(s@ =~= filesystem_tool_description(*tool));
            }
            s
        },
    }
}

} // verus!
