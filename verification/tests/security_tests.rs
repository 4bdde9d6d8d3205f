use ai_terminal::filesystem_tools::FileSystemTool;
use ai_terminal::process_tools::ProcessTool;
use ai_terminal::security::SecurityLevel;
use ai_terminal::security::ToolSecurity;
use ai_terminal::tools::SystemTool;

fn fs_list() -> SystemTool {
    SystemTool::FileSystem(FileSystemTool::List {
        path: "/tmp".to_string(),
        recursive: false,
        show_hidden: false,
    })
}

fn fs_copy() -> SystemTool {
    SystemTool::FileSystem(FileSystemTool::Copy {
        source: "/tmp/a".to_string(),
        destination: "/tmp/b".to_string(),
    })
}

fn fs_write() -> SystemTool {
    SystemTool::FileSystem(FileSystemTool::Write {
        path: "/tmp/a".to_string(),
        content: "x".to_string(),
        append: false,
    })
}

fn proc_kill() -> SystemTool {
    SystemTool::Process(ProcessTool::Kill { pid: 42, signal: None, force: false })
}

#[test]
fn test_default_policy() {
    let security = ToolSecurity::new();
    assert_eq!(security.max_auto_level, SecurityLevel::Moderate);
    assert!(security.allowed_tools.is_empty());
    assert!(security.blocked_tools.is_empty());
    assert!(security.require_confirmation);
    assert_eq!(
        security.restricted_paths,
        vec![
            "/etc/passwd".to_string(),
            "/etc/shadow".to_string(),
            "/boot".to_string(),
            "/sys".to_string(),
            "/proc".to_string(),
        ]
    );
}

#[test]
fn test_permissive_policy() {
    let security = ToolSecurity::permissive();
    assert_eq!(security.max_auto_level, SecurityLevel::Dangerous);
    assert!(!security.require_confirmation);
    assert!(security.restricted_paths.is_empty());
}

#[test]
fn test_restrictive_policy() {
    let security = ToolSecurity::restrictive();
    assert_eq!(security.max_auto_level, SecurityLevel::Safe);
    assert!(security.require_confirmation);
    assert_eq!(security.restricted_paths.len(), 5);
}

#[test]
fn test_check_permissions_safe_always_allowed() {
    let security = ToolSecurity::restrictive();
    assert!(security.check_permissions(&fs_list()).is_ok());
}

#[test]
fn test_check_permissions_moderate_denied_when_restrictive() {
    let security = ToolSecurity::restrictive();
    let denied = security.check_permissions(&fs_copy());
    assert_eq!(denied, Err("Tool 'fs_copy' requires Moderate security level".to_string()));
}

#[test]
fn test_check_permissions_moderate_allowed_by_default() {
    let security = ToolSecurity::new();
    assert!(security.check_permissions(&fs_copy()).is_ok());
}

#[test]
fn test_check_permissions_dangerous_denied_by_default() {
    let security = ToolSecurity::new();
    let denied = security.check_permissions(&fs_write());
    assert_eq!(
        denied,
        Err("Tool 'fs_write' requires Dangerous security level and confirmation".to_string())
    );
}

#[test]
fn test_check_permissions_dangerous_allowed_when_permissive() {
    let security = ToolSecurity::permissive();
    assert!(security.check_permissions(&fs_write()).is_ok());
    assert!(security.check_permissions(&proc_kill()).is_ok());
}

#[test]
fn test_check_permissions_blocked_tool() {
    let mut security = ToolSecurity::permissive();
    security.blocked_tools.push("proc_kill".to_string());
    let denied = security.check_permissions(&proc_kill());
    assert_eq!(denied, Err("Tool 'proc_kill' is blocked by security policy".to_string()));
}

#[test]
fn test_check_permissions_allowed_overrides_level() {
    let mut security = ToolSecurity::restrictive();
    security.allowed_tools.push("fs_write".to_string());
    assert!(security.check_permissions(&fs_write()).is_ok());
}

#[test]
fn test_check_path_access_restricted_prefix() {
    let security = ToolSecurity::new();
    let denied = security.check_path_access("/etc/passwd");
    assert_eq!(denied, Err("Access to path '/etc/passwd' is restricted".to_string()));
    let denied_below = security.check_path_access("/proc/1/status");
    assert_eq!(denied_below, Err("Access to path '/proc/1/status' is restricted".to_string()));
}

#[test]
fn test_check_path_access_allowed() {
    let security = ToolSecurity::new();
    assert!(security.check_path_access("/home/user/notes.txt").is_ok());
    assert!(security.check_path_access("/etc/hostname").is_ok());
}

#[test]
fn test_tool_names() {
    let security = ToolSecurity::new();
    assert_eq!(security.get_tool_name(&fs_list()), "fs_list");
    assert_eq!(security.get_tool_name(&fs_write()), "fs_write");
    assert_eq!(security.get_tool_name(&proc_kill()), "proc_kill");
}

#[test]
fn test_security_levels() {
    let security = ToolSecurity::new();
    assert_eq!(security.get_security_level(&fs_list()), SecurityLevel::Safe);
    assert_eq!(security.get_security_level(&fs_copy()), SecurityLevel::Moderate);
    assert_eq!(security.get_security_level(&fs_write()), SecurityLevel::Dangerous);
    assert_eq!(security.get_security_level(&proc_kill()), SecurityLevel::Dangerous);
}
