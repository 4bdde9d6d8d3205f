use ai_terminal::command_block::CommandBlock;
use ai_terminal::filesystem_tools::FileSystemTool;
use ai_terminal::filesystem_tools::describe_filesystem_tool;
use ai_terminal::filesystem_tools::is_dangerous_filesystem_tool;
use ai_terminal::history_stats::history_stats;
use ai_terminal::network_tools::NetcatMode;
use ai_terminal::network_tools::NetworkTool;
use ai_terminal::network_tools::describe_network_tool;
use ai_terminal::network_tools::is_dangerous_network_tool;
use ai_terminal::process_tools::ProcessTool;
use ai_terminal::process_tools::describe_process_tool;
use ai_terminal::process_tools::is_dangerous_process_tool;
use ai_terminal::tools::SystemTool;
use ai_terminal::tools::SystemToolsManager;
use ai_terminal::tools::ToolExecutor;

#[test]
fn test_describe_filesystem_tools() {
    assert_eq!(
        describe_filesystem_tool(&FileSystemTool::List {
            path: "/var".to_string(),
            recursive: true,
            show_hidden: false,
        }),
        "List contents of /var recursively"
    );
    assert_eq!(
        describe_filesystem_tool(&FileSystemTool::Read {
            path: "/tmp/log".to_string(),
            lines: Some((10, 20)),
            max_size: None,
        }),
        "Read lines 10-20 from /tmp/log"
    );
    assert_eq!(
        describe_filesystem_tool(&FileSystemTool::Read {
            path: "/tmp/log".to_string(),
            lines: None,
            max_size: None,
        }),
        "Read contents of /tmp/log"
    );
    assert_eq!(
        describe_filesystem_tool(&FileSystemTool::Search {
            path: "/src".to_string(),
            pattern: "todo".to_string(),
            recursive: true,
            case_sensitive: false,
        }),
        "Search for 'todo' in /src and subdirectories"
    );
    assert_eq!(
        describe_filesystem_tool(&FileSystemTool::Copy {
            source: "/a".to_string(),
            destination: "/b".to_string(),
        }),
        "Copy /a to /b"
    );
    assert_eq!(
        describe_filesystem_tool(&FileSystemTool::Write {
            path: "/tmp/out".to_string(),
            content: "x".to_string(),
            append: true,
        }),
        "Append content to /tmp/out"
    );
    assert_eq!(
        describe_filesystem_tool(&FileSystemTool::Delete {
            path: "/tmp/out".to_string(),
            recursive: false,
        }),
        "Delete /tmp/out"
    );
}

#[test]
fn test_describe_process_tools() {
    assert_eq!(
        describe_process_tool(&ProcessTool::Info { pid: 1234 }),
        "Get information for process 1234"
    );
    assert_eq!(
        describe_process_tool(&ProcessTool::Kill { pid: 99, signal: None, force: true }),
        "Force kill process 99 with TERM"
    );
    assert_eq!(
        describe_process_tool(&ProcessTool::Kill {
            pid: 99,
            signal: Some("KILL".to_string()),
            force: false,
        }),
        "Kill process 99 with KILL"
    );
    assert_eq!(
        describe_process_tool(&ProcessTool::Signal { pid: 7, signal: "HUP".to_string() }),
        "Send HUP signal to process 7"
    );
    assert_eq!(
        describe_process_tool(&ProcessTool::List { filter: Some("cargo".to_string()), show_all: false }),
        "List processes matching 'cargo'"
    );
    assert_eq!(
        describe_process_tool(&ProcessTool::List { filter: None, show_all: true }),
        "List all processes"
    );
    assert_eq!(
        describe_process_tool(&ProcessTool::List { filter: None, show_all: false }),
        "List user processes"
    );
}

#[test]
fn test_describe_network_tools() {
    assert_eq!(
        describe_network_tool(&NetworkTool::Ping {
            host: "example.com".to_string(),
            count: Some(8),
            timeout: None,
        }),
        "Ping example.com (8 times)"
    );
    assert_eq!(
        describe_network_tool(&NetworkTool::Ping {
            host: "example.com".to_string(),
            count: None,
            timeout: None,
        }),
        "Ping example.com (4 times)"
    );
    assert_eq!(
        describe_network_tool(&NetworkTool::Resolve { hostname: "example.com".to_string() }),
        "Resolve hostname example.com"
    );
    assert_eq!(
        describe_network_tool(&NetworkTool::Curl {
            url: "http://example.com".to_string(),
            method: None,
            headers: None,
            body: None,
            timeout: None,
        }),
        "GET request to http://example.com"
    );
    assert_eq!(
        describe_network_tool(&NetworkTool::Curl {
            url: "http://example.com".to_string(),
            method: Some("POST".to_string()),
            headers: None,
            body: None,
            timeout: None,
        }),
        "POST request to http://example.com"
    );
    assert_eq!(
        describe_network_tool(&NetworkTool::Netcat {
            host: "example.com".to_string(),
            port: 8080,
            mode: NetcatMode::Test,
            timeout: None,
        }),
        "Test connection to example.com:8080"
    );
    assert_eq!(
        describe_network_tool(&NetworkTool::Netcat {
            host: "example.com".to_string(),
            port: 9,
            mode: NetcatMode::Listen,
            timeout: None,
        }),
        "Listen on port 9"
    );
    assert_eq!(
        describe_network_tool(&NetworkTool::PortScan {
            host: "example.com".to_string(),
            ports: vec![443],
            timeout: None,
        }),
        "Scan port 443 on example.com"
    );
    assert_eq!(
        describe_network_tool(&NetworkTool::PortScan {
            host: "example.com".to_string(),
            ports: vec![22, 80, 443],
            timeout: None,
        }),
        "Scan 3 ports on example.com"
    );
}

#[test]
fn test_dangerous_classification() {
    assert!(is_dangerous_filesystem_tool(&FileSystemTool::Delete {
        path: "/".to_string(),
        recursive: true,
    }));
    assert!(!is_dangerous_filesystem_tool(&FileSystemTool::Info { path: "/".to_string() }));
    assert!(is_dangerous_process_tool(&ProcessTool::Kill { pid: 1, signal: None, force: false }));
    assert!(!is_dangerous_process_tool(&ProcessTool::List { filter: None, show_all: false }));
    assert!(is_dangerous_network_tool(&NetworkTool::Netcat {
        host: "h".to_string(),
        port: 1,
        mode: NetcatMode::Listen,
        timeout: None,
    }));
    assert!(!is_dangerous_network_tool(&NetworkTool::Netcat {
        host: "h".to_string(),
        port: 1,
        mode: NetcatMode::Test,
        timeout: None,
    }));
    assert!(!is_dangerous_network_tool(&NetworkTool::Ping {
        host: "h".to_string(),
        count: None,
        timeout: None,
    }));
}

#[test]
fn test_tool_executor_dispatch() {
    let executor = ToolExecutor::new("/tmp".to_string());
    assert_eq!(executor.timeout, 30000);
    assert_eq!(executor.working_directory, "/tmp");

    let tool = SystemTool::Process(ProcessTool::Info { pid: 5 });
    assert_eq!(executor.get_description(&tool), "Get information for process 5");
    assert!(!executor.is_dangerous(&tool));

    let dangerous = SystemTool::FileSystem(FileSystemTool::Delete {
        path: "/tmp/x".to_string(),
        recursive: false,
    });
    assert!(executor.is_dangerous(&dangerous));
}

#[test]
fn test_system_tools_manager_creation() {
    let manager = SystemToolsManager::new("/tmp".to_string());
    assert_eq!(manager.executor.working_directory, "/tmp");
    assert_eq!(manager.executor.timeout, 30000);
}

#[test]
fn test_history_stats_counts_and_average() {
    let mut done_fast = CommandBlock::new("true".to_string(), "/tmp".to_string());
    done_fast.start_execution();
    done_fast.complete(0, 100);

    let mut done_slow = CommandBlock::new("false".to_string(), "/tmp".to_string());
    done_slow.start_execution();
    done_slow.complete(1, 200);

    let mut still_running = CommandBlock::new("sleep 5".to_string(), "/tmp".to_string());
    still_running.start_execution();

    let editing = CommandBlock::new("".to_string(), "/tmp".to_string());

    let stats = history_stats(&vec![done_fast, done_slow, still_running, editing]);
    assert_eq!(stats.total_blocks, 4);
    assert_eq!(stats.running, 1);
    assert_eq!(stats.successful, 1);
    assert_eq!(stats.failed, 1);
    assert_eq!(stats.average_duration, Some(150));
}

#[test]
fn test_history_stats_empty() {
    let stats = history_stats(&vec![]);
    assert_eq!(stats.total_blocks, 0);
    assert_eq!(stats.running, 0);
    assert_eq!(stats.average_duration, None);
}
