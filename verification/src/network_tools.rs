//! Network operations: the tool descriptions and their danger
//! classification.  Executing them touches the network and lives outside
//! this library.

use vstd::prelude::*;
use vstd::string::*;

use crate::text_util::dec_rep;
use crate::text_util::u64_to_string;

verus! {

/// Network operations
#[derive(Debug, Clone)]
pub enum NetworkTool {
    /// Test connectivity (ping)
    Ping { host: String, count: Option<u32>, timeout: Option<u32> },
    /// Resolve hostname to IP
    Resolve { hostname: String },
    /// Make HTTP request (curl-like)
    Curl {
        url: String,
        method: Option<String>,
        headers: Option<Vec<(String, String)>>,
        body: Option<String>,
        timeout: Option<u32>,
    },
    /// Netcat functionality (nc)
    Netcat { host: String, port: u16, mode: NetcatMode, timeout: Option<u32> },
    /// Port scanning
    PortScan { host: String, ports: Vec<u16>, timeout: Option<u32> },
}

#[derive(Debug, Clone)]
pub enum NetcatMode {
    /// Test port connectivity
    Test,
    /// Send data and close
    Send(String),
    /// Listen mode (dangerous)
    Listen,
}

/// Whether a network tool can move data or open a listener.
pub open spec fn network_tool_is_dangerous(tool: NetworkTool) -> bool {
    tool matches NetworkTool::Netcat { mode, .. } && (mode is Listen || mode is Send)
}

pub fn is_dangerous_network_tool(tool: &NetworkTool) -> (dangerous: bool)
    ensures
        dangerous == network_tool_is_dangerous(*tool),
{
    matches!(
        tool,
        NetworkTool::Netcat { mode: NetcatMode::Listen, .. }
        | NetworkTool::Netcat { mode: NetcatMode::Send(_), .. }
    )
}

/// The one-line description of a network tool.
pub open spec fn network_tool_description(tool: NetworkTool) -> Seq<char> {
    match tool {
        NetworkTool::Ping { host, count, .. } => match count {
            Some(times) => "Ping "@ + host@ + " ("@ + dec_rep(times as nat) + " times)"@,
            None => "Ping "@ + host@ + " (4 times)"@,
        },
        NetworkTool::Resolve { hostname } => "Resolve hostname "@ + hostname@,
        NetworkTool::Curl { url, method, .. } => match method {
            Some(name) => name@ + " request to "@ + url@,
            None => "GET request to "@ + url@,
        },
        NetworkTool::Netcat { host, port, mode, .. } => match mode {
            NetcatMode::Test => "Test connection to "@ + host@ + ":"@ + dec_rep(port as nat),
            NetcatMode::Send(_) => "Send data to "@ + host@ + ":"@ + dec_rep(port as nat),
            NetcatMode::Listen => "Listen on port "@ + dec_rep(port as nat),
        },
        NetworkTool::PortScan { host, ports, .. } => if ports@.len() == 1 {
            "Scan port "@ + dec_rep(ports@[0] as nat) + " on "@ + host@
        } else {
            "Scan "@ + dec_rep(ports@.len() as nat) + " ports on "@ + host@
        },
    }
}

pub fn describe_network_tool(tool: &NetworkTool) -> (description: String)
    ensures
        description@ == network_tool_description(*tool),
{
    match tool {
        NetworkTool::Ping { host, count, .. } => {
            let mut s = "Ping ".to_owned();
            s.append(host.as_str());
            match count {
                Some(times) => {
                    s.append(" (");
                    s.append(u64_to_string(*times as u64).as_str());
                    s.append(" times)");
                },
                None => {
                    s.append(" (4 times)");
                },
            }
            proof {
                assert(s@ =~= network_tool_description(*tool));
            }
            s
        },
        NetworkTool::Resolve { hostname } => {
            let mut s = "Resolve hostname ".to_owned();
            s.append(hostname.as_str());
            proof {
                assert(s@ =~= network_tool_description(*tool));
            }
            s
        },
        NetworkTool::Curl { url, method, .. } => {
            let mut s: String;
            match method {
                Some(name) => {
                    s = name.clone();
                },
                None => {
                    s = "GET".to_owned();
                },
            }
            s.append(" request to ");
            s.append(url.as_str());
            proof {
                reveal_strlit("GET");
                reveal_strlit("GET request to ");
                reveal_strlit(" request to ");
                assert(s@ =~= network_tool_description(*tool));
            }
            s
        },
        NetworkTool::Netcat { host, port, mode, .. } => {
            let mut s: String;
            match mode {
                NetcatMode::Test => {
                    s = "Test connection to ".to_owned();
                    s.append(host.as_str());
                    s.append(":");
                    s.append(u64_to_string(*port as u64).as_str());
                },
                NetcatMode::Send(_) => {
                    s = "Send data to ".to_owned();
                    s.append(host.as_str());
                    s.append(":");
                    s.append(u64_to_string(*port as u64).as_str());
                },
                NetcatMode::Listen => {
                    s = "Listen on port ".to_owned();
                    s.append(u64_to_string(*port as u64).as_str());
                },
            }
            proof {
                assert(s@ =~= network_tool_description(*tool));
            }
            s
        },
        NetworkTool::PortScan { host, ports, .. } => {
            let mut s: String;
            if ports.len() == 1 {
                s = "Scan port ".to_owned();
                s.append(u64_to_string(ports[0] as u64).as_str());
            } else {
                s = "Scan ".to_owned();
                s.append(u64_to_string(ports.len() as u64).as_str());
                s.append(" ports");
            }
            s.append(" on ");
            s.append(host.as_str());
            proof {
                reveal_strlit(" ports");
                reveal_strlit(" on ");
                reveal_strlit(" ports on ");
                assert(s@ =~= network_tool_description(*tool));
            }
            s
        },
    }
}

} // verus!
