//! The command line of the `vgctl` tool and the small decisions its
//! commands take before they reach the cluster.
use crate::listing::OutputFormat;
use crate::status_table::StatusResourceType;
use crate::text_rules::{parse_i64, read_i64, read_i64_prefix};
use vstd::prelude::*;
use vstd::string::*;

verus! {

/// The command line of the tool: a command, and the namespace, the
/// kubeconfig file, the output format, verbosity and emoji that every
/// command shares.
pub struct Cli {
    pub command: Commands,
    pub namespace: Option<String>,
    pub kubeconfig: Option<String>,
    pub output: OutputFormat,
    pub verbose: bool,
    pub emoji: bool,
}

/// The commands of the tool.
pub enum Commands {
    Get { resource: GetResource },
    Describe { resource: DescribeResource },
    Logs { name: String, follow: bool, tail: i64, since: Option<String>, container: Option<String> },
    Analyze { name: Option<String>, config: bool, listeners: bool, routes: bool },
    Context,
    PortForward { name: String, local_port: u16, remote_port: u16 },
    Exec { name: String, container: Option<String>, command: Vec<String> },
    Status { resource_type: StatusResourceType, name: Option<String> },
}

/// What the `get` command lists.
pub enum GetResource {
    Gateways { name: Option<String>, all_namespaces: bool, selector: Option<String> },
    GatewayClasses { name: Option<String> },
    Pods { gateway: Option<String>, all_namespaces: bool },
    Services { gateway: Option<String>, all_namespaces: bool },
    Deployments { gateway: Option<String>, all_namespaces: bool },
}

/// What the `describe` command describes.
pub enum DescribeResource {
    Gateway { name: String },
    Pod { name: String },
    HTTPRoute { name: String },
}

/// The Kubernetes context the tool works in.
#[derive(Debug, PartialEq, Eq)]
pub struct ContextInfo {
    pub name: String,
    pub cluster: String,
    pub namespace: String,
    pub user: String,
}

/// The context that the tool reports: the default one in every part.
pub fn get_current_context_info(kubeconfig: &Option<String>) -> (r: ContextInfo)
    ensures
        r.name@ == "default"@,
        r.cluster@ == "default"@,
        r.namespace@ == "default"@,
        r.user@ == "default"@,
{
    ContextInfo {
        name: String::from_str("default"),
        cluster: String::from_str("default"),
        namespace: String::from_str("default"),
        user: String::from_str("default"),
    }
}

/// The namespace a command works in: the one given on the command line,
/// else `default`.
pub fn get_effective_namespace(cli_namespace: Option<&str>, kubeconfig: Option<&str>) -> (r: String)
    ensures
        r@ == match cli_namespace {
            Some(n) => n@,
            None => "default"@,
        },
{
    match cli_namespace {
        Some(n) => String::from_str(n),
        None => String::from_str("default"),
    }
}

/// The seconds that a unit suffix of a duration stands for: `s`, `m` and
/// `h`.
pub open spec fn unit_seconds(c: char) -> Option<int> {
    if c == 's' {
        Some(1)
    } else if c == 'm' {
        Some(60)
    } else if c == 'h' {
        Some(3600)
    } else {
        None
    }
}

/// The seconds that a duration text gives: a decimal 64-bit integer of
/// seconds, or such an integer followed by `s`, `m` or `h` (as in `5s`,
/// `2m`, `3h`) scaled to seconds; zero for any other text and for a scaled
/// value that does not fit 64 bits.
pub open spec fn duration_seconds(s: Seq<char>) -> i64 {
    match parse_i64(s) {
        Some(n) => n,
        None => if s.len() > 0 && unit_seconds(s.last()) is Some {
            match parse_i64(s.drop_last()) {
                Some(n) => {
                    let v = n * unit_seconds(s.last())->0;
                    if i64::MIN <= v <= i64::MAX {
                        v as i64
                    } else {
                        0
                    }
                },
                None => 0,
            }
        } else {
            0
        },
    }
}

/// The seconds that a duration text gives, as [`duration_seconds`] says.
pub fn parse_duration_to_seconds(duration: &str) -> (r: i64)
    ensures
        r == duration_seconds(duration@),
{
    if let Some(n) = read_i64(duration) {
        return n;
    }
    let len = duration.unicode_len();
    if len == 0 {
        return 0;
    }
    let last = duration.get_char(len - 1);
    let unit: i64 = if last == 's' {
        1
    } else if last == 'm' {
        60
    } else if last == 'h' {
        3600
    } else {
        return 0;
    };
    assert(duration@.take(len - 1) =~= duration@.drop_last());
    match read_i64_prefix(duration, len - 1) {
        Some(n) => match n.checked_mul(unit) {
            Some(v) => v,
            None => 0,
        },
        None => 0,
    }
}

/// What the tool asks for when it reads a pod's logs.
#[derive(Debug, PartialEq, Eq)]
pub struct LogRequest {
    pub container: Option<String>,
    pub follow: bool,
    pub tail_lines: Option<i64>,
    pub since_seconds: Option<i64>,
}

/// The log request of the `logs` command: the container and the following
/// as given, the tail, and the seconds of the `since` duration when one is
/// given.
pub fn log_request(container: Option<&str>, follow: bool, tail: Option<i64>, since: Option<&str>) -> (r:
    LogRequest)
    ensures
        match (r.container, container) {
            (Some(a), Some(b)) => a@ == b@,
            (None, None) => true,
            _ => false,
        },
        r.follow == follow,
        r.tail_lines == tail,
        r.since_seconds == match since {
            Some(s) => Some(duration_seconds(s@)),
            None => None,
        },
{
    LogRequest {
        container: match container {
            Some(c) => Some(String::from_str(c)),
            None => None,
        },
        follow,
        tail_lines: tail,
        since_seconds: match since {
            Some(s) => Some(parse_duration_to_seconds(s)),
            None => None,
        },
    }
}

} // verus!
