//! The supervisor's decision core: it turns one run description into the
//! launch request, and the launch outcome into the events owed to the host.
//! The host runtime injects the launch capability, performs the launch, and
//! then drives the two stream forwarders and the lifecycle monitor, all
//! sending on clones of one output channel that closes only when every
//! producer is done.

use vstd::prelude::*;

use crate::command::args_spec;
use crate::command::build_args;
use crate::events::McpServerLog;
use crate::events::RunMcpServerBinaryError;
use crate::events::StreamKind;
use crate::options::McpServerOpts;

verus! {

/// A released version of the MCP server binary, as plain numbers.
#[derive(Clone, Copy, PartialEq, Eq, Structural, Debug)]
pub struct BinaryVersion {
    pub major: u64,
    pub minor: u64,
    pub patch: u64,
}

/// The resolved MCP server binary: where it lives and which version it is.
/// Deciding which binary to run is the caller's business; this is a plain
/// value holder.
#[derive(Debug)]
pub struct McpServerBinary {
    exe: String,
    version: BinaryVersion,
}

impl McpServerBinary {
    /// The path of the executable.
    pub closed spec fn exe_spec(self) -> Seq<char> {
        self.exe@
    }

    /// The binary's version.
    pub closed spec fn version_spec(self) -> BinaryVersion {
        self.version
    }

    pub fn new(exe: String, version: BinaryVersion) -> (r: McpServerBinary)
        ensures
            r.exe_spec() == exe@,
            r.version_spec() == version,
    {
        McpServerBinary { exe, version }
    }

    /// The path of the executable.
    pub fn exe(&self) -> (r: &String)
        ensures
            r@ == self.exe_spec(),
    {
        &self.exe
    }

    /// The binary's version.
    pub fn version(&self) -> (r: BinaryVersion)
        ensures
            r == self.version_spec(),
    {
        self.version
    }
}

/// How one standard stream of the child is wired at launch.
#[derive(Clone, Copy, PartialEq, Eq, Structural, Debug)]
pub enum StdioMode {
    /// The stream is discarded.
    Discard,
    /// The stream is captured for the supervisor.
    Capture,
}

/// Everything the launch capability needs for one run: the executable path,
/// the ordered argument list, the environment (keys unique, by the
/// caller's charge), and the stdio wiring. Constructed fresh per run, never
/// reused.
pub struct LaunchPlan {
    pub exe: String,
    pub args: Vec<String>,
    pub env: Vec<(String, String)>,
    pub stdin_mode: StdioMode,
    pub stdout_mode: StdioMode,
    pub stderr_mode: StdioMode,
}

/// One supervised run of the MCP server binary: the binary, the schema the
/// server exposes, the endpoint it proxies, the option bag, and the child's
/// environment. Consumed exactly once to produce the launch plan.
pub struct RunMcpServerBinary {
    mcp_server_binary: McpServerBinary,
    supergraph_schema_path: String,
    router_address: String,
    mcp_options: McpServerOpts,
    env: Vec<(String, String)>,
}

impl RunMcpServerBinary {
    /// The binary this run launches.
    pub closed spec fn binary_spec(self) -> McpServerBinary {
        self.mcp_server_binary
    }

    /// The supergraph schema path handed to `--schema`.
    pub closed spec fn schema_path_spec(self) -> Seq<char> {
        self.supergraph_schema_path@
    }

    /// The router address handed to `--endpoint`.
    pub closed spec fn router_address_spec(self) -> Seq<char> {
        self.router_address@
    }

    /// The option bag.
    pub closed spec fn options_spec(self) -> McpServerOpts {
        self.mcp_options
    }

    /// The child's environment.
    pub closed spec fn env_spec(self) -> Seq<(String, String)> {
        self.env@
    }

    pub fn new(
        mcp_server_binary: McpServerBinary,
        supergraph_schema_path: String,
        router_address: String,
        mcp_options: McpServerOpts,
        env: Vec<(String, String)>,
    ) -> (r: RunMcpServerBinary)
        ensures
            r.binary_spec() == mcp_server_binary,
            r.schema_path_spec() == supergraph_schema_path@,
            r.router_address_spec() == router_address@,
            r.options_spec() == mcp_options,
            r.env_spec() == env@,
    {
        RunMcpServerBinary {
            mcp_server_binary,
            supergraph_schema_path,
            router_address,
            mcp_options,
            env,
        }
    }

    /// Consumes the run description and produces the launch request: the
    /// binary's own path, the argument list exactly as `args_spec` states,
    /// the caller's environment unchanged, input discarded, and both output
    /// streams captured.
    pub fn into_launch_plan(self) -> (p: LaunchPlan)
        ensures
            p.exe@ == self.binary_spec().exe_spec(),
            p.args.deep_view() == args_spec(
                self.schema_path_spec(),
                self.router_address_spec(),
                self.options_spec(),
            ),
            p.env@ == self.env_spec(),
            p.stdin_mode == StdioMode::Discard,
            p.stdout_mode == StdioMode::Capture,
            p.stderr_mode == StdioMode::Capture,
    {
        let args = build_args(
            &self.supergraph_schema_path,
            &self.router_address,
            &self.mcp_options,
        );
        LaunchPlan {
            exe: self.mcp_server_binary.exe,
            args,
            env: self.env,
            stdin_mode: StdioMode::Discard,
            stdout_mode: StdioMode::Capture,
            stderr_mode: StdioMode::Capture,
        }
    }
}

/// The launch outcome as the supervisor sees it.
pub enum LaunchOutcome {
    /// The launch capability itself failed; its error, rendered as text.
    Failed(String),
    /// A handle exists; each flag records whether that output stream could
    /// be captured from it.
    Started { stdout_captured: bool, stderr_captured: bool },
}

/// The error reported when an output stream cannot be captured, naming the
/// stream that is actually missing.
pub fn missing_stream_error(kind: StreamKind) -> (e: RunMcpServerBinaryError)
    ensures
        e matches RunMcpServerBinaryError::OutputCapture { descriptor } && descriptor@
            == kind.name_spec(),
{
    RunMcpServerBinaryError::OutputCapture { descriptor: kind.name().to_owned() }
}

/// The events the supervisor emits in direct response to the launch
/// outcome. A failed launch yields exactly one `Spawn` error and nothing
/// else — no forwarder and no monitor is started. A successful launch
/// yields one `OutputCapture` error per stream that could not be captured
/// (stdout's first), and no other event; each captured stream gets a
/// forwarder instead.
pub fn launch_outcome_events(outcome: LaunchOutcome) -> (evs: Vec<
    Result<McpServerLog, RunMcpServerBinaryError>,
>)
    ensures
        (outcome matches LaunchOutcome::Failed(e) ==> evs@.len() == 1 && (evs@[0] matches Err(
            RunMcpServerBinaryError::Spawn { err },
        ) && err == e)),
        (outcome matches LaunchOutcome::Started { stdout_captured, stderr_captured } ==> {
            &&& evs@.len() == (if stdout_captured {
                0int
            } else {
                1int
            }) + (if stderr_captured {
                0int
            } else {
                1int
            })
            &&& (!stdout_captured ==> (evs@[0] matches Err(
                RunMcpServerBinaryError::OutputCapture { descriptor },
            ) && descriptor@ == StreamKind::Stdout.name_spec()))
            &&& (!stderr_captured ==> (evs@[evs@.len() - 1] matches Err(
                RunMcpServerBinaryError::OutputCapture { descriptor },
            ) && descriptor@ == StreamKind::Stderr.name_spec()))
        }),
{
    let mut evs: Vec<Result<McpServerLog, RunMcpServerBinaryError>> = Vec::new();
    match outcome {
        LaunchOutcome::Failed(e) => {
            evs.push(Err(RunMcpServerBinaryError::Spawn { err: e }));
        },
        LaunchOutcome::Started { stdout_captured, stderr_captured } => {
            if !stdout_captured {
                evs.push(Err(missing_stream_error(StreamKind::Stdout)));
            }
            if !stderr_captured {
                evs.push(Err(missing_stream_error(StreamKind::Stderr)));
            }
        },
    }
    evs
}

} // verus!
