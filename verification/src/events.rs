//! The values the supervisor's output channel carries: captured log lines,
//! and the failures that are terminal for a run once the host observes them.

use vstd::prelude::*;

verus! {

/// Which output stream of the child process a value belongs to.
#[derive(Clone, Copy, PartialEq, Eq, Structural, Debug)]
pub enum StreamKind {
    Stdout,
    Stderr,
}

impl StreamKind {
    /// The stream's name, as it appears in error descriptors.
    pub open spec fn name_spec(self) -> Seq<char> {
        match self {
            StreamKind::Stdout => "stdout"@,
            StreamKind::Stderr => "stderr"@,
        }
    }

    /// The stream's name as a string slice.
    pub fn name(&self) -> (s: &'static str)
        ensures
            s@ == self.name_spec(),
    {
        match self {
            StreamKind::Stdout => "stdout",
            StreamKind::Stderr => "stderr",
        }
    }
}

/// A captured output line of the MCP server binary, tagged by the stream it
/// came from. Immutable once produced; ordered only within its own stream.
pub enum McpServerLog {
    Stdout(String),
    Stderr(String),
}

/// The mathematical value of a `McpServerLog`: the line's characters under
/// the same stream tag.
pub enum McpServerLogView {
    Stdout(Seq<char>),
    Stderr(Seq<char>),
}

impl View for McpServerLog {
    type V = McpServerLogView;

    open spec fn view(&self) -> McpServerLogView {
        match self {
            McpServerLog::Stdout(s) => McpServerLogView::Stdout(s@),
            McpServerLog::Stderr(s) => McpServerLogView::Stderr(s@),
        }
    }
}

impl DeepView for McpServerLog {
    type V = McpServerLogView;

    open spec fn deep_view(&self) -> McpServerLogView {
        self@
    }
}

impl McpServerLog {
    /// The line's text, without its stream tag.
    pub fn line(&self) -> (s: &String)
        ensures
            self@ matches McpServerLogView::Stdout(l) ==> s@ == l,
            self@ matches McpServerLogView::Stderr(l) ==> s@ == l,
    {
        match self {
            McpServerLog::Stdout(s) => s,
            McpServerLog::Stderr(s) => s,
        }
    }

    /// Whether this line came from standard error.
    pub fn is_stderr(&self) -> (b: bool)
        ensures
            b == (self@ matches McpServerLogView::Stderr(_)),
    {
        match self {
            McpServerLog::Stdout(_) => false,
            McpServerLog::Stderr(_) => true,
        }
    }
}

/// The stream-tagged event value for one decoded line.
pub open spec fn wrap_line_spec(kind: StreamKind, line: Seq<char>) -> McpServerLogView {
    match kind {
        StreamKind::Stdout => McpServerLogView::Stdout(line),
        StreamKind::Stderr => McpServerLogView::Stderr(line),
    }
}

/// Tags one decoded line with its stream of origin.
pub fn wrap_line(kind: StreamKind, line: String) -> (ev: McpServerLog)
    ensures
        ev@ == wrap_line_spec(kind, line@),
{
    match kind {
        StreamKind::Stdout => McpServerLog::Stdout(line),
        StreamKind::Stderr => McpServerLog::Stderr(line),
    }
}

/// The observed end of the child process: the exit code the platform
/// reported, or `None` when the process was ended by a signal.
#[derive(Clone, Copy, Debug)]
pub struct ExitInfo {
    pub code: Option<i32>,
}

impl ExitInfo {
    /// Whether the exit counts as success: an exit code of zero.
    pub open spec fn success_spec(self) -> bool {
        self.code == Some(0i32)
    }

    /// Whether the exit counts as success.
    pub fn success(&self) -> (b: bool)
        ensures
            b == self.success_spec(),
    {
        match self.code {
            Some(c) => c == 0,
            None => false,
        }
    }
}

/// A failure surfaced to the host consumer. Terminal for the run once
/// observed; the supervisor never retries.
pub enum RunMcpServerBinaryError {
    /// The launch capability itself failed: no forwarder or monitor was
    /// started.
    Spawn { err: String },
    /// The named capture stream could not be obtained from an otherwise
    /// successful launch.
    OutputCapture { descriptor: String },
    /// The process ended while not cancelled: its exit outcome, or the wait
    /// operation's own error rendered as text.
    BinaryExited(Result<ExitInfo, String>),
}

} // verus!
