//! How the protocol server is started and how its output is logged.
use vstd::prelude::*;
use crate::digits::{decimal, port_text};

verus! {

/// How long the server is given to come up after it was started, in
/// milliseconds. Readiness is not polled.
pub const STARTUP_DELAY_MS: u64 = 100;

/// Where the protocol-server executable lies, and whether the browser runs
/// without a window.
#[derive(Debug, Clone)]
pub struct GeckodriverSpawnOptions {
    pub path: String,
    pub headless: bool,
}

impl Default for GeckodriverSpawnOptions {
    fn default() -> (r: Self)
        ensures
            r.path@ == "./dependencies/geckodriver"@,
            !r.headless,
    {
        GeckodriverSpawnOptions { path: String::from_str("./dependencies/geckodriver"), headless: false }
    }
}

/// The arguments the server is started with: `--port <port>`.
pub fn spawn_args(port: u16) -> (r: Vec<String>)
    ensures
        r@.len() == 2,
        r@[0]@ == "--port"@,
        r@[1]@ == decimal(port as nat),
{
    let mut r: Vec<String> = Vec::new();
    r.push(String::from_str("--port"));
    r.push(port_text(port));
    r
}

/// The output streams of the server.
#[derive(Debug, Clone, Copy, PartialEq, Eq)]
pub enum OutputStream {
    Stdout,
    Stderr,
}

/// The level at which a line of the server's output is logged.
#[derive(Debug, Clone, Copy, PartialEq, Eq)]
pub enum Severity {
    Debug,
    Warn,
}

/// Orders severities: a higher rank is more severe.
pub open spec fn rank(s: Severity) -> int {
    match s {
        Severity::Debug => 0,
        Severity::Warn => 1,
    }
}

/// Lines of stderr are logged as warnings, lines of stdout as debug output.
pub fn severity_of(stream: OutputStream) -> (r: Severity)
    ensures
        r == severity_of_spec(stream),
{
    match stream {
        OutputStream::Stdout => Severity::Debug,
        OutputStream::Stderr => Severity::Warn,
    }
}

/// What one read of a line from an output stream gave.
#[derive(Debug, Clone)]
pub enum LineRead {
    Line(String),
    Closed,
    Failed,
}

/// The next thing a log drain does after a read: log the line at the
/// stream's severity, or stop quietly when the stream ended or failed.
pub fn drain_step(stream: OutputStream, read: LineRead) -> (r: Option<(Severity, String)>)
    ensures
        match read {
            LineRead::Line(line) => r == Some((severity_of_spec(stream), line)),
            _ => r is None,
        },
{
    match read {
        LineRead::Line(line) => Some((severity_of(stream), line)),
        _ => None,
    }
}

/// The severity at which lines of `stream` are logged.
pub open spec fn severity_of_spec(stream: OutputStream) -> Severity {
    match stream {
        OutputStream::Stdout => Severity::Debug,
        OutputStream::Stderr => Severity::Warn,
    }
}

/// Lines of stderr are logged at a higher severity than lines of stdout.
pub proof fn lemma_stderr_outranks_stdout()
    ensures
        rank(severity_of_spec(OutputStream::Stderr)) > rank(severity_of_spec(OutputStream::Stdout)),
{
}

} // verus!
