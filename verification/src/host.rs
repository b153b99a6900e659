//! How the host process ends: the exit code and what is printed for each way a command can
//! go.

use vstd::prelude::*;
use vstd::string::StringExecFns;
use crate::text::{decimal, decimal_text};

verus! {

/// Why a script that was started did not end normally.
#[derive(Debug)]
pub enum RunFailure {
    /// The script asked the process to exit with this code.
    Exit(u8),
    /// An error was raised in the chunk `chunk` at line `line`.
    Script { chunk: String, line: u32, reason: String },
    /// The script failed without a place in a chunk.
    Other(String),
}

/// Exit code of Project.
#[derive(Debug)]
pub enum Exit {
    ScriptResult(u8),
    RunScript { script: String, failure: RunFailure },
    OpenProject { path: String, reason: String },
    LoadProject { path: String, reason: String },
    NoCommandAction(String),
    ReadScript { script: String, reason: String },
    LoadScript { script: String, line: u32, reason: String },
    SetupTokio(String),
}

/// The code for a script that failed.
pub const RUN_SCRIPT: u8 = 100;

/// The code for a manifest that cannot be opened.
pub const OPEN_PROJECT: u8 = 102;

/// The code for a manifest that cannot be read.
pub const LOAD_PROJECT: u8 = 103;

/// The code for a command without an action.
pub const NO_COMMAND_ACTION: u8 = 104;

/// The code for a script that cannot be read.
pub const READ_SCRIPT: u8 = 105;

/// The code for a script that does not compile.
pub const LOAD_SCRIPT: u8 = 106;

/// The code for an executor that cannot be set up.
pub const SETUP_TOKIO: u8 = 109;

/// A diagnostic that points into a chunk: the chunk's name, the line and the reason.
pub open spec fn located(chunk: Seq<char>, line: nat, reason: Seq<char>) -> Seq<char> {
    chunk + ":"@ + decimal_text(line) + ": "@ + reason + "."@
}

/// A diagnostic about something the host could not do with `what`.
pub open spec fn failed(verb: Seq<char>, what: Seq<char>, reason: Seq<char>) -> Seq<char> {
    "Failed to "@ + verb + " "@ + what + ": "@ + reason + "."@
}

fn write_located(chunk: &str, line: u32, reason: &str) -> (r: String)
    ensures
        r@ == located(chunk@, line as nat, reason@),
{
    let mut m = String::from_str(chunk);
    m.append(":");
    let n = decimal(line as u64);
    m.append(n.as_str());
    m.append(": ");
    m.append(reason);
    m.append(".");
    m
}

fn write_failed(verb: &str, what: &str, reason: &str) -> (r: String)
    ensures
        r@ == failed(verb@, what@, reason@),
{
    let mut m = String::from_str("Failed to ");
    m.append(verb);
    m.append(" ");
    m.append(what);
    m.append(": ");
    m.append(reason);
    m.append(".");
    m
}

impl Exit {
    /// The exit code of the process: what the script asked for where it ended by itself,
    /// and a code of the host's own for each kind of failure.
    pub open spec fn spec_code(&self) -> u8 {
        match self {
            Exit::ScriptResult(v) => *v,
            Exit::RunScript { script, failure } => match failure {
                RunFailure::Exit(code) => *code,
                _ => RUN_SCRIPT,
            },
            Exit::OpenProject { .. } => OPEN_PROJECT,
            Exit::LoadProject { .. } => LOAD_PROJECT,
            Exit::NoCommandAction(_) => NO_COMMAND_ACTION,
            Exit::ReadScript { .. } => READ_SCRIPT,
            Exit::LoadScript { .. } => LOAD_SCRIPT,
            Exit::SetupTokio(_) => SETUP_TOKIO,
        }
    }

    /// What is printed on the way out; nothing where the script ended by itself.
    pub open spec fn spec_message(&self) -> Option<Seq<char>> {
        match self {
            Exit::ScriptResult(_) => None,
            Exit::RunScript { script, failure } => match failure {
                RunFailure::Exit(_) => None,
                RunFailure::Script { chunk, line, reason } => Some(
                    located(chunk@, *line as nat, reason@),
                ),
                RunFailure::Other(reason) => Some(failed("run"@, script@, reason@)),
            },
            Exit::OpenProject { path, reason } => Some(failed("open"@, path@, reason@)),
            Exit::LoadProject { path, reason } => Some(failed("load"@, path@, reason@)),
            Exit::NoCommandAction(name) => Some(
                "No action is configured for command '"@ + name@ + "'."@,
            ),
            Exit::ReadScript { script, reason } => Some(failed("read"@, script@, reason@)),
            Exit::LoadScript { script, line, reason } => Some(
                located(script@, *line as nat, reason@),
            ),
            Exit::SetupTokio(reason) => Some("Failed to setup Tokio: "@ + reason@ + "."@),
        }
    }

    /// The exit code of the process.
    pub fn code(&self) -> (r: u8)
        ensures
            r == self.spec_code(),
    {
        match self {
            Exit::ScriptResult(v) => *v,
            Exit::RunScript { script, failure } => match failure {
                RunFailure::Exit(code) => *code,
                _ => RUN_SCRIPT,
            },
            Exit::OpenProject { .. } => OPEN_PROJECT,
            Exit::LoadProject { .. } => LOAD_PROJECT,
            Exit::NoCommandAction(_) => NO_COMMAND_ACTION,
            Exit::ReadScript { .. } => READ_SCRIPT,
            Exit::LoadScript { .. } => LOAD_SCRIPT,
            Exit::SetupTokio(_) => SETUP_TOKIO,
        }
    }

    /// What is printed on the way out.
    pub fn message(&self) -> (r: Option<String>)
        ensures
            match self.spec_message() {
                Some(m) => r matches Some(got) && got@ == m,
                None => r is None,
            },
    {
        match self {
            Exit::ScriptResult(_) => None,
            Exit::RunScript { script, failure } => match failure {
                RunFailure::Exit(_) => None,
                RunFailure::Script { chunk, line, reason } => Some(
                    write_located(chunk.as_str(), *line, reason.as_str()),
                ),
                RunFailure::Other(reason) => Some(
                    write_failed("run", script.as_str(), reason.as_str()),
                ),
            },
            Exit::OpenProject { path, reason } => Some(
                write_failed("open", path.as_str(), reason.as_str()),
            ),
            Exit::LoadProject { path, reason } => Some(
                write_failed("load", path.as_str(), reason.as_str()),
            ),
            Exit::NoCommandAction(name) => {
                let mut m = String::from_str("No action is configured for command '");
                m.append(name.as_str());
                m.append("'.");
                Some(m)
            },
            Exit::ReadScript { script, reason } => Some(
                write_failed("read", script.as_str(), reason.as_str()),
            ),
            Exit::LoadScript { script, line, reason } => Some(
                write_located(script.as_str(), *line, reason.as_str()),
            ),
            Exit::SetupTokio(reason) => {
                let mut m = String::from_str("Failed to setup Tokio: ");
                m.append(reason.as_str());
                m.append(".");
                Some(m)
            },
        }
    }

    /// What becomes of a command once its script is resolved: a command for which the
    /// manifest names no script has no action.
    pub fn action(name: &str, script: Option<String>) -> (r: Result<String, Exit>)
        ensures
            match script {
                Some(s) => r == Ok::<String, Exit>(s),
                None => r matches Err(Exit::NoCommandAction(n)) && n@ == name@,
            },
    {
        match script {
            Some(s) => Ok(s),
            None => Err(Exit::NoCommandAction(String::from_str(name))),
        }
    }
}

} // verus!
