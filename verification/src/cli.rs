//! The command-line surface: the parsed command and its execution outcome.
//! Argument parsing and help rendering live with the host; what is decided
//! here is what each command does and which exit status the process
//! reports.

use vstd::prelude::*;
use vstd::string::StringSliceAdditionalSpecFns;

use crate::error::ErrorKind;
use crate::error::ExitStatus;
use crate::error::TsError;
use crate::error::text_bytes;

verus! {

/// How the tool's version is rendered.
#[derive(Clone, Copy, PartialEq, Eq, Structural, Debug)]
pub enum VersionFormat {
    /// Display the version as plain text.
    Text,
    /// Display the version as JSON.
    Json,
    /// Display the version as TOML.
    Toml,
}

/// Arguments of the help command.
#[derive(Clone, Copy, PartialEq, Eq, Structural, Debug)]
pub struct HelpArgs {
    /// Disable the pager when printing help.
    pub no_pager: bool,
}

/// The commands the tool accepts.
#[derive(Clone, Copy, PartialEq, Eq, Structural, Debug)]
pub enum Command {
    Help(HelpArgs),
}

/// The parsed command line.
#[derive(Debug)]
pub struct Cli {
    pub command: Box<Command>,
}

/// Execute one command. The help command is not implemented yet: it reports
/// that, wrapped in the command-execution context.
pub fn execute_command(cmd: &Command) -> (r: Result<ExitStatus, TsError>)
    ensures
        cmd is Help ==> (r matches Err(e) && e.kind() == ErrorKind::Setup && e.chain() == seq![
            ("failed to execute command").spec_bytes(),
            ("help command is not implemented yet").spec_bytes(),
        ]),
{
    match cmd {
        Command::Help(_) => Err(
            TsError::new(
                ErrorKind::Setup,
                text_bytes("help command is not implemented yet"),
            ).wrap(text_bytes("failed to execute command")),
        ),
    }
}

/// The exit status the process reports for a command outcome: the
/// command's own status on success, `Error` on failure.
pub fn exit_status_of(outcome: &Result<ExitStatus, TsError>) -> (r: ExitStatus)
    ensures
        outcome matches Ok(s) ==> r == s,
        outcome is Err ==> r == ExitStatus::Error,
{
    match outcome {
        Ok(s) => *s,
        Err(_) => ExitStatus::Error,
    }
}

} // verus!
