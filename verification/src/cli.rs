use vstd::prelude::*;

verus! {

/// Why the command line could not be read as a subcommand.
#[derive(Clone, Copy, Debug, PartialEq, Eq, Structural)]
pub enum CliErrorKind {
    /// The first word is no known subcommand.
    InvalidSubcommand,
    /// An argument that no subcommand knows.
    UnknownArgument,
    /// Anything else: a missing or malformed value, a request for help or for the version.
    Other,
}

/// What the program does when the command line is not a subcommand.
#[derive(Clone, Copy, Debug, PartialEq, Eq, Structural)]
pub enum Recovery {
    /// Read the whole command line as the arguments of `run`.
    ParseAsRun,
    /// Report the error and exit.
    Exit,
}

/// Without a known subcommand the host runs: the command line is read as the
/// arguments of `run`; every other error ends the program.
pub fn recovery_for(kind: CliErrorKind) -> (recovery: Recovery)
    ensures
        recovery == (match kind {
            CliErrorKind::InvalidSubcommand | CliErrorKind::UnknownArgument => Recovery::ParseAsRun,
            CliErrorKind::Other => Recovery::Exit,
        }),
{
    match kind {
        CliErrorKind::InvalidSubcommand | CliErrorKind::UnknownArgument => Recovery::ParseAsRun,
        CliErrorKind::Other => Recovery::Exit,
    }
}

} // verus!
