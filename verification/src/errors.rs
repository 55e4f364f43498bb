//! The interpreter's error taxonomy: usage errors, resource errors carrying
//! the operating system's message, and resolution failures.  Resolution
//! failures are the only kind that can yield status 127, and only on the
//! fallback path.

use vstd::prelude::*;
use vstd::string::StringExecFns;

verus! {

/// Ghost mirror of [`ShellError`], over character sequences.
pub ghost enum ErrView {
    /// `cd` was given no directory.
    MissingCdArg,
    /// `type` was given no command name.
    MissingTypeArg,
    /// `exec` was given no program name.
    MissingExecProgram,
    /// `help` was asked about an unregistered name.
    UnknownHelpTopic { name: Seq<char> },
    /// The search-path variable is absent, so no external program can be found.
    PathNotSet { program: Seq<char> },
    /// No candidate path for the program exists in the search path.
    NotFoundInPath { program: Seq<char> },
    /// The operating system refused to change directory.
    ChdirFailed { os: Seq<char> },
    /// The child process could not be started.
    SpawnFailed { program: Seq<char>, os: Seq<char> },
    /// Waiting for the child process failed.
    WaitFailed { program: Seq<char>, os: Seq<char> },
}

/// A failure of one dispatched command.
pub enum ShellError {
    MissingCdArg,
    MissingTypeArg,
    MissingExecProgram,
    UnknownHelpTopic { name: String },
    PathNotSet { program: String },
    NotFoundInPath { program: String },
    ChdirFailed { os: String },
    SpawnFailed { program: String, os: String },
    WaitFailed { program: String, os: String },
}

impl View for ShellError {
    type V = ErrView;

    open spec fn view(&self) -> ErrView {
        match self {
            ShellError::MissingCdArg => ErrView::MissingCdArg,
            ShellError::MissingTypeArg => ErrView::MissingTypeArg,
            ShellError::MissingExecProgram => ErrView::MissingExecProgram,
            ShellError::UnknownHelpTopic { name } => ErrView::UnknownHelpTopic { name: name@ },
            ShellError::PathNotSet { program } => ErrView::PathNotSet { program: program@ },
            ShellError::NotFoundInPath { program } => ErrView::NotFoundInPath {
                program: program@,
            },
            ShellError::ChdirFailed { os } => ErrView::ChdirFailed { os: os@ },
            ShellError::SpawnFailed { program, os } => ErrView::SpawnFailed {
                program: program@,
                os: os@,
            },
            ShellError::WaitFailed { program, os } => ErrView::WaitFailed {
                program: program@,
                os: os@,
            },
        }
    }
}

/// Whether the failure means "no external program could be found": the kind
/// that yields status 127 when it arises on the fallback path.
pub open spec fn is_resolution_failure(e: ErrView) -> bool {
    e is PathNotSet || e is NotFoundInPath
}

/// The human-readable text of each failure.
pub open spec fn spec_message(e: ErrView) -> Seq<char> {
    match e {
        ErrView::MissingCdArg => "cd needs a directory"@,
        ErrView::MissingTypeArg => "type needs the name of a command"@,
        ErrView::MissingExecProgram => "exec needs a program to execute"@,
        ErrView::UnknownHelpTopic { name } => "no such command '"@ + name + "'"@,
        ErrView::PathNotSet { program } => program + ": PATH not set"@,
        ErrView::NotFoundInPath { program } => program + ": command not found in PATH"@,
        ErrView::ChdirFailed { os } => "cannot change directory: "@ + os,
        ErrView::SpawnFailed { program, os } => "cannot start "@ + program + ": "@ + os,
        ErrView::WaitFailed { program, os } => "cannot wait for "@ + program + ": "@ + os,
    }
}

impl ShellError {
    /// Renders the failure as one descriptive line.
    pub fn message(&self) -> (r: String)
        ensures
            r@ == spec_message(self@),
    {
        match self {
            ShellError::MissingCdArg => String::from_str("cd needs a directory"),
            ShellError::MissingTypeArg => String::from_str("type needs the name of a command"),
            ShellError::MissingExecProgram => String::from_str("exec needs a program to execute"),
            ShellError::UnknownHelpTopic { name } => {
                let mut s = String::from_str("no such command '");
                s.append(name.as_str());
                s.append("'");
                proof {
                    assert(s@ =~= spec_message(self@));
                }
                s
            },
            ShellError::PathNotSet { program } => {
                let mut s = program.clone();
                s.append(": PATH not set");
                s
            },
            ShellError::NotFoundInPath { program } => {
                let mut s = program.clone();
                s.append(": command not found in PATH");
                s
            },
            ShellError::ChdirFailed { os } => {
                let mut s = String::from_str("cannot change directory: ");
                s.append(os.as_str());
                s
            },
            ShellError::SpawnFailed { program, os } => {
                let mut s = String::from_str("cannot start ");
                s.append(program.as_str());
                s.append(": ");
                s.append(os.as_str());
                proof {
                    assert(s@ =~= spec_message(self@));
                }
                s
            },
            ShellError::WaitFailed { program, os } => {
                let mut s = String::from_str("cannot wait for ");
                s.append(program.as_str());
                s.append(": ");
                s.append(os.as_str());
                proof {
                    assert(s@ =~= spec_message(self@));
                }
                s
            },
        }
    }
}

} // verus!
