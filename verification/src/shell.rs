//! The dispatcher: it owns the registry and the last exit status, parses a
//! line into tokens, routes the first token to a built-in or to the
//! external-program fallback, and records every command's status.

use vstd::prelude::*;
use crate::command::{
    is_builtin, is_builtin_name, spec_cd, spec_echo, spec_exec, spec_help, spec_type,
    CdCommand, Command, EchoCommand, EnvView, ExecCommand, HelpCommand, Outcome, OutcomeView,
    SearchEnv, TypeCommand, tail,
};
use crate::errors::{is_resolution_failure, ErrView, ShellError};
use crate::text::spec_tokens;
use vstd::string::StringExecFns;

verus! {

/// The closed set of built-ins, one variant per registered command.
#[derive(Clone, Copy, PartialEq, Eq, Structural)]
pub enum Builtin {
    Cd,
    Echo,
    Type,
    Exec,
    Help,
}

/// Which built-in a registered name denotes.
pub open spec fn spec_builtin_of(n: Seq<char>) -> Builtin {
    if n == "cd"@ {
        Builtin::Cd
    } else if n == "echo"@ {
        Builtin::Echo
    } else if n == "type"@ {
        Builtin::Type
    } else if n == "exec"@ {
        Builtin::Exec
    } else {
        Builtin::Help
    }
}

/// The command registry: the fixed name-to-command mapping, built once at
/// construction and never mutated.  The name set is closed, so lookup is a
/// case-sensitive comparison against the five registered names.
pub struct Registry {
    pub cd: CdCommand,
    pub echo: EchoCommand,
    pub type_cmd: TypeCommand,
    pub exec_cmd: ExecCommand,
    pub help: HelpCommand,
}

impl Registry {
    /// Whether `name` is registered.
    pub fn contains(&self, name: &str) -> (r: bool)
        ensures
            r == is_builtin_name(name@),
    {
        is_builtin(name)
    }

    /// The registered command for `name`, when there is one.
    pub fn lookup(&self, name: &str) -> (r: Option<Builtin>)
        ensures
            match r {
                Some(b) => is_builtin_name(name@) && b == spec_builtin_of(name@),
                None => !is_builtin_name(name@),
            },
    {
        if crate::text::str_eq(name, "cd") {
            Some(Builtin::Cd)
        } else if crate::text::str_eq(name, "echo") {
            Some(Builtin::Echo)
        } else if crate::text::str_eq(name, "type") {
            Some(Builtin::Type)
        } else if crate::text::str_eq(name, "exec") {
            Some(Builtin::Exec)
        } else if crate::text::str_eq(name, "help") {
            Some(Builtin::Help)
        } else {
            None
        }
    }
}

/// The dispatcher: the registry and the status of the most recent command.
pub struct Shell {
    pub commands: Registry,
    pub last_status: i32,
}

/// What one dispatched built-in's ghost model decides.
pub open spec fn spec_builtin_execute(
    name: Seq<char>,
    st: int,
    args: Seq<Seq<char>>,
    env: EnvView,
) -> OutcomeView {
    if name == "cd"@ {
        spec_cd(args)
    } else if name == "echo"@ {
        spec_echo(args, st)
    } else if name == "type"@ {
        spec_type(args, env)
    } else if name == "exec"@ {
        spec_exec(args, env, false)
    } else {
        spec_help(args)
    }
}

/// The status recorded for an outcome decided at dispatch: success prints
/// and records 0; a failure records 1, except a resolution failure on the
/// fallback path, which records 127; a pending outcome leaves the status to
/// its finisher.
pub open spec fn spec_status_after(o: OutcomeView, fallback: bool, st: int) -> int {
    match o {
        OutcomeView::Quiet => st,
        OutcomeView::Output { .. } => 0,
        OutcomeView::Error { error } => if fallback && is_resolution_failure(error) {
            127
        } else {
            1
        },
        OutcomeView::Chdir { .. } => st,
        OutcomeView::TypeSearch { .. } => st,
        OutcomeView::ExecSearch { .. } => st,
        OutcomeView::Spawn { .. } => st,
    }
}

/// The complete ghost model of one dispatched line: the outcome handed to
/// the caller and the status recorded before any pending effect runs.
pub open spec fn spec_run(st: int, line: Seq<char>, env: EnvView) -> (OutcomeView, int) {
    let toks = spec_tokens(line);
    if toks.len() == 0 {
        (OutcomeView::Quiet, st)
    } else if is_builtin_name(toks[0]) {
        let o = spec_builtin_execute(toks[0], st, toks.drop_first(), env);
        (o, spec_status_after(o, false, st))
    } else {
        let o = spec_exec(toks, env, true);
        (o, spec_status_after(o, true, st))
    }
}

impl Shell {
    /// A fresh dispatcher: the five built-ins registered, status 0.
    pub fn new() -> (s: Shell)
        ensures
            s.last_status == 0,
    {
        Shell {
            commands: Registry {
                cd: CdCommand,
                echo: EchoCommand,
                type_cmd: TypeCommand,
                exec_cmd: ExecCommand,
                help: HelpCommand,
            },
            last_status: 0,
        }
    }

    /// Dispatches one raw line: tokenizes it, runs the named built-in or
    /// falls back to external resolution, records the status, and returns
    /// the outcome the caller must carry out.
    pub fn run_command(&mut self, input: &str, env: &SearchEnv) -> (o: Outcome)
        ensures
            o@ == spec_run(old(self).last_status as int, input@, env@).0,
            final(self).last_status as int == spec_run(
                old(self).last_status as int,
                input@,
                env@,
            ).1,
    {
        let toks = crate::text::tokenize(input);
        if toks.len() == 0 {
            return Outcome::Quiet;
        }
        let name = toks[0].clone();
        let found = self.commands.lookup(name.as_str());
        let o: Outcome = match found {
            Some(b) => {
                let args = tail(&toks);
                match b {
                    Builtin::Cd => {
                        let c = self.commands.cd;
                        c.execute(&*self, &args, env)
                    },
                    Builtin::Echo => {
                        let c = self.commands.echo;
                        c.execute(&*self, &args, env)
                    },
                    Builtin::Type => {
                        let c = self.commands.type_cmd;
                        c.execute(&*self, &args, env)
                    },
                    Builtin::Exec => {
                        let c = self.commands.exec_cmd;
                        c.execute(&*self, &args, env)
                    },
                    Builtin::Help => {
                        let c = self.commands.help;
                        c.execute(&*self, &args, env)
                    },
                }
            },
            None => {
                let c = self.commands.exec_cmd;
                c.resolve(&toks, env, true)
            },
        };
        let fallback = found.is_none();
        match &o {
            Outcome::Quiet => {},
            Outcome::Output { .. } => {
                self.last_status = 0;
            },
            Outcome::Error { error } => {
                let resolution = match error {
                    ShellError::PathNotSet { .. } => true,
                    ShellError::NotFoundInPath { .. } => true,
                    _ => false,
                };
                if fallback && resolution {
                    self.last_status = 127;
                } else {
                    self.last_status = 1;
                }
            },
            Outcome::Chdir { .. } => {},
            Outcome::TypeSearch { .. } => {},
            Outcome::ExecSearch { .. } => {},
            Outcome::Spawn { .. } => {},
        }
        o
    }

    /// Records the result of a requested directory change: the operating
    /// system's error message if it refused, `None` if it succeeded.
    /// Success records status 0; failure records status 1 and returns the
    /// failure to report.
    pub fn finish_cd(&mut self, os_error: Option<String>) -> (r: Option<ShellError>)
        ensures
            match os_error {
                None => final(self).last_status == 0 && r is None,
                Some(os) => final(self).last_status == 1 && (r matches Some(e) && e@
                    == (ErrView::ChdirFailed { os: os@ })),
            },
            final(self).commands == old(self).commands,
    {
        match os_error {
            None => {
                self.last_status = 0;
                None
            },
            Some(os) => {
                self.last_status = 1;
                Some(ShellError::ChdirFailed { os })
            },
        }
    }

    /// Records the result of a `type` search and returns the line to
    /// print: the first existing candidate's path, or "not found".  Either
    /// way the report is informational, so status 0 is recorded.
    pub fn finish_type(&mut self, name: &str, found: Option<String>) -> (line: String)
        ensures
            final(self).last_status == 0,
            line@ == spec_type_report(name@, found.deep_view()),
            final(self).commands == old(self).commands,
    {
        self.last_status = 0;
        match found {
            Some(path) => {
                let mut line = String::from_str(name);
                line.append(" is ");
                line.append(path.as_str());
                proof {
                    assert(line@ =~= spec_type_report(name@, found.deep_view()));
                }
                line
            },
            None => {
                let mut line = String::from_str(name);
                line.append(" not found");
                line
            },
        }
    }

    /// Records the result of an `exec` search.  A found candidate is handed
    /// back to be spawned, with the status untouched; an exhausted search
    /// records 127 on the fallback path (the conventional "command not
    /// found" code) and 1 when `exec` itself was invoked.
    pub fn finish_exec_search(&mut self, program: &str, found: Option<String>, fallback: bool) -> (r:
        ResolveOutcome)
        ensures
            match found {
                Some(p) => final(self).last_status == old(self).last_status && (r matches
                    ResolveOutcome::Run { path } && path@ == p@),
                None => final(self).last_status as int == (if fallback {
                    127int
                } else {
                    1int
                }) && (r matches ResolveOutcome::Refused { error } && error@
                    == (ErrView::NotFoundInPath { program: program@ })),
            },
            final(self).commands == old(self).commands,
    {
        match found {
            Some(path) => ResolveOutcome::Run { path },
            None => {
                if fallback {
                    self.last_status = 127;
                } else {
                    self.last_status = 1;
                }
                ResolveOutcome::Refused {
                    error: ShellError::NotFoundInPath { program: String::from_str(program) },
                }
            },
        }
    }

    /// Records how a spawned child went.  A child that was started and
    /// waited for counts as success whatever its own exit code — the
    /// child's code is deliberately not propagated; a spawn or wait
    /// failure records status 1 and returns the failure to report.
    pub fn finish_spawn(&mut self, program: &str, result: SpawnResult) -> (r: Option<ShellError>)
        ensures
            match result {
                SpawnResult::Completed => final(self).last_status == 0 && r is None,
                SpawnResult::SpawnError { os } => final(self).last_status == 1 && (r matches Some(e)
                    && e@ == (ErrView::SpawnFailed { program: program@, os: os@ })),
                SpawnResult::WaitError { os } => final(self).last_status == 1 && (r matches Some(e)
                    && e@ == (ErrView::WaitFailed { program: program@, os: os@ })),
            },
            final(self).commands == old(self).commands,
    {
        match result {
            SpawnResult::Completed => {
                self.last_status = 0;
                None
            },
            SpawnResult::SpawnError { os } => {
                self.last_status = 1;
                Some(ShellError::SpawnFailed { program: String::from_str(program), os })
            },
            SpawnResult::WaitError { os } => {
                self.last_status = 1;
                Some(ShellError::WaitFailed { program: String::from_str(program), os })
            },
        }
    }
}

/// The line `type` prints for a search result.
pub open spec fn spec_type_report(name: Seq<char>, found: Option<Seq<char>>) -> Seq<char> {
    match found {
        Some(path) => name + " is "@ + path,
        None => name + " not found"@,
    }
}

/// What an `exec` search resolves to: a path to spawn, or a recorded
/// resolution failure.
pub enum ResolveOutcome {
    Run { path: String },
    Refused { error: ShellError },
}

/// How a spawned child went, as the caller observed it.
pub enum SpawnResult {
    /// The child was started and waited for; its own exit code is not
    /// propagated.
    Completed,
    /// The child could not be started; the operating system's message.
    SpawnError { os: String },
    /// Waiting for the child failed; the operating system's message.
    WaitError { os: String },
}

} // verus!
