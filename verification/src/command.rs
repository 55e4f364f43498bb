//! The polymorphic command contract and the five built-ins.
//!
//! A command's `execute` never touches the operating system: it either
//! finishes at once (an output line, or a failure) or hands the caller an
//! [`Outcome`] naming exactly the one effect still owed — change directory,
//! probe a candidate list, or spawn a program.  The caller reports what the
//! system answered through the `finish_*` methods of [`crate::shell::Shell`].

use vstd::prelude::*;
use vstd::string::StringExecFns;
use crate::errors::{ErrView, ShellError};
use crate::resolve::{
    exec_candidates, has_separator, spec_exec_candidates, spec_has_separator,
    spec_suffixes, spec_type_candidates, suffixes_of, type_candidates,
};
use crate::shell::Shell;
use crate::text::{join_spaces, spec_int_dec, spec_join, status_string, str_eq};

verus! {

/// Ghost mirror of [`SearchEnv`].
pub ghost struct EnvView {
    /// The directories of the search-path variable, in listed order;
    /// `None` when the variable is absent.
    pub dirs: Option<Seq<Seq<char>>>,
    /// The raw suffix-list variable; `None` when absent.
    pub pathext: Option<Seq<char>>,
}

/// The two environment variables that executable resolution consults,
/// read once by the caller and passed in as plain values.
pub struct SearchEnv {
    pub dirs: Option<Vec<String>>,
    pub pathext: Option<String>,
}

impl View for SearchEnv {
    type V = EnvView;

    open spec fn view(&self) -> EnvView {
        EnvView { dirs: self.dirs.deep_view(), pathext: self.pathext.deep_view() }
    }
}

/// The search directories, or none at all when the variable is absent.
pub open spec fn env_dirs_or_empty(env: EnvView) -> Seq<Seq<char>> {
    match env.dirs {
        Some(d) => d,
        None => Seq::empty(),
    }
}

/// Ghost mirror of [`Outcome`].
pub ghost enum OutcomeView {
    Quiet,
    Output { line: Seq<char> },
    Error { error: ErrView },
    Chdir { path: Seq<char> },
    TypeSearch { name: Seq<char>, candidates: Seq<Seq<char>> },
    ExecSearch {
        program: Seq<char>,
        candidates: Seq<Seq<char>>,
        args: Seq<Seq<char>>,
        fallback: bool,
    },
    Spawn { program: Seq<char>, path: Seq<char>, args: Seq<Seq<char>> },
}

/// What one dispatched line asks of the caller.
pub enum Outcome {
    /// The line held no tokens; nothing happens.
    Quiet,
    /// The command succeeded; print `line` on standard output.
    Output { line: String },
    /// The command failed; the status is already recorded.
    Error { error: ShellError },
    /// `cd`: change the working directory to `path`, then report the result
    /// to `Shell::finish_cd`.
    Chdir { path: String },
    /// `type`: find the first existing candidate, then hand it to
    /// `Shell::finish_type`.
    TypeSearch { name: String, candidates: Vec<String> },
    /// `exec` or fallback: find the first existing candidate, then hand it
    /// to `Shell::finish_exec_search`.
    ExecSearch { program: String, candidates: Vec<String>, args: Vec<String>, fallback: bool },
    /// Spawn `path` with `args`, wait, then report to `Shell::finish_spawn`.
    Spawn { program: String, path: String, args: Vec<String> },
}

impl View for Outcome {
    type V = OutcomeView;

    open spec fn view(&self) -> OutcomeView {
        match self {
            Outcome::Quiet => OutcomeView::Quiet,
            Outcome::Output { line } => OutcomeView::Output { line: line@ },
            Outcome::Error { error } => OutcomeView::Error { error: error@ },
            Outcome::Chdir { path } => OutcomeView::Chdir { path: path@ },
            Outcome::TypeSearch { name, candidates } => OutcomeView::TypeSearch {
                name: name@,
                candidates: candidates.deep_view(),
            },
            Outcome::ExecSearch { program, candidates, args, fallback } => {
                OutcomeView::ExecSearch {
                    program: program@,
                    candidates: candidates.deep_view(),
                    args: args.deep_view(),
                    fallback: *fallback,
                }
            },
            Outcome::Spawn { program, path, args } => OutcomeView::Spawn {
                program: program@,
                path: path@,
                args: args.deep_view(),
            },
        }
    }
}

/// The names of the registered built-ins.
pub open spec fn is_builtin_name(n: Seq<char>) -> bool {
    n == "cd"@ || n == "echo"@ || n == "type"@ || n == "exec"@ || n == "help"@
}

/// Whether `name` is a registered built-in.
pub fn is_builtin(name: &str) -> (r: bool)
    ensures
        r == is_builtin_name(name@),
{
    str_eq(name, "cd") || str_eq(name, "echo") || str_eq(name, "type") || str_eq(name, "exec")
        || str_eq(name, "help")
}

/// The documented usage line of each built-in.
pub open spec fn spec_syntax_of(n: Seq<char>) -> Seq<char> {
    if n == "cd"@ {
        "cd [[-Path] <string>]"@
    } else if n == "echo"@ {
        "echo [-InputObject] <psobject[]>"@
    } else if n == "type"@ {
        "type [[-Path] <string>]"@
    } else if n == "exec"@ {
        "exec [[-ProgramName] <string>] [[-Args] <string[]>]"@
    } else if n == "help"@ {
        "help [[-Name] <string>]"@
    } else {
        Seq::empty()
    }
}

/// The five registered names are pairwise distinct.
pub proof fn lemma_builtin_names_distinct()
    ensures
        "cd"@ != "echo"@,
        "cd"@ != "type"@,
        "cd"@ != "exec"@,
        "cd"@ != "help"@,
        "echo"@ != "type"@,
        "echo"@ != "exec"@,
        "echo"@ != "help"@,
        "type"@ != "exec"@,
        "type"@ != "help"@,
        "exec"@ != "help"@,
{
    reveal_strlit("cd");
    reveal_strlit("echo");
    reveal_strlit("type");
    reveal_strlit("exec");
    reveal_strlit("help");
    assert("cd"@.len() == 2);
    assert("echo"@[0] == 'e' && "type"@[0] == 't' && "exec"@[0] == 'e' && "help"@[0] == 'h');
    assert("echo"@[1] == 'c' && "exec"@[1] == 'x');
}

/// One echo argument after expansion: the exact token `$?` becomes the
/// decimal rendering of the current status, every other token is kept.
pub open spec fn spec_expand_arg(a: Seq<char>, st: int) -> Seq<char> {
    if a == "$?"@ {
        spec_int_dec(st)
    } else {
        a
    }
}

/// The full echo output: the expanded arguments joined with single spaces.
pub open spec fn spec_echo_line(args: Seq<Seq<char>>, st: int) -> Seq<char> {
    spec_join(args.map_values(|a: Seq<char>| spec_expand_arg(a, st)))
}

/// What `cd` decides from its arguments.
pub open spec fn spec_cd(args: Seq<Seq<char>>) -> OutcomeView {
    if args.len() == 0 {
        OutcomeView::Error { error: ErrView::MissingCdArg }
    } else {
        OutcomeView::Chdir { path: args[0] }
    }
}

/// What `echo` prints, given the status it may report.
pub open spec fn spec_echo(args: Seq<Seq<char>>, st: int) -> OutcomeView {
    OutcomeView::Output { line: spec_echo_line(args, st) }
}

/// What `type` decides: a registered name is reported at once, with no
/// search; any other name yields the exact-name candidate list.
pub open spec fn spec_type(args: Seq<Seq<char>>, env: EnvView) -> OutcomeView {
    if args.len() == 0 {
        OutcomeView::Error { error: ErrView::MissingTypeArg }
    } else if is_builtin_name(args[0]) {
        OutcomeView::Output { line: args[0] + " is a built-in command"@ }
    } else {
        OutcomeView::TypeSearch {
            name: args[0],
            candidates: spec_type_candidates(args[0], env_dirs_or_empty(env)),
        }
    }
}

/// What `exec` decides: a name with a path separator is spawned as a
/// literal path; otherwise the suffix-expanded candidate list is searched,
/// failing outright when the search-path variable is absent.
pub open spec fn spec_exec(args: Seq<Seq<char>>, env: EnvView, fallback: bool) -> OutcomeView {
    if args.len() == 0 {
        OutcomeView::Error { error: ErrView::MissingExecProgram }
    } else {
        let program = args[0];
        if spec_has_separator(program) {
            OutcomeView::Spawn { program: program, path: program, args: args.drop_first() }
        } else {
            match env.dirs {
                None => OutcomeView::Error { error: ErrView::PathNotSet { program: program } },
                Some(dirs) => OutcomeView::ExecSearch {
                    program: program,
                    candidates: spec_exec_candidates(program, dirs, spec_suffixes(env.pathext)),
                    args: args.drop_first(),
                    fallback: fallback,
                },
            }
        }
    }
}

/// The listing printed by `help` with no arguments: every registered
/// command with its usage line, sorted by name.
pub open spec fn spec_help_listing() -> Seq<char> {
    "Available commands:\n  cd: cd [[-Path] <string>]\n  echo: echo [-InputObject] <psobject[]>\n  exec: exec [[-ProgramName] <string>] [[-Args] <string[]>]\n  help: help [[-Name] <string>]\n  type: type [[-Path] <string>]"@
}

/// What `help` decides: the full listing, one command's usage line, or a
/// failure naming the unknown command.
pub open spec fn spec_help(args: Seq<Seq<char>>) -> OutcomeView {
    if args.len() == 0 {
        OutcomeView::Output { line: spec_help_listing() }
    } else if is_builtin_name(args[0]) {
        OutcomeView::Output { line: args[0] + ": "@ + spec_syntax_of(args[0]) }
    } else {
        OutcomeView::Error { error: ErrView::UnknownHelpTopic { name: args[0] } }
    }
}

/// The shared contract of every dispatched command: `execute` returns
/// exactly what the command's ghost model decides from the dispatcher's
/// status, the argument tokens and the environment.
pub trait Command {
    spec fn spec_name(&self) -> Seq<char>;

    spec fn spec_syntax(&self) -> Seq<char>;

    spec fn spec_execute(&self, st: int, args: Seq<Seq<char>>, env: EnvView) -> OutcomeView;

    fn name(&self) -> (r: String)
        ensures
            r@ == self.spec_name(),
    ;

    fn syntax(&self) -> (r: String)
        ensures
            r@ == self.spec_syntax(),
    ;

    fn execute(&self, shell: &Shell, args: &Vec<String>, env: &SearchEnv) -> (o: Outcome)
        ensures
            o@ == self.spec_execute(shell.last_status as int, args.deep_view(), env@),
    ;
}

/// Changes the working directory.
#[derive(Clone, Copy)]
pub struct CdCommand;

/// Prints its arguments, substituting the status for the token `$?`.
#[derive(Clone, Copy)]
pub struct EchoCommand;

/// Reports whether a name is a built-in or an external program on the path.
#[derive(Clone, Copy)]
pub struct TypeCommand;

/// Resolves a program on the search path and runs it.
#[derive(Clone, Copy)]
pub struct ExecCommand;

/// Describes the registered commands.
#[derive(Clone, Copy)]
pub struct HelpCommand;

impl Command for CdCommand {
    open spec fn spec_name(&self) -> Seq<char> {
        "cd"@
    }

    open spec fn spec_syntax(&self) -> Seq<char> {
        spec_syntax_of("cd"@)
    }

    open spec fn spec_execute(&self, st: int, args: Seq<Seq<char>>, env: EnvView) -> OutcomeView {
        spec_cd(args)
    }

    fn name(&self) -> (r: String) {
        String::from_str("cd")
    }

    fn syntax(&self) -> (r: String) {
        String::from_str("cd [[-Path] <string>]")
    }

    fn execute(&self, shell: &Shell, args: &Vec<String>, env: &SearchEnv) -> (o: Outcome) {
        if args.len() == 0 {
            Outcome::Error { error: ShellError::MissingCdArg }
        } else {
            Outcome::Chdir { path: args[0].clone() }
        }
    }
}

impl Command for EchoCommand {
    open spec fn spec_name(&self) -> Seq<char> {
        "echo"@
    }

    open spec fn spec_syntax(&self) -> Seq<char> {
        spec_syntax_of("echo"@)
    }

    open spec fn spec_execute(&self, st: int, args: Seq<Seq<char>>, env: EnvView) -> OutcomeView {
        spec_echo(args, st)
    }

    fn name(&self) -> (r: String) {
        String::from_str("echo")
    }

    fn syntax(&self) -> (r: String) {
        proof {
            lemma_builtin_names_distinct();
        }
        String::from_str("echo [-InputObject] <psobject[]>")
    }

    fn execute(&self, shell: &Shell, args: &Vec<String>, env: &SearchEnv) -> (o: Outcome) {
        let ghost st = shell.last_status as int;
        let mut expanded: Vec<String> = Vec::new();
        let mut i: usize = 0;
        proof {
            assert(expanded.deep_view() =~= args.deep_view().take(0).map_values(
                |a: Seq<char>| spec_expand_arg(a, st),
            ));
        }
        while i < args.len()
            invariant
                0 <= i <= args@.len(),
                st == shell.last_status as int,
                expanded.deep_view() == args.deep_view().take(i as int).map_values(
                    |a: Seq<char>| spec_expand_arg(a, st),
                ),
            decreases args@.len() - i,
        {
            let ghost pre = expanded.deep_view();
            if str_eq(args[i].as_str(), "$?") {
                let s = status_string(shell.last_status);
                expanded.push(s);
            } else {
                let s = args[i].clone();
                expanded.push(s);
            }
            proof {
                assert(expanded.deep_view() =~= pre.push(
                    spec_expand_arg(args.deep_view()[i as int], st),
                ));
                assert(args.deep_view().take(i as int + 1).map_values(
                    |a: Seq<char>| spec_expand_arg(a, st),
                ) =~= pre.push(spec_expand_arg(args.deep_view()[i as int], st)));
            }
            i += 1;
        }
        proof {
            assert(args.deep_view().take(args@.len() as int) =~= args.deep_view());
        }
        let line = join_spaces(&expanded);
        Outcome::Output { line }
    }
}

impl Command for TypeCommand {
    open spec fn spec_name(&self) -> Seq<char> {
        "type"@
    }

    open spec fn spec_syntax(&self) -> Seq<char> {
        spec_syntax_of("type"@)
    }

    open spec fn spec_execute(&self, st: int, args: Seq<Seq<char>>, env: EnvView) -> OutcomeView {
        spec_type(args, env)
    }

    fn name(&self) -> (r: String) {
        String::from_str("type")
    }

    fn syntax(&self) -> (r: String) {
        proof {
            lemma_builtin_names_distinct();
        }
        String::from_str("type [[-Path] <string>]")
    }

    fn execute(&self, shell: &Shell, args: &Vec<String>, env: &SearchEnv) -> (o: Outcome) {
        if args.len() == 0 {
            return Outcome::Error { error: ShellError::MissingTypeArg };
        }
        let name = args[0].clone();
        if is_builtin(name.as_str()) {
            let mut line = name;
            line.append(" is a built-in command");
            return Outcome::Output { line };
        }
        let candidates = match &env.dirs {
            Some(d) => type_candidates(name.as_str(), d),
            None => {
                let r: Vec<String> = Vec::new();
                proof {
                    assert(r.deep_view() =~= spec_type_candidates(
                        name@,
                        env_dirs_or_empty(env@),
                    ));
                }
                r
            },
        };
        Outcome::TypeSearch { name, candidates }
    }
}

impl ExecCommand {
    /// The resolution decision shared by the explicit `exec` built-in and
    /// the command-not-found fallback; only the recorded failure status
    /// distinguishes the two, through `fallback`.
    pub fn resolve(&self, args: &Vec<String>, env: &SearchEnv, fallback: bool) -> (o: Outcome)
        ensures
            o@ == spec_exec(args.deep_view(), env@, fallback),
    {
        if args.len() == 0 {
            return Outcome::Error { error: ShellError::MissingExecProgram };
        }
        let program = args[0].clone();
        if has_separator(program.as_str()) {
            let path = program.clone();
            let rest = tail(args);
            return Outcome::Spawn { program, path, args: rest };
        }
        match &env.dirs {
            None => Outcome::Error { error: ShellError::PathNotSet { program } },
            Some(dirs) => {
                let suffixes = suffixes_of(&env.pathext);
                let candidates = exec_candidates(program.as_str(), dirs, &suffixes);
                let rest = tail(args);
                Outcome::ExecSearch { program, candidates, args: rest, fallback }
            },
        }
    }
}

impl Command for ExecCommand {
    open spec fn spec_name(&self) -> Seq<char> {
        "exec"@
    }

    open spec fn spec_syntax(&self) -> Seq<char> {
        spec_syntax_of("exec"@)
    }

    open spec fn spec_execute(&self, st: int, args: Seq<Seq<char>>, env: EnvView) -> OutcomeView {
        spec_exec(args, env, false)
    }

    fn name(&self) -> (r: String) {
        String::from_str("exec")
    }

    fn syntax(&self) -> (r: String) {
        proof {
            lemma_builtin_names_distinct();
        }
        String::from_str("exec [[-ProgramName] <string>] [[-Args] <string[]>]")
    }

    fn execute(&self, shell: &Shell, args: &Vec<String>, env: &SearchEnv) -> (o: Outcome) {
        self.resolve(args, env, false)
    }
}

impl Command for HelpCommand {
    open spec fn spec_name(&self) -> Seq<char> {
        "help"@
    }

    open spec fn spec_syntax(&self) -> Seq<char> {
        spec_syntax_of("help"@)
    }

    open spec fn spec_execute(&self, st: int, args: Seq<Seq<char>>, env: EnvView) -> OutcomeView {
        spec_help(args)
    }

    fn name(&self) -> (r: String) {
        String::from_str("help")
    }

    fn syntax(&self) -> (r: String) {
        proof {
            lemma_builtin_names_distinct();
        }
        String::from_str("help [[-Name] <string>]")
    }

    fn execute(&self, shell: &Shell, args: &Vec<String>, env: &SearchEnv) -> (o: Outcome) {
        if args.len() == 0 {
            let line = String::from_str(
                "Available commands:\n  cd: cd [[-Path] <string>]\n  echo: echo [-InputObject] <psobject[]>\n  exec: exec [[-ProgramName] <string>] [[-Args] <string[]>]\n  help: help [[-Name] <string>]\n  type: type [[-Path] <string>]",
            );
            return Outcome::Output { line };
        }
        let name = args[0].clone();
        if str_eq(name.as_str(), "cd") {
            let mut line = name;
            line.append(": ");
            line.append("cd [[-Path] <string>]");
            proof {
                assert(line@ =~= args.deep_view()[0] + ": "@ + spec_syntax_of(args.deep_view()[0]));
            }
            Outcome::Output { line }
        } else if str_eq(name.as_str(), "echo") {
            let mut line = name;
            line.append(": ");
            line.append("echo [-InputObject] <psobject[]>");
            proof {
                assert(line@ =~= args.deep_view()[0] + ": "@ + spec_syntax_of(args.deep_view()[0]));
            }
            Outcome::Output { line }
        } else if str_eq(name.as_str(), "type") {
            let mut line = name;
            line.append(": ");
            line.append("type [[-Path] <string>]");
            proof {
                assert(line@ =~= args.deep_view()[0] + ": "@ + spec_syntax_of(args.deep_view()[0]));
            }
            Outcome::Output { line }
        } else if str_eq(name.as_str(), "exec") {
            let mut line = name;
            line.append(": ");
            line.append("exec [[-ProgramName] <string>] [[-Args] <string[]>]");
            proof {
                assert(line@ =~= args.deep_view()[0] + ": "@ + spec_syntax_of(args.deep_view()[0]));
            }
            Outcome::Output { line }
        } else if str_eq(name.as_str(), "help") {
            let mut line = name;
            line.append(": ");
            line.append("help [[-Name] <string>]");
            proof {
                assert(line@ =~= args.deep_view()[0] + ": "@ + spec_syntax_of(args.deep_view()[0]));
            }
            Outcome::Output { line }
        } else {
            Outcome::Error { error: ShellError::UnknownHelpTopic { name } }
        }
    }
}

/// All tokens but the first.
pub fn tail(v: &Vec<String>) -> (r: Vec<String>)
    requires
        v@.len() >= 1,
    ensures
        r.deep_view() == v.deep_view().drop_first(),
{
    let mut out: Vec<String> = Vec::new();
    let mut i: usize = 1;
    while i < v.len()
        invariant
            1 <= i <= v@.len(),
            out.deep_view().len() == i - 1,
            forall|k: int| 0 <= k < i - 1 ==> out.deep_view()[k] == v.deep_view()[k + 1],
        decreases v@.len() - i,
    {
        let ghost pre = out.deep_view();
        let s = v[i].clone();
        out.push(s);
        proof {
            assert(out.deep_view() =~= pre.push(v.deep_view()[i as int]));
        }
        i += 1;
    }
    proof {
        assert(out.deep_view() =~= v.deep_view().drop_first());
    }
    out
}

} // verus!
