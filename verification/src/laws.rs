//! The library's stated laws: properties of the ghost dispatch model that
//! hold for every input, proved once here rather than observed test by test.

use vstd::prelude::*;
use crate::command::{
    is_builtin_name, lemma_builtin_names_distinct, spec_echo_line,
    spec_expand_arg, spec_help, spec_syntax_of, spec_type, EnvView, OutcomeView,
};
use crate::errors::{is_resolution_failure, ErrView};
use crate::resolve::spec_has_separator;
use crate::shell::{spec_run, spec_builtin_execute};
use crate::text::{is_space_char, spec_dec, spec_int_dec, spec_join, spec_tokens, tokens_acc};

verus! {

/// `type` on a registered name reports it as a built-in at once: the
/// outcome is a finished report, never a filesystem search, whatever the
/// search path holds.
pub proof fn lemma_type_of_builtin_skips_search(args: Seq<Seq<char>>, env: EnvView)
    requires
        args.len() >= 1,
        is_builtin_name(args[0]),
    ensures
        spec_type(args, env) == (OutcomeView::Output { line: args[0] + " is a built-in command"@ }),
        !(spec_type(args, env) is TypeSearch),
{
}

/// A line whose first token is not registered either fails at dispatch
/// with status exactly 127, or asks for a fallback search — and a fallback
/// search that exhausts its candidates records 127 too, by the contract of
/// `Shell::finish_exec_search`.  No other path records 127.
pub proof fn lemma_unresolved_name_yields_127(st: int, line: Seq<char>, env: EnvView)
    requires
        spec_tokens(line).len() > 0,
        !is_builtin_name(spec_tokens(line)[0]),
        !spec_has_separator(spec_tokens(line)[0]),
    ensures
        spec_run(st, line, env).0 is Error || spec_run(st, line, env).0 is ExecSearch,
        spec_run(st, line, env).0 matches OutcomeView::Error { error } ==> is_resolution_failure(
            error,
        ) && spec_run(st, line, env).1 == 127,
        spec_run(st, line, env).0 matches OutcomeView::ExecSearch { fallback, .. } ==> fallback,
{
}

/// The argument token `$?`, and only that exact token, expands to the
/// decimal rendering of the recorded status.
pub proof fn lemma_echo_reports_status(st: int)
    ensures
        spec_echo_line(seq!["$?"@], st) == spec_int_dec(st),
{
    let f = |a: Seq<char>| spec_expand_arg(a, st);
    assert(seq!["$?"@].map_values(f) =~= seq![spec_int_dec(st)]);
    assert(spec_join(seq![spec_int_dec(st)]) == spec_int_dec(st));
}

/// The three statuses a dispatch can record render as the texts a user
/// sees from `echo $?`: `0` after success, `1` after a built-in failure,
/// `127` after a resolution failure.
pub proof fn lemma_status_digits()
    ensures
        spec_int_dec(0) == "0"@,
        spec_int_dec(1) == "1"@,
        spec_int_dec(127) == "127"@,
{
    reveal_strlit("0");
    reveal_strlit("1");
    reveal_strlit("127");
    assert(spec_dec(0nat) =~= "0"@);
    assert(spec_dec(1nat) =~= "1"@);
    assert(spec_dec(1nat) == seq!['1']);
    assert(spec_dec(12nat) == spec_dec(1nat).push('2'));
    assert(spec_dec(127nat) == spec_dec(12nat).push('7'));
    assert(spec_dec(127nat) =~= "127"@);
}

/// `echo $?` dispatched as a built-in reports exactly the current status.
pub proof fn lemma_echo_command_reports_status(st: int, env: EnvView)
    ensures
        spec_builtin_execute("echo"@, st, seq!["$?"@], env) == (OutcomeView::Output {
            line: spec_int_dec(st),
        }),
{
    lemma_builtin_names_distinct();
    lemma_echo_reports_status(st);
}

/// Only the exact token `$?` is substituted: arguments that are not that
/// token come out verbatim, single-space-joined.
pub proof fn lemma_echo_leaves_plain_args(args: Seq<Seq<char>>, st: int)
    requires
        forall|i: int| 0 <= i < args.len() ==> args[i] != "$?"@,
    ensures
        spec_echo_line(args, st) == spec_join(args),
{
    assert(args.map_values(|a: Seq<char>| spec_expand_arg(a, st)) =~= args);
}

/// Dispatching the whole line `echo $?` prints exactly the recorded status
/// and records success.
pub proof fn lemma_status_query_line(st: int, env: EnvView)
    ensures
        spec_run(st, "echo $?"@, env).0 == (OutcomeView::Output { line: spec_int_dec(st) }),
        spec_run(st, "echo $?"@, env).1 == 0,
{
    reveal_strlit("echo $?");
    reveal_strlit("echo");
    reveal_strlit("$?");
    let line = "echo $?"@;
    assert(spec_tokens(line) =~= seq!["echo"@, "$?"@]) by {
        reveal_with_fuel(tokens_acc, 9);
        assert(line.len() == 7);
        assert(line.skip(5) =~= line.skip(4).drop_first());
        assert(line.skip(4)[0] == ' ');
        assert(tokens_acc(line, Seq::empty()) == seq!["echo"@] + tokens_acc(
            line.skip(5),
            Seq::empty(),
        )) by {
            assert(line.drop_first() =~= line.skip(1));
            assert(line.skip(1).drop_first() =~= line.skip(2));
            assert(line.skip(2).drop_first() =~= line.skip(3));
            assert(line.skip(3).drop_first() =~= line.skip(4));
            assert(line.skip(4).drop_first() =~= line.skip(5));
            assert(Seq::<char>::empty().push('e').push('c').push('h').push('o') =~= "echo"@);
        }
        assert(line.skip(5).drop_first() =~= line.skip(6));
        assert(line.skip(6).drop_first() =~= line.skip(7));
        assert(line.skip(7) =~= Seq::<char>::empty());
        assert(tokens_acc(line.skip(5), Seq::empty()) =~= seq!["$?"@]) by {
            assert(Seq::<char>::empty().push('$').push('?') =~= "$?"@);
        }
    }
    lemma_builtin_names_distinct();
    assert(is_builtin_name(spec_tokens(line)[0]));
    assert(spec_tokens(line).drop_first() =~= seq!["$?"@]);
    lemma_echo_command_reports_status(st, env);
}

proof fn lemma_tokens_acc_all_space(s: Seq<char>)
    requires
        forall|i: int| 0 <= i < s.len() ==> is_space_char(s[i]),
    ensures
        tokens_acc(s, Seq::empty()) == Seq::<Seq<char>>::empty(),
    decreases s.len(),
{
    if s.len() == 0 {
    } else {
        assert(is_space_char(s[0]));
        assert(forall|i: int|
            0 <= i < s.drop_first().len() ==> is_space_char(#[trigger] s.drop_first()[i]));
        lemma_tokens_acc_all_space(s.drop_first());
    }
}

/// A blank line — empty, or whitespace only — is a no-op: no outcome, and
/// the status is left exactly as it was.
pub proof fn lemma_blank_line_is_no_op(st: int, line: Seq<char>, env: EnvView)
    requires
        forall|i: int| 0 <= i < line.len() ==> is_space_char(line[i]),
    ensures
        spec_run(st, line, env) == (OutcomeView::Quiet, st),
{
    lemma_tokens_acc_all_space(line);
}

/// `help` with an argument prints exactly that command's name and its
/// documented syntax line, and fails naming the argument when no such
/// command is registered.
pub proof fn lemma_help_names_topic(args: Seq<Seq<char>>)
    requires
        args.len() >= 1,
    ensures
        is_builtin_name(args[0]) ==> spec_help(args) == (OutcomeView::Output {
            line: args[0] + ": "@ + spec_syntax_of(args[0]),
        }),
        !is_builtin_name(args[0]) ==> spec_help(args) == (OutcomeView::Error {
            error: ErrView::UnknownHelpTopic { name: args[0] },
        }),
{
}

} // verus!
