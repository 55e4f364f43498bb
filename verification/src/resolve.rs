//! Executable resolution: the ordered candidate paths that a lookup must
//! probe, for both the `type` search (exact name, no suffixes) and the
//! `exec`/fallback search (directory order outer, suffix order inner).

use vstd::prelude::*;
use vstd::arithmetic::div_mod::lemma_fundamental_div_mod_converse;
use vstd::string::StringExecFns;
use crate::text::{contains_char, spec_split, split_on, str_contains_char};

verus! {

/// The suffix list tried when the suffix environment variable is absent.
pub open spec fn spec_default_suffixes() -> Seq<char> {
    ".EXE;.BAT;.CMD"@
}

/// `dir`, a path separator, `name`, then `suffix`.
pub open spec fn spec_candidate(dir: Seq<char>, name: Seq<char>, suffix: Seq<char>) -> Seq<char> {
    dir + "/"@ + name + suffix
}

/// All candidate paths for an `exec` search: directory order outer,
/// suffix order inner.
pub open spec fn spec_exec_candidates(
    name: Seq<char>,
    dirs: Seq<Seq<char>>,
    suffixes: Seq<Seq<char>>,
) -> Seq<Seq<char>> {
    Seq::new(
        dirs.len() * suffixes.len(),
        |k: int|
            spec_candidate(
                dirs[k / suffixes.len() as int],
                name,
                suffixes[k % suffixes.len() as int],
            ),
    )
}

/// All candidate paths for a `type` search: one per directory, no suffixes.
pub open spec fn spec_type_candidates(name: Seq<char>, dirs: Seq<Seq<char>>) -> Seq<Seq<char>> {
    Seq::new(dirs.len(), |i: int| spec_candidate(dirs[i], name, Seq::empty()))
}

/// The candidate at directory `i` and suffix `j` stands at position
/// `i * suffixes.len() + j`: directories are tried in listed order, and
/// within one directory every suffix is tried before the next directory.
pub proof fn lemma_candidate_order(
    name: Seq<char>,
    dirs: Seq<Seq<char>>,
    suffixes: Seq<Seq<char>>,
    i: int,
    j: int,
)
    requires
        0 <= i < dirs.len(),
        0 <= j < suffixes.len(),
    ensures
        spec_exec_candidates(name, dirs, suffixes).len() == dirs.len() * suffixes.len(),
        spec_exec_candidates(name, dirs, suffixes)[i * suffixes.len() + j] == spec_candidate(
            dirs[i],
            name,
            suffixes[j],
        ),
{
    let m = suffixes.len() as int;
    let k = i * m + j;
    lemma_fundamental_div_mod_converse(k, m, i, j);
    assert(0 <= k < dirs.len() * m) by (nonlinear_arith)
        requires
            0 <= i < dirs.len(),
            0 <= j < m,
            k == i * m + j,
    ;
}

fn join_candidate(dir: &String, name: &str, suffix: &str) -> (r: String)
    ensures
        r@ == spec_candidate(dir@, name@, suffix@),
{
    let mut s = dir.clone();
    s.append("/");
    s.append(name);
    s.append(suffix);
    proof {
        assert(s@ =~= spec_candidate(dir@, name@, suffix@));
    }
    s
}

/// Builds the `exec` candidate list: for each directory in order, for each
/// suffix in order, `dir/name+suffix`.
pub fn exec_candidates(name: &str, dirs: &Vec<String>, suffixes: &Vec<String>) -> (r: Vec<String>)
    ensures
        r.deep_view() == spec_exec_candidates(name@, dirs.deep_view(), suffixes.deep_view()),
{
    let m = suffixes.len();
    let mut out: Vec<String> = Vec::new();
    let mut i: usize = 0;
    while i < dirs.len()
        invariant
            suffixes@.len() == m,
            0 <= i <= dirs@.len(),
            out.deep_view().len() == i * m,
            forall|k: int|
                0 <= k < out.deep_view().len() ==> out.deep_view()[k] == spec_candidate(
                    dirs.deep_view()[k / m as int],
                    name@,
                    suffixes.deep_view()[k % m as int],
                ),
        decreases dirs@.len() - i,
    {
        let mut j: usize = 0;
        while j < m
            invariant
                suffixes@.len() == m,
                0 <= i < dirs@.len(),
                0 <= j <= m,
                out.deep_view().len() == i * m + j,
                forall|k: int|
                    0 <= k < out.deep_view().len() ==> out.deep_view()[k] == spec_candidate(
                        dirs.deep_view()[k / m as int],
                        name@,
                        suffixes.deep_view()[k % m as int],
                    ),
            decreases m - j,
        {
            let ghost pre = out.deep_view();
            let c = join_candidate(&dirs[i], name, suffixes[j].as_str());
            out.push(c);
            proof {
                assert(out.deep_view() =~= pre.push(c@));
                lemma_fundamental_div_mod_converse(
                    i as int * m as int + j as int,
                    m as int,
                    i as int,
                    j as int,
                );
            }
            j += 1;
        }
        proof {
            assert(i as int * m as int + m as int == (i as int + 1) * m as int)
                by (nonlinear_arith);
        }
        i += 1;
    }
    proof {
        assert(out.deep_view() =~= spec_exec_candidates(
            name@,
            dirs.deep_view(),
            suffixes.deep_view(),
        ));
    }
    out
}

/// Builds the `type` candidate list: `dir/name` for each directory in order.
pub fn type_candidates(name: &str, dirs: &Vec<String>) -> (r: Vec<String>)
    ensures
        r.deep_view() == spec_type_candidates(name@, dirs.deep_view()),
{
    let mut out: Vec<String> = Vec::new();
    let mut i: usize = 0;
    while i < dirs.len()
        invariant
            0 <= i <= dirs@.len(),
            out.deep_view().len() == i,
            forall|k: int|
                0 <= k < i ==> out.deep_view()[k] == spec_candidate(
                    dirs.deep_view()[k],
                    name@,
                    Seq::empty(),
                ),
        decreases dirs@.len() - i,
    {
        let ghost pre = out.deep_view();
        let c = join_candidate(&dirs[i], name, "");
        out.push(c);
        proof {
            reveal_strlit("");
            assert(""@ =~= Seq::<char>::empty());
            assert(out.deep_view() =~= pre.push(c@));
        }
        i += 1;
    }
    proof {
        assert(out.deep_view() =~= spec_type_candidates(name@, dirs.deep_view()));
    }
    out
}

/// The suffix list in force: the suffix variable's value split on `;`,
/// or the documented default split the same way when the variable is absent.
pub open spec fn spec_suffixes(pathext: Option<Seq<char>>) -> Seq<Seq<char>> {
    match pathext {
        Some(p) => spec_split(p, ';'),
        None => spec_split(spec_default_suffixes(), ';'),
    }
}

/// Splits the suffix variable (or the default list) into its suffixes.
pub fn suffixes_of(pathext: &Option<String>) -> (r: Vec<String>)
    ensures
        r.deep_view() == spec_suffixes(match pathext {
            Some(p) => Some(p@),
            None => None,
        }),
{
    match pathext {
        Some(p) => split_on(p.as_str(), ';'),
        None => split_on(".EXE;.BAT;.CMD", ';'),
    }
}

/// Whether the program name carries a path separator and is therefore used
/// as a literal path, skipping the search.
pub open spec fn spec_has_separator(name: Seq<char>) -> bool {
    contains_char(name, '/') || contains_char(name, '\\')
}

pub fn has_separator(name: &str) -> (r: bool)
    ensures
        r == spec_has_separator(name@),
{
    str_contains_char(name, '/') || str_contains_char(name, '\\')
}

} // verus!
