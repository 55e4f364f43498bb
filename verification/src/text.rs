//! Plain text utilities: string equality and containment tests, decimal
//! rendering of status codes, whitespace tokenization, separator splitting
//! and single-space joining, each proved against a spec-level model.

use vstd::prelude::*;
use vstd::string::StrSliceExecFns;
use vstd::string::StringExecFns;

verus! {

/// Relies on `String::from_iter` (via `Iterator::collect` on `char`s):
/// collecting characters yields the string of exactly those characters.
#[verifier::external_body]
pub fn chars_to_string(v: &Vec<char>) -> (r: String)
    ensures
        r@ == v@,
{
    v.iter().collect()
}

/// Character-wise string equality, proved sound against the views.
pub fn str_eq(a: &str, b: &str) -> (r: bool)
    ensures
        r == (a@ == b@),
{
    let la = a.unicode_len();
    let lb = b.unicode_len();
    if la != lb {
        return false;
    }
    let mut i: usize = 0;
    while i < la
        invariant
            a@.len() == la,
            b@.len() == la,
            0 <= i <= la,
            forall|j: int| 0 <= j < i ==> a@[j] == b@[j],
        decreases la - i,
    {
        if a.get_char(i) != b.get_char(i) {
            return false;
        }
        i += 1;
    }
    proof {
        assert(a@ =~= b@);
    }
    true
}

/// Whether `c` occurs in `s`.
pub open spec fn contains_char(s: Seq<char>, c: char) -> bool {
    exists|i: int| 0 <= i < s.len() && s[i] == c
}

pub fn str_contains_char(s: &str, c: char) -> (r: bool)
    ensures
        r == contains_char(s@, c),
{
    let n = s.unicode_len();
    let mut i: usize = 0;
    while i < n
        invariant
            s@.len() == n,
            0 <= i <= n,
            forall|j: int| 0 <= j < i ==> s@[j] != c,
        decreases n - i,
    {
        if s.get_char(i) == c {
            return true;
        }
        i += 1;
    }
    false
}

/// The decimal digit character for `d` in `0 ..= 9`.
pub open spec fn spec_digit(d: int) -> char {
    if d == 0 {
        '0'
    } else if d == 1 {
        '1'
    } else if d == 2 {
        '2'
    } else if d == 3 {
        '3'
    } else if d == 4 {
        '4'
    } else if d == 5 {
        '5'
    } else if d == 6 {
        '6'
    } else if d == 7 {
        '7'
    } else if d == 8 {
        '8'
    } else {
        '9'
    }
}

/// Decimal rendering of a nonnegative integer, most significant digit first.
pub open spec fn spec_dec(n: nat) -> Seq<char>
    decreases n,
{
    if n < 10 {
        seq![spec_digit(n as int)]
    } else {
        spec_dec(n / 10).push(spec_digit((n % 10) as int))
    }
}

/// Decimal rendering of a signed integer, with a leading `-` when negative.
pub open spec fn spec_int_dec(n: int) -> Seq<char> {
    if n < 0 {
        seq!['-'] + spec_dec((-n) as nat)
    } else {
        spec_dec(n as nat)
    }
}

fn digit_char(d: u64) -> (c: char)
    requires
        d < 10,
    ensures
        c == spec_digit(d as int),
{
    if d == 0 {
        '0'
    } else if d == 1 {
        '1'
    } else if d == 2 {
        '2'
    } else if d == 3 {
        '3'
    } else if d == 4 {
        '4'
    } else if d == 5 {
        '5'
    } else if d == 6 {
        '6'
    } else if d == 7 {
        '7'
    } else if d == 8 {
        '8'
    } else {
        '9'
    }
}

fn push_digits(n: u64, out: &mut Vec<char>)
    ensures
        final(out)@ == old(out)@ + spec_dec(n as nat),
    decreases n,
{
    if n < 10 {
        out.push(digit_char(n));
        proof {
            assert(out@ =~= old(out)@ + spec_dec(n as nat));
        }
    } else {
        proof {
            assert(n / 10 < n && n % 10 < 10) by (nonlinear_arith)
                requires
                    n >= 10,
            ;
        }
        push_digits(n / 10, out);
        out.push(digit_char(n % 10));
        proof {
            assert(out@ =~= old(out)@ + spec_dec(n as nat));
        }
    }
}

/// The decimal text of a status code, e.g. `-5` becomes `"-5"`.
pub fn status_string(st: i32) -> (r: String)
    ensures
        r@ == spec_int_dec(st as int),
{
    let mut v: Vec<char> = Vec::new();
    if st < 0 {
        v.push('-');
        let m: i64 = -(st as i64);
        push_digits(m as u64, &mut v);
        proof {
            assert(v@ =~= spec_int_dec(st as int));
        }
    } else {
        push_digits(st as u64, &mut v);
        proof {
            assert(v@ =~= spec_int_dec(st as int));
        }
    }
    chars_to_string(&v)
}

/// Whitespace for the tokenizer: space, tab, carriage return, line feed.
pub open spec fn is_space_char(c: char) -> bool {
    c == ' ' || c == '\t' || c == '\r' || c == '\n'
}

fn is_space(c: char) -> (r: bool)
    ensures
        r == is_space_char(c),
{
    c == ' ' || c == '\t' || c == '\r' || c == '\n'
}

/// Tokens of `s` with `cur` as the partially read token: maximal runs of
/// non-whitespace characters, in order.
pub open spec fn tokens_acc(s: Seq<char>, cur: Seq<char>) -> Seq<Seq<char>>
    decreases s.len(),
{
    if s.len() == 0 {
        if cur.len() == 0 {
            Seq::empty()
        } else {
            seq![cur]
        }
    } else if is_space_char(s[0]) {
        if cur.len() == 0 {
            tokens_acc(s.drop_first(), Seq::empty())
        } else {
            seq![cur] + tokens_acc(s.drop_first(), Seq::empty())
        }
    } else {
        tokens_acc(s.drop_first(), cur.push(s[0]))
    }
}

/// The whitespace-delimited tokens of a line, in order.
pub open spec fn spec_tokens(s: Seq<char>) -> Seq<Seq<char>> {
    tokens_acc(s, Seq::empty())
}

/// Splits a line into whitespace-delimited tokens; consecutive whitespace
/// collapses, and an all-whitespace line yields no tokens.
pub fn tokenize(input: &str) -> (r: Vec<String>)
    ensures
        r.deep_view() == spec_tokens(input@),
{
    let n = input.unicode_len();
    let mut toks: Vec<String> = Vec::new();
    let mut cur: Vec<char> = Vec::new();
    let mut i: usize = 0;
    proof {
        assert(input@.skip(0) =~= input@);
        assert(toks.deep_view() =~= Seq::<Seq<char>>::empty());
        assert(toks.deep_view() + tokens_acc(input@, Seq::empty()) =~= tokens_acc(
            input@,
            Seq::empty(),
        ));
    }
    while i < n
        invariant
            input@.len() == n,
            0 <= i <= n,
            spec_tokens(input@) == toks.deep_view() + tokens_acc(
                input@.skip(i as int),
                cur@,
            ),
        decreases n - i,
    {
        let ghost pre_toks = toks.deep_view();
        let ghost pre_cur = cur@;
        let ghost rest = input@.skip(i as int);
        proof {
            assert(rest.len() > 0);
            assert(rest[0] == input@[i as int]);
            assert(rest.drop_first() =~= input@.skip(i as int + 1));
        }
        let c = input.get_char(i);
        if is_space(c) {
            if cur.len() > 0 {
                let t = chars_to_string(&cur);
                toks.push(t);
                cur = Vec::new();
                proof {
                    assert(toks.deep_view() =~= pre_toks.push(pre_cur));
                    assert(tokens_acc(rest, pre_cur) == seq![pre_cur] + tokens_acc(
                        input@.skip(i as int + 1),
                        Seq::empty(),
                    ));
                    assert(pre_toks + (seq![pre_cur] + tokens_acc(
                        input@.skip(i as int + 1),
                        Seq::empty(),
                    )) =~= toks.deep_view() + tokens_acc(input@.skip(i as int + 1), cur@));
                }
            } else {
                proof {
                    assert(cur@ =~= Seq::<char>::empty());
                    assert(tokens_acc(rest, pre_cur) == tokens_acc(
                        input@.skip(i as int + 1),
                        cur@,
                    ));
                }
            }
        } else {
            cur.push(c);
            proof {
                assert(cur@ =~= pre_cur.push(input@[i as int]));
                assert(!is_space_char(rest[0]));
                assert(tokens_acc(rest, pre_cur) == tokens_acc(
                    rest.drop_first(),
                    pre_cur.push(rest[0]),
                ));
                assert(pre_cur.push(rest[0]) == cur@);
                assert(rest.drop_first() == input@.skip(i as int + 1));
                assert(tokens_acc(rest, pre_cur) == tokens_acc(input@.skip(i as int + 1), cur@));
            }
        }
        i += 1;
    }
    proof {
        assert(input@.skip(n as int) =~= Seq::<char>::empty());
    }
    if cur.len() > 0 {
        let ghost pre_toks = toks.deep_view();
        let t = chars_to_string(&cur);
        toks.push(t);
        proof {
            assert(toks.deep_view() =~= pre_toks.push(cur@));
            assert(pre_toks + seq![cur@] =~= pre_toks.push(cur@));
        }
    } else {
        proof {
            assert(toks.deep_view() + Seq::<Seq<char>>::empty() =~= toks.deep_view());
        }
    }
    toks
}

/// Pieces of `s` cut at every occurrence of `sep`, empty pieces kept,
/// with `cur` as the partially read piece.
pub open spec fn split_acc(s: Seq<char>, sep: char, cur: Seq<char>) -> Seq<Seq<char>>
    decreases s.len(),
{
    if s.len() == 0 {
        seq![cur]
    } else if s[0] == sep {
        seq![cur] + split_acc(s.drop_first(), sep, Seq::empty())
    } else {
        split_acc(s.drop_first(), sep, cur.push(s[0]))
    }
}

/// Pieces of `s` cut at every occurrence of `sep`; empty pieces are kept,
/// and an empty string yields one empty piece.
pub open spec fn spec_split(s: Seq<char>, sep: char) -> Seq<Seq<char>> {
    split_acc(s, sep, Seq::empty())
}

/// Cuts `input` at every occurrence of `sep`, keeping empty pieces.
pub fn split_on(input: &str, sep: char) -> (r: Vec<String>)
    ensures
        r.deep_view() == spec_split(input@, sep),
{
    let n = input.unicode_len();
    let mut pieces: Vec<String> = Vec::new();
    let mut cur: Vec<char> = Vec::new();
    let mut i: usize = 0;
    proof {
        assert(input@.skip(0) =~= input@);
        assert(pieces.deep_view() =~= Seq::<Seq<char>>::empty());
        assert(pieces.deep_view() + split_acc(input@, sep, Seq::empty()) =~= split_acc(
            input@,
            sep,
            Seq::empty(),
        ));
    }
    while i < n
        invariant
            input@.len() == n,
            0 <= i <= n,
            spec_split(input@, sep) == pieces.deep_view() + split_acc(
                input@.skip(i as int),
                sep,
                cur@,
            ),
        decreases n - i,
    {
        let ghost pre_pieces = pieces.deep_view();
        let ghost pre_cur = cur@;
        let ghost rest = input@.skip(i as int);
        proof {
            assert(rest.len() > 0);
            assert(rest[0] == input@[i as int]);
            assert(rest.drop_first() =~= input@.skip(i as int + 1));
        }
        let c = input.get_char(i);
        if c == sep {
            let p = chars_to_string(&cur);
            pieces.push(p);
            cur = Vec::new();
            proof {
                assert(pieces.deep_view() =~= pre_pieces.push(pre_cur));
                assert(pre_pieces + (seq![pre_cur] + split_acc(
                    input@.skip(i as int + 1),
                    sep,
                    Seq::empty(),
                )) =~= pieces.deep_view() + split_acc(input@.skip(i as int + 1), sep, cur@));
            }
        } else {
            cur.push(c);
            proof {
                assert(cur@ =~= pre_cur.push(input@[i as int]));
                assert(split_acc(rest, sep, pre_cur) == split_acc(
                    input@.skip(i as int + 1),
                    sep,
                    cur@,
                ));
            }
        }
        i += 1;
    }
    proof {
        assert(input@.skip(n as int) =~= Seq::<char>::empty());
    }
    let ghost pre_pieces = pieces.deep_view();
    let p = chars_to_string(&cur);
    pieces.push(p);
    proof {
        assert(pieces.deep_view() =~= pre_pieces.push(cur@));
        assert(pre_pieces + seq![cur@] =~= pre_pieces.push(cur@));
    }
    pieces
}

/// The pieces joined with a single space between consecutive pieces.
pub open spec fn spec_join(parts: Seq<Seq<char>>) -> Seq<char>
    decreases parts.len(),
{
    if parts.len() == 0 {
        Seq::empty()
    } else if parts.len() == 1 {
        parts[0]
    } else {
        parts[0] + seq![' '] + spec_join(parts.drop_first())
    }
}

proof fn lemma_join_push(parts: Seq<Seq<char>>, x: Seq<char>)
    ensures
        parts.len() == 0 ==> spec_join(parts.push(x)) == x,
        parts.len() > 0 ==> spec_join(parts.push(x)) == spec_join(parts) + seq![' '] + x,
    decreases parts.len(),
{
    if parts.len() == 0 {
        assert(parts.push(x)[0] == x);
        assert(spec_join(parts.push(x)) == x);
    } else if parts.len() == 1 {
        assert(parts.push(x).drop_first() =~= seq![x]);
        assert(parts.push(x)[0] == parts[0]);
        assert(spec_join(seq![x]) == x);
        assert(spec_join(parts) == parts[0]);
        assert(spec_join(parts.push(x)) == parts[0] + seq![' '] + x);
    } else {
        lemma_join_push(parts.drop_first(), x);
        assert(parts.push(x).drop_first() =~= parts.drop_first().push(x));
        assert(spec_join(parts) + seq![' '] + x =~= parts[0] + seq![' '] + (spec_join(
            parts.drop_first(),
        ) + seq![' '] + x));
    }
}

/// Joins the pieces with single spaces: `["a", "b"]` becomes `"a b"`.
pub fn join_spaces(parts: &Vec<String>) -> (r: String)
    ensures
        r@ == spec_join(parts.deep_view()),
{
    let mut out = String::new();
    let n = parts.len();
    let mut i: usize = 0;
    while i < n
        invariant
            parts@.len() == n,
            0 <= i <= n,
            out@ == spec_join(parts.deep_view().take(i as int)),
        decreases n - i,
    {
        let ghost dv = parts.deep_view();
        proof {
            reveal_strlit(" ");
            assert(" "@ =~= seq![' ']);
            assert(dv.take(i as int + 1) =~= dv.take(i as int).push(dv[i as int]));
            assert(dv[i as int] == parts@[i as int]@);
            lemma_join_push(dv.take(i as int), dv[i as int]);
        }
        if i > 0 {
            out.append(" ");
            proof {
                assert(dv.take(i as int).len() > 0);
            }
        }
        out.append(parts[i].as_str());
        proof {
            assert(out@ =~= spec_join(parts.deep_view().take(i as int + 1)));
        }
        i += 1;
    }
    proof {
        assert(parts.deep_view().take(n as int) =~= parts.deep_view());
    }
    out
}

} // verus!
