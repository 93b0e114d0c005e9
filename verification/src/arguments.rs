//! Command-line flags, and the process id found in the output of the
//! socket listing that `--replace` relies on.

use vstd::prelude::*;
use crate::text::{contains_char, str_eq};

verus! {

/// The text with every `-` removed.
pub open spec fn without_dashes(s: Seq<char>) -> Seq<char>
    decreases s.len(),
{
    if s.len() == 0 {
        s
    } else if s.last() == '-' {
        without_dashes(s.drop_last())
    } else {
        without_dashes(s.drop_last()).push(s.last())
    }
}

/// Long flag names stand for their one-letter forms: `replace` for `r`,
/// `daemon` for `d`; any other text stands for itself.
pub open spec fn alias_of(s: Seq<char>) -> Seq<char> {
    if s == "replace"@ {
        "r"@
    } else if s == "daemon"@ {
        "d"@
    } else {
        s
    }
}

/// The flag letters that one argument contributes.
pub open spec fn flag_letters(arg: Seq<char>) -> Seq<char> {
    alias_of(without_dashes(arg))
}

/// Some argument after the program name contributes the letter `c`.
pub open spec fn mentions(args: Seq<String>, c: char) -> bool {
    exists|i: int| 1 <= i < args.len() && (#[trigger] flag_letters(args[i]@)).contains(c)
}

/// The options of a run: the program's own name, whether to start as a
/// daemon, and whether to replace an instance that is already running.
#[derive(Debug)]
pub struct RunArgs {
    pub program_name: String,
    pub daemon_mode: bool,
    pub replace: bool,
}

impl Clone for RunArgs {
    fn clone(&self) -> (c: Self)
        ensures
            c == *self,
    {
        RunArgs {
            program_name: self.program_name.clone(),
            daemon_mode: self.daemon_mode,
            replace: self.replace,
        }
    }
}

impl Default for RunArgs {
    fn default() -> (r: Self)
        ensures
            r.program_name@ == Seq::<char>::empty(),
            !r.daemon_mode,
            !r.replace,
    {
        RunArgs { program_name: String::new(), daemon_mode: false, replace: false }
    }
}

/// Maps the long flag names to their letters, as [`alias_of`] states.
pub fn replace_alias(input: &str) -> (r: String)
    ensures
        r@ == alias_of(input@),
{
    if str_eq(input, "replace") {
        String::from_str("r")
    } else if str_eq(input, "daemon") {
        String::from_str("d")
    } else {
        String::from_str(input)
    }
}

/// The text with every `-` removed.
pub fn remove_dashes(s: &str) -> (r: String)
    ensures
        r@ == without_dashes(s@),
{
    let n = s.unicode_len();
    let mut r = String::new();
    let mut j: usize = 0;
    while j < n
        invariant
            n == s@.len(),
            j <= n,
            r@ == without_dashes(s@.take(j as int)),
        decreases n - j,
    {
        proof {
            assert(s@.take(j as int + 1).drop_last() =~= s@.take(j as int));
        }
        let c = s.get_char(j);
        if c != '-' {
            let piece = s.substring_char(j, j + 1);
            r.append(piece);
            assert(piece@ =~= seq![c]);
        }
        j = j + 1;
    }
    assert(s@.take(n as int) =~= s@);
    r
}

/// Reads the options from the command line `args`, whose first entry is the
/// program's name: each later argument, without its dashes and with long
/// names replaced by their letters, contributes its letters; `r` asks to
/// replace a running instance and `d` to start as a daemon.
pub fn parse_run_args(args: &Vec<String>) -> (r: RunArgs)
    requires
        args@.len() >= 1,
    ensures
        r.program_name@ == args@[0]@,
        r.replace == mentions(args@, 'r'),
        r.daemon_mode == mentions(args@, 'd'),
{
    let mut run_args = RunArgs::default();
    run_args.program_name = args[0].clone();
    let n = args.len();
    let mut i: usize = 1;
    while i < n
        invariant
            n == args@.len(),
            1 <= i <= n,
            run_args.program_name@ == args@[0]@,
            run_args.replace == exists|k: int|
                1 <= k < i && (#[trigger] flag_letters(args@[k]@)).contains('r'),
            run_args.daemon_mode == exists|k: int|
                1 <= k < i && (#[trigger] flag_letters(args@[k]@)).contains('d'),
        decreases n - i,
    {
        let stripped = remove_dashes(args[i].as_str());
        let letters = replace_alias(stripped.as_str());
        assert(letters@ == flag_letters(args@[i as int]@));
        if contains_char(letters.as_str(), 'r') {
            run_args.replace = true;
        }
        if contains_char(letters.as_str(), 'd') {
            run_args.daemon_mode = true;
        }
        i = i + 1;
    }
    run_args
}


/// Characters that `str::trim` removes: those with the Unicode property
/// `White_Space`.
pub open spec fn is_white_space(c: char) -> bool {
    let u = c as u32;
    ||| 0x9 <= u <= 0xd
    ||| u == 0x20
    ||| u == 0x85
    ||| u == 0xa0
    ||| u == 0x1680
    ||| 0x2000 <= u <= 0x200a
    ||| u == 0x2028
    ||| u == 0x2029
    ||| u == 0x202f
    ||| u == 0x205f
    ||| u == 0x3000
}

/// The text without its leading white space.
pub open spec fn trim_start_ws(s: Seq<char>) -> Seq<char>
    decreases s.len(),
{
    if s.len() > 0 && is_white_space(s[0]) {
        trim_start_ws(s.drop_first())
    } else {
        s
    }
}

/// The text without its trailing white space.
pub open spec fn trim_end_ws(s: Seq<char>) -> Seq<char>
    decreases s.len(),
{
    if s.len() > 0 && is_white_space(s.last()) {
        trim_end_ws(s.drop_last())
    } else {
        s
    }
}

/// The text without leading and trailing white space.
pub open spec fn trim_ws(s: Seq<char>) -> Seq<char> {
    trim_end_ws(trim_start_ws(s))
}

/// The marker `pid=` that the socket listing puts before a process id.
pub open spec fn pid_marker() -> Seq<char> {
    seq!['p', 'i', 'd', '=']
}

/// The text with every occurrence of `pid=` removed, scanning from the left.
pub open spec fn without_pid_markers(s: Seq<char>) -> Seq<char>
    decreases s.len(),
{
    if s.len() == 0 {
        s
    } else if s.len() >= 4 && s.take(4) == pid_marker() {
        without_pid_markers(s.skip(4))
    } else {
        seq![s[0]] + without_pid_markers(s.drop_first())
    }
}

pub open spec fn is_digit(c: char) -> bool {
    '0' <= c <= '9'
}

pub open spec fn all_digits(s: Seq<char>) -> bool {
    forall|i: int| 0 <= i < s.len() ==> is_digit(#[trigger] s[i])
}

/// The number that a sequence of decimal digits writes.
pub open spec fn digits_value(s: Seq<char>) -> int
    decreases s.len(),
{
    if s.len() == 0 {
        0
    } else {
        digits_value(s.drop_last()) * 10 + (s.last() as int - 48)
    }
}

/// What parsing the text as an `i32` gives: an optional `+` or `-`, then
/// one or more decimal digits writing a value within range.
pub open spec fn parse_i32(s: Seq<char>) -> Option<i32> {
    if s.len() == 0 {
        None
    } else {
        let digits = if s[0] == '-' || s[0] == '+' {
            s.drop_first()
        } else {
            s
        };
        if digits.len() == 0 || !all_digits(digits) {
            None
        } else {
            let v = if s[0] == '-' {
                -digits_value(digits)
            } else {
                digits_value(digits)
            };
            if i32::MIN <= v <= i32::MAX {
                Some(v as i32)
            } else {
                None
            }
        }
    }
}

/// The process id in the output of the socket listing: the output trimmed,
/// without `pid=` markers, parsed as an `i32`.
pub open spec fn socket_pid_of(output: Seq<char>) -> Option<i32> {
    parse_i32(without_pid_markers(trim_ws(output)))
}

/// Whether `c` is white space, as [`is_white_space`] states.
fn white_space(c: char) -> (r: bool)
    ensures
        r == is_white_space(c),
{
    let u = c as u32;
    (0x9 <= u && u <= 0xd) || u == 0x20 || u == 0x85 || u == 0xa0 || u == 0x1680 || (0x2000 <= u
        && u <= 0x200a) || u == 0x2028 || u == 0x2029 || u == 0x202f || u == 0x205f || u == 0x3000
}

proof fn lemma_digits_value_nonneg(s: Seq<char>)
    requires
        all_digits(s),
    ensures
        digits_value(s) >= 0,
    decreases s.len(),
{
    if s.len() > 0 {
        assert(all_digits(s.drop_last())) by {
            assert forall|i: int| 0 <= i < s.drop_last().len() implies is_digit(
                #[trigger] s.drop_last()[i],
            ) by {
                assert(s.drop_last()[i] == s[i]);
            }
        }
        lemma_digits_value_nonneg(s.drop_last());
        assert(is_digit(s[s.len() - 1]));
    }
}

/// A prefix of a digit sequence writes no larger a value than the whole.
proof fn lemma_digits_value_prefix(s: Seq<char>, k: int)
    requires
        all_digits(s),
        0 <= k <= s.len(),
    ensures
        digits_value(s.take(k)) <= digits_value(s),
    decreases s.len(),
{
    if k < s.len() {
        let p = s.drop_last();
        assert(all_digits(p)) by {
            assert forall|i: int| 0 <= i < p.len() implies is_digit(#[trigger] p[i]) by {
                assert(p[i] == s[i]);
            }
        }
        assert(p.take(k) =~= s.take(k));
        lemma_digits_value_prefix(p, k);
        lemma_digits_value_nonneg(p);
        assert(is_digit(s[s.len() - 1]));
    } else {
        assert(s.take(k) =~= s);
    }
}

/// Parses a sequence of characters as an `i32`, as [`parse_i32`] states.
pub fn parse_i32_chars(s: &Vec<char>) -> (r: Option<i32>)
    ensures
        r == parse_i32(s@),
{
    let n = s.len();
    if n == 0 {
        return None;
    }
    let negative = s[0] == '-';
    let start: usize = if s[0] == '-' || s[0] == '+' {
        1
    } else {
        0
    };
    let ghost digits = if s@[0] == '-' || s@[0] == '+' {
        s@.drop_first()
    } else {
        s@
    };
    assert(digits =~= s@.skip(start as int));
    if start == n {
        return None;
    }
    let mut acc: i64 = 0;
    let mut k: usize = start;
    while k < n
        invariant
            n == s@.len(),
            start <= k <= n,
            start < n,
            n > 0,
            negative == (s@[0] == '-'),
            digits == (if s@[0] == '-' || s@[0] == '+' {
                s@.drop_first()
            } else {
                s@
            }),
            digits =~= s@.skip(start as int),
            all_digits(digits.take(k - start)),
            acc == digits_value(digits.take(k - start)),
            0 <= acc <= 2147483648,
        decreases n - k,
    {
        let c = s[k];
        let ghost prev = digits.take(k - start);
        let ghost next = digits.take(k - start + 1);
        assert(next.drop_last() =~= prev);
        assert(next.last() == c);
        if !('0' <= c && c <= '9') {
            assert(!is_digit(digits[k - start]));
            return None;
        }
        assert(all_digits(next)) by {
            assert forall|i: int| 0 <= i < next.len() implies is_digit(#[trigger] next[i]) by {
                if i < next.len() - 1 {
                    assert(next[i] == prev[i]);
                }
            }
        }
        let d = (c as u32 - 48) as i64;
        assert(d == c as int - 48);
        acc = acc * 10 + d;
        if acc > 2147483648 {
            proof {
                if all_digits(digits) {
                    lemma_digits_value_prefix(digits, k - start + 1);
                }
            }
            return None;
        }
        k = k + 1;
    }
    assert(digits.take(n - start) =~= digits);
    let v: i64 = if negative {
        -acc
    } else {
        acc
    };
    if v < -2147483648 || v > 2147483647 {
        None
    } else {
        Some(v as i32)
    }
}

/// Finds the process id in the output of the socket listing, as
/// [`socket_pid_of`] states.
pub fn socket_pid_from_output(output: &str) -> (r: Option<i32>)
    ensures
        r == socket_pid_of(output@),
{
    let n = output.unicode_len();
    let ghost s = output@;
    let mut a: usize = 0;
    assert(s.subrange(0, n as int) =~= s);
    while a < n && white_space(output.get_char(a))
        invariant
            n == s.len(),
            s == output@,
            a <= n,
            trim_start_ws(s) == trim_start_ws(s.subrange(a as int, n as int)),
        decreases n - a,
    {
        assert(s.subrange(a as int, n as int).drop_first() =~= s.subrange(a + 1, n as int));
        a = a + 1;
    }
    assert(trim_start_ws(s.subrange(a as int, n as int)) == s.subrange(a as int, n as int));
    let mut b: usize = n;
    while b > a && white_space(output.get_char(b - 1))
        invariant
            n == s.len(),
            s == output@,
            a <= b <= n,
            trim_ws(s) == trim_end_ws(s.subrange(a as int, b as int)),
        decreases b - a,
    {
        assert(s.subrange(a as int, b as int).drop_last() =~= s.subrange(a as int, b - 1));
        b = b - 1;
    }
    let ghost t = s.subrange(a as int, b as int);
    assert(trim_ws(s) == t);

    let mut out: Vec<char> = Vec::new();
    let mut j: usize = a;
    assert(t.skip(0) =~= t);
    assert(out@ + without_pid_markers(t) =~= without_pid_markers(t));
    while j < b
        invariant
            n == s.len(),
            s == output@,
            a <= j <= b <= n,
            t == s.subrange(a as int, b as int),
            without_pid_markers(t) == out@ + without_pid_markers(t.skip(j - a)),
        decreases b - j,
    {
        let rest = Ghost(t.skip(j - a));
        if b - j >= 4 && output.get_char(j) == 'p' && output.get_char(j + 1) == 'i'
            && output.get_char(j + 2) == 'd' && output.get_char(j + 3) == '=' {
            assert(rest@.take(4) =~= pid_marker());
            assert(rest@.skip(4) =~= t.skip(j + 4 - a));
            j = j + 4;
        } else {
            let c = output.get_char(j);
            assert(rest@.len() >= 4 ==> rest@.take(4) != pid_marker()) by {
                if rest@.len() >= 4 && rest@.take(4) == pid_marker() {
                    assert(rest@.take(4)[0] == 'p');
                    assert(rest@.take(4)[1] == 'i');
                    assert(rest@.take(4)[2] == 'd');
                    assert(rest@.take(4)[3] == '=');
                }
            }
            assert(rest@.drop_first() =~= t.skip(j + 1 - a));
            assert(rest@[0] == c);
            let ghost before = out@;
            out.push(c);
            assert(without_pid_markers(rest@) == seq![c] + without_pid_markers(rest@.drop_first()));
            assert(out@ =~= before + seq![c]);
            j = j + 1;
        }
    }
    assert(t.skip(b - a) =~= Seq::<char>::empty());
    assert(out@ =~= without_pid_markers(t));
    parse_i32_chars(&out)
}

/// Law: naming a long flag or its letter is the same.
pub proof fn lemma_alias_idempotent(s: Seq<char>)
    ensures
        alias_of(alias_of(s)) == alias_of(s),
{
    reveal_strlit("replace");
    reveal_strlit("daemon");
    reveal_strlit("r");
    reveal_strlit("d");
    assert("r"@.len() == 1 && "d"@.len() == 1);
    assert("replace"@.len() == 7 && "daemon"@.len() == 6);
}

/// Law: more arguments never turn a flag off.
pub proof fn lemma_flags_monotone(args: Seq<String>, extra: String, c: char)
    requires
        mentions(args, c),
    ensures
        mentions(args.push(extra), c),
{
    let i = choose|i: int| 1 <= i < args.len() && (#[trigger] flag_letters(args[i]@)).contains(c);
    assert(args.push(extra)[i] == args[i]);
}

/// Law: removing dashes keeps every other character, in order: it is the
/// text filtered by "is not `-`".
pub proof fn lemma_without_dashes_is_filter(s: Seq<char>)
    ensures
        without_dashes(s) == s.filter(|c: char| c != '-'),
    decreases s.len(),
{
    reveal(Seq::filter);
    if s.len() > 0 {
        lemma_without_dashes_is_filter(s.drop_last());
    }
}

/// Removing dashes neither adds nor loses any other character.
proof fn lemma_without_dashes_contains(s: Seq<char>, c: char)
    requires
        c != '-',
    ensures
        without_dashes(s).contains(c) <==> s.contains(c),
    decreases s.len(),
{
    if s.len() > 0 {
        lemma_without_dashes_contains(s.drop_last(), c);
        let p = s.drop_last();
        if s.contains(c) && !p.contains(c) {
            let i = choose|i: int| 0 <= i < s.len() && s[i] == c;
            if i < p.len() {
                assert(p[i] == c);
            }
        }
        if p.contains(c) {
            let i = choose|i: int| 0 <= i < p.len() && p[i] == c;
            assert(s[i] == c);
        }
        let w = without_dashes(p);
        if w.contains(c) {
            let i = choose|i: int| 0 <= i < w.len() && w[i] == c;
            if s.last() != '-' {
                assert(w.push(s.last())[i] == c);
            }
        }
        if s.last() != '-' {
            let w2 = w.push(s.last());
            if w2.contains(c) {
                let i = choose|i: int| 0 <= i < w2.len() && w2[i] == c;
                if i < w.len() {
                    assert(w[i] == c);
                } else {
                    assert(s[s.len() - 1] == c);
                }
            }
            if s.last() == c {
                assert(w2[w.len() as int] == c);
            }
        }
    }
}

/// Law: the long names stand for their letters, and every other text for
/// itself.
pub proof fn lemma_alias_values(s: Seq<char>)
    ensures
        s == "replace"@ ==> alias_of(s) == "r"@,
        s == "daemon"@ ==> alias_of(s) == "d"@,
        s != "replace"@ && s != "daemon"@ ==> alias_of(s) == s,
{
    reveal_strlit("replace");
    reveal_strlit("daemon");
    assert("replace"@.len() == 7 && "daemon"@.len() == 6);
}

/// An argument contributes the letter `r` or `d` exactly when it holds it.
proof fn lemma_flag_letter(arg: Seq<char>, c: char)
    requires
        c == 'r' || c == 'd',
    ensures
        flag_letters(arg).contains(c) <==> arg.contains(c),
{
    lemma_without_dashes_contains(arg, c);
    let w = without_dashes(arg);
    reveal_strlit("replace");
    reveal_strlit("daemon");
    reveal_strlit("r");
    reveal_strlit("d");
    if w == "replace"@ {
        assert(w[0] == 'r');
        assert("r"@[0] == 'r');
        if c == 'd' {
            assert forall|i: int| 0 <= i < w.len() implies w[i] != 'd' by {}
            assert forall|i: int| 0 <= i < "r"@.len() implies "r"@[i] != 'd' by {}
        }
    } else if w == "daemon"@ {
        assert(w[0] == 'd');
        assert("d"@[0] == 'd');
        if c == 'r' {
            assert forall|i: int| 0 <= i < w.len() implies w[i] != 'r' by {}
            assert forall|i: int| 0 <= i < "d"@.len() implies "d"@[i] != 'r' by {}
        }
    }
}

/// Law: `replace` is asked for exactly when some argument after the
/// program name holds the letter `r`, and the daemon mode exactly when one
/// holds `d` (dashes and the long names change nothing to this).
pub proof fn lemma_flags_are_letters(args: Seq<String>)
    ensures
        mentions(args, 'r') <==> exists|i: int| 1 <= i < args.len() && (#[trigger] args[i]@).contains('r'),
        mentions(args, 'd') <==> exists|i: int| 1 <= i < args.len() && (#[trigger] args[i]@).contains('d'),
{
    assert forall|i: int| 1 <= i < args.len() implies (flag_letters(args[i]@).contains('r')
        <==> args[i]@.contains('r')) && (flag_letters(args[i]@).contains('d')
        <==> args[i]@.contains('d')) by {
        lemma_flag_letter(args[i]@, 'r');
        lemma_flag_letter(args[i]@, 'd');
    }
}

proof fn lemma_trim_start(s: Seq<char>) -> (a: int)
    ensures
        0 <= a <= s.len(),
        trim_start_ws(s) == s.skip(a),
        forall|i: int| 0 <= i < a ==> is_white_space(#[trigger] s[i]),
        a < s.len() ==> !is_white_space(s[a]),
    decreases s.len(),
{
    if s.len() > 0 && is_white_space(s[0]) {
        let t = s.drop_first();
        let a1 = lemma_trim_start(t);
        assert(t.skip(a1) =~= s.skip(a1 + 1));
        assert forall|i: int| 0 <= i < a1 + 1 implies is_white_space(#[trigger] s[i]) by {
            if i > 0 {
                assert(s[i] == t[i - 1]);
            }
        }
        if a1 + 1 < s.len() {
            assert(s[a1 + 1] == t[a1]);
        }
        a1 + 1
    } else {
        assert(s.skip(0) =~= s);
        0
    }
}

proof fn lemma_trim_end(s: Seq<char>) -> (b: int)
    ensures
        0 <= b <= s.len(),
        trim_end_ws(s) == s.take(b),
        forall|i: int| b <= i < s.len() ==> is_white_space(#[trigger] s[i]),
        b > 0 ==> !is_white_space(s[b - 1]),
    decreases s.len(),
{
    if s.len() > 0 && is_white_space(s.last()) {
        let t = s.drop_last();
        let b1 = lemma_trim_end(t);
        assert(t.take(b1) =~= s.take(b1));
        assert forall|i: int| b1 <= i < s.len() implies is_white_space(#[trigger] s[i]) by {
            if i < s.len() - 1 {
                assert(s[i] == t[i]);
            }
        }
        if b1 > 0 {
            assert(s[b1 - 1] == t[b1 - 1]);
        }
        b1
    } else {
        assert(s.take(s.len() as int) =~= s);
        s.len() as int
    }
}

/// Law: trimming keeps one contiguous part of the text: everything before
/// it and after it is white space, and it neither starts nor ends with
/// white space.
pub proof fn lemma_trim_ws_keeps_middle(s: Seq<char>)
    ensures
        exists|a: int, b: int|
            {
                &&& 0 <= a <= b <= s.len()
                &&& trim_ws(s) == s.subrange(a, b)
                &&& forall|i: int| 0 <= i < a ==> is_white_space(#[trigger] s[i])
                &&& forall|i: int| b <= i < s.len() ==> is_white_space(#[trigger] s[i])
                &&& a < b ==> !is_white_space(s[a]) && !is_white_space(s[b - 1])
            },
{
    let a = lemma_trim_start(s);
    let t = s.skip(a);
    let b1 = lemma_trim_end(t);
    let b = a + b1;
    assert(t.take(b1) =~= s.subrange(a, b));
    assert forall|i: int| b <= i < s.len() implies is_white_space(#[trigger] s[i]) by {
        assert(s[i] == t[i - a]);
    }
    if a < b {
        assert(s[a] == t[0]);
        assert(s[b - 1] == t[b1 - 1]);
        if b1 == t.len() {
            assert(a < s.len());
        }
        if a < s.len() {
            assert(!is_white_space(s[a]));
        }
    }
    assert(0 <= a <= b <= s.len());
}

/// Law: a `pid=` marker in front of a text is removed.
pub proof fn lemma_pid_marker_removed(s: Seq<char>)
    ensures
        without_pid_markers(pid_marker() + s) == without_pid_markers(s),
{
    let t = pid_marker() + s;
    assert(t.take(4) =~= pid_marker());
    assert(t.skip(4) =~= s);
}

/// Law: a text without the letter `p` holds no marker and is kept as it is.
pub proof fn lemma_no_marker_kept(s: Seq<char>)
    requires
        !s.contains('p'),
    ensures
        without_pid_markers(s) == s,
    decreases s.len(),
{
    if s.len() > 0 {
        if s.len() >= 4 && s.take(4) == pid_marker() {
            assert(s.take(4)[0] == 'p');
            assert(s[0] == 'p');
        }
        let t = s.drop_first();
        assert forall|i: int| 0 <= i < t.len() implies t[i] != 'p' by {
            assert(t[i] == s[i + 1]);
        }
        lemma_no_marker_kept(t);
        assert(seq![s[0]] + t =~= s);
    }
}

/// Law: a single decimal digit parses as its value.
pub proof fn lemma_parse_single_digit(c: char)
    requires
        is_digit(c),
    ensures
        parse_i32(seq![c]) == Some((c as int - 48) as i32),
{
    let s = seq![c];
    assert(all_digits(s));
    assert(s.drop_last() =~= Seq::<char>::empty());
    assert(digits_value(s.drop_last()) == 0);
    assert(s.last() == c);
    assert(digits_value(s) == c as int - 48);
}

/// Law: one more digit at the end multiplies the value by ten and adds
/// the digit, or gives nothing when that leaves the `i32` range.
pub proof fn lemma_parse_append_digit(d: Seq<char>, c: char, x: i32)
    requires
        d.len() > 0,
        all_digits(d),
        is_digit(c),
        parse_i32(d) == Some(x),
    ensures
        parse_i32(d.push(c)) == (if 10 * x + (c as int - 48) <= i32::MAX {
            Some((10 * x + (c as int - 48)) as i32)
        } else {
            None
        }),
{
    let e = d.push(c);
    assert(is_digit(d[0]));
    assert(e[0] == d[0]);
    assert(all_digits(e)) by {
        assert forall|i: int| 0 <= i < e.len() implies is_digit(#[trigger] e[i]) by {
            if i < d.len() {
                assert(e[i] == d[i]);
            }
        }
    }
    assert(e.drop_last() =~= d);
    assert(digits_value(d) == x);
    lemma_digits_value_nonneg(d);
    assert(digits_value(e) == 10 * x + (c as int - 48));
}

/// Law: a `+` in front of digits changes nothing; a `-` in front of digits
/// that parse gives the negated value.
pub proof fn lemma_parse_signs(d: Seq<char>)
    requires
        d.len() > 0,
        all_digits(d),
    ensures
        parse_i32(seq!['+'] + d) == parse_i32(d),
        parse_i32(d) matches Some(x) ==> parse_i32(seq!['-'] + d) == Some((-x) as i32),
{
    assert(is_digit(d[0]));
    assert((seq!['+'] + d).drop_first() =~= d);
    assert((seq!['-'] + d).drop_first() =~= d);
    let m = seq!['-'] + d;
    assert(m[0] == '-');
    assert(m.len() > 0);
    assert(d[0] != '-' && d[0] != '+');
    if parse_i32(d) is Some {
        let x = parse_i32(d)->0;
        assert(digits_value(d) == x);
        lemma_digits_value_nonneg(d);
        assert(m.drop_first() =~= d);
        assert(parse_i32(m) == Some((-digits_value(d)) as i32));
    }
}

/// Law: a character that is not a digit, other than one leading sign,
/// makes parsing fail, and so do the empty text and a lone sign.
pub proof fn lemma_parse_rejects(s: Seq<char>, i: int)
    requires
        0 <= i < s.len(),
        !is_digit(s[i]),
        i > 0 || (s[0] != '+' && s[0] != '-'),
    ensures
        parse_i32(s) is None,
        parse_i32(Seq::<char>::empty()) is None,
        parse_i32(seq!['+']) is None,
        parse_i32(seq!['-']) is None,
{
    if s[0] == '+' || s[0] == '-' {
        let d = s.drop_first();
        assert(d[i - 1] == s[i]);
        assert(!is_digit(d[i - 1]));
    } else {
        assert(!is_digit(s[i]));
    }
    assert(seq!['+'].drop_first().len() == 0);
    assert(seq!['-'].drop_first().len() == 0);
}

} // verus!
