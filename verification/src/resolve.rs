//! The source resolver: turns an input descriptor into a plan that names the
//! one file the server will expose. A path input is used as it stands; the
//! stream input is captured first, into a file inside the temporary directory
//! whose name is the startup wall-clock time in nanoseconds, written in
//! decimal. The caller performs the actual stream copy; this module only
//! decides the destination.

use vstd::prelude::*;
use vstd::arithmetic::div_mod::lemma_fundamental_div_mod;
use crate::input::InputPath;

verus! {

/// The decimal digit character for a value in `0..=9`.
pub open spec fn decimal_digit(d: int) -> char {
    if d == 0 {
        '0'
    } else if d == 1 {
        '1'
    } else if d == 2 {
        '2'
    } else if d == 3 {
        '3'
    } else if d == 4 {
        '4'
    } else if d == 5 {
        '5'
    } else if d == 6 {
        '6'
    } else if d == 7 {
        '7'
    } else if d == 8 {
        '8'
    } else {
        '9'
    }
}

/// The usual decimal rendering of a non-negative integer: most significant
/// digit first, no leading zeros (except for the value zero itself).
pub open spec fn decimal_of(n: int) -> Seq<char>
    decreases n,
{
    if n < 10 {
        seq![decimal_digit(n)]
    } else {
        decimal_of(n / 10).push(decimal_digit(n % 10))
    }
}

/// The single-character string for a decimal digit.
fn digit_str(d: u8) -> (s: &'static str)
    requires
        d < 10,
    ensures
        s@ =~= seq![decimal_digit(d as int)],
{
    proof {
        reveal_strlit("0");
        reveal_strlit("1");
        reveal_strlit("2");
        reveal_strlit("3");
        reveal_strlit("4");
        reveal_strlit("5");
        reveal_strlit("6");
        reveal_strlit("7");
        reveal_strlit("8");
        reveal_strlit("9");
    }
    match d {
        0 => "0",
        1 => "1",
        2 => "2",
        3 => "3",
        4 => "4",
        5 => "5",
        6 => "6",
        7 => "7",
        8 => "8",
        _ => "9",
    }
}

/// Renders `n` in decimal, most significant digit first.
pub fn decimal_string(n: u128) -> (s: String)
    ensures
        s@ =~= decimal_of(n as int),
    decreases n,
{
    if n < 10 {
        String::from_str(digit_str(n as u8))
    } else {
        proof {
            assert(n / 10 < n && (n as int) / 10 == (n / 10) as int) by (nonlinear_arith)
                requires
                    n >= 10,
            ;
        }
        let mut s = decimal_string(n / 10);
        s.append(digit_str((n % 10) as u8));
        s
    }
}

/// Joining a directory and a file name with the path separator, the way a
/// relative name is appended to a directory: a separator already at the end of
/// the directory is not doubled.
pub open spec fn join_path(dir: Seq<char>, name: Seq<char>) -> Seq<char> {
    if dir.len() == 0 {
        name
    } else if dir.last() == '/' {
        dir + name
    } else {
        dir + seq!['/'] + name
    }
}

/// Appends `name` to the directory `dir`, inserting a separator where needed.
pub fn join_path_str(dir: &str, name: &str) -> (p: String)
    ensures
        p@ =~= join_path(dir@, name@),
{
    proof {
        reveal_strlit("/");
    }
    let n = dir.unicode_len();
    if n == 0 {
        String::from_str(name)
    } else if dir.get_char(n - 1) == '/' {
        let mut s = String::from_str(dir);
        s.append(name);
        s
    } else {
        let mut s = String::from_str(dir);
        s.append("/");
        s.append(name);
        s
    }
}

/// Where the served file will live, and whether producing it creates a file.
/// `UseExisting` names a path the user already has on disk; `CaptureTo` names
/// the fresh destination the stream must first be copied into.
#[derive(Debug, Clone)]
pub enum CapturePlan {
    UseExisting(String),
    CaptureTo(String),
}

/// How many files carrying out a plan creates on disk.
pub open spec fn files_created(plan: CapturePlan) -> int {
    match plan {
        CapturePlan::UseExisting(_) => 0,
        CapturePlan::CaptureTo(_) => 1,
    }
}

/// The destination for a stream capture: the temporary directory joined with
/// the startup time in nanoseconds, rendered in decimal.
pub fn capture_destination(temp_dir: &str, nanos: u128) -> (p: String)
    ensures
        p@ =~= join_path(temp_dir@, decimal_of(nanos as int)),
{
    let name = decimal_string(nanos);
    join_path_str(temp_dir, name.as_str())
}

/// A decimal rendering has at least one digit, and more than one exactly when
/// the value has more than one digit.
proof fn lemma_decimal_len(n: int)
    requires
        0 <= n,
    ensures
        decimal_of(n).len() >= 1,
        n < 10 ==> decimal_of(n).len() == 1,
        n >= 10 ==> decimal_of(n).len() >= 2,
    decreases n,
{
    if n >= 10 {
        assert(1 <= n / 10 < n) by (nonlinear_arith)
            requires
                n >= 10,
        ;
        lemma_decimal_len(n / 10);
    }
}

/// Distinct digit values render as distinct characters.
proof fn lemma_digit_injective(a: int, b: int)
    requires
        0 <= a < 10,
        0 <= b < 10,
        decimal_digit(a) == decimal_digit(b),
    ensures
        a == b,
{
}

/// Law: the decimal rendering is injective — two non-negative integers with
/// the same rendering are equal.
pub proof fn lemma_decimal_of_injective(m: int, n: int)
    requires
        0 <= m,
        0 <= n,
        decimal_of(m) == decimal_of(n),
    ensures
        m == n,
    decreases m,
{
    lemma_decimal_len(m);
    lemma_decimal_len(n);
    if m < 10 && n < 10 {
        assert(decimal_of(m)[0] == decimal_digit(m));
        assert(decimal_of(n)[0] == decimal_digit(n));
        lemma_digit_injective(m, n);
    } else if m >= 10 && n >= 10 {
        assert(0 <= m % 10 < 10 && 1 <= m / 10 < m) by (nonlinear_arith)
            requires
                m >= 10,
        ;
        assert(0 <= n % 10 < 10 && 1 <= n / 10) by (nonlinear_arith)
            requires
                n >= 10,
        ;
        assert(decimal_of(m).last() == decimal_digit(m % 10));
        assert(decimal_of(n).last() == decimal_digit(n % 10));
        lemma_digit_injective(m % 10, n % 10);
        assert(decimal_of(m).drop_last() =~= decimal_of(m / 10));
        assert(decimal_of(n).drop_last() =~= decimal_of(n / 10));
        lemma_decimal_of_injective(m / 10, n / 10);
        lemma_fundamental_div_mod(m, 10);
        lemma_fundamental_div_mod(n, 10);
    } else {
        assert(decimal_of(m).len() != decimal_of(n).len());
    }
}

/// Whether a character is one of the ten decimal digits.
pub open spec fn is_decimal_digit_char(c: char) -> bool {
    c == '0' || c == '1' || c == '2' || c == '3' || c == '4' || c == '5' || c == '6' || c == '7'
        || c == '8' || c == '9'
}

/// Law: a decimal rendering consists of digit characters alone — in
/// particular it holds no path separator, so the capture destination is one
/// plain name inside the temporary directory, never a deeper or escaping
/// path.
pub proof fn lemma_decimal_of_digits_only(n: int)
    requires
        0 <= n,
    ensures
        forall|i: int|
            0 <= i < decimal_of(n).len() ==> is_decimal_digit_char(#[trigger] decimal_of(n)[i]),
    decreases n,
{
    if n < 10 {
        assert(decimal_of(n) == seq![decimal_digit(n)]);
        assert(decimal_of(n)[0] == decimal_digit(n));
    } else {
        assert(1 <= n / 10 < n && 0 <= n % 10 < 10) by (nonlinear_arith)
            requires
                n >= 10,
        ;
        lemma_decimal_of_digits_only(n / 10);
        let s = decimal_of(n / 10);
        let d = decimal_digit(n % 10);
        assert(decimal_of(n) == s.push(d));
        assert forall|i: int| 0 <= i < s.push(d).len() implies is_decimal_digit_char(
            #[trigger] s.push(d)[i],
        ) by {
            if i < s.len() {
                assert(s.push(d)[i] == s[i]);
            } else {
                assert(s.push(d)[i] == d);
            }
        }
    }
}

/// Appending the same prefix to two sequences preserves distinctness.
proof fn lemma_append_cancel(a: Seq<char>, x: Seq<char>, y: Seq<char>)
    requires
        a + x == a + y,
    ensures
        x == y,
{
    assert((a + x).len() == a.len() + x.len());
    assert((a + y).len() == a.len() + y.len());
    assert(x.len() == y.len());
    assert forall|i: int| 0 <= i < x.len() implies x[i] == y[i] by {
        assert((a + x)[a.len() + i] == x[i]);
        assert((a + y)[a.len() + i] == y[i]);
    }
    assert(x =~= y);
}

/// Law: the capture destination collides only when the clock readings agree —
/// two invocations that read distinct nanosecond values are sent to distinct
/// destination paths under the same temporary directory.
pub proof fn lemma_distinct_nanos_distinct_destinations(dir: Seq<char>, m: int, n: int)
    requires
        0 <= m,
        0 <= n,
        m != n,
    ensures
        join_path(dir, decimal_of(m)) != join_path(dir, decimal_of(n)),
{
    if join_path(dir, decimal_of(m)) == join_path(dir, decimal_of(n)) {
        if dir.len() == 0 {
            lemma_decimal_of_injective(m, n);
        } else if dir.last() == '/' {
            lemma_append_cancel(dir, decimal_of(m), decimal_of(n));
            lemma_decimal_of_injective(m, n);
        } else {
            lemma_append_cancel(dir + seq!['/'], decimal_of(m), decimal_of(n));
            lemma_decimal_of_injective(m, n);
        }
    }
}

/// The resolver's decision. A path input is served in place, creating no
/// file; the stream input is captured into exactly one fresh file under the
/// temporary directory. `temp_dir` and `nanos` are the caller's temporary
/// directory and startup clock reading; they matter only to the stream case.
pub fn resolve_plan(input: InputPath, temp_dir: &str, nanos: u128) -> (plan: CapturePlan)
    ensures
        input matches InputPath::Path(p) ==> plan == CapturePlan::UseExisting(p),
        input is Stdin ==> (plan matches CapturePlan::CaptureTo(dest) && dest@ =~= join_path(
            temp_dir@,
            decimal_of(nanos as int),
        )),
        files_created(plan) == if input is Stdin { 1int } else { 0int },
{
    match input {
        InputPath::Stdin => CapturePlan::CaptureTo(capture_destination(temp_dir, nanos)),
        InputPath::Path(p) => CapturePlan::UseExisting(p),
    }
}

} // verus!
