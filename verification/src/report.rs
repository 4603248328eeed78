//! The two lines of the report: a header, and one result per runtime. Both
//! have two columns with a tab between them.

use crate::duration::{Duration, NANOS_PER_MILLI, NANOS_PER_SEC};
use vstd::prelude::*;
use vstd::string::*;

verus! {

/// The character for the decimal digit `d`.
pub open spec fn digit(d: nat) -> char
    recommends
        d < 10,
{
    seq!['0', '1', '2', '3', '4', '5', '6', '7', '8', '9'][d as int]
}

/// `n` in decimal, without leading zeros.
pub open spec fn decimal(n: nat) -> Seq<char>
    decreases n,
{
    if n < 10 {
        seq![digit(n)]
    } else {
        decimal(n / 10).push(digit(n % 10))
    }
}

/// `millis` in decimal, as three digits with leading zeros.
pub open spec fn three_digits(millis: nat) -> Seq<char>
    recommends
        millis < 1000,
{
    seq![digit(millis / 100), digit(millis / 10 % 10), digit(millis % 10)]
}

/// A span of `nanos` nanoseconds as its whole seconds, a point, and its
/// whole milliseconds beyond them: what is less than a millisecond is cut
/// off.
pub open spec fn seconds_and_millis(nanos: nat) -> Seq<char> {
    decimal(nanos / (NANOS_PER_SEC as nat)) + seq!['.'] + three_digits(
        nanos % (NANOS_PER_SEC as nat) / (NANOS_PER_MILLI as nat),
    )
}

/// A line of two columns with one tab between them.
pub open spec fn columns(left: Seq<char>, right: Seq<char>) -> Seq<char> {
    left + seq!['\t'] + right
}

/// The header line.
pub open spec fn header_line() -> Seq<char> {
    columns("runtime"@, "time per"@)
}

/// The result line of the runtime called `runtime`, with a mean time per
/// iteration of `nanos` nanoseconds.
pub open spec fn result_line(runtime: Seq<char>, nanos: nat) -> Seq<char> {
    columns(runtime, seconds_and_millis(nanos))
}

/// The number that the decimal digit `c` stands for.
pub open spec fn digit_value(c: char) -> nat
    recommends
        '0' <= c <= '9',
{
    (c as nat - '0' as nat) as nat
}

/// The number that a string of decimal digits stands for.
pub open spec fn decimal_value(digits: Seq<char>) -> nat
    decreases digits.len(),
{
    if digits.len() == 0 {
        0
    } else {
        decimal_value(digits.drop_last()) * 10 + digit_value(digits.last())
    }
}

/// `decimal(n)` is made of decimal digits only, starts with a zero only
/// where `n` is zero, and stands for `n`.
pub proof fn lemma_decimal_stands_for(n: nat)
    ensures
        decimal(n).len() >= 1,
        forall|i: int| 0 <= i < decimal(n).len() ==> '0' <= #[trigger] decimal(n)[i] <= '9',
        decimal(n)[0] == '0' <==> n == 0,
        decimal_value(decimal(n)) == n,
    decreases n,
{
    if n < 10 {
        let digits = decimal(n);
        assert(decimal_value(digits.drop_last()) == 0);
    } else {
        lemma_decimal_stands_for(n / 10);
        let digits = decimal(n);
        assert(digits.drop_last() =~= decimal(n / 10));
    }
}

/// `three_digits(millis)` is made of three decimal digits and stands for
/// `millis`.
pub proof fn lemma_three_digits_stand_for(millis: nat)
    requires
        millis < 1000,
    ensures
        three_digits(millis).len() == 3,
        forall|i: int| 0 <= i < 3 ==> '0' <= #[trigger] three_digits(millis)[i] <= '9',
        decimal_value(three_digits(millis)) == millis,
{
    let digits = three_digits(millis);
    let two = digits.drop_last();
    let one = two.drop_last();
    assert(decimal_value(one.drop_last()) == 0);
    assert(decimal_value(one) == millis / 100);
    assert(decimal_value(two) == millis / 10);
}

/// The one-character string for the decimal digit `d`.
fn digit_str(d: u64) -> (text: &'static str)
    requires
        d < 10,
    ensures
        text@ == seq![digit(d as nat)],
{
    proof {
        reveal_strlit("0");
        reveal_strlit("1");
        reveal_strlit("2");
        reveal_strlit("3");
        reveal_strlit("4");
        reveal_strlit("5");
        reveal_strlit("6");
        reveal_strlit("7");
        reveal_strlit("8");
        reveal_strlit("9");
    }
    if d == 0 {
        "0"
    } else if d == 1 {
        "1"
    } else if d == 2 {
        "2"
    } else if d == 3 {
        "3"
    } else if d == 4 {
        "4"
    } else if d == 5 {
        "5"
    } else if d == 6 {
        "6"
    } else if d == 7 {
        "7"
    } else if d == 8 {
        "8"
    } else {
        "9"
    }
}

/// Appends `n` in decimal to `line`.
fn push_decimal(line: &mut String, n: u64)
    ensures
        final(line)@ == old(line)@ + decimal(n as nat),
    decreases n,
{
    if n >= 10 {
        push_decimal(line, n / 10);
    }
    line.append(digit_str(n % 10));
}

/// Appends `millis` to `line` as three decimal digits.
fn push_three_digits(line: &mut String, millis: u32)
    requires
        millis < 1000,
    ensures
        final(line)@ == old(line)@ + three_digits(millis as nat),
{
    line.append(digit_str((millis / 100) as u64));
    line.append(digit_str((millis / 10 % 10) as u64));
    line.append(digit_str((millis % 10) as u64));
}

/// The header line of the report, without a line end: the column titles
/// `runtime` and `time per`.
pub fn describe_header() -> (line: String)
    ensures
        line@ == header_line(),
{
    proof {
        reveal_strlit("\t");
    }
    let mut line: String = String::from_str("runtime");
    line.append("\t");
    line.append("time per");
    line
}

/// The result line of one runtime, without a line end: the runtime's name,
/// and the mean time per iteration in seconds with three decimal places.
pub fn describe_result(runtime: &str, time: Duration) -> (line: String)
    ensures
        line@ == result_line(runtime@, time@),
{
    proof {
        reveal_strlit("\t");
        reveal_strlit(".");
    }
    let mut line: String = String::from_str(runtime);
    line.append("\t");
    push_decimal(&mut line, time.as_secs());
    line.append(".");
    push_three_digits(&mut line, time.subsec_millis());
    line
}

} // verus!
