//! The three-line text report: a greeting, a number, and a sum.

use vstd::prelude::*;
use vstd::string::*;
use crate::arith::sum;

verus! {

/// The character that writes the digit `d`, for `d` below ten.
pub open spec fn digit_char(d: nat) -> char {
    if d == 0 {
        '0'
    } else if d == 1 {
        '1'
    } else if d == 2 {
        '2'
    } else if d == 3 {
        '3'
    } else if d == 4 {
        '4'
    } else if d == 5 {
        '5'
    } else if d == 6 {
        '6'
    } else if d == 7 {
        '7'
    } else if d == 8 {
        '8'
    } else {
        '9'
    }
}

/// The decimal digits of a natural number, most significant first, without
/// leading zeros; zero is written as the single digit `0`.
pub open spec fn digits(n: nat) -> Seq<char>
    decreases n,
{
    if n < 10 {
        seq![digit_char(n)]
    } else {
        digits(n / 10).push(digit_char(n % 10))
    }
}

/// The decimal representation of an integer: its digits, after a minus sign
/// where it is negative.
pub open spec fn decimal(v: int) -> Seq<char> {
    if v < 0 {
        seq!['-'] + digits((-v) as nat)
    } else {
        digits(v as nat)
    }
}

/// The text that writes one digit.
fn digit_str(d: u64) -> (s: &'static str)
    requires
        d < 10,
    ensures
        s@ == seq![digit_char(d as nat)],
{
    proof {
        reveal_strlit("0");
        reveal_strlit("1");
        reveal_strlit("2");
        reveal_strlit("3");
        reveal_strlit("4");
        reveal_strlit("5");
        reveal_strlit("6");
        reveal_strlit("7");
        reveal_strlit("8");
        reveal_strlit("9");
    }
    let s: &'static str = if d == 0 {
        "0"
    } else if d == 1 {
        "1"
    } else if d == 2 {
        "2"
    } else if d == 3 {
        "3"
    } else if d == 4 {
        "4"
    } else if d == 5 {
        "5"
    } else if d == 6 {
        "6"
    } else if d == 7 {
        "7"
    } else if d == 8 {
        "8"
    } else {
        "9"
    };
    assert(s@ =~= seq![digit_char(d as nat)]);
    s
}

/// Appends the decimal digits of `n` to `out`.
fn push_digits(out: &mut String, n: u64)
    ensures
        final(out)@ == old(out)@ + digits(n as nat),
    decreases n,
{
    if n >= 10 {
        push_digits(out, n / 10);
    }
    out.append(digit_str(n % 10));
    assert(out@ =~= old(out)@ + digits(n as nat));
}

/// Appends the decimal representation of `v` to `out`.
fn push_decimal(out: &mut String, v: i32)
    ensures
        final(out)@ == old(out)@ + decimal(v as int),
{
    let wide: i64 = v as i64;
    if wide < 0 {
        out.append("-");
        proof {
            reveal_strlit("-");
        }
        push_digits(out, (-wide) as u64);
        assert(out@ =~= old(out)@ + decimal(v as int));
    } else {
        push_digits(out, wide as u64);
    }
}

/// Writes an integer in decimal.
pub fn render_decimal(v: i32) -> (s: String)
    ensures
        s@ == decimal(v as int),
{
    let mut s = String::new();
    push_decimal(&mut s, v);
    assert(s@ =~= decimal(v as int));
    s
}

/// One line of the report: a label, the decimal representation of a value,
/// and the line's end.
pub open spec fn line(label: Seq<char>, v: int) -> Seq<char> {
    label + decimal(v) + seq!['\n']
}

/// Writes a label and a value as one line.
pub fn render_line(label: &str, v: i32) -> (s: String)
    ensures
        s@ == line(label@, v as int),
{
    let mut s = String::new();
    s.append(label);
    push_decimal(&mut s, v);
    s.append("\n");
    proof {
        reveal_strlit("\n");
        assert(s@ =~= line(label@, v as int));
    }
    s
}

/// The number that the report's second line shows.
pub open spec fn number() -> int {
    42
}

/// The operands whose sum the report's third line shows.
pub open spec fn operands() -> (i32, i32) {
    (5i32, 3i32)
}

/// The whole report: the greeting on a line of its own, then the number and
/// the sum of the operands, each behind its label.
pub open spec fn report_text() -> Seq<char> {
    let greeting = "Hello, world!"@ + seq!['\n'];
    let second = line("The number is: "@, number());
    let third = line("The sum is: "@, sum(operands().0, operands().1));
    greeting + second + third
}

/// Builds the report.
pub fn report() -> (out: String)
    ensures
        out@ == report_text(),
{
    let mut out = String::new();
    out.append("Hello, world!");
    out.append("\n");
    let number: i32 = 42;
    let second = render_line("The number is: ", number);
    out.append(second.as_str());
    let total: i32 = crate::arith::add(5, 3);
    let third = render_line("The sum is: ", total);
    out.append(third.as_str());
    proof {
        reveal_strlit("\n");
        assert(out@ =~= report_text());
    }
    out
}

/// The report is exactly these three lines, each ended by a line feed.
pub proof fn lemma_report_text()
    ensures
        report_text() == "Hello, world!\nThe number is: 42\nThe sum is: 8\n"@,
{
    reveal_strlit("Hello, world!");
    reveal_strlit("The number is: ");
    reveal_strlit("The sum is: ");
    reveal_strlit("Hello, world!\nThe number is: 42\nThe sum is: 8\n");
    reveal_with_fuel(digits, 3);
    assert(digits(42) =~= seq!['4', '2']);
    assert(digits(8) =~= seq!['8']);
    assert(report_text() =~= "Hello, world!\nThe number is: 42\nThe sum is: 8\n"@);
}

} // verus!
