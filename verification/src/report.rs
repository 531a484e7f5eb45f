//! The lines in which the viewer reports on its shader program.

use vstd::prelude::*;
use vstd::string::StringExecFns;
use crate::shader::Stage;

verus! {

/// The character that stands for the digit `d`.
pub open spec fn digit(d: nat) -> char
    recommends
        d < 10,
{
    if d == 0 {
        '0'
    } else if d == 1 {
        '1'
    } else if d == 2 {
        '2'
    } else if d == 3 {
        '3'
    } else if d == 4 {
        '4'
    } else if d == 5 {
        '5'
    } else if d == 6 {
        '6'
    } else if d == 7 {
        '7'
    } else if d == 8 {
        '8'
    } else {
        '9'
    }
}

/// The number `n` in decimal: most significant digit first, no leading zero,
/// and the single digit `0` for zero.
pub open spec fn decimal(n: nat) -> Seq<char>
    decreases n,
{
    if n < 10 {
        seq![digit(n)]
    } else {
        decimal(n / 10).push(digit(n % 10))
    }
}

/// How a status is written: `true` or `false`.
pub open spec fn status_word(status: bool) -> Seq<char> {
    if status {
        "true"@
    } else {
        "false"@
    }
}

/// The line that reports how compiling `stage` went: the stage's label, its
/// file name in double quotes, and the status.
pub open spec fn compile_line(stage: Stage, status: bool) -> Seq<char> {
    stage.spec_label() + " shader \""@ + stage.spec_file_name() + "\" compiled with status: "@
        + status_word(status)
}

/// The line that reports how linking the program with the id `program` went.
pub open spec fn link_line(program: u32, status: bool) -> Seq<char> {
    "shader program with id: "@ + decimal(program as nat) + " was linked with status: "@
        + status_word(status)
}

/// A decimal number is never empty and holds digits only.
pub proof fn decimal_is_digits(n: nat)
    ensures
        decimal(n).len() >= 1,
        forall|i: int| 0 <= i < decimal(n).len() ==> '0' <= #[trigger] decimal(n)[i] <= '9',
    decreases n,
{
    if n >= 10 {
        decimal_is_digits(n / 10);
    }
}

fn digit_text(d: u32) -> (text: &'static str)
    requires
        d < 10,
    ensures
        text@ == seq![digit(d as nat)],
{
    proof {
        reveal_strlit("0");
        reveal_strlit("1");
        reveal_strlit("2");
        reveal_strlit("3");
        reveal_strlit("4");
        reveal_strlit("5");
        reveal_strlit("6");
        reveal_strlit("7");
        reveal_strlit("8");
        reveal_strlit("9");
    }
    let text = if d == 0 {
        "0"
    } else if d == 1 {
        "1"
    } else if d == 2 {
        "2"
    } else if d == 3 {
        "3"
    } else if d == 4 {
        "4"
    } else if d == 5 {
        "5"
    } else if d == 6 {
        "6"
    } else if d == 7 {
        "7"
    } else if d == 8 {
        "8"
    } else {
        "9"
    };
    assert(text@ =~= seq![digit(d as nat)]);
    text
}

fn status_text(status: bool) -> (text: &'static str)
    ensures
        text@ == status_word(status),
{
    if status {
        "true"
    } else {
        "false"
    }
}

/// Writes `n` in decimal.
pub fn to_decimal(n: u32) -> (text: String)
    ensures
        text@ == decimal(n as nat),
    decreases n,
{
    if n < 10 {
        String::from_str(digit_text(n))
    } else {
        let mut text = to_decimal(n / 10);
        text.append(digit_text(n % 10));
        assert(text@ =~= decimal(n as nat));
        text
    }
}

/// The line that reports how compiling `stage` went.
pub fn compile_report(stage: Stage, status: bool) -> (line: String)
    ensures
        line@ == compile_line(stage, status),
{
    let mut line = String::from_str(stage.label());
    line.append(" shader \"");
    line.append(stage.file_name());
    line.append("\" compiled with status: ");
    line.append(status_text(status));
    line
}

/// The line that reports how linking the program with the id `program` went.
pub fn link_report(program: u32, status: bool) -> (line: String)
    ensures
        line@ == link_line(program, status),
{
    let mut line = String::from_str("shader program with id: ");
    let id = to_decimal(program);
    line.append(id.as_str());
    line.append(" was linked with status: ");
    line.append(status_text(status));
    line
}

} // verus!
