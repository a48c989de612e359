//! Axis labels: a count of elapsed seconds written in decimal, followed by `s`.

use vstd::prelude::*;
use vstd::string::*;

verus! {

/// The character of one decimal digit.
pub open spec fn digit(d: int) -> char {
    if d == 0 {
        '0'
    } else if d == 1 {
        '1'
    } else if d == 2 {
        '2'
    } else if d == 3 {
        '3'
    } else if d == 4 {
        '4'
    } else if d == 5 {
        '5'
    } else if d == 6 {
        '6'
    } else if d == 7 {
        '7'
    } else if d == 8 {
        '8'
    } else {
        '9'
    }
}

/// A natural number in decimal, without leading zeros.
pub open spec fn decimal(n: nat) -> Seq<char>
    decreases n,
{
    if n < 10 {
        seq![digit(n as int)]
    } else {
        decimal(n / 10).push(digit((n % 10) as int))
    }
}

/// An integer in decimal, with a minus sign in front where it is negative.
pub open spec fn signed_decimal(n: int) -> Seq<char> {
    if n < 0 {
        seq!['-'] + decimal((-n) as nat)
    } else {
        decimal(n as nat)
    }
}

/// The label of a sample taken `secs` whole seconds after the first one.
pub open spec fn seconds_label(secs: int) -> Seq<char> {
    signed_decimal(secs).push('s')
}

/// The label of the first sample reads `0s`.
pub proof fn lemma_zero_label()
    ensures
        seconds_label(0) == "0s"@,
{
    reveal_strlit("0s");
    assert(decimal(0) =~= seq!['0']);
    assert(seconds_label(0) =~= "0s"@);
}

fn digit_text(d: u64) -> (text: &'static str)
    requires
        d < 10,
    ensures
        text@ == seq![digit(d as int)],
{
    proof {
        reveal_strlit("0");
        reveal_strlit("1");
        reveal_strlit("2");
        reveal_strlit("3");
        reveal_strlit("4");
        reveal_strlit("5");
        reveal_strlit("6");
        reveal_strlit("7");
        reveal_strlit("8");
        reveal_strlit("9");
    }
    let text = if d == 0 {
        "0"
    } else if d == 1 {
        "1"
    } else if d == 2 {
        "2"
    } else if d == 3 {
        "3"
    } else if d == 4 {
        "4"
    } else if d == 5 {
        "5"
    } else if d == 6 {
        "6"
    } else if d == 7 {
        "7"
    } else if d == 8 {
        "8"
    } else {
        "9"
    };
    assert(text@ =~= seq![digit(d as int)]);
    text
}

/// Writes `n` in decimal.
pub fn decimal_text(n: u64) -> (text: String)
    ensures
        text@ == decimal(n as nat),
    decreases n,
{
    if n < 10 {
        String::from_str(digit_text(n))
    } else {
        let mut text = decimal_text(n / 10);
        text.append(digit_text(n % 10));
        assert(text@ =~= decimal((n / 10) as nat).push(digit((n % 10) as int)));
        text
    }
}

/// Writes the label of a sample taken `secs` whole seconds after the first.
pub fn elapsed_label(secs: i64) -> (label: String)
    ensures
        label@ == seconds_label(secs as int),
{
    let mut label = if secs < 0 {
        let size: u64 = (-(secs + 1)) as u64 + 1;
        let digits = decimal_text(size);
        proof {
            reveal_strlit("-");
        }
        let signed = String::from_str("-").concat(digits.as_str());
        assert(signed@ =~= signed_decimal(secs as int));
        signed
    } else {
        decimal_text(secs as u64)
    };
    proof {
        reveal_strlit("s");
    }
    label.append("s");
    assert(label@ =~= seconds_label(secs as int));
    label
}

} // verus!
