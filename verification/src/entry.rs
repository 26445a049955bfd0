//! How one log entry reads.

use vstd::prelude::*;
use vstd::string::StringExecFns;
use crate::clock::TimeOfDay;
use crate::severity::{level_label, level_name};

verus! {

/// The name under which the application signs its entries.
pub const APP_TAG: &'static str = "Rogue Legacy Editor";

/// The character for a single digit.
pub open spec fn digit_char(d: nat) -> char
    recommends
        d < 10,
{
    (48 + d) as u8 as char
}

/// A number in decimal, without padding or sign: most significant digit
/// first, and a single `0` for zero.
pub open spec fn decimal(n: nat) -> Seq<char>
    decreases n,
{
    if n < 10 {
        seq![digit_char(n)]
    } else {
        decimal(n / 10).push(digit_char(n % 10))
    }
}

/// The number that a sequence of digit characters denotes.
pub open spec fn decimal_value(digits: Seq<char>) -> nat
    decreases digits.len(),
{
    if digits.len() == 0 {
        0
    } else {
        (10 * decimal_value(digits.drop_last()) + (digits.last() as nat - 48)) as nat
    }
}

/// The time as it stands in an entry: hour, minute and second, each
/// unpadded, with colons between them.
pub open spec fn time_stamp(time: TimeOfDay) -> Seq<char> {
    decimal(time.hour as nat) + ":"@ + decimal(time.minute as nat) + ":"@ + decimal(
        time.second as nat,
    )
}

/// One entry: the application's tag, the time and the level's label, each in
/// square brackets, then a colon, the message and a line feed.
pub open spec fn entry_line(message: Seq<char>, level: u8, time: TimeOfDay) -> Seq<char> {
    "["@ + APP_TAG@ + "] ["@ + time_stamp(time) + "] ["@ + level_label(level) + "]: "@ + message
        + "\n"@
}

/// A number in decimal is made of the characters `0` to `9`, and of at
/// least one of them.
pub proof fn decimal_is_digits(n: nat)
    ensures
        decimal(n).len() >= 1,
        forall|i: int| 0 <= i < decimal(n).len() ==> '0' <= #[trigger] decimal(n)[i] <= '9',
    decreases n,
{
    if n >= 10 {
        decimal_is_digits(n / 10);
    }
}

/// A number in decimal begins with `0` only where the number is zero, and
/// zero is the single character `0`.
pub proof fn decimal_is_unpadded(n: nat)
    ensures
        decimal(n)[0] == '0' <==> n == 0,
        n == 0 ==> decimal(n).len() == 1,
    decreases n,
{
    if n >= 10 {
        decimal_is_digits(n / 10);
        decimal_is_unpadded(n / 10);
    }
}

/// Read as a number, the decimal form of a number gives the number back: no
/// two numbers are written alike.
pub proof fn decimal_reads_back(n: nat)
    ensures
        decimal_value(decimal(n)) == n,
    decreases n,
{
    if n < 10 {
        assert(decimal(n).drop_last() =~= Seq::<char>::empty());
        assert(decimal_value(decimal(n).drop_last()) == 0);
    } else {
        decimal_reads_back(n / 10);
        assert(decimal(n).drop_last() =~= decimal(n / 10));
    }
}

/// Whatever the message and the time, an entry with a severity code other
/// than 0 and 1 is labelled `ERROR`.
pub proof fn other_codes_log_errors(message: Seq<char>, level: u8, time: TimeOfDay)
    requires
        level >= 2,
    ensures
        entry_line(message, level, time) == "["@ + APP_TAG@ + "] ["@ + time_stamp(time)
            + "] ["@ + "ERROR"@ + "]: "@ + message + "\n"@,
{
}

fn digit_str(d: u32) -> (text: &'static str)
    requires
        d < 10,
    ensures
        text@ == seq![digit_char(d as nat)],
{
    proof {
        reveal_strlit("0");
        reveal_strlit("1");
        reveal_strlit("2");
        reveal_strlit("3");
        reveal_strlit("4");
        reveal_strlit("5");
        reveal_strlit("6");
        reveal_strlit("7");
        reveal_strlit("8");
        reveal_strlit("9");
    }
    let text = if d == 0 {
        "0"
    } else if d == 1 {
        "1"
    } else if d == 2 {
        "2"
    } else if d == 3 {
        "3"
    } else if d == 4 {
        "4"
    } else if d == 5 {
        "5"
    } else if d == 6 {
        "6"
    } else if d == 7 {
        "7"
    } else if d == 8 {
        "8"
    } else {
        "9"
    };
    assert(text@ =~= seq![digit_char(d as nat)]);
    text
}

/// Appends a number in decimal to a text.
pub fn push_decimal(out: &mut String, n: u32)
    ensures
        final(out)@ == old(out)@ + decimal(n as nat),
    decreases n,
{
    if n >= 10 {
        push_decimal(out, n / 10);
    }
    out.append(digit_str(n % 10));
    assert(out@ =~= old(out)@ + decimal(n as nat));
}

/// Writes out one entry for a message, a severity code and a time.
pub fn format_entry(message: &str, level: u8, time: TimeOfDay) -> (line: String)
    ensures
        line@ == entry_line(message@, level, time),
{
    let mut line = String::new();
    line.append("[");
    line.append(APP_TAG);
    line.append("] [");
    push_decimal(&mut line, time.hour);
    line.append(":");
    push_decimal(&mut line, time.minute);
    line.append(":");
    push_decimal(&mut line, time.second);
    line.append("] [");
    line.append(level_name(level));
    line.append("]: ");
    line.append(message);
    line.append("\n");
    assert(line@ =~= entry_line(message@, level, time));
    line
}

} // verus!
