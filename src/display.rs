//! Text for the display: the time of day as two-digit fields.

use vstd::prelude::*;

use crate::time::DateTime;

verus! {

/// The ASCII digit for `d`.
pub open spec fn digit_byte(d: int) -> u8 {
    (48 + d) as u8
}

/// `n`, written with exactly two digits.
pub open spec fn two_digits(n: int) -> Seq<u8> {
    seq![digit_byte(n / 10), digit_byte(n % 10)]
}

/// `HH:MM`, followed by `:SS` unless the seconds are left out.
pub open spec fn time_of_day_text(t: DateTime, without_seconds: bool) -> Seq<u8> {
    let hours_and_minutes = two_digits(t.hour as int) + seq![58u8] + two_digits(t.minute as int);
    if without_seconds {
        hours_and_minutes
    } else {
        hours_and_minutes + seq![58u8] + two_digits(t.second as int)
    }
}

fn push_two_digits(text: &mut Vec<u8>, n: u8)
    requires
        n < 100,
    ensures
        final(text)@ == old(text)@ + two_digits(n as int),
{
    text.push(48 + n / 10);
    text.push(48 + n % 10);
    assert(text@ =~= old(text)@ + two_digits(n as int));
}

/// The time of day as ASCII text, zero-padded to two digits per field.
pub fn time_text(t: &DateTime, without_seconds: bool) -> (r: Vec<u8>)
    requires
        t.hour < 100,
        t.minute < 100,
        t.second < 100,
    ensures
        r@ == time_of_day_text(*t, without_seconds),
{
    let mut text: Vec<u8> = Vec::new();
    push_two_digits(&mut text, t.hour);
    text.push(58);
    push_two_digits(&mut text, t.minute);
    if !without_seconds {
        text.push(58);
        push_two_digits(&mut text, t.second);
    }
    assert(text@ =~= time_of_day_text(*t, without_seconds));
    text
}

} // verus!
