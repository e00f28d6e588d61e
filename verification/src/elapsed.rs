//! The elapsed-time report printed when a render finishes.
//!
//! A duration arrives as whole seconds and the leftover milliseconds; it is
//! broken into hours, minutes and seconds and rendered as a message whose
//! exact text is specified here. Hours and minutes are mentioned only when
//! they are not zero.

use vstd::prelude::*;

use crate::decimal::{dec_digits, three_digits, u32_to_three_digits, u64_to_decimal};

verus! {

/// The exact text of the elapsed-time message for a duration of
/// `secs` whole seconds plus `millis` milliseconds.
pub open spec fn elapsed_message(secs: u64, millis: u32) -> Seq<char> {
    let hours = secs as nat / 3600;
    let minutes = (secs as nat % 3600) / 60;
    let seconds = (secs as nat % 3600) % 60;
    (if hours > 0 {
        dec_digits(hours) + " hours, "@
    } else {
        Seq::<char>::empty()
    }) + (if minutes > 0 {
        dec_digits(minutes) + " minutes, and "@
    } else {
        Seq::<char>::empty()
    }) + dec_digits(seconds) + "."@ + three_digits(millis as nat) + " seconds."@
}

/// Renders the elapsed-time message for `secs` whole seconds plus
/// `millis` leftover milliseconds.
pub fn get_elapsed_time_message(secs: u64, millis: u32) -> (message: String)
    requires
        millis < 1000,
    ensures
        message@ == elapsed_message(secs, millis),
{
    let mut seconds_passed = secs;

    let hours_passed = seconds_passed / 3600;
    seconds_passed %= 3600;

    let minutes_passed = seconds_passed / 60;
    seconds_passed %= 60;

    let mut message = String::new();

    if hours_passed > 0 {
        let hours_digits = u64_to_decimal(hours_passed);
        message.append(hours_digits.as_str());
        message.append(" hours, ");
    }
    if minutes_passed > 0 {
        let minutes_digits = u64_to_decimal(minutes_passed);
        message.append(minutes_digits.as_str());
        message.append(" minutes, and ");
    }
    let seconds_digits = u64_to_decimal(seconds_passed);
    message.append(seconds_digits.as_str());
    message.append(".");
    let millis_digits = u32_to_three_digits(millis);
    message.append(millis_digits.as_str());
    message.append(" seconds.");

    message
}

} // verus!
