//! The verbose switch and the diagnostic lines it lets through.
//!
//! A [`VerboseFlag`] is off until [`set_verbose`] turns it on. While it is
//! on, [`log_if_verbose`] turns a message into a line of the form
//! `[HH:MM:SS] message`, stamped with the local time of day; while it is
//! off, no line is made.

use vstd::prelude::*;

verus! {

/// The verbose switch. Its view is whether diagnostic lines are wanted.
pub struct VerboseFlag {
    enabled: bool,
}

impl View for VerboseFlag {
    type V = bool;

    closed spec fn view(&self) -> bool {
        self.enabled
    }
}

impl VerboseFlag {
    /// A switch that is off.
    pub fn new() -> (flag: VerboseFlag)
        ensures
            flag@ == false,
    {
        VerboseFlag { enabled: false }
    }
}

impl Default for VerboseFlag {
    /// A switch that is off.
    fn default() -> (flag: VerboseFlag)
        ensures
            flag@ == false,
    {
        VerboseFlag::new()
    }
}

/// The state of a switch that held `before` once `value` is stored in it:
/// the stored value, whatever was there.
pub open spec fn stored(before: bool, value: bool) -> bool {
    value
}

/// Turns the switch on or off, whatever it was before.
pub fn set_verbose(flag: &mut VerboseFlag, value: bool)
    ensures
        final(flag)@ == stored(old(flag)@, value),
{
    flag.enabled = value;
}

/// Whether the switch is on.
pub fn is_verbose(flag: &VerboseFlag) -> (enabled: bool)
    ensures
        enabled == flag@,
{
    flag.enabled
}

/// A read that follows a store sees the stored value, whatever the switch
/// held before.
pub proof fn lemma_read_after_store(before: bool, value: bool)
    ensures
        stored(before, value) == value,
{
}

/// Storing the same value twice leaves the switch as storing it once does.
pub proof fn lemma_store_idempotent(before: bool, value: bool)
    ensures
        stored(stored(before, value), value) == stored(before, value),
{
}

/// Of two stores in a row the later one decides: the switch ends as if only
/// the second had been made.
pub proof fn lemma_last_store_wins(before: bool, first: bool, second: bool)
    ensures
        stored(stored(before, first), second) == stored(before, second),
        stored(stored(before, first), second) == second,
{
}

/// Whether `c` is one of the ten decimal digits.
pub open spec fn is_digit(c: char) -> bool {
    '0' <= c && c <= '9'
}

/// The number that the two decimal digits `tens` and `ones` write.
pub open spec fn two_digits(tens: char, ones: char) -> int {
    (tens as int - '0' as int) * 10 + (ones as int - '0' as int)
}

/// Whether `s` is a time of day written as `HH:MM:SS`: eight characters,
/// each field two decimal digits, the hour at most 23, the minute at most
/// 59 and the second at most 60 (a leap second is written as 60).
pub open spec fn is_clock_stamp(s: Seq<char>) -> bool {
    &&& s.len() == 8
    &&& is_digit(s[0]) && is_digit(s[1])
    &&& s[2] == ':'
    &&& is_digit(s[3]) && is_digit(s[4])
    &&& s[5] == ':'
    &&& is_digit(s[6]) && is_digit(s[7])
    &&& two_digits(s[0], s[1]) <= 23
    &&& two_digits(s[3], s[4]) <= 59
    &&& two_digits(s[6], s[7]) <= 60
}

/// The diagnostic line for `message` stamped with `stamp`: an opening
/// bracket, the stamp, a closing bracket, one space, then the message.
pub open spec fn log_line(stamp: Seq<char>, message: Seq<char>) -> Seq<char> {
    seq!['['] + stamp + seq![']', ' '] + message
}

/// What a log call hands to the output when the time of day reads `stamp`:
/// the stamped line while the switch is on, nothing while it is off.
pub open spec fn emitted(verbose: bool, stamp: Seq<char>, message: Seq<char>) -> Option<Seq<char>> {
    if verbose {
        Some(log_line(stamp, message))
    } else {
        None
    }
}

/// While the switch is off nothing is handed to the output, whatever the
/// message and whatever the clock reads.
pub proof fn lemma_silent_when_off(stamp: Seq<char>, message: Seq<char>)
    ensures
        emitted(false, stamp, message).is_none(),
{
}

/// While the switch is on the output gets one line that starts with the
/// bracketed stamp and a space and ends with the message, unchanged.
pub proof fn lemma_line_when_on(stamp: Seq<char>, message: Seq<char>)
    requires
        is_clock_stamp(stamp),
    ensures
        emitted(true, stamp, message) == Some(log_line(stamp, message)),
        log_line(stamp, message).len() == 11 + message.len(),
        log_line(stamp, message)[0] == '[',
        log_line(stamp, message).subrange(1, 9) == stamp,
        log_line(stamp, message)[9] == ']',
        log_line(stamp, message)[10] == ' ',
        log_line(stamp, message).skip(11) == message,
{
    let line = log_line(stamp, message);
    assert(line.subrange(1, 9) =~= stamp);
    assert(line.skip(11) =~= message);
}

/// Builds the diagnostic line for `message` stamped with `stamp`.
pub fn format_log_line(stamp: &str, message: &str) -> (line: String)
    ensures
        line@ == log_line(stamp@, message@),
{
    proof {
        reveal_strlit("[");
        reveal_strlit("] ");
    }
    let mut line = String::from_str("[");
    line.append(stamp);
    line.append("] ");
    line.append(message);
    assert(line@ =~= log_line(stamp@, message@));
    line
}

/// The line for `message` at a time of day that the caller has read
/// already: `Some` of the stamped line while the switch is on, `None`
/// while it is off.
pub fn stamp_if_verbose(flag: &VerboseFlag, stamp: &str, message: &str) -> (out: Option<String>)
    ensures
        out.is_some() == flag@,
        match out {
            Some(line) => emitted(flag@, stamp@, message@) == Some(line@),
            None => emitted(flag@, stamp@, message@).is_none(),
        },
{
    if is_verbose(flag) {
        Some(format_log_line(stamp, message))
    } else {
        None
    }
}

/// Reads the local time of day and writes it as `HH:MM:SS`.
///
/// Calls `chrono::Local::now` and renders the result through
/// `chrono::DateTime::format` with the pattern `%H:%M:%S`. Trusted, not
/// proved: that the text is a well-formed stamp, which is what chrono
/// documents for the three fields (two zero-padded digits each, hour 00 to
/// 23, minute 00 to 59, second 00 to 60). Nothing is claimed about which
/// time of day comes back. chrono reads the system clock and the time zone
/// of the machine, and gives up on a clock set before 1970.
#[verifier::external_body]
fn local_clock_stamp() -> (stamp: String)
    ensures
        is_clock_stamp(stamp@),
{
    chrono::Local::now().format("%H:%M:%S").to_string()
}

/// The diagnostic line for `message`, stamped with the local time of day
/// at the moment of the call, while the switch is on; `None`, with the
/// clock left unread, while it is off.
pub fn log_if_verbose(flag: &VerboseFlag, message: &str) -> (out: Option<String>)
    ensures
        out.is_some() == flag@,
        out matches Some(line) ==> exists|stamp: Seq<char>|
            is_clock_stamp(stamp) && line@ == #[trigger] log_line(stamp, message@),
{
    if is_verbose(flag) {
        let stamp = local_clock_stamp();
        let out = stamp_if_verbose(flag, stamp.as_str(), message);
        assert(out.unwrap()@ == log_line(stamp@, message@));
        out
    } else {
        None
    }
}

} // verus!
