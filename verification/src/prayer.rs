use crate::event::Event;
use vstd::prelude::*;
use vstd::string::StringExecFns;

verus! {

/// Where the neighbouring prayer of a prayer is found.
#[derive(Clone, Copy, PartialEq, Eq, Structural, Debug)]
pub enum Step {
    /// Among the times already calculated for the current prayer.
    SameMeasures(Event),
    /// In the calculation for the date `days` away from the date of the
    /// current prayer's calculation, made anew.
    OtherDay(Event, i8),
}

/// Going back from a prayer at `current`: its previous event, taken from the
/// same calculation when that one, at `candidate`, is not later, else from
/// the calculation of the day before. Both instants are given in seconds from
/// the start of the calculation's date, so the comparison is on the wall
/// clock, across midnight too.
pub open spec fn spec_previous_step(event: Event, current: i64, candidate: i64) -> Step {
    if candidate <= current {
        Step::SameMeasures(event.spec_previous())
    } else {
        Step::OtherDay(event.spec_previous(), -1i8)
    }
}

/// Going forward from a prayer at `current`: its next event, taken from the
/// same calculation when that one, at `candidate`, is not earlier, else from
/// the calculation of the day after. Both instants are given in seconds from
/// the start of the calculation's date.
pub open spec fn spec_next_step(event: Event, current: i64, candidate: i64) -> Step {
    if candidate >= current {
        Step::SameMeasures(event.spec_next())
    } else {
        Step::OtherDay(event.spec_next(), 1i8)
    }
}

/// Decides where the prayer before `event` is found; `current` is the instant
/// of `event` and `candidate` that of its previous event in the same
/// calculation, both in seconds from the start of the calculation's date.
pub fn previous_step(event: Event, current: i64, candidate: i64) -> (step: Step)
    ensures
        step == spec_previous_step(event, current, candidate),
{
    if candidate <= current {
        Step::SameMeasures(event.previous())
    } else {
        Step::OtherDay(event.previous(), -1)
    }
}

/// Decides where the prayer after `event` is found; `current` is the instant
/// of `event` and `candidate` that of its next event in the same calculation,
/// both in seconds from the start of the calculation's date.
pub fn next_step(event: Event, current: i64, candidate: i64) -> (step: Step)
    ensures
        step == spec_next_step(event, current, candidate),
{
    if candidate >= current {
        Step::SameMeasures(event.next())
    } else {
        Step::OtherDay(event.next(), 1)
    }
}

/// A step lands on the neighbouring event and crosses at most one day. A
/// neighbour kept from the same calculation is never on the wrong side on the
/// wall clock: the next one is not earlier, the previous one is not later;
/// otherwise the neighbouring day is calculated.
pub proof fn lemma_steps_reach_neighbours(event: Event, current: i64, candidate: i64)
    ensures
        ({
            let back = spec_previous_step(event, current, candidate);
            &&& back matches Step::SameMeasures(e) ==> e == event.spec_previous()
                && candidate <= current
            &&& back matches Step::OtherDay(e, d) ==> e == event.spec_previous() && d == -1
                && candidate > current
        }),
        ({
            let forward = spec_next_step(event, current, candidate);
            &&& forward matches Step::SameMeasures(e) ==> e == event.spec_next()
                && candidate >= current
            &&& forward matches Step::OtherDay(e, d) ==> e == event.spec_next() && d == 1
                && candidate < current
        }),
{
}

/// The longest span chrono's `TimeDelta` can hold (`i64::MAX` milliseconds), in nanoseconds.
pub const MAX_SPAN_NANOS: i128 = 9_223_372_036_854_775_807_000_000;

/// Nanoseconds left before a prayer whose signed distance from now is `until`;
/// never negative.
pub open spec fn spec_time_remaining(until: int) -> int {
    if until < 0 {
        0
    } else {
        until
    }
}

/// The time left before the prayer, in nanoseconds, given its signed distance
/// `until` from now; a prayer in the past has none left.
pub fn time_remaining(until: i128) -> (remaining: i128)
    ensures
        remaining == spec_time_remaining(until as int),
        remaining >= 0,
{
    if until < 0 {
        0
    } else {
        until
    }
}

/// Whether the prayer, at signed distance `until` nanoseconds from now, has come.
pub fn time_has_passed(until: i128) -> (passed: bool)
    ensures
        passed == (spec_time_remaining(until as int) <= 0),
        passed == (until <= 0),
{
    time_remaining(until) <= 0
}

/// The character of a decimal digit.
pub open spec fn digit_char(d: int) -> char {
    if d == 0 { '0' }
    else if d == 1 { '1' }
    else if d == 2 { '2' }
    else if d == 3 { '3' }
    else if d == 4 { '4' }
    else if d == 5 { '5' }
    else if d == 6 { '6' }
    else if d == 7 { '7' }
    else if d == 8 { '8' }
    else { '9' }
}

/// The decimal writing of `n`, without leading zeros.
pub open spec fn decimal(n: nat) -> Seq<char>
    decreases n,
{
    if n < 10 {
        seq![digit_char(n as int)]
    } else {
        decimal(n / 10).push(digit_char((n % 10) as int))
    }
}

/// The decimal writing of `n`, padded with a zero to at least two digits.
pub open spec fn two_digits(n: nat) -> Seq<char> {
    if n < 10 {
        seq!['0', digit_char(n as int)]
    } else {
        decimal(n)
    }
}

fn digit_str(d: u64) -> (s: &'static str)
    requires
        d < 10,
    ensures
        s@ == seq![digit_char(d as int)],
{
    proof {
        reveal_strlit("0");
        reveal_strlit("1");
        reveal_strlit("2");
        reveal_strlit("3");
        reveal_strlit("4");
        reveal_strlit("5");
        reveal_strlit("6");
        reveal_strlit("7");
        reveal_strlit("8");
        reveal_strlit("9");
    }
    let s = if d == 0 { "0" }
    else if d == 1 { "1" }
    else if d == 2 { "2" }
    else if d == 3 { "3" }
    else if d == 4 { "4" }
    else if d == 5 { "5" }
    else if d == 6 { "6" }
    else if d == 7 { "7" }
    else if d == 8 { "8" }
    else { "9" };
    assert(s@ =~= seq![digit_char(d as int)]);
    s
}

/// Writes `n` in decimal.
pub fn format_decimal(n: u64) -> (text: String)
    ensures
        text@ == decimal(n as nat),
    decreases n,
{
    if n < 10 {
        String::from_str(digit_str(n))
    } else {
        let mut text = format_decimal(n / 10);
        text.append(digit_str(n % 10));
        text
    }
}

/// Writes `n` in decimal with at least two digits, as `{:02}` does.
pub fn format_two_digits(n: u64) -> (text: String)
    ensures
        text@ == two_digits(n as nat),
{
    if n < 10 {
        proof {
            reveal_strlit("0");
        }
        let mut text = String::from_str("0");
        text.append(digit_str(n));
        assert(text@ =~= two_digits(n as nat));
        text
    } else {
        format_decimal(n)
    }
}

/// "<event> in <hours>H<minutes>" while the prayer is ahead, and
/// "<event> since <hours>H<minutes>" once it has come, where hours and
/// minutes are those of the time remaining (zero once the prayer has come).
pub open spec fn spec_text_duration(event: Event, until: int) -> Seq<char> {
    let seconds = spec_time_remaining(until) / 1_000_000_000;
    let word = if until <= 0 { "since"@ } else { "in"@ };
    event.spec_name() + " "@ + word + " "@ + two_digits((seconds / 3600) as nat) + "H"@
        + two_digits(((seconds / 60) % 60) as nat)
}

/// The line that tells how long until (or since) the prayer `event`, whose
/// signed distance from now is `until` nanoseconds.
pub fn text_duration(event: Event, until: i128) -> (text: String)
    requires
        -MAX_SPAN_NANOS <= until <= MAX_SPAN_NANOS,
    ensures
        text@ == spec_text_duration(event, until as int),
{
    let remaining = time_remaining(until);
    let seconds: u64 = (remaining / 1_000_000_000) as u64;
    let word = if time_has_passed(until) { "since" } else { "in" };
    let mut text = String::from_str(event.name());
    text.append(" ");
    text.append(word);
    text.append(" ");
    let hours = format_two_digits(seconds / 3600);
    text.append(hours.as_str());
    text.append("H");
    let minutes = format_two_digits((seconds / 60) % 60);
    text.append(minutes.as_str());
    text
}

/// "<event> at HH:MM:SS" for a prayer at `seconds` after midnight.
pub open spec fn spec_text_time(event: Event, seconds: int) -> Seq<char> {
    event.spec_name() + " at "@ + two_digits((seconds / 3600) as nat) + ":"@ + two_digits(
        ((seconds / 60) % 60) as nat,
    ) + ":"@ + two_digits((seconds % 60) as nat)
}

/// The line that tells at what time of day, given in seconds since midnight,
/// the prayer `event` takes place.
pub fn text_time(event: Event, seconds: u32) -> (text: String)
    requires
        seconds < 86400,
    ensures
        text@ == spec_text_time(event, seconds as int),
{
    let secs = seconds as u64;
    let mut text = String::from_str(event.name());
    text.append(" at ");
    let hours = format_two_digits(secs / 3600);
    text.append(hours.as_str());
    text.append(":");
    let minutes = format_two_digits((secs / 60) % 60);
    text.append(minutes.as_str());
    text.append(":");
    let rest = format_two_digits(secs % 60);
    text.append(rest.as_str());
    text
}

proof fn lemma_two_digits_len(n: nat)
    requires
        n < 100,
    ensures
        two_digits(n).len() == 2,
{
    if n >= 10 {
        assert(decimal((n / 10) as nat).len() == 1);
    }
}

/// A time line is the event's name, " at " and exactly eight characters of
/// the form HH:MM:SS.
pub proof fn lemma_time_text_shape(event: Event, seconds: int)
    requires
        0 <= seconds < 86400,
    ensures
        spec_text_time(event, seconds).len() == event.spec_name().len() + 12,
        spec_text_time(event, seconds).subrange(0, event.spec_name().len() as int)
            == event.spec_name(),
{
    reveal_strlit(" at ");
    reveal_strlit(":");
    lemma_two_digits_len((seconds / 3600) as nat);
    lemma_two_digits_len(((seconds / 60) % 60) as nat);
    lemma_two_digits_len((seconds % 60) as nat);
    let t = spec_text_time(event, seconds);
    assert(t.subrange(0, event.spec_name().len() as int) =~= event.spec_name());
}

/// Once a prayer has come, its duration line reads "<event> since 00H00":
/// the time remaining never goes below zero.
pub proof fn lemma_passed_duration_text(event: Event, until: int)
    requires
        until <= 0,
    ensures
        spec_text_duration(event, until) == event.spec_name() + " since 00H00"@,
{
    reveal_strlit(" since 00H00");
    reveal_strlit(" ");
    reveal_strlit("since");
    reveal_strlit("H");
    assert(spec_text_duration(event, until) =~= event.spec_name() + " since 00H00"@);
}

/// While a prayer is ahead, its duration line reads "<event> in <h>H<m>" where
/// `h` hours and `m` minutes (fewer than 60) make up the whole minutes left.
pub proof fn lemma_pending_duration_reads_remaining_time(
    event: Event,
    until: int,
    hours: nat,
    minutes: nat,
)
    requires
        until > 0,
        minutes < 60,
        hours * 60 + minutes == until / 60_000_000_000,
    ensures
        spec_text_duration(event, until) == event.spec_name() + " in "@ + two_digits(hours) + "H"@
            + two_digits(minutes),
{
    reveal_strlit(" in ");
    reveal_strlit(" ");
    reveal_strlit("in");
    let seconds = until / 1_000_000_000;
    vstd::arithmetic::div_mod::lemma_div_denominator(until, 1_000_000_000, 60);
    assert(seconds / 60 == until / 60_000_000_000);
    vstd::arithmetic::div_mod::lemma_fundamental_div_mod_converse(
        seconds / 60,
        60,
        hours as int,
        minutes as int,
    );
    vstd::arithmetic::div_mod::lemma_div_denominator(seconds, 60, 60);
    assert(seconds / 3600 == hours);
    assert(spec_text_duration(event, until) =~= event.spec_name() + " in "@ + two_digits(hours)
        + "H"@ + two_digits(minutes));
}

/// While a prayer is ahead, its duration line starts with "<event> in ".
pub proof fn lemma_pending_duration_text(event: Event, until: int)
    requires
        until > 0,
    ensures
        spec_text_duration(event, until).subrange(0, event.spec_name().len() + 4int)
            == event.spec_name() + " in "@,
{
    reveal_strlit(" in ");
    reveal_strlit(" ");
    reveal_strlit("in");
    assert(spec_text_duration(event, until).subrange(0, event.spec_name().len() + 4int)
        =~= event.spec_name() + " in "@);
}

} // verus!
