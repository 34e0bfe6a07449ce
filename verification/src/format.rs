//! The text of durations, memory sizes and processor shares.

use vstd::prelude::*;
use crate::digits::{
    decimal,
    digit,
    digit_char,
    is_digit_text,
    lemma_decimal_is_digits,
    push_decimal,
};
use crate::rounding::{div_round_half_even, round_half_even};
use crate::timespan::TimeSpan;

verus! {

/// Nanoseconds in one millisecond.
pub const NANOS_PER_MILLI: u128 = 1_000_000;

/// Nanoseconds in one minute.
pub const NANOS_PER_MINUTE: u128 = 60_000_000_000;

/// Kibibytes in one mebibyte.
pub const KB_PER_MB: u64 = 1024;

/// Kibibytes in one gibibyte.
pub const KB_PER_GB: u64 = 1_048_576;

/// Exactly three decimal digits for a number below one thousand.
pub open spec fn three_digits(n: nat) -> Seq<char>
    recommends
        n < 1000,
{
    seq![digit_char(n / 100), digit_char((n / 10) % 10), digit_char(n % 10)]
}

/// A count of seconds with three decimal places: `nanos` rounded to the
/// nearest millisecond, ties to even.
pub open spec fn seconds_text(nanos: nat) -> Seq<char> {
    let millis = round_half_even(nanos, NANOS_PER_MILLI as nat);
    decimal(millis / 1000) + seq!['.'] + three_digits(millis % 1000)
}

/// The text of a duration. Under one minute it is the seconds with three
/// decimal places and the suffix `s`. From one minute on it is the whole
/// minutes, `m`, then what is left over the whole minutes, again as seconds
/// with three decimal places and the suffix `s`.
pub open spec fn time_text(nanos: nat) -> Seq<char> {
    if nanos < NANOS_PER_MINUTE {
        seconds_text(nanos) + seq!['s']
    } else {
        let minutes = nanos / (NANOS_PER_MINUTE as nat);
        decimal(minutes) + seq!['m'] + seconds_text((nanos - minutes * NANOS_PER_MINUTE) as nat)
            + seq!['s']
    }
}

/// `n / d` with one decimal place, rounded to the nearest tenth, ties to even.
pub open spec fn one_decimal_text(n: nat, d: nat) -> Seq<char>
    recommends
        d > 0,
{
    let tenths = round_half_even(n * 10, d);
    decimal(tenths / 10) + seq!['.', digit_char(tenths % 10)]
}

/// The text of a memory size given in kibibytes: `N/A` for zero, whole
/// kibibytes below 1024, mebibytes with one decimal place below 1024 * 1024,
/// gibibytes with one decimal place from there on.
pub open spec fn memory_text(kb: nat) -> Seq<char> {
    if kb == 0 {
        seq!['N', '/', 'A']
    } else if kb < KB_PER_MB {
        decimal(kb) + seq!['K', 'B']
    } else if kb < KB_PER_GB {
        one_decimal_text(kb, KB_PER_MB as nat) + seq!['M', 'B']
    } else {
        one_decimal_text(kb, KB_PER_GB as nat) + seq!['G', 'B']
    }
}

/// The share of the elapsed time that the processor worked, in percent with
/// one decimal place; zero percent when no time elapsed.
pub open spec fn cpu_share_text(user: nat, system: nat, wall: nat) -> Seq<char> {
    if wall > 0 {
        one_decimal_text((user + system) * 100, wall) + seq!['%']
    } else {
        seq!['0', '.', '0', '%']
    }
}

/// Seconds with three decimal places are a whole number, a point and
/// exactly three digits; the whole number is `nanos` rounded to the
/// millisecond, without what is behind the point.
pub proof fn lemma_seconds_text_shape(nanos: nat)
    ensures
        seconds_text(nanos).len() >= 5,
        seconds_text(nanos).len() == decimal(
            round_half_even(nanos, NANOS_PER_MILLI as nat) / 1000,
        ).len() + 4,
        seconds_text(nanos).take(seconds_text(nanos).len() - 4) == decimal(
            round_half_even(nanos, NANOS_PER_MILLI as nat) / 1000,
        ),
        seconds_text(nanos)[seconds_text(nanos).len() - 4] == '.',
        is_digit_text(seconds_text(nanos).skip(seconds_text(nanos).len() - 3)),
        is_digit_text(seconds_text(nanos).take(seconds_text(nanos).len() - 4)),
{
    let millis = round_half_even(nanos, NANOS_PER_MILLI as nat);
    let whole = decimal(millis / 1000);
    let frac = three_digits(millis % 1000);
    let text = seconds_text(nanos);
    lemma_decimal_is_digits(millis / 1000);
    assert(text == whole + seq!['.'] + frac);
    assert(text.len() == whole.len() + 4);
    assert(text.take(text.len() - 4) =~= whole);
    assert(text.skip(text.len() - 3) =~= frac);
    assert(text[text.len() - 4] == '.');
}

/// Durations of the same length have the same text.
pub proof fn lemma_time_text_is_a_function(a: TimeSpan, b: TimeSpan)
    requires
        a@ == b@,
    ensures
        time_text(a@) == time_text(b@),
{
}

/// Every text of a duration ends in `s` behind a point and exactly three
/// digits. Under one minute nothing but
/// the whole seconds stands before the point. From one minute on the text
/// begins with the whole minutes, the duration divided by sixty seconds
/// and rounded down, and `m`.
pub proof fn lemma_time_text_shape(nanos: nat)
    ensures
        time_text(nanos).len() >= 6,
        time_text(nanos).last() == 's',
        time_text(nanos)[time_text(nanos).len() - 5] == '.',
        is_digit_text(
            time_text(nanos).subrange(time_text(nanos).len() - 4, time_text(nanos).len() - 1),
        ),
        nanos < NANOS_PER_MINUTE ==> is_digit_text(
            time_text(nanos).take(time_text(nanos).len() - 5),
        ),
        nanos >= NANOS_PER_MINUTE ==> time_text(nanos).take(
            decimal(nanos / (NANOS_PER_MINUTE as nat)).len() as int,
        ) == decimal(nanos / (NANOS_PER_MINUTE as nat)),
        nanos >= NANOS_PER_MINUTE ==> time_text(nanos)[decimal(
            nanos / (NANOS_PER_MINUTE as nat),
        ).len() as int] == 'm',
        nanos >= NANOS_PER_MINUTE ==> is_digit_text(
            time_text(nanos).subrange(
                (decimal(nanos / (NANOS_PER_MINUTE as nat)).len() + 1) as int,
                time_text(nanos).len() - 5,
            ),
        ),
{
    let text = time_text(nanos);
    if nanos < NANOS_PER_MINUTE {
        let secs = seconds_text(nanos);
        lemma_seconds_text_shape(nanos);
        assert(text == secs + seq!['s']);
        assert(text.subrange(text.len() - 4, text.len() - 1) =~= secs.skip(secs.len() - 3));
        assert(text.take(text.len() - 5) =~= secs.take(secs.len() - 4));
        assert(text[text.len() - 5] == secs[secs.len() - 4]);
    } else {
        let minutes = nanos / (NANOS_PER_MINUTE as nat);
        let rest = (nanos - minutes * NANOS_PER_MINUTE) as nat;
        let head = decimal(minutes);
        let secs = seconds_text(rest);
        lemma_seconds_text_shape(rest);
        lemma_decimal_is_digits(minutes);
        assert(text == head + seq!['m'] + secs + seq!['s']);
        assert(text.len() == head.len() + 1 + secs.len() + 1);
        assert(text.subrange(text.len() - 4, text.len() - 1) =~= secs.skip(secs.len() - 3));
        assert(text[text.len() - 5] == secs[secs.len() - 4]);
        assert(text.take(head.len() as int) =~= head);
        assert(text[head.len() as int] == 'm');
        assert(text.subrange((head.len() + 1) as int, text.len() - 5) =~= secs.take(secs.len() - 4));
    }
}

/// What is left over the whole minutes is less than a minute, so the
/// seconds shown beside the minutes never exceed sixty.
pub proof fn lemma_seconds_beside_minutes(nanos: nat)
    requires
        nanos >= NANOS_PER_MINUTE,
    ensures
        nanos - (nanos / (NANOS_PER_MINUTE as nat)) * NANOS_PER_MINUTE < NANOS_PER_MINUTE,
        round_half_even(
            (nanos - (nanos / (NANOS_PER_MINUTE as nat)) * NANOS_PER_MINUTE) as nat,
            NANOS_PER_MILLI as nat,
        ) <= 60_000,
{
}

/// The text of a memory size, range by range: `N/A` for zero; the whole
/// kibibytes and `KB` below 1024; from there on a whole part of at least
/// one, a point, one digit and `MB`, and from 1024 * 1024 on `GB`.
pub proof fn lemma_memory_text_shape(kb: nat)
    ensures
        kb == 0 ==> memory_text(kb) == seq!['N', '/', 'A'],
        0 < kb < KB_PER_MB ==> memory_text(kb) == decimal(kb) + seq!['K', 'B'],
        KB_PER_MB <= kb < KB_PER_GB ==> {
            let tenths = round_half_even(kb * 10, KB_PER_MB as nat);
            &&& memory_text(kb) == decimal(tenths / 10) + seq![
                '.',
                digit_char(tenths % 10),
                'M',
                'B',
            ]
            &&& 10 <= tenths <= 10240
        },
        kb >= KB_PER_GB ==> {
            let tenths = round_half_even(kb * 10, KB_PER_GB as nat);
            &&& memory_text(kb) == decimal(tenths / 10) + seq![
                '.',
                digit_char(tenths % 10),
                'G',
                'B',
            ]
            &&& 10 <= tenths
        },
{
    if KB_PER_MB <= kb < KB_PER_GB {
        let tenths = round_half_even(kb * 10, KB_PER_MB as nat);
        assert(memory_text(kb) =~= decimal(tenths / 10) + seq![
            '.',
            digit_char(tenths % 10),
            'M',
            'B',
        ]);
    } else if kb >= KB_PER_GB {
        let tenths = round_half_even(kb * 10, KB_PER_GB as nat);
        assert(memory_text(kb) =~= decimal(tenths / 10) + seq![
            '.',
            digit_char(tenths % 10),
            'G',
            'B',
        ]);
    }
}

/// Appends seconds with three decimal places.
fn push_seconds(out: &mut String, nanos: u128)
    ensures
        final(out)@ == old(out)@ + seconds_text(nanos as nat),
{
    let millis: u128 = div_round_half_even(nanos, NANOS_PER_MILLI);
    let frac: u128 = millis % 1000;
    push_decimal(out, millis / 1000);
    out.push('.');
    out.push(digit((frac / 100) as u8));
    out.push(digit(((frac / 10) % 10) as u8));
    out.push(digit((frac % 10) as u8));
    assert(out@ =~= old(out)@ + seconds_text(nanos as nat));
}

/// Appends `n / d` with one decimal place.
fn push_one_decimal(out: &mut String, n: u128, d: u128)
    requires
        d > 0,
        n * 10 <= u128::MAX,
    ensures
        final(out)@ == old(out)@ + one_decimal_text(n as nat, d as nat),
{
    let tenths: u128 = div_round_half_even(n * 10, d);
    push_decimal(out, tenths / 10);
    out.push('.');
    out.push(digit((tenths % 10) as u8));
    assert(out@ =~= old(out)@ + one_decimal_text(n as nat, d as nat));
}

/// Appends the text of a duration.
pub fn push_time(out: &mut String, span: TimeSpan)
    ensures
        final(out)@ == old(out)@ + time_text(span@),
{
    let nanos: u128 = span.as_nanos();
    if nanos < NANOS_PER_MINUTE {
        push_seconds(out, nanos);
        out.push('s');
        assert(out@ =~= old(out)@ + time_text(span@));
    } else {
        let minutes: u128 = nanos / NANOS_PER_MINUTE;
        push_decimal(out, minutes);
        out.push('m');
        push_seconds(out, nanos - minutes * NANOS_PER_MINUTE);
        out.push('s');
        assert(out@ =~= old(out)@ + time_text(span@));
    }
}

/// Appends the text of a memory size in kibibytes.
pub fn push_memory(out: &mut String, kb: u64)
    ensures
        final(out)@ == old(out)@ + memory_text(kb as nat),
{
    if kb == 0 {
        out.push('N');
        out.push('/');
        out.push('A');
    } else if kb < KB_PER_MB {
        push_decimal(out, kb as u128);
        out.push('K');
        out.push('B');
    } else if kb < KB_PER_GB {
        push_one_decimal(out, kb as u128, KB_PER_MB as u128);
        out.push('M');
        out.push('B');
    } else {
        push_one_decimal(out, kb as u128, KB_PER_GB as u128);
        out.push('G');
        out.push('B');
    }
    assert(out@ =~= old(out)@ + memory_text(kb as nat));
}

/// Appends the processor's share of the elapsed time.
pub fn push_cpu_share(out: &mut String, user: TimeSpan, system: TimeSpan, wall: TimeSpan)
    ensures
        final(out)@ == old(out)@ + cpu_share_text(user@, system@, wall@),
{
    let busy: u128 = user.as_nanos() + system.as_nanos();
    let elapsed: u128 = wall.as_nanos();
    if elapsed > 0 {
        push_one_decimal(out, busy * 100, elapsed);
        out.push('%');
    } else {
        out.push('0');
        out.push('.');
        out.push('0');
        out.push('%');
    }
    assert(out@ =~= old(out)@ + cpu_share_text(user@, system@, wall@));
}

/// The text of a duration.
pub fn format_time(span: TimeSpan) -> (text: String)
    ensures
        text@ == time_text(span@),
{
    let mut text = String::new();
    push_time(&mut text, span);
    text
}

/// The text of a memory size in kibibytes.
pub fn format_memory(kb: u64) -> (text: String)
    ensures
        text@ == memory_text(kb as nat),
{
    let mut text = String::new();
    push_memory(&mut text, kb);
    text
}

/// The text of the processor's share of the elapsed time.
pub fn format_cpu_share(user: TimeSpan, system: TimeSpan, wall: TimeSpan) -> (text: String)
    ensures
        text@ == cpu_share_text(user@, system@, wall@),
{
    let mut text = String::new();
    push_cpu_share(&mut text, user, system, wall);
    text
}

} // verus!
