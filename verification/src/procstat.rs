//! Reading a process status record: one line of fields separated by
//! white space, among them the processor time counters in clock ticks and
//! the virtual memory size in bytes.

use vstd::prelude::*;
use crate::digits::{decimal, digit_char, lemma_decimal_is_digits, push_decimal};
use crate::timespan::{TimeSpan, NANOS_PER_SECOND};
use crate::usage::{no_usage, ResourceUsage, UsageView, BYTES_PER_KB};

verus! {

/// Position of the user-mode tick counter among the fields, counted from zero.
pub const USER_TICKS_FIELD: usize = 13;

/// Position of the kernel-mode tick counter among the fields, counted from zero.
pub const SYSTEM_TICKS_FIELD: usize = 14;

/// Position of the virtual memory size among the fields, counted from zero.
pub const MEMORY_BYTES_FIELD: usize = 22;

/// A record with fewer fields than this carries no usable data.
pub const MIN_FIELDS: usize = 24;

/// White space: the characters that separate fields.
pub open spec fn is_space(c: char) -> bool {
    ||| c == ' '
    ||| '\u{9}' <= c <= '\u{d}'
    ||| c == '\u{85}'
    ||| c == '\u{a0}'
    ||| c == '\u{1680}'
    ||| '\u{2000}' <= c <= '\u{200a}'
    ||| c == '\u{2028}'
    ||| c == '\u{2029}'
    ||| c == '\u{202f}'
    ||| c == '\u{205f}'
    ||| c == '\u{3000}'
}

/// The end of the run of characters other than white space that holds position `i`.
pub open spec fn word_end(s: Seq<char>, i: int) -> int
    decreases s.len() - i,
{
    if 0 <= i < s.len() && !is_space(s[i]) {
        word_end(s, i + 1)
    } else {
        i
    }
}

/// The fields of `s` that begin at position `i` or later.
pub open spec fn fields_from(s: Seq<char>, i: int) -> Seq<Seq<char>>
    decreases s.len() - i,
{
    if i < 0 || i >= s.len() {
        Seq::empty()
    } else if is_space(s[i]) {
        fields_from(s, i + 1)
    } else {
        proof {
            lemma_word_end_bounds(s, i);
        }
        seq![s.subrange(i, word_end(s, i))] + fields_from(s, word_end(s, i))
    }
}

/// The fields of a record: its longest runs of characters other than white
/// space, in order.
pub open spec fn fields_of(s: Seq<char>) -> Seq<Seq<char>> {
    fields_from(s, 0)
}

/// A word ends at or after the position it is asked from, and after it where
/// that position holds no white space.
pub proof fn lemma_word_end_bounds(s: Seq<char>, i: int)
    requires
        0 <= i <= s.len(),
    ensures
        i <= word_end(s, i) <= s.len(),
        i < s.len() && !is_space(s[i]) ==> i < word_end(s, i),
        forall|j: int| i <= j < word_end(s, i) ==> !is_space(#[trigger] s[j]),
        word_end(s, i) < s.len() ==> is_space(s[word_end(s, i)]),
    decreases s.len() - i,
{
    if i < s.len() && !is_space(s[i]) {
        lemma_word_end_bounds(s, i + 1);
    }
}

/// A word: a non-empty run of characters other than white space.
pub open spec fn is_word(w: Seq<char>) -> bool {
    w.len() > 0 && forall|j: int| 0 <= j < w.len() ==> !is_space(#[trigger] w[j])
}

/// Every field is a word.
pub proof fn lemma_fields_are_words(s: Seq<char>, i: int)
    requires
        0 <= i <= s.len(),
    ensures
        forall|k: int| 0 <= k < fields_from(s, i).len() ==> is_word(#[trigger] fields_from(s, i)[k]),
    decreases s.len() - i,
{
    if i >= s.len() {
        assert(fields_from(s, i).len() == 0);
    } else if is_space(s[i]) {
        lemma_fields_are_words(s, i + 1);
        assert(fields_from(s, i) == fields_from(s, i + 1));
    } else {
        lemma_word_end_bounds(s, i);
        let e = word_end(s, i);
        lemma_fields_are_words(s, e);
        let word = s.subrange(i, e);
        assert(is_word(word)) by {
            assert forall|j: int| 0 <= j < word.len() implies !is_space(#[trigger] word[j]) by {
                assert(word[j] == s[i + j]);
            }
        }
        let rest = fields_from(s, e);
        assert(fields_from(s, i) == seq![word] + rest);
        assert forall|k: int| 0 <= k < fields_from(s, i).len() implies is_word(
            #[trigger] fields_from(s, i)[k],
        ) by {
            if k > 0 {
                assert(fields_from(s, i)[k] == rest[k - 1]);
            }
        }
    }
}

/// A decimal digit.
pub open spec fn is_digit(c: char) -> bool {
    '0' <= c <= '9'
}

/// The number that a string of decimal digits writes.
pub open spec fn digits_value(s: Seq<char>) -> nat
    decreases s.len(),
{
    if s.len() == 0 {
        0
    } else {
        digits_value(s.drop_last()) * 10 + (s.last() as nat - 48) as nat
    }
}

/// Whether every character is a decimal digit.
pub open spec fn all_digits(s: Seq<char>) -> bool {
    forall|i: int| 0 <= i < s.len() ==> is_digit(#[trigger] s[i])
}

/// A field without the single plus sign that may lead it.
pub open spec fn unsigned_body(s: Seq<char>) -> Seq<char> {
    if s.len() > 0 && s[0] == '+' {
        s.skip(1)
    } else {
        s
    }
}

/// The value of a counter field. A counter is written as one or more decimal
/// digits, with an optional plus sign in front, and fits in 64 bits; any
/// other field counts as zero.
pub open spec fn counter_value(s: Seq<char>) -> nat {
    let body = unsigned_body(s);
    if body.len() > 0 && all_digits(body) && digits_value(body) <= u64::MAX {
        digits_value(body)
    } else {
        0
    }
}

/// The usage that a status record reports, where a second holds
/// `clock_ticks` clock ticks. A record with too few fields, or a clock that
/// does not tick, reports nothing.
pub open spec fn record_usage(text: Seq<char>, clock_ticks: int) -> UsageView {
    let fields = fields_of(text);
    if fields.len() >= MIN_FIELDS && clock_ticks > 0 {
        UsageView {
            user_nanos: ((counter_value(fields[USER_TICKS_FIELD as int]) * NANOS_PER_SECOND)
                / clock_ticks) as nat,
            system_nanos: ((counter_value(fields[SYSTEM_TICKS_FIELD as int]) * NANOS_PER_SECOND)
                / clock_ticks) as nat,
            max_memory_kb: counter_value(fields[MEMORY_BYTES_FIELD as int]) / (BYTES_PER_KB as nat),
        }
    } else {
        no_usage()
    }
}

/// The place of the status record of process `child_id`.
pub open spec fn record_path(child_id: u32) -> Seq<char> {
    seq!['/', 'p', 'r', 'o', 'c', '/'] + decimal(child_id as nat) + seq!['/', 's', 't', 'a', 't']
}

/// A longer string of digits writes a number at least as large as any of
/// its beginnings.
pub proof fn lemma_digits_value_grows(s: Seq<char>, k: int)
    requires
        0 <= k <= s.len(),
    ensures
        digits_value(s.take(k)) <= digits_value(s),
    decreases s.len() - k,
{
    if k == s.len() {
        assert(s.take(k) =~= s);
    } else {
        lemma_digits_value_grows(s.drop_last(), k);
        assert(s.drop_last().take(k) =~= s.take(k));
    }
}

/// A counter reads back the number that was written out in decimal.
pub proof fn lemma_counter_reads_decimal(n: nat)
    ensures
        digits_value(decimal(n)) == n,
        all_digits(decimal(n)),
        n <= u64::MAX ==> counter_value(decimal(n)) == n,
    decreases n,
{
    lemma_decimal_is_digits(n);
    let text = decimal(n);
    if n < 10 {
        assert(text.drop_last() =~= Seq::<char>::empty());
        assert(text.last() == digit_char(n));
        assert(digits_value(text.drop_last()) == 0);
    } else {
        lemma_counter_reads_decimal(n / 10);
        assert(text.drop_last() =~= decimal(n / 10));
        assert(text.last() == digit_char(n % 10));
    }
    assert(text[0] != '+');
    assert(unsigned_body(text) == text);
}

/// Whether `c` is white space.
pub fn is_whitespace(c: char) -> (space: bool)
    ensures
        space == is_space(c),
{
    c == ' ' || ('\u{9}' <= c && c <= '\u{d}') || c == '\u{85}' || c == '\u{a0}' || c == '\u{1680}'
        || ('\u{2000}' <= c && c <= '\u{200a}') || c == '\u{2028}' || c == '\u{2029}' || c
        == '\u{202f}' || c == '\u{205f}' || c == '\u{3000}'
}

/// The views of a list of character vectors.
pub open spec fn views(v: Seq<Vec<char>>) -> Seq<Seq<char>> {
    Seq::new(v.len(), |i: int| v[i]@)
}

/// The characters of a string, in order.
pub fn chars_of(text: &str) -> (chars: Vec<char>)
    ensures
        chars@ == text@,
{
    let mut chars: Vec<char> = Vec::new();
    for c in it: text.chars()
        invariant
            it.seq() == text@,
            chars.len() == it.index(),
            forall|j: int| 0 <= j < chars.len() ==> chars[j] == it.seq()[j],
    {
        chars.push(c);
    }
    assert(chars@ =~= text@);
    chars
}

/// Splits a record into its fields.
pub fn split_fields(text: &Vec<char>) -> (fields: Vec<Vec<char>>)
    ensures
        views(fields@) == fields_of(text@),
{
    let mut fields: Vec<Vec<char>> = Vec::new();
    let n: usize = text.len();
    let mut i: usize = 0;
    assert(views(fields@) + fields_from(text@, 0) =~= fields_of(text@));
    while i < n
        invariant
            i <= n,
            n == text.len(),
            views(fields@) + fields_from(text@, i as int) == fields_of(text@),
        decreases n - i,
    {
        if is_whitespace(text[i]) {
            i += 1;
        } else {
            let start: usize = i;
            let mut word: Vec<char> = Vec::new();
            assert(word@ =~= text@.subrange(start as int, i as int));
            while i < n && !is_whitespace(text[i])
                invariant
                    start <= i <= n,
                    n == text.len(),
                    word@ == text@.subrange(start as int, i as int),
                    word_end(text@, start as int) == word_end(text@, i as int),
                decreases n - i,
            {
                word.push(text[i]);
                i += 1;
                assert(word@ =~= text@.subrange(start as int, i as int));
            }
            let ghost before = views(fields@);
            fields.push(word);
            proof {
                let rest = fields_from(text@, i as int);
                assert(views(fields@) =~= before + seq![word@]);
                assert(fields_from(text@, start as int) == seq![word@] + rest);
                assert(views(fields@) + rest =~= before + (seq![word@] + rest));
            }
        }
    }
    assert(views(fields@) + fields_from(text@, n as int) =~= views(fields@));
    fields
}

/// Reads a counter field.
pub fn parse_counter(field: &Vec<char>) -> (value: u64)
    ensures
        value == counter_value(field@),
{
    let n: usize = field.len();
    let start: usize = if n > 0 && field[0] == '+' {
        1
    } else {
        0
    };
    let ghost body = unsigned_body(field@);
    assert(body =~= field@.skip(start as int));
    if start == n {
        return 0;
    }
    let mut acc: u64 = 0;
    let mut i: usize = start;
    assert(body.take(0) =~= Seq::<char>::empty());
    while i < n
        invariant
            start <= i <= n,
            n == field.len(),
            body == field@.skip(start as int),
            body == unsigned_body(field@),
            all_digits(body.take(i - start)),
            acc == digits_value(body.take(i - start)),
        decreases n - i,
    {
        let c: char = field[i];
        if !('0' <= c && c <= '9') {
            assert(body[i - start] == c);
            assert(!all_digits(body));
            return 0;
        }
        let d: u64 = (c as u64) - 48;
        proof {
            let next = body.take(i - start + 1);
            assert(next.drop_last() =~= body.take(i - start));
            assert(next.last() == c);
            assert(digits_value(next) == acc * 10 + d);
            lemma_digits_value_grows(body, i - start + 1);
            assert forall|j: int| 0 <= j < next.len() implies is_digit(#[trigger] next[j]) by {
                if j < i - start {
                    assert(next[j] == body.take(i - start)[j]);
                }
            }
        }
        if acc > (u64::MAX - d) / 10 {
            return 0;
        }
        acc = acc * 10 + d;
        i += 1;
    }
    assert(body.take(n - start) =~= body);
    acc
}

/// The usage that a status record reports, where a second holds
/// `clock_ticks` clock ticks.
pub fn usage_from_record(text: &str, clock_ticks: i64) -> (usage: ResourceUsage)
    ensures
        usage@ == record_usage(text@, clock_ticks as int),
{
    let chars = chars_of(text);
    let fields = split_fields(&chars);
    if fields.len() < MIN_FIELDS || clock_ticks <= 0 {
        return ResourceUsage::none();
    }
    let per_second: u64 = clock_ticks as u64;
    let user_ticks: u64 = parse_counter(&fields[USER_TICKS_FIELD]);
    let system_ticks: u64 = parse_counter(&fields[SYSTEM_TICKS_FIELD]);
    let memory_bytes: u64 = parse_counter(&fields[MEMORY_BYTES_FIELD]);
    assert(views(fields@)[USER_TICKS_FIELD as int] == fields@[USER_TICKS_FIELD as int]@);
    assert(views(fields@)[SYSTEM_TICKS_FIELD as int] == fields@[SYSTEM_TICKS_FIELD as int]@);
    assert(views(fields@)[MEMORY_BYTES_FIELD as int] == fields@[MEMORY_BYTES_FIELD as int]@);
    match (TimeSpan::from_ticks(user_ticks, per_second), TimeSpan::from_ticks(system_ticks, per_second)) {
        (Some(user_time), Some(system_time)) => ResourceUsage {
            user_time,
            system_time,
            max_memory: memory_bytes / BYTES_PER_KB,
        },
        _ => ResourceUsage::none(),
    }
}

/// The usage that a probe reports from what it could read of a process:
/// the usage in the status record, or nothing where no record could be read.
pub fn probe_usage(record: Option<&str>, clock_ticks: i64) -> (usage: ResourceUsage)
    ensures
        record matches Some(text) ==> usage@ == record_usage(text@, clock_ticks as int),
        record is None ==> usage@ == no_usage(),
{
    match record {
        Some(text) => usage_from_record(text, clock_ticks),
        None => ResourceUsage::none(),
    }
}

/// The place of the status record of process `child_id`.
pub fn status_record_path(child_id: u32) -> (path: String)
    ensures
        path@ == record_path(child_id),
{
    let mut path = String::new();
    path.push('/');
    path.push('p');
    path.push('r');
    path.push('o');
    path.push('c');
    path.push('/');
    push_decimal(&mut path, child_id as u128);
    path.push('/');
    path.push('s');
    path.push('t');
    path.push('a');
    path.push('t');
    assert(path@ =~= record_path(child_id));
    path
}

} // verus!
