//! The key scheme: every cache bucket is named by the studio id, a
//! separator, and the bucket's date and hour in fixed-width decimal form,
//! `{studio}-{YYYY}-{MM}-{DD}-{HH}`. A search pattern for a whole day ends
//! in a wildcard instead of the hour, `{studio}-{YYYY}-{MM}-{DD}-*`.

use vstd::prelude::*;
use crate::select::{
    lex_lt, lemma_lex_lt_common_prefix, lemma_lex_lt_irreflexive, lemma_newest_contained,
    lemma_newest_is_max, spec_newest,
};
use crate::time::{LogicalTime, spec_previous_day, previous_day};

verus! {

/// Relies on `String::push` from std: it appends exactly the given
/// character to the end of the string.
pub assume_specification[ String::push ](s: &mut String, ch: char)
    ensures
        final(s)@ == old(s)@.push(ch),
;

pub open spec fn spec_digit(d: int) -> char {
    if d == 0 {
        '0'
    } else if d == 1 {
        '1'
    } else if d == 2 {
        '2'
    } else if d == 3 {
        '3'
    } else if d == 4 {
        '4'
    } else if d == 5 {
        '5'
    } else if d == 6 {
        '6'
    } else if d == 7 {
        '7'
    } else if d == 8 {
        '8'
    } else {
        '9'
    }
}

/// A value below 100 as two decimal digits, zero-padded.
pub open spec fn spec_two_digits(v: int) -> Seq<char> {
    seq![spec_digit(v / 10), spec_digit(v % 10)]
}

/// A value below 10000 as four decimal digits, zero-padded.
pub open spec fn spec_four_digits(v: int) -> Seq<char> {
    seq![
        spec_digit(v / 1000),
        spec_digit((v / 100) % 10),
        spec_digit((v / 10) % 10),
        spec_digit(v % 10),
    ]
}

fn digit_char(d: u32) -> (c: char)
    requires
        d < 10,
    ensures
        c == spec_digit(d as int),
{
    if d == 0 {
        '0'
    } else if d == 1 {
        '1'
    } else if d == 2 {
        '2'
    } else if d == 3 {
        '3'
    } else if d == 4 {
        '4'
    } else if d == 5 {
        '5'
    } else if d == 6 {
        '6'
    } else if d == 7 {
        '7'
    } else if d == 8 {
        '8'
    } else {
        '9'
    }
}

fn push_two_digits(s: &mut String, v: u32)
    requires
        v < 100,
    ensures
        final(s)@ == old(s)@ + spec_two_digits(v as int),
{
    s.push(digit_char(v / 10));
    s.push(digit_char(v % 10));
    proof {
        assert(s@ =~= old(s)@ + spec_two_digits(v as int));
    }
}

fn push_four_digits(s: &mut String, v: u32)
    requires
        v < 10000,
    ensures
        final(s)@ == old(s)@ + spec_four_digits(v as int),
{
    s.push(digit_char(v / 1000));
    s.push(digit_char((v / 100) % 10));
    s.push(digit_char((v / 10) % 10));
    s.push(digit_char(v % 10));
    proof {
        assert(s@ =~= old(s)@ + spec_four_digits(v as int));
    }
}

/// The date-and-hour tail of a concrete bucket key, `YYYY-MM-DD-HH`.
pub open spec fn spec_date_hour(t: LogicalTime) -> Seq<char> {
    spec_four_digits(t.year as int) + seq!['-'] + spec_two_digits(t.month as int) + seq!['-']
        + spec_two_digits(t.day as int) + seq!['-'] + spec_two_digits(t.hour as int)
}

/// The concrete bucket key for a studio at a time, `{studio}-YYYY-MM-DD-HH`.
pub open spec fn spec_current_key(studio: Seq<char>, t: LogicalTime) -> Seq<char> {
    studio + seq!['-'] + spec_date_hour(t)
}

/// The enumeration pattern for every hour bucket of a studio on one day,
/// `{studio}-YYYY-MM-DD-*`.
pub open spec fn spec_search_pattern(studio: Seq<char>, t: LogicalTime) -> Seq<char> {
    studio + seq!['-'] + spec_four_digits(t.year as int) + seq!['-']
        + spec_two_digits(t.month as int) + seq!['-'] + spec_two_digits(t.day as int)
        + seq!['-', '*']
}

/// Formats the bucket key of the clock hour that `now` lies in. Two calls
/// within the same hour yield the same key, so a re-fetch overwrites the
/// same bucket.
pub fn create_current_key(studio_id: &String, now: &LogicalTime) -> (key: String)
    requires
        now.wf(),
    ensures
        key@ == spec_current_key(studio_id@, *now),
{
    let mut key = studio_id.clone();
    key.push('-');
    push_four_digits(&mut key, now.year);
    key.push('-');
    push_two_digits(&mut key, now.month);
    key.push('-');
    push_two_digits(&mut key, now.day);
    key.push('-');
    push_two_digits(&mut key, now.hour);
    proof {
        assert(key@ =~= spec_current_key(studio_id@, *now));
    }
    key
}

/// Formats the enumeration pattern for all hour buckets of one day: the
/// day `now` lies in, or the day before it when `yesterday` is set.
pub fn create_redis_search_key(studio_id: &String, yesterday: bool, now: &LogicalTime) -> (p:
    String)
    requires
        now.wf(),
        yesterday ==> !now.is_first_day(),
    ensures
        p@ == spec_search_pattern(
            studio_id@,
            if yesterday {
                spec_previous_day(*now)
            } else {
                *now
            },
        ),
{
    let day = if yesterday {
        previous_day(now)
    } else {
        *now
    };
    let mut p = studio_id.clone();
    p.push('-');
    push_four_digits(&mut p, day.year);
    p.push('-');
    push_two_digits(&mut p, day.month);
    p.push('-');
    push_two_digits(&mut p, day.day);
    p.push('-');
    p.push('*');
    proof {
        assert(p@ =~= spec_search_pattern(
            studio_id@,
            if yesterday {
                spec_previous_day(*now)
            } else {
                *now
            },
        ));
    }
    p
}

/// The first step of a resolution: either the concrete key to read, or the
/// pattern whose enumeration the historical lookup needs first.
pub enum KeyQuery {
    Ready { key: String },
    Search { pattern: String },
}

/// Translates a request into its cache lookup. For the current day the
/// concrete hour-bucket key is ready at once; for yesterday the stored keys
/// of that day must be enumerated first, so the search pattern is returned
/// and the newest enumerated key becomes the bucket to read.
pub fn create_key(studio_id: &String, yesterday: bool, now: &LogicalTime) -> (q: KeyQuery)
    requires
        now.wf(),
        yesterday ==> !now.is_first_day(),
    ensures
        !yesterday ==> (q matches KeyQuery::Ready { key } && key@ == spec_current_key(
            studio_id@,
            *now,
        )),
        yesterday ==> (q matches KeyQuery::Search { pattern } && pattern@ == spec_search_pattern(
            studio_id@,
            spec_previous_day(*now),
        )),
{
    if yesterday {
        KeyQuery::Search { pattern: create_redis_search_key(studio_id, true, now) }
    } else {
        KeyQuery::Ready { key: create_current_key(studio_id, now) }
    }
}

proof fn lemma_digit_injective(d1: int, d2: int)
    requires
        0 <= d1 < 10,
        0 <= d2 < 10,
        spec_digit(d1) == spec_digit(d2),
    ensures
        d1 == d2,
{
}

proof fn lemma_two_digits_injective(v1: int, v2: int)
    requires
        0 <= v1 < 100,
        0 <= v2 < 100,
        spec_two_digits(v1) == spec_two_digits(v2),
    ensures
        v1 == v2,
{
    assert(spec_two_digits(v1)[0] == spec_two_digits(v2)[0]);
    assert(spec_two_digits(v1)[1] == spec_two_digits(v2)[1]);
    lemma_digit_injective(v1 / 10, v2 / 10);
    lemma_digit_injective(v1 % 10, v2 % 10);
}

proof fn lemma_four_digits_injective(v1: int, v2: int)
    requires
        0 <= v1 < 10000,
        0 <= v2 < 10000,
        spec_four_digits(v1) == spec_four_digits(v2),
    ensures
        v1 == v2,
{
    assert(spec_four_digits(v1)[0] == spec_four_digits(v2)[0]);
    assert(spec_four_digits(v1)[1] == spec_four_digits(v2)[1]);
    assert(spec_four_digits(v1)[2] == spec_four_digits(v2)[2]);
    assert(spec_four_digits(v1)[3] == spec_four_digits(v2)[3]);
    lemma_digit_injective(v1 / 1000, v2 / 1000);
    lemma_digit_injective((v1 / 100) % 10, (v2 / 100) % 10);
    lemma_digit_injective((v1 / 10) % 10, (v2 / 10) % 10);
    lemma_digit_injective(v1 % 10, v2 % 10);
}

/// Equal date-hour tails name the same year, month, day and hour: the
/// fixed-width zero-padded layout is injective.
pub proof fn lemma_date_hour_injective(t1: LogicalTime, t2: LogicalTime)
    requires
        t1.wf(),
        t2.wf(),
        spec_date_hour(t1) == spec_date_hour(t2),
    ensures
        t1.same_hour(t2),
{
    let a = spec_date_hour(t1);
    let b = spec_date_hour(t2);
    assert forall|i: int| 0 <= i < 4 implies spec_four_digits(t1.year as int)[i]
        == spec_four_digits(t2.year as int)[i] by {
        assert(a[i] == spec_four_digits(t1.year as int)[i]);
        assert(b[i] == spec_four_digits(t2.year as int)[i]);
    }
    assert(spec_four_digits(t1.year as int) =~= spec_four_digits(t2.year as int));
    lemma_four_digits_injective(t1.year as int, t2.year as int);
    assert forall|i: int| 0 <= i < 2 implies spec_two_digits(t1.month as int)[i]
        == spec_two_digits(t2.month as int)[i] by {
        assert(a[5 + i] == spec_two_digits(t1.month as int)[i]);
        assert(b[5 + i] == spec_two_digits(t2.month as int)[i]);
    }
    assert(spec_two_digits(t1.month as int) =~= spec_two_digits(t2.month as int));
    lemma_two_digits_injective(t1.month as int, t2.month as int);
    assert forall|i: int| 0 <= i < 2 implies spec_two_digits(t1.day as int)[i] == spec_two_digits(
        t2.day as int,
    )[i] by {
        assert(a[8 + i] == spec_two_digits(t1.day as int)[i]);
        assert(b[8 + i] == spec_two_digits(t2.day as int)[i]);
    }
    assert(spec_two_digits(t1.day as int) =~= spec_two_digits(t2.day as int));
    lemma_two_digits_injective(t1.day as int, t2.day as int);
    assert forall|i: int| 0 <= i < 2 implies spec_two_digits(t1.hour as int)[i] == spec_two_digits(
        t2.hour as int,
    )[i] by {
        assert(a[11 + i] == spec_two_digits(t1.hour as int)[i]);
        assert(b[11 + i] == spec_two_digits(t2.hour as int)[i]);
    }
    assert(spec_two_digits(t1.hour as int) =~= spec_two_digits(t2.hour as int));
    lemma_two_digits_injective(t1.hour as int, t2.hour as int);
}

proof fn lemma_digit_order(d1: int, d2: int)
    requires
        0 <= d1 < 10,
        0 <= d2 < 10,
    ensures
        ((spec_digit(d1) as u32) < (spec_digit(d2) as u32)) <==> d1 < d2,
{
}

proof fn lemma_two_digits_order(v1: int, v2: int)
    requires
        0 <= v1 < 100,
        0 <= v2 < 100,
    ensures
        lex_lt(spec_two_digits(v1), spec_two_digits(v2)) <==> v1 < v2,
{
    let a = spec_two_digits(v1);
    let b = spec_two_digits(v2);
    vstd::arithmetic::div_mod::lemma_fundamental_div_mod(v1, 10);
    vstd::arithmetic::div_mod::lemma_fundamental_div_mod(v2, 10);
    assert(v1 == 10 * (v1 / 10) + v1 % 10);
    assert(v2 == 10 * (v2 / 10) + v2 % 10);
    lemma_digit_order(v1 / 10, v2 / 10);
    lemma_digit_order(v1 % 10, v2 % 10);
    if a[0] == b[0] {
        lemma_digit_injective(v1 / 10, v2 / 10);
        assert(lex_lt(a, b) == lex_lt(a.drop_first(), b.drop_first()));
        assert(a.drop_first() =~= seq![spec_digit(v1 % 10)]);
        assert(b.drop_first() =~= seq![spec_digit(v2 % 10)]);
        if v1 % 10 == v2 % 10 {
            lemma_lex_lt_irreflexive(seq![spec_digit(v1 % 10)]);
            assert(!lex_lt(a, b));
            assert(v1 == v2);
        } else {
            assert(spec_digit(v1 % 10) != spec_digit(v2 % 10)) by {
                if spec_digit(v1 % 10) == spec_digit(v2 % 10) {
                    lemma_digit_injective(v1 % 10, v2 % 10);
                }
            }
            assert(seq![spec_digit(v1 % 10)][0] == spec_digit(v1 % 10));
            assert(seq![spec_digit(v2 % 10)][0] == spec_digit(v2 % 10));
            assert(lex_lt(a, b) <==> v1 % 10 < v2 % 10);
            assert(v1 < v2 <==> v1 % 10 < v2 % 10);
        }
    } else {
        assert(lex_lt(a, b) == ((a[0] as u32) < (b[0] as u32)));
        assert(v1 / 10 != v2 / 10);
        assert(lex_lt(a, b) <==> v1 / 10 < v2 / 10);
        assert(v1 / 10 < v2 / 10 ==> v1 < v2);
        assert(v2 / 10 < v1 / 10 ==> v2 < v1);
    }
}

/// On one studio and one day, lexicographic order on bucket keys is
/// chronological order on the encoded hour: the fixed-width zero-padded
/// layout makes the most recent bucket the lexicographically greatest key,
/// which is what the newest-key selector relies on.
pub proof fn lemma_key_order_is_chronological(studio: Seq<char>, t1: LogicalTime, t2: LogicalTime)
    requires
        t1.wf(),
        t2.wf(),
        t1.year == t2.year,
        t1.month == t2.month,
        t1.day == t2.day,
    ensures
        lex_lt(spec_current_key(studio, t1), spec_current_key(studio, t2)) <==> t1.hour < t2.hour,
{
    let p = studio + seq!['-'] + spec_four_digits(t1.year as int) + seq!['-'] + spec_two_digits(
        t1.month as int,
    ) + seq!['-'] + spec_two_digits(t1.day as int) + seq!['-'];
    assert(spec_current_key(studio, t1) =~= p + spec_two_digits(t1.hour as int));
    assert(spec_current_key(studio, t2) =~= p + spec_two_digits(t2.hour as int));
    lemma_lex_lt_common_prefix(p, spec_two_digits(t1.hour as int), spec_two_digits(t2.hour as int));
    lemma_two_digits_order(t1.hour as int, t2.hour as int);
}

/// Over the buckets of one studio on one day, the newest-key selector
/// picks a bucket of the latest stored hour: selecting the lexicographic
/// maximum is selecting the chronological maximum.
pub proof fn lemma_selected_key_has_latest_hour(
    studio: Seq<char>,
    times: Seq<LogicalTime>,
    keys: Seq<Seq<char>>,
)
    requires
        times.len() == keys.len(),
        times.len() > 0,
        forall|k: int| 0 <= k < times.len() ==> (#[trigger] times[k]).wf(),
        forall|k: int|
            0 <= k < times.len() ==> (#[trigger] times[k]).year == times[0].year && times[k].month
                == times[0].month && times[k].day == times[0].day,
        forall|k: int|
            0 <= k < keys.len() ==> #[trigger] keys[k] == spec_current_key(studio, times[k]),
    ensures
        exists|w: int|
            0 <= w < keys.len() && spec_newest(keys) == keys[w] && (forall|k: int|
                0 <= k < times.len() ==> (#[trigger] times[k]).hour <= times[w].hour),
{
    lemma_newest_contained(keys);
    let w = choose|w: int| 0 <= w < keys.len() && keys[w] == spec_newest(keys);
    assert forall|k: int| 0 <= k < times.len() implies (#[trigger] times[k]).hour
        <= times[w].hour by {
        lemma_newest_is_max(keys, k);
        lemma_key_order_is_chronological(studio, times[w], times[k]);
    }
    assert(0 <= w < keys.len() && spec_newest(keys) == keys[w] && (forall|k: int|
        0 <= k < times.len() ==> (#[trigger] times[k]).hour <= times[w].hour));
}

/// Within one clock hour a studio's bucket key does not change: the key is
/// derived from the hour alone, never from the minute.
pub proof fn lemma_current_key_stable_within_hour(
    studio: Seq<char>,
    t1: LogicalTime,
    t2: LogicalTime,
)
    requires
        t1.wf(),
        t2.wf(),
        t1.same_hour(t2),
    ensures
        spec_current_key(studio, t1) == spec_current_key(studio, t2),
{
}

/// A studio's bucket key changes exactly when the time crosses an hour
/// boundary: two well-formed times yield the same key if and only if they
/// lie in the same clock hour of the same day.
pub proof fn lemma_current_key_hour_boundary(studio: Seq<char>, t1: LogicalTime, t2: LogicalTime)
    requires
        t1.wf(),
        t2.wf(),
    ensures
        spec_current_key(studio, t1) == spec_current_key(studio, t2) <==> t1.same_hour(t2),
{
    if spec_current_key(studio, t1) == spec_current_key(studio, t2) {
        let a = spec_date_hour(t1);
        let b = spec_date_hour(t2);
        assert(a.len() == 13 && b.len() == 13);
        assert forall|i: int| 0 <= i < 13 implies a[i] == b[i] by {
            assert(spec_current_key(studio, t1)[studio.len() + 1 + i] == a[i]);
            assert(spec_current_key(studio, t2)[studio.len() + 1 + i] == b[i]);
        }
        assert(a =~= b);
        lemma_date_hour_injective(t1, t2);
    }
    if t1.same_hour(t2) {
        lemma_current_key_stable_within_hour(studio, t1, t2);
    }
}

} // verus!
