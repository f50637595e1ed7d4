//! The inputs that the natural-language reader is handed without panicking.
//!
//! The reader (human-date-parser 0.3.1) panics in three ways:
//! - on "this", "next" or "last" followed by an hour, minute or second unit
//!   (an `unreachable!`);
//! - when it casts a number of 2^31 or more to `i32` for a year, or adds such
//!   a count to a year;
//! - when an hour, minute or second offset carries a date-time past chrono's
//!   range (an unchecked `+`).
//!
//! Its year, month, week and day offsets are checked and cannot panic.
//!
//! The reader lower-cases the text first. Only U+212A (to "k") and U+0130 (to
//! "i" and a combining dot) become ASCII that way, so the checks below look at
//! ASCII letters in either case and ignore all else.
//!
//! Every offset starts from the reference reading, or from an explicit date of
//! a year between 0 and 262142 (its numbers are below 10^9, so never
//! negative); only offsets from the reference go forward. A number followed,
//! after spaces, by a unit counts as at most its value times the longest such
//! unit: 366 days for "y", 31 for "m", 7 for "w", 1 for "d", an hour for "h",
//! a second for "s". A unit spelled with an article ("an hour"), a relative
//! unit ("next year") and a relative weekday each take a character and move
//! at most 366 days, so every character adds 366 days of slack. An expression
//! is handed to the reader when it has no relative sub-day unit, no number of
//! 10^9 or more, and its total reach, plus two days, keeps the reference and
//! the year 0 inside the calendar.

use vstd::prelude::*;

use crate::civil::{CivilDateTime, MAX_DAY, MIN_DAY};

verus! {

/// Seconds in the longest year.
pub const YEAR_SECONDS: u128 = 31622400;

/// Numbers from here on are refused.
pub const NUMBER_LIMIT: u64 = 1_000_000_000;

/// Day number of 1 January of the year 0, the earliest explicit date the reader takes.
pub const YEAR_ZERO_DAY: i32 = -365;

pub open spec fn is_digit(c: char) -> bool {
    '0' <= c <= '9'
}

/// `c` is the letter given in either case.
pub open spec fn letter(c: char, lower: char, upper: char) -> bool {
    c == lower || c == upper
}

/// "this", "next" or "last", in any case, starts at `i`.
pub open spec fn relative_word_at(s: Seq<char>, i: int) -> bool {
    &&& 0 <= i
    &&& i + 4 <= s.len()
    &&& {
        ||| (letter(s[i], 't', 'T') && letter(s[i + 1], 'h', 'H') && letter(s[i + 2], 'i', 'I')
            && letter(s[i + 3], 's', 'S'))
        ||| (letter(s[i], 'n', 'N') && letter(s[i + 1], 'e', 'E') && letter(s[i + 2], 'x', 'X')
            && letter(s[i + 3], 't', 'T'))
        ||| (letter(s[i], 'l', 'L') && letter(s[i + 1], 'a', 'A') && letter(s[i + 2], 's', 'S')
            && letter(s[i + 3], 't', 'T'))
    }
}

/// The first position at or after `k` that is not a space.
pub open spec fn after_spaces(s: Seq<char>, k: int) -> int
    decreases s.len() - k,
{
    if 0 <= k < s.len() && s[k] == ' ' {
        after_spaces(s, k + 1)
    } else {
        k
    }
}

/// At `k` starts what the reader may take for an hour, minute or second unit: any word on
/// "h", a word on "m" other than "mon…" (Monday, month), a word on "s" other than "sat…" and
/// "sun…".
pub open spec fn sub_day_unit_at(s: Seq<char>, k: int) -> bool {
    &&& 0 <= k < s.len()
    &&& {
        ||| letter(s[k], 'h', 'H')
        ||| (letter(s[k], 'm', 'M') && !(k + 2 < s.len() && letter(s[k + 1], 'o', 'O')
            && letter(s[k + 2], 'n', 'N')))
        ||| (letter(s[k], 's', 'S') && !(k + 2 < s.len() && ((letter(s[k + 1], 'a', 'A')
            && letter(s[k + 2], 't', 'T')) || (letter(s[k + 1], 'u', 'U') && letter(
            s[k + 2],
            'n',
            'N',
        )))))
    }
}

/// A relative word followed by a sub-day unit starts at `i`.
pub open spec fn relative_sub_day_at(s: Seq<char>, i: int) -> bool {
    relative_word_at(s, i) && sub_day_unit_at(s, after_spaces(s, i + 4))
}

/// The value of a digit character.
pub open spec fn digit_value(c: char) -> int {
    c as int - '0' as int
}

/// Seconds in the longest unit whose name starts with `c`, or 0 when no unit does.
pub open spec fn unit_seconds(c: char) -> int {
    if letter(c, 'y', 'Y') {
        31622400
    } else if letter(c, 'm', 'M') {
        2678400
    } else if letter(c, 'w', 'W') {
        604800
    } else if letter(c, 'd', 'D') {
        86400
    } else if letter(c, 'h', 'H') {
        3600
    } else if letter(c, 's', 'S') {
        1
    } else {
        0
    }
}

/// The unit that follows position `k`, after spaces, in seconds.
pub open spec fn unit_after(s: Seq<char>, k: int) -> int {
    let u = after_spaces(s, k);
    if 0 <= u < s.len() {
        unit_seconds(s[u])
    } else {
        0
    }
}

/// The value of the run of digits that ends just before position `i`.
pub open spec fn run_value(s: Seq<char>, i: int) -> int
    decreases i,
{
    if i <= 0 || i > s.len() || !is_digit(s[i - 1]) {
        0
    } else {
        run_value(s, i - 1) * 10 + digit_value(s[i - 1])
    }
}

/// A run of digits ends just before position `i`.
pub open spec fn run_ends(s: Seq<char>, i: int) -> bool {
    0 < i <= s.len() && is_digit(s[i - 1]) && (i == s.len() || !is_digit(s[i]))
}

/// The seconds spelled by the numbers before position `i`, each times the unit after it.
pub open spec fn spelled_seconds(s: Seq<char>, i: int) -> int
    decreases i,
{
    if i <= 0 || i > s.len() {
        0
    } else {
        spelled_seconds(s, i - 1) + if run_ends(s, i) {
            run_value(s, i) * unit_after(s, i)
        } else {
            0
        }
    }
}

/// How far, in days, the expression can move a reading, with two days to spare.
pub open spec fn reach_days(s: Seq<char>) -> int {
    (spelled_seconds(s, s.len() as int) + s.len() * YEAR_SECONDS) / 86400 + 2
}

/// Every number of the expression is below [`NUMBER_LIMIT`].
pub open spec fn numbers_small(s: Seq<char>) -> bool {
    forall|i: int| 0 <= i <= s.len() ==> #[trigger] run_value(s, i) < NUMBER_LIMIT
}

/// No relative word is followed by a sub-day unit.
pub open spec fn no_relative_sub_day(s: Seq<char>) -> bool {
    forall|i: int| 0 <= i < s.len() ==> !#[trigger] relative_sub_day_at(s, i)
}

/// The reader can be handed the expression at the reference reading `now`.
pub open spec fn reader_safe(s: Seq<char>, now: CivilDateTime) -> bool {
    &&& no_relative_sub_day(s)
    &&& numbers_small(s)
    &&& MIN_DAY + reach_days(s) <= now.date.days <= MAX_DAY - reach_days(s)
    &&& MIN_DAY + reach_days(s) <= YEAR_ZERO_DAY
}

fn digit(c: char) -> (r: bool)
    ensures
        r == is_digit(c),
{
    '0' <= c && c <= '9'
}

fn is_letter(c: char, lower: char, upper: char) -> (r: bool)
    ensures
        r == letter(c, lower, upper),
{
    c == lower || c == upper
}

/// The first position at or after `k` that is not a space.
fn skip_spaces(text: &str, n: usize, k: usize) -> (r: usize)
    requires
        n == text@.len(),
        k <= n,
    ensures
        r == after_spaces(text@, k as int),
        k <= r <= n,
{
    let mut j = k;
    while j < n && text.get_char(j) == ' '
        invariant
            n == text@.len(),
            k <= j <= n,
            after_spaces(text@, k as int) == after_spaces(text@, j as int),
        decreases n - j,
    {
        j = j + 1;
    }
    j
}

fn unit_at(text: &str, n: usize, k: usize) -> (r: u128)
    requires
        n == text@.len(),
        k <= n,
    ensures
        r == unit_after(text@, k as int),
        r <= 366 * 86400,
{
    let u = skip_spaces(text, n, k);
    if u >= n {
        return 0;
    }
    let c = text.get_char(u);
    if is_letter(c, 'y', 'Y') {
        31622400
    } else if is_letter(c, 'm', 'M') {
        2678400
    } else if is_letter(c, 'w', 'W') {
        604800
    } else if is_letter(c, 'd', 'D') {
        86400
    } else if is_letter(c, 'h', 'H') {
        3600
    } else if is_letter(c, 's', 'S') {
        1
    } else {
        0
    }
}

proof fn lemma_run_value_nonneg(s: Seq<char>, i: int)
    ensures
        run_value(s, i) >= 0,
    decreases i,
{
    if i > 0 && i <= s.len() && is_digit(s[i - 1]) {
        lemma_run_value_nonneg(s, i - 1);
    }
}

/// Whether no relative word is followed by a sub-day unit.
fn relative_units_absent(text: &str) -> (r: bool)
    ensures
        r == no_relative_sub_day(text@),
{
    let n = text.unicode_len();
    let ghost s = text@;
    let mut i: usize = 0;
    while i < n
        invariant
            n == s.len(),
            s == text@,
            i <= n,
            forall|k: int| 0 <= k < i ==> !#[trigger] relative_sub_day_at(s, k),
        decreases n - i,
    {
        if n - i >= 4 {
            let c = text.get_char(i);
            let c1 = text.get_char(i + 1);
            let c2 = text.get_char(i + 2);
            let c3 = text.get_char(i + 3);
            let word = (is_letter(c, 't', 'T') && is_letter(c1, 'h', 'H') && is_letter(c2, 'i', 'I')
                && is_letter(c3, 's', 'S')) || (is_letter(c, 'n', 'N') && is_letter(c1, 'e', 'E')
                && is_letter(c2, 'x', 'X') && is_letter(c3, 't', 'T')) || (is_letter(c, 'l', 'L')
                && is_letter(c1, 'a', 'A') && is_letter(c2, 's', 'S') && is_letter(c3, 't', 'T'));
            if word {
                let k = skip_spaces(text, n, i + 4);
                if k < n {
                    let u = text.get_char(k);
                    let unit = if is_letter(u, 'h', 'H') {
                        true
                    } else if is_letter(u, 'm', 'M') {
                        !(n - k > 2 && is_letter(text.get_char(k + 1), 'o', 'O') && is_letter(
                            text.get_char(k + 2),
                            'n',
                            'N',
                        ))
                    } else if is_letter(u, 's', 'S') {
                        !(n - k > 2 && ((is_letter(text.get_char(k + 1), 'a', 'A') && is_letter(
                            text.get_char(k + 2),
                            't',
                            'T',
                        )) || (is_letter(text.get_char(k + 1), 'u', 'U') && is_letter(
                            text.get_char(k + 2),
                            'n',
                            'N',
                        ))))
                    } else {
                        false
                    };
                    if unit {
                        assert(relative_sub_day_at(s, i as int));
                        return false;
                    }
                }
                assert(!relative_sub_day_at(s, i as int));
            }
        }
        i = i + 1;
    }
    true
}

/// The seconds the numbers of the expression spell, or `None` when a number reaches
/// [`NUMBER_LIMIT`].
fn spelled(text: &str) -> (r: Option<u128>)
    ensures
        r is Some <==> numbers_small(text@),
        r matches Some(t) ==> t == spelled_seconds(text@, text@.len() as int)
            && t <= text@.len() * 31622400000000000,
{
    let n = text.unicode_len();
    let ghost s = text@;
    let mut i: usize = 0;
    let mut run: u64 = 0;
    let mut total: u128 = 0;
    proof {
        lemma_run_value_nonneg(s, 0);
    }
    while i < n
        invariant
            n == s.len(),
            s == text@,
            i <= n,
            run == run_value(s, i as int),
            run < NUMBER_LIMIT,
            total == spelled_seconds(s, i as int),
            total <= i * 31622400000000000,
            forall|k: int| 0 <= k <= i ==> #[trigger] run_value(s, k) < NUMBER_LIMIT,
        decreases n - i,
    {
        let ghost before = total;
        let c = text.get_char(i);
        if digit(c) {
            let d = (c as u32 - '0' as u32) as u64;
            assert(d == digit_value(s[i as int]));
            run = run * 10 + d;
            assert(run == run_value(s, i + 1));
            if run >= NUMBER_LIMIT {
                assert(!numbers_small(s)) by {
                    assert(run_value(s, i + 1) >= NUMBER_LIMIT);
                }
                return None;
            }
            let ends = i + 1 == n || !digit(text.get_char(i + 1));
            if ends {
                let w = unit_at(text, n, i + 1);
                assert(run * w <= 31622400000000000) by (nonlinear_arith)
                    requires
                        run < 1_000_000_000,
                        w <= 31622400,
                ;
                assert(total + run * w < 0x1_0000_0000_0000_0000_0000_0000_0000_0000) by (nonlinear_arith)
                    requires
                        total <= i * 31622400000000000,
                        i < 0x1_0000_0000_0000_0000,
                        run * w <= 31622400000000000,
                ;
                total = total + (run as u128) * w;
            }
            assert(total == spelled_seconds(s, i + 1));
        } else {
            run = 0;
            assert(run == run_value(s, i + 1));
            assert(total == spelled_seconds(s, i + 1));
        }
        assert(total <= (i + 1) * 31622400000000000) by (nonlinear_arith)
            requires
                before <= i * 31622400000000000,
                total <= before + 31622400000000000,
        ;
        i = i + 1;
    }
    Some(total)
}

/// Whether the reader can be handed `text` at the reference reading `now`.
pub fn reader_accepts(text: &str, now: &CivilDateTime) -> (r: bool)
    ensures
        r == reader_safe(text@, *now),
{
    if !relative_units_absent(text) {
        return false;
    }
    let total = match spelled(text) {
        Some(t) => t,
        None => return false,
    };
    let n = text.unicode_len();
    assert(total + n * 31622400 < 0x1_0000_0000_0000_0000_0000_0000_0000_0000) by (nonlinear_arith)
        requires
            total <= n * 31622400000000000,
            n < 0x1_0000_0000_0000_0000,
    ;
    let reach = ((total + (n as u128) * YEAR_SECONDS) / 86400 + 2) as i128;
    let days = now.date.days as i128;
    (MIN_DAY as i128) + reach <= days && days <= (MAX_DAY as i128) - reach && (MIN_DAY as i128)
        + reach <= YEAR_ZERO_DAY as i128
}

} // verus!
