//! Recognizers for service-date tokens.
//!
//! Three token shapes are scanned independently over the whole text:
//! month/day/year with slashes, year-month-day with dashes, and
//! month-day-year with dashes.  Every match is read as a calendar day
//! at midnight UTC; a match that names no real day is dropped.  The
//! three scans feed one output sequence, first shape first.

use vstd::prelude::*;
use crate::date::{valid_date, Date, DateView};
use crate::text::{
    boundary_at, boundary_before, class_run, is_digit, lemma_run_len, run_len, CharClass,
};
use crate::codes::{check_boundary_at, check_boundary_before};

verus! {

/// The number named by a sequence of decimal digits.
pub open spec fn digits_val(s: Seq<char>) -> int
    decreases s.len(),
{
    if s.len() == 0 {
        0
    } else {
        digits_val(s.drop_last()) * 10 + (s.last() as u32 - 48)
    }
}

/// Ten to the power `n`.
pub open spec fn pow10(n: int) -> int
    decreases n,
{
    if n <= 0 {
        1
    } else {
        10 * pow10(n - 1)
    }
}

/// A digit sequence names a number below ten to its length.
pub proof fn lemma_digits_val_bound(s: Seq<char>)
    requires
        forall|i: int| 0 <= i < s.len() ==> is_digit(#[trigger] s[i]),
    ensures
        0 <= digits_val(s) < pow10(s.len() as int),
    decreases s.len(),
{
    if s.len() > 0 {
        lemma_digits_val_bound(s.drop_last());
    }
}

/// A month/day/year token separated by `sep` begins at `i`: one or
/// two digits, the separator, one or two digits, the separator, and
/// exactly four digits, word-bounded on both sides.
pub open spec fn mdy_at(t: Seq<char>, i: int, sep: char) -> bool {
    let a = run_len(t, CharClass::Digit, i);
    let b = run_len(t, CharClass::Digit, i + a + 1);
    &&& 0 <= i
    &&& boundary_before(t, i)
    &&& (a == 1 || a == 2)
    &&& i + a < t.len() && t[i + a] == sep
    &&& (b == 1 || b == 2)
    &&& i + a + 1 + b < t.len() && t[i + a + 1 + b] == sep
    &&& run_len(t, CharClass::Digit, i + a + b + 2) == 4
    &&& boundary_at(t, i + a + b + 6)
}

/// The day named by the month/day/year token at `i`.
pub open spec fn mdy_view(t: Seq<char>, i: int) -> DateView {
    let a = run_len(t, CharClass::Digit, i);
    let b = run_len(t, CharClass::Digit, i + a + 1);
    DateView {
        year: digits_val(t.subrange(i + a + b + 2, i + a + b + 6)),
        month: digits_val(t.subrange(i, i + a)),
        day: digits_val(t.subrange(i + a + 1, i + a + 1 + b)),
    }
}

/// A year-month-day token begins at `i`: four digits, a dash, two
/// digits, a dash, two digits, word-bounded on both sides.
pub open spec fn ymd_at(t: Seq<char>, i: int) -> bool {
    &&& 0 <= i
    &&& boundary_before(t, i)
    &&& run_len(t, CharClass::Digit, i) == 4
    &&& i + 4 < t.len() && t[i + 4] == '-'
    &&& run_len(t, CharClass::Digit, i + 5) == 2
    &&& i + 7 < t.len() && t[i + 7] == '-'
    &&& run_len(t, CharClass::Digit, i + 8) == 2
    &&& boundary_at(t, i + 10)
}

/// The day named by the year-month-day token at `i`.
pub open spec fn ymd_view(t: Seq<char>, i: int) -> DateView {
    DateView {
        year: digits_val(t.subrange(i, i + 4)),
        month: digits_val(t.subrange(i + 5, i + 7)),
        day: digits_val(t.subrange(i + 8, i + 10)),
    }
}

/// The calendar-valid month/day/year dates whose token begins before
/// position `n`, in order of appearance.
pub open spec fn mdy_list(t: Seq<char>, sep: char, n: int) -> Seq<DateView>
    decreases n,
{
    if n <= 0 {
        Seq::empty()
    } else {
        let rest = mdy_list(t, sep, n - 1);
        let d = mdy_view(t, n - 1);
        if mdy_at(t, n - 1, sep) && valid_date(d.year, d.month, d.day) {
            rest.push(d)
        } else {
            rest
        }
    }
}

/// The calendar-valid year-month-day dates whose token begins before
/// position `n`, in order of appearance.
pub open spec fn ymd_list(t: Seq<char>, n: int) -> Seq<DateView>
    decreases n,
{
    if n <= 0 {
        Seq::empty()
    } else {
        let rest = ymd_list(t, n - 1);
        let d = ymd_view(t, n - 1);
        if ymd_at(t, n - 1) && valid_date(d.year, d.month, d.day) {
            rest.push(d)
        } else {
            rest
        }
    }
}

/// The service dates of the text: the slash-separated scan, then the
/// year-first scan, then the dash-separated month-first scan.
pub open spec fn spec_dates(t: Seq<char>) -> Seq<DateView> {
    mdy_list(t, '/', t.len() as int) + ymd_list(t, t.len() as int) + mdy_list(
        t,
        '-',
        t.len() as int,
    )
}

/// Every date that extraction yields names a real calendar day: the
/// tokens that fail calendar validation are already gone.
pub proof fn lemma_dates_valid(t: Seq<char>, i: int)
    requires
        0 <= i < spec_dates(t).len(),
    ensures
        valid_date(spec_dates(t)[i].year, spec_dates(t)[i].month, spec_dates(t)[i].day),
{
    let n = t.len() as int;
    lemma_mdy_list_valid(t, '/', n, i);
    lemma_ymd_list_valid(t, n, i - mdy_list(t, '/', n).len());
    lemma_mdy_list_valid(t, '-', n, i - mdy_list(t, '/', n).len() - ymd_list(t, n).len());
}

proof fn lemma_mdy_list_valid(t: Seq<char>, sep: char, n: int, i: int)
    ensures
        0 <= i < mdy_list(t, sep, n).len() ==> valid_date(
            mdy_list(t, sep, n)[i].year,
            mdy_list(t, sep, n)[i].month,
            mdy_list(t, sep, n)[i].day,
        ),
    decreases n,
{
    if n > 0 {
        lemma_mdy_list_valid(t, sep, n - 1, i);
    }
}

proof fn lemma_ymd_list_valid(t: Seq<char>, n: int, i: int)
    ensures
        0 <= i < ymd_list(t, n).len() ==> valid_date(
            ymd_list(t, n)[i].year,
            ymd_list(t, n)[i].month,
            ymd_list(t, n)[i].day,
        ),
    decreases n,
{
    if n > 0 {
        lemma_ymd_list_valid(t, n - 1, i);
    }
}

/// Reads the number named by the digits at `[i, e)` of the text.
pub fn read_digits(t: &Vec<char>, i: usize, e: usize) -> (r: u32)
    requires
        i <= e <= t@.len(),
        e - i <= 4,
        forall|j: int| i <= j < e ==> is_digit(#[trigger] t@[j]),
    ensures
        r == digits_val(t@.subrange(i as int, e as int)),
        r <= 9999,
{
    let mut r: u32 = 0;
    let mut j: usize = i;
    while j < e
        invariant
            i <= j <= e <= t@.len(),
            e - i <= 4,
            forall|k: int| i <= k < e ==> is_digit(#[trigger] t@[k]),
            r == digits_val(t@.subrange(i as int, j as int)),
        decreases e - j,
    {
        proof {
            lemma_digits_val_bound(t@.subrange(i as int, j as int));
            assert(pow10(0) == 1 && pow10(1) == 10 && pow10(2) == 100 && pow10(3) == 1000);
            assert(j - i == 0 || j - i == 1 || j - i == 2 || j - i == 3);
            assert(r <= 999);
        }
        let c = t[j];
        assert(is_digit(c));
        let d: u32 = c as u32 - 48;
        r = r * 10 + d;
        proof {
            let pre = t@.subrange(i as int, j as int);
            let cur = t@.subrange(i as int, j as int + 1);
            assert(cur.drop_last() =~= pre);
            assert(cur.last() == c);
        }
        j = j + 1;
    }
    proof {
        lemma_digits_val_bound(t@.subrange(i as int, e as int));
        reveal_with_fuel(pow10, 6);
        assert(pow10(0) == 1 && pow10(1) == 10 && pow10(2) == 100 && pow10(3) == 1000 && pow10(4)
            == 10000);
        assert(e - i == 0 || e - i == 1 || e - i == 2 || e - i == 3 || e - i == 4);
    }
    r
}

/// Tests for a month/day/year token at `i`; yields its calendar parts.
pub fn check_mdy(t: &Vec<char>, i: usize, sep: char) -> (r: Option<(u32, u32, u32)>)
    requires
        i < t@.len(),
    ensures
        r is Some <==> mdy_at(t@, i as int, sep),
        r matches Some(v) ==> mdy_view(t@, i as int) == (DateView {
            year: v.0 as int,
            month: v.1 as int,
            day: v.2 as int,
        }),
{
    let n: usize = t.len();
    if !check_boundary_before(t, i) {
        return None;
    }
    let a: usize = class_run(t, CharClass::Digit, i);
    if a != 1 && a != 2 {
        return None;
    }
    if i + a >= n || t[i + a] != sep {
        return None;
    }
    let b: usize = class_run(t, CharClass::Digit, i + a + 1);
    if b != 1 && b != 2 {
        return None;
    }
    if i + a + 1 + b >= n || t[i + a + 1 + b] != sep {
        return None;
    }
    let y: usize = class_run(t, CharClass::Digit, i + a + b + 2);
    if y != 4 {
        return None;
    }
    if !check_boundary_at(t, i + a + b + 6) {
        return None;
    }
    proof {
        lemma_run_len(t@, CharClass::Digit, i as int);
        lemma_run_len(t@, CharClass::Digit, i as int + a + 1);
        lemma_run_len(t@, CharClass::Digit, i as int + a + b + 2);
    }
    let month = read_digits(t, i, i + a);
    let day = read_digits(t, i + a + 1, i + a + 1 + b);
    let year = read_digits(t, i + a + b + 2, i + a + b + 6);
    Some((year, month, day))
}

/// Tests for a year-month-day token at `i`; yields its calendar parts.
pub fn check_ymd(t: &Vec<char>, i: usize) -> (r: Option<(u32, u32, u32)>)
    requires
        i < t@.len(),
    ensures
        r is Some <==> ymd_at(t@, i as int),
        r matches Some(v) ==> ymd_view(t@, i as int) == (DateView {
            year: v.0 as int,
            month: v.1 as int,
            day: v.2 as int,
        }),
{
    let n: usize = t.len();
    if !check_boundary_before(t, i) {
        return None;
    }
    let a: usize = class_run(t, CharClass::Digit, i);
    if a != 4 {
        return None;
    }
    if i + 4 >= n || t[i + 4] != '-' {
        return None;
    }
    let b: usize = class_run(t, CharClass::Digit, i + 5);
    if b != 2 {
        return None;
    }
    if i + 7 >= n || t[i + 7] != '-' {
        return None;
    }
    let c: usize = class_run(t, CharClass::Digit, i + 8);
    if c != 2 {
        return None;
    }
    if !check_boundary_at(t, i + 10) {
        return None;
    }
    proof {
        lemma_run_len(t@, CharClass::Digit, i as int);
        lemma_run_len(t@, CharClass::Digit, i as int + 5);
        lemma_run_len(t@, CharClass::Digit, i as int + 8);
    }
    let year = read_digits(t, i, i + 4);
    let month = read_digits(t, i + 5, i + 7);
    let day = read_digits(t, i + 8, i + 10);
    Some((year, month, day))
}

/// Collects the calendar-valid dates of all three token shapes, in
/// scan order.
pub fn scan_dates(t: &Vec<char>) -> (r: Vec<Date>)
    ensures
        r@.map_values(|d: Date| d@) == spec_dates(t@),
{
    let mut r: Vec<Date> = Vec::new();
    let mut i: usize = 0;
    while i < t.len()
        invariant
            i <= t@.len(),
            r@.map_values(|d: Date| d@) == mdy_list(t@, '/', i as int),
        decreases t@.len() - i,
    {
        if let Some(v) = check_mdy(t, i, '/') {
            if let Some(d) = Date::checked(v.0, v.1, v.2) {
                r.push(d);
            }
            assert(r@.map_values(|d: Date| d@) =~= mdy_list(t@, '/', i as int + 1));
        }
        i = i + 1;
    }
    let ghost part1 = mdy_list(t@, '/', t@.len() as int);
    let mut i: usize = 0;
    while i < t.len()
        invariant
            i <= t@.len(),
            part1 == mdy_list(t@, '/', t@.len() as int),
            r@.map_values(|d: Date| d@) == part1 + ymd_list(t@, i as int),
        decreases t@.len() - i,
    {
        if let Some(v) = check_ymd(t, i) {
            let ghost pre = r@;
            if let Some(d) = Date::checked(v.0, v.1, v.2) {
                r.push(d);
                proof {
                    assert(ymd_list(t@, i as int + 1) == ymd_list(t@, i as int).push(
                        ymd_view(t@, i as int),
                    ));
                    assert(r@.map_values(|x: Date| x@) =~= pre.map_values(|x: Date| x@).push(d@));
                    assert(r@.map_values(|x: Date| x@) =~= part1 + ymd_list(t@, i as int + 1));
                }
            } else {
                assert(r@.map_values(|x: Date| x@) =~= part1 + ymd_list(t@, i as int + 1));
            }
        }
        i = i + 1;
    }
    let ghost part2 = part1 + ymd_list(t@, t@.len() as int);
    let mut i: usize = 0;
    while i < t.len()
        invariant
            i <= t@.len(),
            part2 == mdy_list(t@, '/', t@.len() as int) + ymd_list(t@, t@.len() as int),
            r@.map_values(|d: Date| d@) == part2 + mdy_list(t@, '-', i as int),
        decreases t@.len() - i,
    {
        if let Some(v) = check_mdy(t, i, '-') {
            let ghost pre = r@;
            if let Some(d) = Date::checked(v.0, v.1, v.2) {
                r.push(d);
                proof {
                    assert(mdy_list(t@, '-', i as int + 1) == mdy_list(t@, '-', i as int).push(
                        mdy_view(t@, i as int),
                    ));
                    assert(r@.map_values(|x: Date| x@) =~= pre.map_values(|x: Date| x@).push(d@));
                    assert(r@.map_values(|x: Date| x@) =~= part2 + mdy_list(t@, '-', i as int + 1));
                }
            } else {
                assert(r@.map_values(|x: Date| x@) =~= part2 + mdy_list(t@, '-', i as int + 1));
            }
        }
        i = i + 1;
    }
    assert(r@.map_values(|d: Date| d@) =~= spec_dates(t@));
    r
}

} // verus!
