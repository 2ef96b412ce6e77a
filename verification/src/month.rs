use vstd::prelude::*;

use crate::fmt::{find_dash, first_dash};
use crate::text::{
    all_digits, is_digit, lemma_zero_padded_reads_back, parse_int, parse_int_in, push_char, push_str,
    push_zero_padded, zero_padded,
};

verus! {

/// Whether chrono's `NaiveDate::parse_from_str(s, "%Y-%m-%d")` accepts `s`.
pub uninterp spec fn ymd_accepted(s: Seq<char>) -> bool;

/// Calls `chrono::NaiveDate::parse_from_str(s, "%Y-%m-%d")` and reports
/// whether it succeeded. The result is named `ymd_accepted(s)`: chrono's
/// parser (optional leading blanks, signed or wider years, one- or two-digit
/// fields, calendar checks) is not restated here.
#[verifier::external_body]
fn chrono_accepts_ymd(s: &str) -> (ok: bool)
    ensures
        ok == ymd_accepted(s@),
{
    chrono::NaiveDate::parse_from_str(s, "%Y-%m-%d").is_ok()
}

/// Whether `date` is a `YYYY-MM-DD` date.
pub fn is_valid_date(date: &str) -> (r: bool)
    ensures
        r == ymd_accepted(date@),
{
    chrono_accepts_ymd(date)
}

/// Whether `month` is a `YYYY-MM` month: `month-01` must be a date.
pub fn validate_month(month: &str) -> (r: bool)
    ensures
        r == ymd_accepted(month@ + "-01"@),
{
    let mut s = month.to_owned();
    push_str(&mut s, "-01");
    chrono_accepts_ymd(s.as_str())
}

/// The year part (text before the first `-`) read as an `i32`, and the
/// month part (text after it) read as a `u32`, as Rust's `from_str` reads
/// them.
pub open spec fn month_parts(m: Seq<char>) -> Option<(int, int)> {
    if exists|k: int| first_dash(m, k) {
        let k = choose|k: int| first_dash(m, k);
        match (
            parse_int_in(m.take(k), true, i32::MIN as int, i32::MAX as int),
            parse_int_in(m.skip(k + 1), false, 0, u32::MAX as int),
        ) {
            (Some(y), Some(mo)) => Some((y, mo)),
            _ => None,
        }
    } else {
        None
    }
}

/// The month before `YYYY-MM`, written `YYYY-MM` (the year with at least
/// four digits, the month with at least two); `None` when the text does
/// not read as a year and a month.
pub open spec fn previous_month(m: Seq<char>) -> Option<Seq<char>> {
    match month_parts(m) {
        Some((y, mo)) => Some(
            if mo == 1 {
                zero_padded(y - 1, 4) + "-12"@
            } else {
                zero_padded(y, 4) + "-"@ + zero_padded(mo - 1, 2)
            },
        ),
        None => None,
    }
}


/// The month before a month reads back as the month before: the text
/// `prev_month` writes for year `y`, month `mo` (1 or more) is read as
/// `(y, mo - 1)`, or as `(y - 1, 12)` in January, as long as that year is
/// not negative.
pub proof fn law_previous_month_reads_back(m: Seq<char>, y: int, mo: int)
    requires
        month_parts(m) == Some((y, mo)),
        mo >= 1,
        mo == 1 ==> y >= 1,
    ensures
        previous_month(m) matches Some(p) && month_parts(p) == Some(
            if mo == 1 {
                (y - 1, 12int)
            } else {
                (y, mo - 1)
            },
        ),
{
    let (py, pm) = if mo == 1 {
        (y - 1, 12int)
    } else {
        (y, mo - 1)
    };
    let a = zero_padded(py, 4);
    let b = zero_padded(pm, 2);
    lemma_zero_padded_reads_back(py, 4, true);
    lemma_zero_padded_reads_back(pm, 2, false);
    let p = previous_month(m)->0;
    if mo == 1 {
        assert(b =~= "12"@) by {
            reveal_strlit("12");
            reveal_with_fuel(crate::text::nat_text, 3);
            assert(crate::text::digit_char(1) == '1');
            assert(crate::text::digit_char(2) == '2');
            assert(crate::text::nat_text(12) =~= seq!['1', '2']);
            assert(crate::text::zeros(0) =~= Seq::<char>::empty());
        }
        assert(p =~= a + "-"@ + b) by {
            reveal_strlit("-12");
            reveal_strlit("-");
            reveal_strlit("12");
        }
    } else {
        assert(p == a + "-"@ + b);
    }
    reveal_strlit("-");
    let k = a.len() as int;
    assert(p[k] == '-');
    assert forall|j: int| 0 <= j < k implies p[j] != '-' by {
        assert(p[j] == a[j]);
        assert(is_digit(a[j]));
    }
    assert(first_dash(p, k));
    let c = choose|j: int| first_dash(p, j);
    crate::fmt::lemma_first_dash_unique(p, c, k);
    assert(p.take(k) =~= a);
    assert(p.skip(k + 1) =~= b);
}

/// The inputs on which computing the previous month overflows: month 0, or
/// January of the smallest `i32` year.
pub open spec fn previous_month_overflows(m: Seq<char>) -> bool {
    match month_parts(m) {
        Some((y, mo)) => mo == 0 || (mo == 1 && y == i32::MIN),
        None => false,
    }
}

/// Why a month text was refused.
#[derive(Debug, Clone, PartialEq, Eq, Structural)]
pub enum MonthError {
    /// Not `YYYY-MM`.
    InvalidMonth,
}

/// The year and month read from `YYYY-MM`.
fn read_month(month: &str) -> (r: Option<(i64, i64)>)
    ensures
        match r {
            Some((y, mo)) => month_parts(month@) == Some((y as int, mo as int)),
            None => month_parts(month@) is None,
        },
{
    match find_dash(month) {
        Some(k) => {
            proof {
                let c = choose|j: int| first_dash(month@, j);
                crate::fmt::lemma_first_dash_unique(month@, c, k as int);
            }
            let n = month.unicode_len();
            let ys = month.substring_char(0, k);
            let ms = month.substring_char(k + 1, n);
            let y = parse_int(ys, 2147483648, 2147483647);
            let mo = parse_int(ms, 0, 4294967295);
            match (y, mo) {
                (Some(y), Some(mo)) => Some((y, mo)),
                _ => None,
            }
        },
        None => None,
    }
}

/// Whether the month before `month` can be computed without overflow.
pub fn prev_month_is_defined(month: &str) -> (r: bool)
    ensures
        r == !previous_month_overflows(month@),
{
    match read_month(month) {
        Some((y, mo)) => !(mo == 0 || (mo == 1 && y == -2147483648)),
        None => true,
    }
}

/// `"2025-05"` -> `"2025-04"`, `"2025-01"` -> `"2024-12"`.
pub fn prev_month(month: &str) -> (r: Result<String, MonthError>)
    requires
        !previous_month_overflows(month@),
    ensures
        match r {
            Ok(s) => previous_month(month@) == Some(s@),
            Err(e) => previous_month(month@) is None && e == MonthError::InvalidMonth,
        },
{
    match read_month(month) {
        Some((y, mo)) => {
            let mut r = String::new();
            if mo == 1 {
                push_zero_padded(&mut r, y - 1, 4);
                push_str(&mut r, "-12");
            } else {
                push_zero_padded(&mut r, y, 4);
                push_char(&mut r, '-');
                push_zero_padded(&mut r, mo - 1, 2);
                assert(r@ =~= zero_padded(y as int, 4) + "-"@ + zero_padded(mo - 1, 2)) by {
                    reveal_strlit("-");
                }
            }
            Ok(r)
        },
        None => Err(MonthError::InvalidMonth),
    }
}

} // verus!
