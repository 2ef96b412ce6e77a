use vstd::prelude::*;

use crate::fmt::{
    amount_digits, amount_text, format_amount, format_amount_raw, format_month_display, month_label,
    pad_display, padded_left, padded_right, progress_bar_segments, repeat_char, right_align,
};
use crate::model::category_label;
use crate::progress::{CategoryProgress, TotalProgress};
use crate::report::{lines_of, push_line, push_literal_line};
use crate::text::push_str;

verus! {

/// How full a line's gauge is, as worked out from its percentage: the
/// percentage as shown (one decimal and `%`) and the number of filled
/// segments of the ten-segment bar.
#[derive(Debug)]
pub struct Gauge {
    pub percent: String,
    /// Filled segments; more than ten shows as ten.
    pub filled: usize,
}

/// A category line with its gauge.
#[derive(Debug)]
pub struct GaugedLine {
    pub line: CategoryProgress,
    pub gauge: Gauge,
}

/// The bar of a gauge: filled segments, then empty ones, ten in all.
pub open spec fn bar_text(filled: int) -> Seq<char> {
    let f = if filled > 10 {
        10
    } else {
        filled
    };
    repeat_char('█', f) + repeat_char('░', 10 - f)
}

fn bar_string(filled: usize) -> (r: String)
    ensures
        r@ == bar_text(filled as int),
{
    let f = if filled > 10 {
        10
    } else {
        filled
    };
    progress_bar_segments(f)
}

/// `label` padded to 10 columns, then `value` right-aligned in `width`.
pub open spec fn figure_row(label: Seq<char>, value: Seq<char>, width: int) -> Seq<char> {
    padded_right(label, 10) + padded_left(value, width)
}

/// The percentage row: the percentage right-aligned in 8 columns and the
/// bar in brackets.
pub open spec fn percent_row(g: Gauge) -> Seq<char> {
    padded_right("進捗率"@, 10) + padded_left(g.percent@, 8) + "  ["@ + bar_text(g.filled as int) + "]"@
}

/// A category row: name in 12 columns, spending (no unit) in 8, ` / `, the
/// base in 10, the percentage in 7 and the bar.
pub open spec fn gauge_row(l: CategoryProgress, g: Gauge) -> Seq<char> {
    padded_right(category_label(l.category), 12) + "  "@ + padded_left(amount_digits(l.current as int), 8)
        + " / "@ + padded_left(amount_text(l.base as int), 10) + "  "@ + padded_left(g.percent@, 7)
        + "  ["@ + bar_text(g.filled as int) + "]"@
}

/// A category row without a base: spending, `（データなし）` and `N/A`.
pub open spec fn no_data_row(l: CategoryProgress) -> Seq<char> {
    padded_right(category_label(l.category), 12) + "  "@ + padded_left(amount_digits(l.current as int), 8)
        + " / （データなし）  N/A  [----------]"@
}

/// The month-wide section against the budget.
pub open spec fn budget_total_rows(t: TotalProgress, g: Gauge) -> Seq<Seq<char>> {
    seq![
        ""@,
        "[ 月全体 ]"@,
        figure_row("予算上限"@, amount_text(t.base as int), 12),
        figure_row("現在支出"@, amount_text(t.current as int), 12),
        percent_row(g),
    ]
}

/// The month-wide section against last month; without spending last month
/// there is no percentage.
pub open spec fn last_month_total_rows(t: TotalProgress, g: Gauge) -> Seq<Seq<char>> {
    if t.base > 0 {
        seq![
            ""@,
            "[ 月全体 ]"@,
            figure_row("昨月実績"@, amount_text(t.base as int), 12),
            figure_row("現在支出"@, amount_text(t.current as int), 12),
            percent_row(g),
        ]
    } else {
        seq![
            ""@,
            "[ 月全体 ]"@,
            padded_right("昨月実績"@, 10) + "（支出データなし）"@,
            figure_row("現在支出"@, amount_text(t.current as int), 12),
            padded_right("進捗率"@, 10) + "N/A  [----------]"@,
        ]
    }
}

/// The rows of the per-category section against the budget.
pub open spec fn budget_category_rows(v: Seq<GaugedLine>) -> Seq<Seq<char>> {
    v.map_values(|x: GaugedLine| gauge_row(x.line, x.gauge))
}

/// The rows of the per-category section against last month: a category
/// not spent on last month has no percentage.
pub open spec fn last_month_category_rows(v: Seq<GaugedLine>) -> Seq<Seq<char>> {
    v.map_values(
        |x: GaugedLine|
            if x.line.base == 0 {
                no_data_row(x.line)
            } else {
                gauge_row(x.line, x.gauge)
            },
    )
}

/// The screen of `progress` against the budget: heading, then the
/// month-wide section and the per-category section when present.
pub open spec fn budget_progress_text(
    month: Seq<char>,
    total: Option<(TotalProgress, Gauge)>,
    by_category: Option<Seq<GaugedLine>>,
) -> Seq<Seq<char>> {
    seq!["== "@ + month_label(month) + " 消費進捗率（予算対比）=="@] + match total {
        Some((t, g)) => budget_total_rows(t, g),
        None => Seq::empty(),
    } + match by_category {
        Some(v) => seq![""@, "[ カテゴリ別 ]"@] + budget_category_rows(v),
        None => Seq::empty(),
    }
}

/// The screen of `progress --last-month`.
pub open spec fn last_month_progress_text(
    month: Seq<char>,
    total: Option<(TotalProgress, Gauge)>,
    by_category: Option<Seq<GaugedLine>>,
) -> Seq<Seq<char>> {
    seq!["== "@ + month_label(month) + " 消費進捗率（昨月実績対比）=="@] + match total {
        Some((t, g)) => last_month_total_rows(t, g),
        None => Seq::empty(),
    } + match by_category {
        Some(v) => seq![""@, "[ カテゴリ別 ]"@] + last_month_category_rows(v),
        None => Seq::empty(),
    }
}


/// In the last-month screen, the row of a category spent on last month
/// (a non-zero base) is always its percentage row, comparing this month's
/// spending with last month's, whatever this month's figure; the row
/// without data appears exactly for a category with a zero base. The rows
/// follow the heading, the month-wide section when present, a blank line
/// and `[ カテゴリ別 ]`, one per line given, in the order given.
pub proof fn law_last_month_rows_compare_when_there_is_data(
    month: Seq<char>,
    total: Option<(TotalProgress, Gauge)>,
    v: Seq<GaugedLine>,
    i: int,
)
    requires
        0 <= i < v.len(),
    ensures
        ({
            let text = last_month_progress_text(month, total, Some(v));
            let k: int = 3 + if total is Some {
                5int
            } else {
                0int
            };
            &&& text.len() == k + v.len()
            &&& text[k - 1] == "[ カテゴリ別 ]"@
            &&& v[i].line.base != 0 ==> text[k + i] == padded_right(category_label(v[i].line.category), 12)
                + "  "@ + padded_left(amount_digits(v[i].line.current as int), 8) + " / "@ + padded_left(
                amount_text(v[i].line.base as int),
                10,
            ) + "  "@ + padded_left(v[i].gauge.percent@, 7) + "  ["@ + bar_text(v[i].gauge.filled as int) + "]"@
            &&& v[i].line.base == 0 ==> text[k + i] == padded_right(category_label(v[i].line.category), 12) + "  "@
                + padded_left(amount_digits(v[i].line.current as int), 8) + " / （データなし）  N/A  [----------]"@
        }),
{
    let rows = last_month_category_rows(v);
    let text = last_month_progress_text(month, total, Some(v));
    let pre = seq!["== "@ + month_label(month) + " 消費進捗率（昨月実績対比）=="@] + match total {
        Some((t, g)) => last_month_total_rows(t, g),
        None => Seq::empty(),
    };
    assert(text =~= pre + (seq![""@, "[ カテゴリ別 ]"@] + rows));
    assert(text[pre.len() + 2 + i] == rows[i]);
}

fn figure_row_string(label: &str, amount: i64) -> (r: String)
    ensures
        r@ == figure_row(label@, amount_text(amount as int), 12),
{
    let mut r = pad_display(label, 10);
    let a = format_amount(amount);
    let a = right_align(a.as_str(), 12);
    push_str(&mut r, a.as_str());
    r
}

fn percent_row_string(g: &Gauge) -> (r: String)
    ensures
        r@ == percent_row(*g),
{
    let mut r = pad_display("進捗率", 10);
    let p = right_align(g.percent.as_str(), 8);
    push_str(&mut r, p.as_str());
    push_str(&mut r, "  [");
    let b = bar_string(g.filled);
    push_str(&mut r, b.as_str());
    push_str(&mut r, "]");
    r
}

fn category_head(l: &CategoryProgress) -> (r: String)
    ensures
        r@ == padded_right(category_label(l.category), 12) + "  "@ + padded_left(amount_digits(l.current as int), 8),
{
    let mut r = pad_display(l.category.display_name(), 12);
    push_str(&mut r, "  ");
    let c = format_amount_raw(l.current);
    let c = right_align(c.as_str(), 8);
    push_str(&mut r, c.as_str());
    r
}

fn gauge_row_string(l: &CategoryProgress, g: &Gauge) -> (r: String)
    ensures
        r@ == gauge_row(*l, *g),
{
    let mut r = category_head(l);
    push_str(&mut r, " / ");
    let b = format_amount(l.base);
    let b = right_align(b.as_str(), 10);
    push_str(&mut r, b.as_str());
    push_str(&mut r, "  ");
    let p = right_align(g.percent.as_str(), 7);
    push_str(&mut r, p.as_str());
    push_str(&mut r, "  [");
    let bar = bar_string(g.filled);
    push_str(&mut r, bar.as_str());
    push_str(&mut r, "]");
    assert(r@ =~= gauge_row(*l, *g));
    r
}

fn no_data_row_string(l: &CategoryProgress) -> (r: String)
    ensures
        r@ == no_data_row(*l),
{
    let mut r = category_head(l);
    push_str(&mut r, " / （データなし）  N/A  [----------]");
    r
}

fn heading(month: &str, kind: &str) -> (r: String)
    ensures
        r@ == "== "@ + month_label(month@) + kind@,
{
    let mut r = "== ".to_owned();
    let label = format_month_display(month);
    push_str(&mut r, label.as_str());
    push_str(&mut r, kind);
    r
}

/// The lines that `progress` prints against the budget.
pub fn budget_progress_lines(
    month: &str,
    total: &Option<(TotalProgress, Gauge)>,
    by_category: &Option<Vec<GaugedLine>>,
) -> (r: Vec<String>)
    ensures
        lines_of(r@) == budget_progress_text(
            month@,
            *total,
            match by_category {
                Some(v) => Some(v@),
                None => None,
            },
        ),
{
    let mut lines: Vec<String> = Vec::new();
    push_line(&mut lines, heading(month, " 消費進捗率（予算対比）=="));
    let ghost head = lines_of(lines@);
    match total {
        Some((t, g)) => {
            push_literal_line(&mut lines, "");
            push_literal_line(&mut lines, "[ 月全体 ]");
            push_line(&mut lines, figure_row_string("予算上限", t.base));
            push_line(&mut lines, figure_row_string("現在支出", t.current));
            push_line(&mut lines, percent_row_string(g));
            assert(lines_of(lines@) =~= head + budget_total_rows(*t, *g)) by {
                reveal_strlit("");
            }
        },
        None => {
            assert(lines_of(lines@) =~= head + Seq::<Seq<char>>::empty());
        },
    }
    let ghost mid = lines_of(lines@);
    match by_category {
        Some(v) => {
            push_literal_line(&mut lines, "");
            push_literal_line(&mut lines, "[ カテゴリ別 ]");
            let ghost before = lines_of(lines@);
            let mut i: usize = 0;
            while i < v.len()
                invariant
                    i <= v@.len(),
                    lines_of(lines@) == before + budget_category_rows(v@.take(i as int)),
                decreases v@.len() - i,
            {
                let x = &v[i];
                push_line(&mut lines, gauge_row_string(&x.line, &x.gauge));
                assert(budget_category_rows(v@.take(i as int + 1)) =~= budget_category_rows(v@.take(i as int)).push(
                    gauge_row(v@[i as int].line, v@[i as int].gauge),
                ));
                i = i + 1;
            }
            assert(v@.take(v@.len() as int) =~= v@);
            assert(lines_of(lines@) =~= mid + (seq![""@, "[ カテゴリ別 ]"@] + budget_category_rows(v@))) by {
                reveal_strlit("");
            }
        },
        None => {
            assert(lines_of(lines@) =~= mid + Seq::<Seq<char>>::empty());
        },
    }
    lines
}

/// The lines that `progress --last-month` prints.
pub fn last_month_progress_lines(
    month: &str,
    total: &Option<(TotalProgress, Gauge)>,
    by_category: &Option<Vec<GaugedLine>>,
) -> (r: Vec<String>)
    ensures
        lines_of(r@) == last_month_progress_text(
            month@,
            *total,
            match by_category {
                Some(v) => Some(v@),
                None => None,
            },
        ),
{
    let mut lines: Vec<String> = Vec::new();
    push_line(&mut lines, heading(month, " 消費進捗率（昨月実績対比）=="));
    let ghost head = lines_of(lines@);
    match total {
        Some((t, g)) => {
            push_literal_line(&mut lines, "");
            push_literal_line(&mut lines, "[ 月全体 ]");
            if t.base > 0 {
                push_line(&mut lines, figure_row_string("昨月実績", t.base));
                push_line(&mut lines, figure_row_string("現在支出", t.current));
                push_line(&mut lines, percent_row_string(g));
            } else {
                let mut first = pad_display("昨月実績", 10);
                push_str(&mut first, "（支出データなし）");
                push_line(&mut lines, first);
                push_line(&mut lines, figure_row_string("現在支出", t.current));
                let mut last = pad_display("進捗率", 10);
                push_str(&mut last, "N/A  [----------]");
                push_line(&mut lines, last);
            }
            assert(lines_of(lines@) =~= head + last_month_total_rows(*t, *g)) by {
                reveal_strlit("");
            }
        },
        None => {
            assert(lines_of(lines@) =~= head + Seq::<Seq<char>>::empty());
        },
    }
    let ghost mid = lines_of(lines@);
    match by_category {
        Some(v) => {
            push_literal_line(&mut lines, "");
            push_literal_line(&mut lines, "[ カテゴリ別 ]");
            let ghost before = lines_of(lines@);
            let mut i: usize = 0;
            while i < v.len()
                invariant
                    i <= v@.len(),
                    lines_of(lines@) == before + last_month_category_rows(v@.take(i as int)),
                decreases v@.len() - i,
            {
                let x = &v[i];
                let row = if x.line.base == 0 {
                    no_data_row_string(&x.line)
                } else {
                    gauge_row_string(&x.line, &x.gauge)
                };
                push_line(&mut lines, row);
                assert(last_month_category_rows(v@.take(i as int + 1)) =~= last_month_category_rows(
                    v@.take(i as int),
                ).push(row@));
                i = i + 1;
            }
            assert(v@.take(v@.len() as int) =~= v@);
            assert(lines_of(lines@) =~= mid + (seq![""@, "[ カテゴリ別 ]"@] + last_month_category_rows(v@))) by {
                reveal_strlit("");
            }
        },
        None => {
            assert(lines_of(lines@) =~= mid + Seq::<Seq<char>>::empty());
        },
    }
    lines
}

} // verus!
