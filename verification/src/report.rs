use vstd::prelude::*;

use crate::fmt::{
    amount_text, format_amount, format_month_display, format_signed_amount, month_label,
    pad_display, padded_left, padded_right, repeat_char, right_align, signed_amount_text,
};
use crate::model::{Category, all_order, category_label, expense_categories, expense_order};
use crate::text::{push_repeat, push_str};
use crate::totals::{
    CategoryTotals, expense_fits, expense_of, expense_sum_fits, expense_total, income_total, sum_over,
    total_or_zero,
};

verus! {

/// The characters of each line.
pub open spec fn lines_of(v: Seq<String>) -> Seq<Seq<char>> {
    v.map_values(|s: String| s@)
}

pub(crate) fn push_line(lines: &mut Vec<String>, s: String)
    ensures
        lines_of(final(lines)@) == lines_of(old(lines)@).push(s@),
{
    let ghost before = lines@;
    lines.push(s);
    assert(lines_of(lines@) =~= lines_of(before).push(s@));
}

pub(crate) fn push_literal_line(lines: &mut Vec<String>, s: &str)
    ensures
        lines_of(final(lines)@) == lines_of(old(lines)@).push(s@),
{
    push_line(lines, s.to_owned());
}

/// A category and its total.
#[derive(Debug, Clone, Copy, PartialEq, Eq, Structural)]
pub struct CategoryAmount {
    pub category: Category,
    pub amount: i64,
}

/// The categories among `cats` that have a total, with their totals, in
/// the order of `cats`.
pub open spec fn present_amounts(t: Map<Category, int>, cats: Seq<Category>) -> Seq<CategoryAmount>
    decreases cats.len(),
{
    if cats.len() == 0 {
        Seq::empty()
    } else {
        let prev = present_amounts(t, cats.drop_last());
        let c = cats.last();
        if t.dom().contains(c) {
            prev.push(CategoryAmount { category: c, amount: t[c] as i64 })
        } else {
            prev
        }
    }
}

/// The categories among `cats` that have a total, with their totals.
fn collect_present(totals: &CategoryTotals, cats: &Vec<Category>) -> (r: Vec<CategoryAmount>)
    ensures
        r@ == present_amounts(totals@, cats@),
{
    let mut r: Vec<CategoryAmount> = Vec::new();
    let mut i: usize = 0;
    while i < cats.len()
        invariant
            i <= cats@.len(),
            r@ == present_amounts(totals@, cats@.take(i as int)),
        decreases cats@.len() - i,
    {
        let c = cats[i];
        assert(cats@.take(i as int + 1).drop_last() =~= cats@.take(i as int));
        match totals.get(c) {
            Some(v) => {
                r.push(CategoryAmount { category: c, amount: v });
            },
            None => {},
        }
        i = i + 1;
    }
    assert(cats@.take(cats@.len() as int) =~= cats@);
    r
}

/// A month's income, spending and balance, with per-category totals when
/// asked for.
#[derive(Debug)]
pub struct MonthlySummary {
    pub month: String,
    pub income: i64,
    pub expense: i64,
    pub balance: i64,
    /// Income first, then the spending categories in display order; only
    /// categories that have a total. Empty unless asked for.
    pub by_category: Vec<CategoryAmount>,
}

/// The spending can be added up and the balance (income minus spending)
/// is an `i64`.
pub open spec fn balance_fits(t: Map<Category, int>) -> bool {
    &&& expense_sum_fits(t)
    &&& i64::MIN <= total_or_zero(t, Category::Income) - expense_of(t) <= i64::MAX
}

/// Whether the spending can be added up and the balance is an `i64`.
pub fn check_balance_fits(totals: &CategoryTotals) -> (r: bool)
    ensures
        r == balance_fits(totals@),
{
    if !expense_fits(totals) {
        return false;
    }
    let income = income_total(totals) as i128;
    let expense = expense_total(totals) as i128;
    let net = income - expense;
    -0x8000_0000_0000_0000 <= net && net <= 0x7fff_ffff_ffff_ffff
}

/// As `balance_fits`, and the balance can also be written with its sign
/// (its magnitude is an `i64`): what the summary screen needs.
pub open spec fn summary_fits(t: Map<Category, int>) -> bool {
    &&& expense_sum_fits(t)
    &&& i64::MIN < total_or_zero(t, Category::Income) - expense_of(t) <= i64::MAX
}

/// Whether the summary screen can be laid out without overflow.
pub fn check_summary_fits(totals: &CategoryTotals) -> (r: bool)
    ensures
        r == summary_fits(totals@),
{
    if !expense_fits(totals) {
        return false;
    }
    let income = income_total(totals) as i128;
    let expense = expense_total(totals) as i128;
    let net = income - expense;
    -0x8000_0000_0000_0000 < net && net <= 0x7fff_ffff_ffff_ffff
}

/// The month's summary: income (the income total), spending (the other
/// totals), balance (income minus spending) and, when `by_category`, the
/// per-category totals.
pub fn summarize(month: String, totals: &CategoryTotals, by_category: bool) -> (r: MonthlySummary)
    requires
        balance_fits(totals@),
    ensures
        r.month@ == month@,
        r.income == total_or_zero(totals@, Category::Income),
        r.expense == expense_of(totals@),
        r.balance == r.income - r.expense,
        r.by_category@ == if by_category {
            present_amounts(totals@, all_order())
        } else {
            Seq::empty()
        },
{
    let income = income_total(totals);
    let expense = expense_total(totals);
    let balance = income - expense;
    let rows = if by_category {
        let cats = crate::model::all_categories();
        collect_present(totals, &cats)
    } else {
        Vec::new()
    };
    MonthlySummary { month, income, expense, balance, by_category: rows }
}

/// A row of an amount table: indent, label padded to 14 columns, amount
/// right-aligned in 12 columns.
pub open spec fn amount_row(indent: Seq<char>, label: Seq<char>, amount: int) -> Seq<char> {
    indent + padded_right(label, 14) + padded_left(amount_text(amount), 12)
}

fn amount_row_string(indent: &str, label: &str, amount: i64) -> (r: String)
    ensures
        r@ == amount_row(indent@, label@, amount as int),
{
    let mut r = indent.to_owned();
    let l = pad_display(label, 14);
    push_str(&mut r, l.as_str());
    let a = format_amount(amount);
    let a = right_align(a.as_str(), 12);
    push_str(&mut r, a.as_str());
    r
}

/// One indented row per spending category among `cats` that has a total.
pub open spec fn expense_rows(t: Map<Category, int>, cats: Seq<Category>) -> Seq<Seq<char>>
    decreases cats.len(),
{
    if cats.len() == 0 {
        Seq::empty()
    } else {
        let prev = expense_rows(t, cats.drop_last());
        let c = cats.last();
        if t.dom().contains(c) {
            prev.push(amount_row("  "@, category_label(c), t[c]))
        } else {
            prev
        }
    }
}

/// The lines of the monthly summary screen.
pub open spec fn monthly_summary_text(month: Seq<char>, t: Map<Category, int>) -> Seq<Seq<char>> {
    let income = total_or_zero(t, Category::Income);
    let expense = expense_of(t);
    seq!["== "@ + month_label(month) + " 集計 =="@, ""@, "収入"@] + (if income > 0 {
        seq![amount_row("  "@, "収入"@, income)]
    } else {
        Seq::empty()
    }) + seq![""@, "支出"@] + expense_rows(t, expense_order()) + seq![
        "  "@ + repeat_char('─', 26),
        amount_row("  "@, "合計"@, expense),
        ""@,
        padded_right("収支"@, 16) + padded_left(signed_amount_text(income - expense), 12),
    ]
}

fn rule_line(indent: &str) -> (r: String)
    ensures
        r@ == indent@ + repeat_char('─', 26),
{
    let mut r = indent.to_owned();
    push_repeat(&mut r, '─', 26);
    proof {
        lemma_repeat_char_shape('─', 26);
    }
    assert(r@ =~= indent@ + repeat_char('─', 26));
    r
}

proof fn lemma_repeat_char_shape(c: char, n: int)
    ensures
        n >= 0 ==> repeat_char(c, n).len() == n,
        forall|i: int| 0 <= i < repeat_char(c, n).len() ==> repeat_char(c, n)[i] == c,
    decreases n,
{
    if n > 0 {
        lemma_repeat_char_shape(c, n - 1);
    }
}


proof fn lemma_expense_rows_filter(t: Map<Category, int>, cats: Seq<Category>)
    ensures
        expense_rows(t, cats) == cats.filter(|c: Category| t.dom().contains(c)).map_values(
            |c: Category| amount_row("  "@, category_label(c), t[c]),
        ),
        sum_over(t, cats.filter(|c: Category| t.dom().contains(c))) == sum_over(t, cats),
    decreases cats.len(),
{
    let pred = |c: Category| t.dom().contains(c);
    let f = |c: Category| amount_row("  "@, category_label(c), t[c]);
    if cats.len() == 0 {
        reveal(Seq::filter);
        assert(cats.filter(pred).map_values(f) =~= Seq::<Seq<char>>::empty());
    } else {
        let d = cats.drop_last();
        lemma_expense_rows_filter(t, d);
        assert(cats =~= d.push(cats.last()));
        d.lemma_filter_push(cats.last(), pred);
        assert(d.filter(pred).push(cats.last()).map_values(f) =~= d.filter(pred).map_values(f).push(
            f(cats.last()),
        ));
        assert(d.filter(pred).push(cats.last()).drop_last() =~= d.filter(pred));
    }
}

proof fn lemma_every_spending_category_listed(c: Category)
    requires
        c != Category::Income,
    ensures
        exists|i: int| 0 <= i < expense_order().len() && expense_order()[i] == c,
{
    let s = expense_order();
    match c {
        Category::Fixed => assert(s[0] == c),
        Category::Subscription => assert(s[1] == c),
        Category::Food => assert(s[2] == c),
        Category::Daily => assert(s[3] == c),
        Category::Transport => assert(s[4] == c),
        Category::Clothing => assert(s[5] == c),
        Category::Medical => assert(s[6] == c),
        Category::Beauty => assert(s[7] == c),
        Category::Social => assert(s[8] == c),
        Category::Special => assert(s[9] == c),
        Category::Learning => assert(s[10] == c),
        Category::Hobby => assert(s[11] == c),
        Category::Interior => assert(s[12] == c),
        Category::Income => {},
    }
}

/// The summary screen lists, between `支出` and the rule, one row for each
/// spending category that has a total in the month, every such category
/// and no other, in display order, each with its own total; the `合計`
/// row that follows is the sum of those rows' amounts.
pub proof fn law_summary_lists_every_spending_category(month: Seq<char>, t: Map<Category, int>)
    ensures
        ({
            let text = monthly_summary_text(month, t);
            let spent = expense_order().filter(|c: Category| t.dom().contains(c));
            let k: int = if total_or_zero(t, Category::Income) > 0 {
                6
            } else {
                5
            };
            &&& forall|c: Category| c != Category::Income && t.dom().contains(c) ==> spent.contains(c)
            &&& forall|i: int|
                0 <= i < spent.len() ==> #[trigger] spent[i] != Category::Income && t.dom().contains(spent[i])
            &&& text.len() == k + spent.len() + 4
            &&& forall|i: int|
                0 <= i < spent.len() ==> text[k + i] == amount_row(
                    "  "@,
                    category_label(#[trigger] spent[i]),
                    t[spent[i]],
                )
            &&& text[k + spent.len()] == "  "@ + repeat_char('─', 26)
            &&& text[k + spent.len() + 1] == amount_row("  "@, "合計"@, sum_over(t, spent))
            &&& sum_over(t, spent) == expense_of(t)
        }),
{
    let pred = |c: Category| t.dom().contains(c);
    let spent = expense_order().filter(pred);
    lemma_expense_rows_filter(t, expense_order());
    assert forall|c: Category| c != Category::Income && t.dom().contains(c) implies spent.contains(c) by {
        lemma_every_spending_category_listed(c);
        let i = choose|i: int| 0 <= i < expense_order().len() && expense_order()[i] == c;
        expense_order().lemma_filter_contains(pred, i);
    }
    assert forall|i: int| 0 <= i < spent.len() implies #[trigger] spent[i] != Category::Income && t.dom().contains(
        spent[i],
    ) by {
        expense_order().lemma_filter_pred(pred, i);
        #[allow(deprecated)]
        expense_order().filter_lemma(pred);
        assert(spent.contains(spent[i]));
        assert(!expense_order().contains(Category::Income)) by {
            if expense_order().contains(Category::Income) {
                let j = choose|j: int| 0 <= j < expense_order().len() && expense_order()[j] == Category::Income;
                assert(false);
            }
        }
        lemma_filter_subset(expense_order(), pred, i);
    }
}

proof fn lemma_filter_subset(s: Seq<Category>, pred: spec_fn(Category) -> bool, i: int)
    requires
        0 <= i < s.filter(pred).len(),
    ensures
        s.contains(s.filter(pred)[i]),
    decreases s.len(),
{
    reveal(Seq::filter);
    if s.len() > 0 {
        let d = s.drop_last();
        let fd = d.filter(pred);
        if i < fd.len() {
            assert(s.filter(pred)[i] == fd[i]);
            lemma_filter_subset(d, pred, i);
            let j = choose|j: int| 0 <= j < d.len() && d[j] == fd[i];
            assert(s[j] == d[j]);
        } else {
            assert(s.filter(pred)[i] == s.last());
            assert(s[s.len() - 1] == s.last());
        }
    }
}

/// The lines of the monthly summary screen for `month`.
pub fn monthly_summary_lines(month: &str, totals: &CategoryTotals) -> (r: Vec<String>)
    requires
        summary_fits(totals@),
    ensures
        lines_of(r@) == monthly_summary_text(month@, totals@),
{
    let mut lines: Vec<String> = Vec::new();
    let mut head = "== ".to_owned();
    let label = format_month_display(month);
    push_str(&mut head, label.as_str());
    push_str(&mut head, " 集計 ==");
    push_line(&mut lines, head);
    push_literal_line(&mut lines, "");
    push_literal_line(&mut lines, "収入");
    let income = income_total(totals);
    if income > 0 {
        push_line(&mut lines, amount_row_string("  ", Category::Income.display_name(), income));
    }
    push_literal_line(&mut lines, "");
    push_literal_line(&mut lines, "支出");
    let ghost before_rows = lines_of(lines@);
    let cats = expense_categories();
    let mut i: usize = 0;
    while i < cats.len()
        invariant
            cats@ == expense_order(),
            i <= cats@.len(),
            lines_of(lines@) == before_rows + expense_rows(totals@, cats@.take(i as int)),
        decreases cats@.len() - i,
    {
        let c = cats[i];
        assert(cats@.take(i as int + 1).drop_last() =~= cats@.take(i as int));
        match totals.get(c) {
            Some(v) => {
                push_line(&mut lines, amount_row_string("  ", c.display_name(), v));
            },
            None => {},
        }
        i = i + 1;
    }
    assert(cats@.take(cats@.len() as int) =~= cats@);
    let expense = expense_total(totals);
    push_line(&mut lines, rule_line("  "));
    push_line(&mut lines, amount_row_string("  ", "合計", expense));
    push_literal_line(&mut lines, "");
    let mut last = pad_display("収支", 16);
    let net = format_signed_amount(income - expense);
    let net = right_align(net.as_str(), 12);
    push_str(&mut last, net.as_str());
    push_line(&mut lines, last);
    assert(lines_of(lines@) =~= monthly_summary_text(month@, totals@));
    lines
}

/// Rows of the per-category screen: a category label padded to 14 columns
/// and its total right-aligned in 12, for each category among `cats` that
/// has a total.
pub open spec fn category_rows(t: Map<Category, int>, cats: Seq<Category>) -> Seq<Seq<char>>
    decreases cats.len(),
{
    if cats.len() == 0 {
        Seq::empty()
    } else {
        let prev = category_rows(t, cats.drop_last());
        let c = cats.last();
        if t.dom().contains(c) {
            prev.push(amount_row(""@, category_label(c), t[c]))
        } else {
            prev
        }
    }
}

/// Whether some category among `cats` has a total.
pub open spec fn any_present(t: Map<Category, int>, cats: Seq<Category>) -> bool {
    exists|i: int| 0 <= i < cats.len() && t.dom().contains(#[trigger] cats[i])
}

/// The lines of the per-category summary screen.
pub open spec fn category_summary_text(month: Seq<char>, t: Map<Category, int>) -> Seq<Seq<char>> {
    let head = seq!["== "@ + month_label(month) + " カテゴリ別集計 =="@, ""@];
    if !any_present(t, all_order()) {
        head.push("取引がありません"@)
    } else {
        head + seq![
            padded_right("カテゴリ"@, 14) + padded_left("金額"@, 12),
            repeat_char('─', 26),
        ] + category_rows(t, all_order())
    }
}

proof fn lemma_category_rows_empty(t: Map<Category, int>, cats: Seq<Category>)
    ensures
        (category_rows(t, cats).len() == 0) == !any_present(t, cats),
    decreases cats.len(),
{
    if cats.len() > 0 {
        let p = cats.drop_last();
        lemma_category_rows_empty(t, p);
        if any_present(t, p) {
            let i = choose|i: int| 0 <= i < p.len() && t.dom().contains(#[trigger] p[i]);
            assert(cats[i] == p[i]);
        }
        if any_present(t, cats) && !t.dom().contains(cats.last()) {
            let i = choose|i: int| 0 <= i < cats.len() && t.dom().contains(#[trigger] cats[i]);
            assert(i < cats.len() - 1);
            assert(p[i] == cats[i]);
        }
        if t.dom().contains(cats.last()) {
            assert(t.dom().contains(cats[cats.len() - 1]));
        }
    }
}

/// The lines of the per-category summary screen for `month`.
pub fn category_summary_lines(month: &str, totals: &CategoryTotals) -> (r: Vec<String>)
    ensures
        lines_of(r@) == category_summary_text(month@, totals@),
{
    let mut lines: Vec<String> = Vec::new();
    let mut head = "== ".to_owned();
    let label = format_month_display(month);
    push_str(&mut head, label.as_str());
    push_str(&mut head, " カテゴリ別集計 ==");
    push_line(&mut lines, head);
    push_literal_line(&mut lines, "");
    let ghost head_lines = lines_of(lines@);
    let cats = crate::model::all_categories();
    let mut rows: Vec<String> = Vec::new();
    let mut i: usize = 0;
    while i < cats.len()
        invariant
            i <= cats@.len(),
            lines_of(rows@) == category_rows(totals@, cats@.take(i as int)),
        decreases cats@.len() - i,
    {
        let c = cats[i];
        assert(cats@.take(i as int + 1).drop_last() =~= cats@.take(i as int));
        match totals.get(c) {
            Some(v) => {
                push_line(&mut rows, amount_row_string("", c.display_name(), v));
            },
            None => {},
        }
        i = i + 1;
    }
    assert(cats@.take(cats@.len() as int) =~= cats@);
    proof {
        lemma_category_rows_empty(totals@, cats@);
    }
    if rows.len() == 0 {
        push_literal_line(&mut lines, "取引がありません");
        return lines;
    }
    let mut header = pad_display("カテゴリ", 14);
    let amount_head = right_align("金額", 12);
    push_str(&mut header, amount_head.as_str());
    push_line(&mut lines, header);
    push_line(&mut lines, rule_line(""));
    let ghost before_rows = lines_of(lines@);
    let mut j: usize = 0;
    let n = rows.len();
    while j < n
        invariant
            n == rows@.len(),
            j <= n,
            lines_of(lines@) == before_rows + lines_of(rows@).take(j as int),
        decreases n - j,
    {
        let s = rows[j].clone();
        push_line(&mut lines, s);
        assert(lines_of(rows@).take(j as int + 1) =~= lines_of(rows@).take(j as int).push(rows@[j as int]@));
        j = j + 1;
    }
    assert(lines_of(rows@).take(n as int) =~= lines_of(rows@));
    assert(lines_of(lines@) =~= category_summary_text(month@, totals@)) by {
        reveal_strlit("");
    }
    lines
}

} // verus!
