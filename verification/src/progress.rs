use vstd::prelude::*;

use crate::model::{Budget, Category, expense_categories, expense_order};
use crate::text::{opt_text, str_equal};
use crate::totals::{CategoryTotals, expense_of, expense_sum_fits, expense_total, total_or_zero};

verus! {

/// Month-wide spending against its base.
#[derive(Debug, Clone, Copy, PartialEq, Eq, Structural)]
pub struct TotalProgress {
    /// The budget limit, or last month's spending.
    pub base: i64,
    /// This month's spending.
    pub current: i64,
}

/// A category's spending against its base.
#[derive(Debug, Clone, Copy, PartialEq, Eq, Structural)]
pub struct CategoryProgress {
    pub category: Category,
    /// The category's budget limit, or its spending last month.
    pub base: i64,
    /// The category's spending this month.
    pub current: i64,
}

/// Spending progress for a month: the month-wide line and the
/// per-category lines, each present when it was asked for.
#[derive(Debug)]
pub struct ProgressReport {
    pub total: Option<TotalProgress>,
    pub by_category: Option<Vec<CategoryProgress>>,
}

/// Why progress against the budget cannot be shown.
#[derive(Debug, Clone, Copy, PartialEq, Eq, Structural)]
pub enum ProgressError {
    /// The month-wide figure was asked for and no month-wide budget is set.
    NoTotalBudget,
    /// The per-category figures were asked for and no category budget is set.
    NoCategoryBudget,
}

impl ProgressError {
    /// The message shown for the error.
    pub fn message(&self) -> (r: &'static str)
        ensures
            r@ == match self {
                ProgressError::NoTotalBudget => "月全体の予算が設定されていません。`budget set --total <金額>` で設定してください"@,
                ProgressError::NoCategoryBudget => "カテゴリ別予算が設定されていません。`budget set --category <カテゴリ> <金額>` で設定してください"@,
            },
    {
        match self {
            ProgressError::NoTotalBudget => "月全体の予算が設定されていません。`budget set --total <金額>` で設定してください",
            ProgressError::NoCategoryBudget => "カテゴリ別予算が設定されていません。`budget set --category <カテゴリ> <金額>` で設定してください",
        }
    }
}

/// The amount of the first month-wide budget (one without a category).
pub open spec fn first_total_budget(bs: Seq<Budget>) -> Option<i64>
    decreases bs.len(),
{
    if bs.len() == 0 {
        None
    } else if bs[0].category is None {
        Some(bs[0].amount)
    } else {
        first_total_budget(bs.drop_first())
    }
}

/// The amount of the last budget set for category `c`.
pub open spec fn category_budget(bs: Seq<Budget>, c: Category) -> Option<i64>
    decreases bs.len(),
{
    if bs.len() == 0 {
        None
    } else if bs.last().category == Some(c) {
        Some(bs.last().amount)
    } else {
        category_budget(bs.drop_last(), c)
    }
}

/// Whether some budget names a category.
pub open spec fn has_category_budget(bs: Seq<Budget>) -> bool {
    exists|i: int| 0 <= i < bs.len() && (#[trigger] bs[i]).category is Some
}

/// One line per category among `cats` that has a budget: its limit and its
/// spending (0 when it has none).
pub open spec fn budget_lines(bs: Seq<Budget>, t: Map<Category, int>, cats: Seq<Category>) -> Seq<CategoryProgress>
    decreases cats.len(),
{
    if cats.len() == 0 {
        Seq::empty()
    } else {
        let prev = budget_lines(bs, t, cats.drop_last());
        let c = cats.last();
        match category_budget(bs, c) {
            Some(b) => prev.push(CategoryProgress { category: c, base: b, current: total_or_zero(t, c) as i64 }),
            None => prev,
        }
    }
}

/// One line per category among `cats` that was spent on this month or last
/// month: last month's spending and this month's.
pub open spec fn last_month_lines(cur: Map<Category, int>, last: Map<Category, int>, cats: Seq<Category>) -> Seq<CategoryProgress>
    decreases cats.len(),
{
    if cats.len() == 0 {
        Seq::empty()
    } else {
        let prev = last_month_lines(cur, last, cats.drop_last());
        let c = cats.last();
        if total_or_zero(last, c) == 0 && total_or_zero(cur, c) == 0 {
            prev
        } else {
            prev.push(CategoryProgress {
                category: c,
                base: total_or_zero(last, c) as i64,
                current: total_or_zero(cur, c) as i64,
            })
        }
    }
}


proof fn lemma_budget_lines_shape(bs: Seq<Budget>, t: Map<Category, int>, cats: Seq<Category>, i: int)
    requires
        0 <= i < budget_lines(bs, t, cats).len(),
    ensures
        ({
            let l = budget_lines(bs, t, cats)[i];
            &&& cats.contains(l.category)
            &&& category_budget(bs, l.category) == Some(l.base)
            &&& l.current == total_or_zero(t, l.category) as i64
        }),
    decreases cats.len(),
{
    let prev = budget_lines(bs, t, cats.drop_last());
    if i < prev.len() {
        lemma_budget_lines_shape(bs, t, cats.drop_last(), i);
        let c = budget_lines(bs, t, cats)[i].category;
        let j = choose|j: int| 0 <= j < cats.drop_last().len() && cats.drop_last()[j] == c;
        assert(cats[j] == c);
    } else {
        assert(cats[cats.len() - 1] == cats.last());
    }
}


/// The per-category line against the budget for category `c`.
pub open spec fn budget_line_of(bs: Seq<Budget>, t: Map<Category, int>, c: Category) -> CategoryProgress {
    CategoryProgress { category: c, base: category_budget(bs, c)->0, current: total_or_zero(t, c) as i64 }
}

/// The per-category line against last month for category `c`.
pub open spec fn last_month_line_of(cur: Map<Category, int>, last: Map<Category, int>, c: Category) -> CategoryProgress {
    CategoryProgress { category: c, base: total_or_zero(last, c) as i64, current: total_or_zero(cur, c) as i64 }
}

proof fn lemma_budget_lines_filter(bs: Seq<Budget>, t: Map<Category, int>, cats: Seq<Category>)
    ensures
        budget_lines(bs, t, cats) == cats.filter(|c: Category| category_budget(bs, c) is Some).map_values(
            |c: Category| budget_line_of(bs, t, c),
        ),
    decreases cats.len(),
{
    let pred = |c: Category| category_budget(bs, c) is Some;
    let f = |c: Category| budget_line_of(bs, t, c);
    if cats.len() == 0 {
        reveal(Seq::filter);
        assert(cats.filter(pred).map_values(f) =~= Seq::<CategoryProgress>::empty());
    } else {
        let d = cats.drop_last();
        lemma_budget_lines_filter(bs, t, d);
        assert(cats =~= d.push(cats.last()));
        d.lemma_filter_push(cats.last(), pred);
        assert(d.filter(pred).push(cats.last()).map_values(f) =~= d.filter(pred).map_values(f).push(
            f(cats.last()),
        ));
    }
}

/// Against the budget, the per-category lines are exactly those of the
/// spending categories that have a budget, in display order, each with that
/// budget as base and the category's spending as current figure; a missing
/// budget only leaves its line out.
pub proof fn law_budget_lines_are_the_budgeted_categories(bs: Seq<Budget>, t: Map<Category, int>)
    ensures
        budget_lines(bs, t, expense_order()) == expense_order().filter(
            |c: Category| category_budget(bs, c) is Some,
        ).map_values(|c: Category| budget_line_of(bs, t, c)),
{
    lemma_budget_lines_filter(bs, t, expense_order());
}

proof fn lemma_last_month_lines_filter(cur: Map<Category, int>, last: Map<Category, int>, cats: Seq<Category>)
    ensures
        last_month_lines(cur, last, cats) == cats.filter(
            |c: Category| total_or_zero(last, c) != 0 || total_or_zero(cur, c) != 0,
        ).map_values(|c: Category| last_month_line_of(cur, last, c)),
    decreases cats.len(),
{
    let pred = |c: Category| total_or_zero(last, c) != 0 || total_or_zero(cur, c) != 0;
    let f = |c: Category| last_month_line_of(cur, last, c);
    if cats.len() == 0 {
        reveal(Seq::filter);
        assert(cats.filter(pred).map_values(f) =~= Seq::<CategoryProgress>::empty());
    } else {
        let d = cats.drop_last();
        lemma_last_month_lines_filter(cur, last, d);
        assert(cats =~= d.push(cats.last()));
        d.lemma_filter_push(cats.last(), pred);
        assert(d.filter(pred).push(cats.last()).map_values(f) =~= d.filter(pred).map_values(f).push(
            f(cats.last()),
        ));
    }
}

/// Against last month, the per-category lines are exactly those of the
/// spending categories spent on in either month, in display order, each
/// with last month's and this month's spending.
pub proof fn law_last_month_lines_are_the_spent_categories(cur: Map<Category, int>, last: Map<Category, int>)
    ensures
        last_month_lines(cur, last, expense_order()) == expense_order().filter(
            |c: Category| total_or_zero(last, c) != 0 || total_or_zero(cur, c) != 0,
        ).map_values(|c: Category| last_month_line_of(cur, last, c)),
{
    lemma_last_month_lines_filter(cur, last, expense_order());
}

/// Every per-category line against the budget is for a spending category
/// that has a budget: its base is that budget and its current figure is
/// the category's spending.
pub proof fn law_budget_lines_have_budgets(bs: Seq<Budget>, t: Map<Category, int>, i: int)
    requires
        0 <= i < budget_lines(bs, t, expense_order()).len(),
    ensures
        ({
            let l = budget_lines(bs, t, expense_order())[i];
            &&& l.category != Category::Income
            &&& category_budget(bs, l.category) == Some(l.base)
            &&& l.current == total_or_zero(t, l.category) as i64
        }),
{
    lemma_budget_lines_shape(bs, t, expense_order(), i);
    let l = budget_lines(bs, t, expense_order())[i];
    if l.category == Category::Income {
        let j = choose|j: int| 0 <= j < expense_order().len() && expense_order()[j] == l.category;
        assert(false);
    }
}

proof fn lemma_last_month_lines_shape(cur: Map<Category, int>, last: Map<Category, int>, cats: Seq<Category>, i: int)
    requires
        0 <= i < last_month_lines(cur, last, cats).len(),
    ensures
        ({
            let l = last_month_lines(cur, last, cats)[i];
            &&& cats.contains(l.category)
            &&& l.base == total_or_zero(last, l.category) as i64
            &&& l.current == total_or_zero(cur, l.category) as i64
            &&& (total_or_zero(last, l.category) != 0 || total_or_zero(cur, l.category) != 0)
        }),
    decreases cats.len(),
{
    let prev = last_month_lines(cur, last, cats.drop_last());
    if i < prev.len() {
        lemma_last_month_lines_shape(cur, last, cats.drop_last(), i);
        let c = last_month_lines(cur, last, cats)[i].category;
        let j = choose|j: int| 0 <= j < cats.drop_last().len() && cats.drop_last()[j] == c;
        assert(cats[j] == c);
    } else {
        assert(cats[cats.len() - 1] == cats.last());
    }
}

/// Every per-category line against last month is for a spending category
/// that was spent on in at least one of the two months.
pub proof fn law_last_month_lines_have_spending(cur: Map<Category, int>, last: Map<Category, int>, i: int)
    requires
        0 <= i < last_month_lines(cur, last, expense_order()).len(),
    ensures
        ({
            let l = last_month_lines(cur, last, expense_order())[i];
            &&& l.category != Category::Income
            &&& l.base == total_or_zero(last, l.category) as i64
            &&& l.current == total_or_zero(cur, l.category) as i64
            &&& (total_or_zero(last, l.category) != 0 || total_or_zero(cur, l.category) != 0)
        }),
{
    lemma_last_month_lines_shape(cur, last, expense_order(), i);
    let l = last_month_lines(cur, last, expense_order())[i];
    if l.category == Category::Income {
        let j = choose|j: int| 0 <= j < expense_order().len() && expense_order()[j] == l.category;
        assert(false);
    }
}


/// Whether a budget for target `c` (a category, or `None` for the whole
/// month) is set for month `m` itself.
pub open spec fn has_month_budget(bs: Seq<Budget>, m: Seq<char>, c: Option<Category>) -> bool {
    exists|i: int| 0 <= i < bs.len() && opt_text((#[trigger] bs[i]).month) == Some(m) && bs[i].category == c
}

/// Whether budget `b` of `bs` applies to month `m`: it is set for `m`, or
/// it is set for every month and no budget for the same target is set for
/// `m` (a month's own budget takes the place of the all-month one).
pub open spec fn applies_to(b: Budget, bs: Seq<Budget>, m: Seq<char>) -> bool {
    opt_text(b.month) == Some(m) || (b.month is None && !has_month_budget(bs, m, b.category))
}

/// The budgets of `bs` that apply to month `m`, in their order.
pub open spec fn budgets_for(bs: Seq<Budget>, m: Seq<char>) -> Seq<Budget> {
    bs.filter(|b: Budget| applies_to(b, bs, m))
}

fn same_target(a: Option<Category>, b: Option<Category>) -> (r: bool)
    ensures
        r == (a == b),
{
    match (a, b) {
        (None, None) => true,
        (Some(x), Some(y)) => x == y,
        _ => false,
    }
}

fn month_is(month: &Option<String>, m: &str) -> (r: bool)
    ensures
        r == (opt_text(*month) == Some(m@)),
{
    match month {
        Some(s) => str_equal(s.as_str(), m),
        None => false,
    }
}

fn has_month_budget_exec(bs: &Vec<Budget>, m: &str, c: Option<Category>) -> (r: bool)
    ensures
        r == has_month_budget(bs@, m@, c),
{
    let mut i: usize = 0;
    while i < bs.len()
        invariant
            i <= bs@.len(),
            forall|j: int| 0 <= j < i ==> !(opt_text((#[trigger] bs@[j]).month) == Some(m@) && bs@[j].category == c),
        decreases bs@.len() - i,
    {
        if month_is(&bs[i].month, m) && same_target(bs[i].category, c) {
            return true;
        }
        i = i + 1;
    }
    false
}

/// The budgets that apply to `month`, in their order: those set for that
/// month, and the all-month ones whose target has no budget of its own for
/// that month.
pub fn budgets_for_month(budgets: Vec<Budget>, month: &str) -> (r: Vec<Budget>)
    ensures
        r@ == budgets_for(budgets@, month@),
{
    let ghost orig = budgets@;
    let n = budgets.len();
    let mut keep: Vec<bool> = Vec::new();
    let mut i: usize = 0;
    while i < n
        invariant
            n == orig.len(),
            budgets@ == orig,
            i <= n,
            keep@.len() == i,
            forall|j: int| 0 <= j < i ==> keep@[j] == applies_to(orig[j], orig, month@),
        decreases n - i,
    {
        let b = &budgets[i];
        let own = month_is(&b.month, month);
        let k = own || (b.month.is_none() && !has_month_budget_exec(&budgets, month, b.category));
        keep.push(k);
        i = i + 1;
    }
    let ghost pred = |b: Budget| applies_to(b, orig, month@);
    let mut rest = budgets;
    let mut out: Vec<Budget> = Vec::new();
    let mut idx: usize = 0;
    proof {
        assert(orig.take(0) =~= Seq::<Budget>::empty());
        reveal(Seq::filter);
    }
    while idx < n
        invariant
            n == orig.len(),
            idx <= n,
            keep@.len() == n,
            forall|j: int| 0 <= j < n ==> keep@[j] == pred(orig[j]),
            rest@ == orig.skip(idx as int),
            out@ == orig.take(idx as int).filter(pred),
        decreases n - idx,
    {
        let b = rest.remove(0);
        let ghost t1 = orig.take(idx as int + 1);
        assert(b == orig[idx as int]);
        assert(t1 =~= orig.take(idx as int).push(orig[idx as int]));
        proof {
            orig.take(idx as int).lemma_filter_push(orig[idx as int], pred);
        }
        assert(keep@[idx as int] == pred(orig[idx as int]));
        if keep[idx] {
            out.push(b);
        }
        assert(rest@ =~= orig.skip(idx as int + 1));
        idx = idx + 1;
    }
    assert(orig.take(n as int) =~= orig);
    out
}

/// The first month-wide budget's amount.
fn find_total_budget(budgets: &[Budget]) -> (r: Option<i64>)
    ensures
        r == first_total_budget(budgets@),
{
    let n = budgets.len();
    let mut i: usize = 0;
    assert(budgets@.skip(0) =~= budgets@);
    while i < n
        invariant
            n == budgets@.len(),
            i <= n,
            first_total_budget(budgets@) == first_total_budget(budgets@.skip(i as int)),
        decreases n - i,
    {
        assert(budgets@.skip(i as int).drop_first() =~= budgets@.skip(i as int + 1));
        if budgets[i].category.is_none() {
            return Some(budgets[i].amount);
        }
        i = i + 1;
    }
    None
}

/// The last budget's amount for category `c`.
fn find_category_budget(budgets: &[Budget], c: Category) -> (r: Option<i64>)
    ensures
        r == category_budget(budgets@, c),
{
    let mut i: usize = budgets.len();
    assert(budgets@.take(i as int) =~= budgets@);
    while i > 0
        invariant
            i <= budgets@.len(),
            category_budget(budgets@, c) == category_budget(budgets@.take(i as int), c),
        decreases i,
    {
        assert(budgets@.take(i as int).drop_last() =~= budgets@.take(i as int - 1));
        if budgets[i - 1].category == Some(c) {
            return Some(budgets[i - 1].amount);
        }
        i = i - 1;
    }
    None
}

/// Whether some budget names a category.
fn any_category_budget(budgets: &[Budget]) -> (r: bool)
    ensures
        r == has_category_budget(budgets@),
{
    let n = budgets.len();
    let mut i: usize = 0;
    while i < n
        invariant
            n == budgets@.len(),
            i <= n,
            forall|j: int| 0 <= j < i ==> (#[trigger] budgets@[j]).category is None,
        decreases n - i,
    {
        if budgets[i].category.is_some() {
            return true;
        }
        i = i + 1;
    }
    false
}

fn collect_budget_lines(budgets: &[Budget], current: &CategoryTotals) -> (r: Vec<CategoryProgress>)
    ensures
        r@ == budget_lines(budgets@, current@, expense_order()),
{
    let cats = expense_categories();
    let mut r: Vec<CategoryProgress> = Vec::new();
    let mut i: usize = 0;
    while i < cats.len()
        invariant
            cats@ == expense_order(),
            i <= cats@.len(),
            r@ == budget_lines(budgets@, current@, cats@.take(i as int)),
        decreases cats@.len() - i,
    {
        let c = cats[i];
        assert(cats@.take(i as int + 1).drop_last() =~= cats@.take(i as int));
        match find_category_budget(budgets, c) {
            Some(b) => {
                let cur = current.get_or_zero(c);
                r.push(CategoryProgress { category: c, base: b, current: cur });
            },
            None => {},
        }
        i = i + 1;
    }
    assert(cats@.take(cats@.len() as int) =~= cats@);
    r
}

/// Progress against the budget, as the web API reports it: the month-wide
/// line compares spending with the first month-wide budget (0 when there
/// is none); each spending category with a budget gets a line.
pub fn budget_progress(
    current: &CategoryTotals,
    budgets: &[Budget],
    show_total: bool,
    show_by_category: bool,
) -> (r: ProgressReport)
    requires
        expense_sum_fits(current@),
    ensures
        r.total == if show_total {
            Some(TotalProgress {
                base: match first_total_budget(budgets@) {
                    Some(b) => b,
                    None => 0,
                },
                current: expense_of(current@) as i64,
            })
        } else {
            None
        },
        match r.by_category {
            Some(v) => show_by_category && v@ == budget_lines(budgets@, current@, expense_order()),
            None => !show_by_category,
        },
{
    let spent = expense_total(current);
    let total = if show_total {
        let base = match find_total_budget(budgets) {
            Some(b) => b,
            None => 0,
        };
        Some(TotalProgress { base, current: spent })
    } else {
        None
    };
    let by_category = if show_by_category {
        Some(collect_budget_lines(budgets, current))
    } else {
        None
    };
    ProgressReport { total, by_category }
}

/// Progress against the budget, as the command line shows it: it is refused
/// when the month-wide line is asked for and no month-wide budget is set,
/// or when the per-category lines are asked for and no budget names a
/// category; otherwise the lines are those of `budget_progress`.
pub fn budget_progress_checked(
    current: &CategoryTotals,
    budgets: &[Budget],
    show_total: bool,
    show_by_category: bool,
) -> (r: Result<ProgressReport, ProgressError>)
    requires
        expense_sum_fits(current@),
    ensures
        show_total && first_total_budget(budgets@) is None ==> r == Err::<ProgressReport, ProgressError>(ProgressError::NoTotalBudget),
        !(show_total && first_total_budget(budgets@) is None) && show_by_category && !has_category_budget(budgets@)
            ==> r == Err::<ProgressReport, ProgressError>(ProgressError::NoCategoryBudget),
        r is Ok <==> (!(show_total && first_total_budget(budgets@) is None)
            && !(show_by_category && !has_category_budget(budgets@))),
        r matches Ok(p) ==> {
            &&& p.total == if show_total {
                Some(TotalProgress { base: first_total_budget(budgets@)->0, current: expense_of(current@) as i64 })
            } else {
                None
            }
            &&& match p.by_category {
                Some(v) => show_by_category && v@ == budget_lines(budgets@, current@, expense_order()),
                None => !show_by_category,
            }
        },
{
    if show_total && find_total_budget(budgets).is_none() {
        return Err(ProgressError::NoTotalBudget);
    }
    if show_by_category && !any_category_budget(budgets) {
        return Err(ProgressError::NoCategoryBudget);
    }
    Ok(budget_progress(current, budgets, show_total, show_by_category))
}

/// Progress against last month: the month-wide line compares this month's
/// spending with last month's; each spending category spent on in either
/// month gets a line.
pub fn last_month_progress(
    current: &CategoryTotals,
    last: &CategoryTotals,
    show_total: bool,
    show_by_category: bool,
) -> (r: ProgressReport)
    requires
        expense_sum_fits(current@),
        expense_sum_fits(last@),
    ensures
        r.total == if show_total {
            Some(TotalProgress { base: expense_of(last@) as i64, current: expense_of(current@) as i64 })
        } else {
            None
        },
        match r.by_category {
            Some(v) => show_by_category && v@ == last_month_lines(current@, last@, expense_order()),
            None => !show_by_category,
        },
{
    let spent = expense_total(current);
    let last_spent = expense_total(last);
    let total = if show_total {
        Some(TotalProgress { base: last_spent, current: spent })
    } else {
        None
    };
    let by_category = if show_by_category {
        let cats = expense_categories();
        let mut v: Vec<CategoryProgress> = Vec::new();
        let mut i: usize = 0;
        while i < cats.len()
            invariant
                cats@ == expense_order(),
                i <= cats@.len(),
                v@ == last_month_lines(current@, last@, cats@.take(i as int)),
            decreases cats@.len() - i,
        {
            let c = cats[i];
            assert(cats@.take(i as int + 1).drop_last() =~= cats@.take(i as int));
            let base = last.get_or_zero(c);
            let cur = current.get_or_zero(c);
            if !(base == 0 && cur == 0) {
                v.push(CategoryProgress { category: c, base, current: cur });
            }
            i = i + 1;
        }
        assert(cats@.take(cats@.len() as int) =~= cats@);
        Some(v)
    } else {
        None
    };
    ProgressReport { total, by_category }
}

/// What the command-line flags ask for: (month-wide line, per-category
/// lines). `--total` leaves out the categories, `--by-category` the
/// month-wide line.
pub fn progress_scope_from_flags(total: bool, by_category: bool) -> (r: (bool, bool))
    ensures
        r == (!by_category, !total),
{
    (!by_category, !total)
}

} // verus!
