use vstd::prelude::*;

use crate::cli::{AddArgs, BudgetSetArgs, EditArgs, ListArgs};
use crate::fmt::{amount_text, format_amount, pad_display, padded_left, padded_right, right_align};
use crate::model::{Budget, Category, Transaction, category_label};
use crate::month::{is_valid_date, validate_month, ymd_accepted};
use crate::report::lines_of;
use crate::repository::{NewBudget, NewTransaction, TransactionFilter, TransactionUpdate, update_is_empty};
use crate::text::{int_text, opt_text, push_int, push_spaces, push_str, spaces};

verus! {

/// Why the command line's request was refused before touching the ledger.
#[derive(Debug, Clone, Copy, PartialEq, Eq, Structural)]
pub enum CommandError {
    /// An amount was zero or negative.
    AmountNotPositive,
    /// A date was not `YYYY-MM-DD`.
    DateFormat,
    /// A month was not `YYYY-MM`.
    MonthFormat,
    /// `edit` was given nothing to change.
    NoFields,
    /// `budget set --category` was given no amount.
    CategoryWithoutAmount,
    /// `budget set` was given neither `--total` nor `--category`.
    NoBudgetTarget,
}

/// The message shown for each error.
pub open spec fn command_error_text(e: CommandError) -> Seq<char> {
    match e {
        CommandError::AmountNotPositive => "金額は正の整数で入力してください"@,
        CommandError::DateFormat => "日付は YYYY-MM-DD 形式で入力してください"@,
        CommandError::MonthFormat => "月は YYYY-MM 形式で入力してください"@,
        CommandError::NoFields => "更新するフィールドを少なくとも一つ指定してください"@,
        CommandError::CategoryWithoutAmount => "--category 指定時は金額を入力してください"@,
        CommandError::NoBudgetTarget => "月全体（--total）またはカテゴリ（--category）のいずれかを指定してください"@,
    }
}

impl CommandError {
    /// The message shown for the error.
    pub fn message(&self) -> (r: &'static str)
        ensures
            r@ == command_error_text(*self),
    {
        match self {
            CommandError::AmountNotPositive => "金額は正の整数で入力してください",
            CommandError::DateFormat => "日付は YYYY-MM-DD 形式で入力してください",
            CommandError::MonthFormat => "月は YYYY-MM 形式で入力してください",
            CommandError::NoFields => "更新するフィールドを少なくとも一つ指定してください",
            CommandError::CategoryWithoutAmount => "--category 指定時は金額を入力してください",
            CommandError::NoBudgetTarget => "月全体（--total）またはカテゴリ（--category）のいずれかを指定してください",
        }
    }
}

/// The owner of every record made from the command line.
pub open spec fn local_user() -> Seq<char> {
    "local"@
}

/// The command line's user name, `"local"`.
pub fn local_user_id() -> (r: String)
    ensures
        r@ == local_user(),
{
    "local".to_owned()
}

/// An optional date that, when given, is `YYYY-MM-DD`.
pub open spec fn date_ok(d: Option<String>) -> bool {
    match d {
        Some(s) => ymd_accepted(s@),
        None => true,
    }
}

/// An optional month that, when given, is `YYYY-MM`.
pub open spec fn month_ok(m: Option<String>) -> bool {
    match m {
        Some(s) => ymd_accepted(s@ + "-01"@),
        None => true,
    }
}

/// The month asked for, or the current one.
pub open spec fn month_or(m: Option<String>, current: String) -> Seq<char> {
    match m {
        Some(s) => s@,
        None => current@,
    }
}

/// `--month` must be `YYYY-MM`.
pub fn validate_month_format(month: &str) -> (r: Result<(), CommandError>)
    ensures
        r is Ok <==> ymd_accepted(month@ + "-01"@),
        r is Err ==> r == Err::<(), CommandError>(CommandError::MonthFormat),
{
    if validate_month(month) {
        Ok(())
    } else {
        Err(CommandError::MonthFormat)
    }
}

/// The month a command works on: `--month` when given (and then it must be
/// `YYYY-MM`), else `current`.
pub fn resolve_month(month: Option<String>, current: String) -> (r: Result<String, CommandError>)
    ensures
        month_ok(month) ==> (r matches Ok(m) && m@ == month_or(month, current)),
        !month_ok(month) ==> r == Err::<String, CommandError>(CommandError::MonthFormat),
{
    match month {
        Some(m) => {
            if validate_month(m.as_str()) {
                Ok(m)
            } else {
                Err(CommandError::MonthFormat)
            }
        },
        None => Ok(current),
    }
}

/// `add`: the amount must be positive, then a given date must be
/// `YYYY-MM-DD`; without a date the transaction is dated `today`.
pub fn prepare_add(args: AddArgs, today: String) -> (r: Result<NewTransaction, CommandError>)
    ensures
        args.amount <= 0 ==> r == Err::<NewTransaction, CommandError>(CommandError::AmountNotPositive),
        args.amount > 0 && !date_ok(args.date) ==> r == Err::<NewTransaction, CommandError>(CommandError::DateFormat),
        args.amount > 0 && date_ok(args.date) ==> (r matches Ok(t) && {
            &&& t.user_id@ == local_user()
            &&& t.name@ == args.name@
            &&& t.amount == args.amount
            &&& t.date@ == month_or(args.date, today)
            &&& t.category == args.category
            &&& opt_text(t.memo) == opt_text(args.memo)
        }),
{
    if args.amount <= 0 {
        return Err(CommandError::AmountNotPositive);
    }
    let date = match args.date {
        Some(d) => {
            if !is_valid_date(d.as_str()) {
                return Err(CommandError::DateFormat);
            }
            d
        },
        None => today,
    };
    Ok(
        NewTransaction {
            user_id: local_user_id(),
            name: args.name,
            amount: args.amount,
            date,
            category: args.category,
            memo: args.memo,
        },
    )
}

/// `list`: a given month must be `YYYY-MM`; the listing is of that month
/// (or `current_month`) and of the category when one is given.
pub fn prepare_list(args: ListArgs, current_month: String) -> (r: Result<TransactionFilter, CommandError>)
    ensures
        !month_ok(args.month) ==> r == Err::<TransactionFilter, CommandError>(CommandError::MonthFormat),
        month_ok(args.month) ==> (r matches Ok(f) && {
            &&& f.user_id@ == local_user()
            &&& opt_text(f.month) == Some(month_or(args.month, current_month))
            &&& f.category == args.category
        }),
{
    let month = resolve_month(args.month, current_month)?;
    Ok(TransactionFilter { user_id: local_user_id(), month: Some(month), category: args.category })
}

/// `edit`: something must be given to change, a given amount must be
/// positive and a given date `YYYY-MM-DD`.
pub fn prepare_edit(args: EditArgs) -> (r: Result<(i64, TransactionUpdate), CommandError>)
    ensures
        ({
            let u = TransactionUpdate {
                name: args.name,
                amount: args.amount,
                date: args.date,
                category: args.category,
                memo: args.memo,
            };
            if update_is_empty(u) {
                r == Err::<(i64, TransactionUpdate), CommandError>(CommandError::NoFields)
            } else if args.amount matches Some(a) && a <= 0 {
                r == Err::<(i64, TransactionUpdate), CommandError>(CommandError::AmountNotPositive)
            } else if !date_ok(args.date) {
                r == Err::<(i64, TransactionUpdate), CommandError>(CommandError::DateFormat)
            } else {
                r == Ok::<(i64, TransactionUpdate), CommandError>((args.id, u))
            }
        }),
{
    if args.name.is_none() && args.amount.is_none() && args.category.is_none() && args.date.is_none()
        && args.memo.is_none() {
        return Err(CommandError::NoFields);
    }
    match args.amount {
        Some(a) => {
            if a <= 0 {
                return Err(CommandError::AmountNotPositive);
            }
        },
        None => {},
    }
    match &args.date {
        Some(d) => {
            if !is_valid_date(d.as_str()) {
                return Err(CommandError::DateFormat);
            }
        },
        None => {},
    }
    Ok(
        (
            args.id,
            TransactionUpdate {
                name: args.name,
                amount: args.amount,
                date: args.date,
                category: args.category,
                memo: args.memo,
            },
        ),
    )
}

/// The budget that `budget set` asks for, or why it is refused.
pub open spec fn budget_set_outcome(args: BudgetSetArgs) -> Result<(Option<Category>, i64), CommandError> {
    match args.total {
        Some(t) => if t <= 0 {
            Err(CommandError::AmountNotPositive)
        } else {
            Ok((None, t))
        },
        None => match args.category {
            Some(c) => match args.amount {
                None => Err(CommandError::CategoryWithoutAmount),
                Some(a) => if a <= 0 {
                    Err(CommandError::AmountNotPositive)
                } else {
                    Ok((Some(c), a))
                },
            },
            None => Err(CommandError::NoBudgetTarget),
        },
    }
}

/// `budget set`: `--total` sets the month-wide limit; `--category` with an
/// amount sets that category's limit; the amount must be positive. Budgets
/// set from the command line apply to every month.
pub fn prepare_budget_set(args: BudgetSetArgs) -> (r: Result<NewBudget, CommandError>)
    ensures
        match budget_set_outcome(args) {
            Ok((c, a)) => r matches Ok(b) && b.user_id@ == local_user() && b.month is None && b.category == c
                && b.amount == a,
            Err(e) => r == Err::<NewBudget, CommandError>(e),
        },
{
    match args.total {
        Some(t) => {
            if t <= 0 {
                return Err(CommandError::AmountNotPositive);
            }
            Ok(NewBudget { user_id: local_user_id(), month: None, category: None, amount: t })
        },
        None => match args.category {
            Some(c) => match args.amount {
                None => Err(CommandError::CategoryWithoutAmount),
                Some(a) => {
                    if a <= 0 {
                        return Err(CommandError::AmountNotPositive);
                    }
                    Ok(NewBudget { user_id: local_user_id(), month: None, category: Some(c), amount: a })
                },
            },
            None => Err(CommandError::NoBudgetTarget),
        },
    }
}

// ---- listings ----

/// `s` followed by spaces up to `width` characters (Rust's `{:<width}`).
pub open spec fn fill_right(s: Seq<char>, width: int) -> Seq<char> {
    s + spaces(width - s.len())
}

/// `s` preceded by spaces up to `width` characters (Rust's `{:>width}`).
pub open spec fn fill_left(s: Seq<char>, width: int) -> Seq<char> {
    spaces(width - s.len()) + s
}

fn push_fill_right(out: &mut String, s: &str, width: usize)
    ensures
        final(out)@ == old(out)@ + fill_right(s@, width as int),
{
    let n = s.unicode_len();
    push_str(out, s);
    if n < width {
        push_spaces(out, width - n);
    } else {
        push_spaces(out, 0);
    }
    proof {
        assert(spaces(0) =~= Seq::<char>::empty());
        if n >= width {
            lemma_spaces_nonpositive(width - n);
        }
    }
    assert(final(out)@ =~= old(out)@ + fill_right(s@, width as int));
}

proof fn lemma_spaces_nonpositive(k: int)
    requires
        k <= 0,
    ensures
        spaces(k) == Seq::<char>::empty(),
{
}

fn push_fill_left(out: &mut String, s: &str, width: usize)
    ensures
        final(out)@ == old(out)@ + fill_left(s@, width as int),
{
    let n = s.unicode_len();
    if n < width {
        push_spaces(out, width - n);
    } else {
        proof {
            lemma_spaces_nonpositive(width - n);
        }
    }
    push_str(out, s);
    assert(final(out)@ =~= old(out)@ + fill_left(s@, width as int));
}

/// The memo, or nothing.
pub open spec fn memo_text(m: Option<String>) -> Seq<char> {
    match m {
        Some(s) => s@,
        None => Seq::empty(),
    }
}

/// The heading of a transaction listing.
pub open spec fn list_heading() -> Seq<char> {
    fill_left("ID"@, 4) + "  "@ + fill_right("日付"@, 10) + "  "@ + fill_left("金額"@, 12) + "  "@
        + fill_right("カテゴリ"@, 8) + "  名称  メモ"@
}

/// One listed transaction: id, date, amount, category, name and memo.
pub open spec fn list_row(t: Transaction) -> Seq<char> {
    fill_left(int_text(t.id as int), 4) + "  "@ + fill_right(t.date@, 10) + "  "@ + fill_left(
        amount_text(t.amount as int),
        12,
    ) + "  "@ + fill_right(category_label(t.category), 8) + "  "@ + t.name@ + "  "@ + memo_text(t.memo)
}

/// `n` copies of the rule character `─`.
pub open spec fn rule(n: int) -> Seq<char>
    decreases n,
{
    if n <= 0 {
        Seq::empty()
    } else {
        rule(n - 1).push('─')
    }
}

/// The lines of `list`: a notice when there is nothing, else a heading, a
/// rule and one row per transaction in the order given.
pub open spec fn list_text(txs: Seq<Transaction>) -> Seq<Seq<char>> {
    if txs.len() == 0 {
        seq!["取引がありません"@]
    } else {
        seq![list_heading(), rule(60)] + txs.map_values(|t: Transaction| list_row(t))
    }
}


/// A listing keeps the order of the transactions given (newest first, as
/// they are fetched): after the heading and the rule, the `i`-th row is the
/// row of the `i`-th transaction, and there is one row per transaction;
/// with no transaction there is only the notice.
pub proof fn law_list_keeps_the_order(txs: Seq<Transaction>)
    ensures
        txs.len() == 0 ==> list_text(txs) == seq!["取引がありません"@],
        txs.len() > 0 ==> list_text(txs).len() == txs.len() + 2,
        txs.len() > 0 ==> list_text(txs)[0] == list_heading() && list_text(txs)[1] == rule(60),
        forall|i: int| 0 <= i < txs.len() ==> list_text(txs)[i + 2] == list_row(#[trigger] txs[i]),
{
}

fn rule_string(n: usize) -> (r: String)
    ensures
        r@ == rule(n as int),
{
    let mut r = String::new();
    let mut i: usize = 0;
    while i < n
        invariant
            i <= n,
            r@ == rule(i as int),
        decreases n - i,
    {
        crate::text::push_char(&mut r, '─');
        i = i + 1;
    }
    r
}

fn list_row_string(t: &Transaction) -> (r: String)
    ensures
        r@ == list_row(*t),
{
    let mut r = String::new();
    let mut id = String::new();
    push_int(&mut id, t.id);
    push_fill_left(&mut r, id.as_str(), 4);
    push_str(&mut r, "  ");
    push_fill_right(&mut r, t.date.as_str(), 10);
    push_str(&mut r, "  ");
    let amount = format_amount(t.amount);
    push_fill_left(&mut r, amount.as_str(), 12);
    push_str(&mut r, "  ");
    push_fill_right(&mut r, t.category.display_name(), 8);
    push_str(&mut r, "  ");
    push_str(&mut r, t.name.as_str());
    push_str(&mut r, "  ");
    match &t.memo {
        Some(m) => push_str(&mut r, m.as_str()),
        None => {},
    }
    assert(r@ =~= list_row(*t));
    r
}

/// The lines that `list` prints for the transactions found.
pub fn list_lines(txs: &[Transaction]) -> (r: Vec<String>)
    ensures
        lines_of(r@) == list_text(txs@),
{
    let mut lines: Vec<String> = Vec::new();
    if txs.len() == 0 {
        lines.push("取引がありません".to_owned());
        assert(lines_of(lines@) =~= list_text(txs@));
        return lines;
    }
    let mut head = String::new();
    push_fill_left(&mut head, "ID", 4);
    push_str(&mut head, "  ");
    push_fill_right(&mut head, "日付", 10);
    push_str(&mut head, "  ");
    push_fill_left(&mut head, "金額", 12);
    push_str(&mut head, "  ");
    push_fill_right(&mut head, "カテゴリ", 8);
    push_str(&mut head, "  名称  メモ");
    assert(head@ =~= list_heading());
    lines.push(head);
    lines.push(rule_string(60));
    let mut i: usize = 0;
    while i < txs.len()
        invariant
            i <= txs@.len(),
            lines_of(lines@) == seq![list_heading(), rule(60)] + txs@.take(i as int).map_values(
                |t: Transaction| list_row(t),
            ),
        decreases txs@.len() - i,
    {
        let row = list_row_string(&txs[i]);
        let ghost before = lines@;
        lines.push(row);
        assert(lines_of(lines@) =~= lines_of(before).push(row@));
        assert(txs@.take(i as int + 1).map_values(|t: Transaction| list_row(t)) =~= txs@.take(
            i as int,
        ).map_values(|t: Transaction| list_row(t)).push(list_row(txs@[i as int])));
        i = i + 1;
    }
    assert(txs@.take(txs@.len() as int) =~= txs@);
    lines
}

/// The label of a budget: `月全体` for the month-wide one, else the
/// category's name.
pub open spec fn budget_label(b: Budget) -> Seq<char> {
    match b.category {
        None => "月全体"@,
        Some(c) => category_label(c),
    }
}

/// One budget line: label padded to 14 columns, limit right-aligned in 12.
pub open spec fn budget_row(b: Budget) -> Seq<char> {
    padded_right(budget_label(b), 14) + padded_left(amount_text(b.amount as int), 12)
}

/// The lines of `budget show`: a notice when nothing is set, else a
/// heading, a blank line and one row per budget in the order given.
pub open spec fn budget_text(bs: Seq<Budget>) -> Seq<Seq<char>> {
    if bs.len() == 0 {
        seq!["予算が設定されていません"@]
    } else {
        seq!["== 予算設定 =="@, Seq::empty()] + bs.map_values(|b: Budget| budget_row(b))
    }
}

/// The lines that `budget show` prints.
pub fn budget_lines(budgets: &[Budget]) -> (r: Vec<String>)
    ensures
        lines_of(r@) == budget_text(budgets@),
{
    let mut lines: Vec<String> = Vec::new();
    if budgets.len() == 0 {
        lines.push("予算が設定されていません".to_owned());
        assert(lines_of(lines@) =~= budget_text(budgets@));
        return lines;
    }
    lines.push("== 予算設定 ==".to_owned());
    lines.push(String::new());
    let mut i: usize = 0;
    while i < budgets.len()
        invariant
            i <= budgets@.len(),
            lines_of(lines@) == seq!["== 予算設定 =="@, Seq::<char>::empty()] + budgets@.take(i as int).map_values(
                |b: Budget| budget_row(b),
            ),
        decreases budgets@.len() - i,
    {
        let b = &budgets[i];
        let label: &str = match b.category {
            None => "月全体",
            Some(c) => c.display_name(),
        };
        let mut row = pad_display(label, 14);
        let amount = format_amount(b.amount);
        let aligned = right_align(amount.as_str(), 12);
        push_str(&mut row, aligned.as_str());
        let ghost before = lines@;
        lines.push(row);
        assert(lines_of(lines@) =~= lines_of(before).push(row@));
        assert(budgets@.take(i as int + 1).map_values(|b: Budget| budget_row(b)) =~= budgets@.take(
            i as int,
        ).map_values(|b: Budget| budget_row(b)).push(budget_row(budgets@[i as int])));
        i = i + 1;
    }
    assert(budgets@.take(budgets@.len() as int) =~= budgets@);
    lines
}

} // verus!
