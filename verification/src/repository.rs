use vstd::prelude::*;

use crate::model::{Budget, Category, Transaction, category_from_code};
use crate::text::opt_text;

verus! {

/// What is needed to record a transaction.
#[derive(Debug)]
pub struct NewTransaction {
    /// Owner: `"local"` on the command line, the token's subject on the web.
    pub user_id: String,
    pub name: String,
    /// Amount in yen, positive.
    pub amount: i64,
    /// Date, `YYYY-MM-DD`.
    pub date: String,
    pub category: Category,
    pub memo: Option<String>,
}

/// An edit of a transaction: the fields that are `Some` are replaced.
#[derive(Debug)]
pub struct TransactionUpdate {
    pub name: Option<String>,
    pub amount: Option<i64>,
    pub date: Option<String>,
    pub category: Option<Category>,
    pub memo: Option<String>,
}

/// Which transactions to list; `None` filters nothing.
#[derive(Debug)]
pub struct TransactionFilter {
    pub user_id: String,
    /// Month, `YYYY-MM`.
    pub month: Option<String>,
    pub category: Option<Category>,
}

/// What is needed to set a budget.
#[derive(Debug)]
pub struct NewBudget {
    pub user_id: String,
    /// Month (`YYYY-MM`) it applies to; `None` for every month.
    pub month: Option<String>,
    /// `None` for the month-wide budget.
    pub category: Option<Category>,
    /// Limit in yen, positive.
    pub amount: i64,
}

/// Whether an update changes nothing at all.
pub open spec fn update_is_empty(u: TransactionUpdate) -> bool {
    &&& u.name is None
    &&& u.amount is None
    &&& u.date is None
    &&& u.category is None
    &&& u.memo is None
}

/// A text field after an edit: the new text if one is given, else the old.
pub open spec fn edited_text(new: Option<String>, old: String) -> Seq<char> {
    match new {
        Some(s) => s@,
        None => old@,
    }
}

/// The memo after an edit: the new memo if one is given, else the old one
/// (an edit never removes a memo).
pub open spec fn edited_memo(new: Option<String>, old: Option<String>) -> Option<Seq<char>> {
    match new {
        Some(s) => Some(s@),
        None => opt_text(old),
    }
}

/// Whether `after` is `before` with `u` applied: identity, owner and
/// creation time kept, each given field replaced, the others kept.
pub open spec fn is_edit_of(after: Transaction, before: Transaction, u: TransactionUpdate) -> bool {
    &&& after.id == before.id
    &&& after.user_id@ == before.user_id@
    &&& after.created_at@ == before.created_at@
    &&& after.name@ == edited_text(u.name, before.name)
    &&& after.amount == match u.amount {
        Some(a) => a,
        None => before.amount,
    }
    &&& after.date@ == edited_text(u.date, before.date)
    &&& after.category == match u.category {
        Some(c) => c,
        None => before.category,
    }
    &&& opt_text(after.memo) == edited_memo(u.memo, before.memo)
}

fn clone_opt(o: &Option<String>) -> (r: Option<String>)
    ensures
        opt_text(r) == opt_text(*o),
{
    match o {
        Some(s) => Some(s.clone()),
        None => None,
    }
}

fn pick_text(new: &Option<String>, old: &String) -> (r: String)
    ensures
        r@ == edited_text(*new, *old),
{
    match new {
        Some(s) => s.clone(),
        None => old.clone(),
    }
}

/// The record that an edit writes back: `current` with the fields given in
/// `update` replaced.
pub fn apply_update(current: &Transaction, update: &TransactionUpdate) -> (r: Transaction)
    ensures
        is_edit_of(r, *current, *update),
{
    let memo = match &update.memo {
        Some(m) => Some(m.clone()),
        None => clone_opt(&current.memo),
    };
    Transaction {
        id: current.id,
        user_id: current.user_id.clone(),
        name: pick_text(&update.name, &current.name),
        amount: match update.amount {
            Some(a) => a,
            None => current.amount,
        },
        date: pick_text(&update.date, &current.date),
        category: match update.category {
            Some(c) => c,
            None => current.category,
        },
        memo,
        created_at: current.created_at.clone(),
    }
}

/// Two transactions hold the same values.
pub open spec fn same_record(a: Transaction, b: Transaction) -> bool {
    &&& a.id == b.id
    &&& a.user_id@ == b.user_id@
    &&& a.name@ == b.name@
    &&& a.amount == b.amount
    &&& a.date@ == b.date@
    &&& a.category == b.category
    &&& opt_text(a.memo) == opt_text(b.memo)
    &&& a.created_at@ == b.created_at@
}

/// An edit that gives no field changes nothing.
pub proof fn law_empty_update_changes_nothing(after: Transaction, before: Transaction, u: TransactionUpdate)
    requires
        is_edit_of(after, before, u),
        update_is_empty(u),
    ensures
        same_record(after, before),
{
}

/// Applying the same edit twice gives what applying it once gives.
pub proof fn law_edit_is_idempotent(once: Transaction, twice: Transaction, before: Transaction, u: TransactionUpdate)
    requires
        is_edit_of(once, before, u),
        is_edit_of(twice, once, u),
    ensures
        same_record(twice, once),
{
}

/// An edit never removes a memo: a transaction that had one still has one.
pub proof fn law_edit_keeps_a_memo(after: Transaction, before: Transaction, u: TransactionUpdate)
    requires
        is_edit_of(after, before, u),
        before.memo is Some,
    ensures
        after.memo is Some,
{
}

/// A transaction as its columns were read, the category still as stored.
#[derive(Debug)]
pub struct TransactionRow {
    pub id: i64,
    pub user_id: String,
    pub name: String,
    pub amount: i64,
    pub date: String,
    pub category: String,
    pub memo: Option<String>,
    pub created_at: String,
}

/// A budget as its columns were read, the category still as stored.
#[derive(Debug)]
pub struct BudgetRow {
    pub id: i64,
    pub user_id: String,
    pub month: Option<String>,
    pub category: Option<String>,
    pub amount: i64,
}

/// A stored value could not be read back.
#[derive(Debug, Clone, Copy, PartialEq, Eq, Structural)]
pub enum RowError {
    /// The category column holds no known category identifier.
    UnknownCategory,
}

impl RowError {
    /// The message shown for the error.
    pub fn message(&self) -> (r: &'static str)
        ensures
            r@ == "DBのカテゴリ値を解析できませんでした"@,
    {
        "DBのカテゴリ値を解析できませんでした"
    }
}

/// Reads a transaction row; refused when its category is unknown.
pub fn row_to_transaction(row: TransactionRow) -> (r: Result<Transaction, RowError>)
    ensures
        match category_from_code(row.category@) {
            Some(c) => r matches Ok(t) && {
                &&& t.id == row.id
                &&& t.user_id@ == row.user_id@
                &&& t.name@ == row.name@
                &&& t.amount == row.amount
                &&& t.date@ == row.date@
                &&& t.category == c
                &&& opt_text(t.memo) == opt_text(row.memo)
                &&& t.created_at@ == row.created_at@
            },
            None => r == Err::<Transaction, RowError>(RowError::UnknownCategory),
        },
{
    match Category::from_code(row.category.as_str()) {
        Some(category) => Ok(
            Transaction {
                id: row.id,
                user_id: row.user_id,
                name: row.name,
                amount: row.amount,
                date: row.date,
                category,
                memo: row.memo,
                created_at: row.created_at,
            },
        ),
        None => Err(RowError::UnknownCategory),
    }
}

/// Reads a budget row; a missing category is the month-wide budget, an
/// unknown one is refused.
pub fn row_to_budget(row: BudgetRow) -> (r: Result<Budget, RowError>)
    ensures
        match row.category {
            None => r matches Ok(b) && b.category is None,
            Some(s) => match category_from_code(s@) {
                Some(c) => r matches Ok(b) && b.category == Some(c),
                None => r == Err::<Budget, RowError>(RowError::UnknownCategory),
            },
        },
        r matches Ok(b) ==> {
            &&& b.id == row.id
            &&& b.user_id@ == row.user_id@
            &&& opt_text(b.month) == opt_text(row.month)
            &&& b.amount == row.amount
        },
{
    let category = match &row.category {
        None => None,
        Some(s) => match Category::from_code(s.as_str()) {
            Some(c) => Some(c),
            None => {
                return Err(RowError::UnknownCategory);
            },
        },
    };
    Ok(Budget { id: row.id, user_id: row.user_id, month: row.month, category, amount: row.amount })
}

/// A transaction as the web API returns it: without its owner.
#[derive(Debug)]
pub struct TransactionResponse {
    pub id: i64,
    pub name: String,
    pub amount: i64,
    pub date: String,
    pub category: Category,
    pub memo: Option<String>,
    pub created_at: String,
}

/// A budget as the web API returns it: without its owner.
#[derive(Debug)]
pub struct BudgetResponse {
    pub id: i64,
    pub month: Option<String>,
    pub category: Option<Category>,
    pub amount: i64,
}

impl TransactionResponse {
    /// Every field of the transaction but its owner.
    pub fn from_transaction(tx: Transaction) -> (r: TransactionResponse)
        ensures
            r.id == tx.id,
            r.name@ == tx.name@,
            r.amount == tx.amount,
            r.date@ == tx.date@,
            r.category == tx.category,
            opt_text(r.memo) == opt_text(tx.memo),
            r.created_at@ == tx.created_at@,
    {
        TransactionResponse {
            id: tx.id,
            name: tx.name,
            amount: tx.amount,
            date: tx.date,
            category: tx.category,
            memo: tx.memo,
            created_at: tx.created_at,
        }
    }
}

impl BudgetResponse {
    /// Every field of the budget but its owner.
    pub fn from_budget(b: Budget) -> (r: BudgetResponse)
        ensures
            r.id == b.id,
            opt_text(r.month) == opt_text(b.month),
            r.category == b.category,
            r.amount == b.amount,
    {
        BudgetResponse { id: b.id, month: b.month, category: b.category, amount: b.amount }
    }
}

} // verus!
