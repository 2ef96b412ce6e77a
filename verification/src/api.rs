use vstd::prelude::*;

use crate::commands::{date_ok, month_ok};
use crate::model::{Category, Transaction};
use crate::month::{
    is_valid_date, prev_month, prev_month_is_defined, previous_month, previous_month_overflows,
    validate_month, ymd_accepted,
};
use crate::repository::{NewBudget, NewTransaction, TransactionFilter, TransactionResponse, TransactionUpdate};
use crate::text::{opt_text, str_equal};

verus! {

/// What was wrong with a web request.
#[derive(Debug, Clone, Copy, PartialEq, Eq, Structural)]
pub enum RequestProblem {
    NameRequired,
    AmountNotPositive,
    DateFormat,
    MonthFormat,
    ModeInvalid,
    ScopeInvalid,
}

/// An error answer of the web API.
#[derive(Debug, Clone, Copy, PartialEq, Eq, Structural)]
pub enum ApiError {
    /// 400, with what was wrong.
    BadRequest(RequestProblem),
    /// 404: the transaction does not exist.
    NotFound,
    /// 403: the transaction belongs to someone else.
    Forbidden,
    /// 500: the database failed.
    Internal,
}

/// The HTTP status of each error.
pub open spec fn api_status(e: ApiError) -> u16 {
    match e {
        ApiError::BadRequest(_) => 400,
        ApiError::NotFound => 404,
        ApiError::Forbidden => 403,
        ApiError::Internal => 500,
    }
}

/// The `error` text of each answer.
pub open spec fn api_message(e: ApiError) -> Seq<char> {
    match e {
        ApiError::BadRequest(p) => match p {
            RequestProblem::NameRequired => "Invalid request: name is required"@,
            RequestProblem::AmountNotPositive => "Invalid request: amount must be a positive integer"@,
            RequestProblem::DateFormat => "Invalid request: date must be YYYY-MM-DD"@,
            RequestProblem::MonthFormat => "Invalid request: month must be YYYY-MM"@,
            RequestProblem::ModeInvalid => "Invalid request: mode must be 'budget' or 'last_month'"@,
            RequestProblem::ScopeInvalid => "Invalid request: scope must be 'total', 'by_category', or 'both'"@,
        },
        ApiError::NotFound => "Transaction not found"@,
        ApiError::Forbidden => "Forbidden"@,
        ApiError::Internal => "Internal server error"@,
    }
}

impl ApiError {
    /// The HTTP status code.
    pub fn status(&self) -> (r: u16)
        ensures
            r == api_status(*self),
    {
        match self {
            ApiError::BadRequest(_) => 400,
            ApiError::NotFound => 404,
            ApiError::Forbidden => 403,
            ApiError::Internal => 500,
        }
    }

    /// The text of the `error` field.
    pub fn message(&self) -> (r: &'static str)
        ensures
            r@ == api_message(*self),
    {
        match self {
            ApiError::BadRequest(p) => match p {
                RequestProblem::NameRequired => "Invalid request: name is required",
                RequestProblem::AmountNotPositive => "Invalid request: amount must be a positive integer",
                RequestProblem::DateFormat => "Invalid request: date must be YYYY-MM-DD",
                RequestProblem::MonthFormat => "Invalid request: month must be YYYY-MM",
                RequestProblem::ModeInvalid => "Invalid request: mode must be 'budget' or 'last_month'",
                RequestProblem::ScopeInvalid => "Invalid request: scope must be 'total', 'by_category', or 'both'",
            },
            ApiError::NotFound => "Transaction not found",
            ApiError::Forbidden => "Forbidden",
            ApiError::Internal => "Internal server error",
        }
    }
}

/// The answer to a failed edit or deletion, from whether the transaction
/// exists for anyone: it does (someone else's) -> 403, it does not -> 404,
/// the lookup failed (`None`) -> 500.
pub fn resolve_tx_error(found: Option<bool>) -> (r: ApiError)
    ensures
        r == (match found {
            Some(true) => ApiError::Forbidden,
            Some(false) => ApiError::NotFound,
            None => ApiError::Internal,
        }),
{
    match found {
        Some(true) => ApiError::Forbidden,
        Some(false) => ApiError::NotFound,
        None => ApiError::Internal,
    }
}

/// Body of `POST /api/v1/transactions`.
#[derive(Debug)]
pub struct AddTransactionRequest {
    pub name: String,
    pub amount: i64,
    pub date: String,
    pub category: Category,
    pub memo: Option<String>,
}

/// `POST /api/v1/transactions`: the name must not be empty, the amount must
/// be positive and the date `YYYY-MM-DD`, checked in that order.
pub fn prepare_add_transaction(user_id: String, req: AddTransactionRequest) -> (r: Result<NewTransaction, ApiError>)
    ensures
        req.name@.len() == 0 ==> r == Err::<NewTransaction, ApiError>(ApiError::BadRequest(RequestProblem::NameRequired)),
        req.name@.len() > 0 && req.amount <= 0 ==> r == Err::<NewTransaction, ApiError>(
            ApiError::BadRequest(RequestProblem::AmountNotPositive),
        ),
        req.name@.len() > 0 && req.amount > 0 && !ymd_accepted(req.date@) ==> r == Err::<NewTransaction, ApiError>(
            ApiError::BadRequest(RequestProblem::DateFormat),
        ),
        req.name@.len() > 0 && req.amount > 0 && ymd_accepted(req.date@) ==> (r matches Ok(t) && {
            &&& t.user_id@ == user_id@
            &&& t.name@ == req.name@
            &&& t.amount == req.amount
            &&& t.date@ == req.date@
            &&& t.category == req.category
            &&& opt_text(t.memo) == opt_text(req.memo)
        }),
{
    if req.name.unicode_len() == 0 {
        return Err(ApiError::BadRequest(RequestProblem::NameRequired));
    }
    if req.amount <= 0 {
        return Err(ApiError::BadRequest(RequestProblem::AmountNotPositive));
    }
    if !is_valid_date(req.date.as_str()) {
        return Err(ApiError::BadRequest(RequestProblem::DateFormat));
    }
    Ok(
        NewTransaction {
            user_id,
            name: req.name,
            amount: req.amount,
            date: req.date,
            category: req.category,
            memo: req.memo,
        },
    )
}

/// The month a request is about: the one given, else `current`; it must be
/// `YYYY-MM`.
pub fn resolve_api_month(month: Option<String>, current: String) -> (r: Result<String, ApiError>)
    ensures
        ({
            let m = match month {
                Some(s) => s@,
                None => current@,
            };
            if ymd_accepted(m + "-01"@) {
                r matches Ok(s) && s@ == m
            } else {
                r == Err::<String, ApiError>(ApiError::BadRequest(RequestProblem::MonthFormat))
            }
        }),
{
    let m = match month {
        Some(s) => s,
        None => current,
    };
    if validate_month(m.as_str()) {
        Ok(m)
    } else {
        Err(ApiError::BadRequest(RequestProblem::MonthFormat))
    }
}

/// Query of `GET /api/v1/transactions`.
#[derive(Debug)]
pub struct ListTransactionsQuery {
    pub month: Option<String>,
    pub category: Option<Category>,
    pub limit: Option<usize>,
    pub offset: Option<usize>,
}

/// Which slice of a listing is returned.
#[derive(Debug, Clone, Copy, PartialEq, Eq, Structural)]
pub struct Page {
    pub offset: usize,
    pub limit: usize,
}

/// `GET /api/v1/transactions`: the month (default the current one) must be
/// `YYYY-MM`; the page starts at `offset` (default 0) and holds at most
/// `limit` transactions (default 50).
pub fn prepare_list_transactions(user_id: String, query: ListTransactionsQuery, current_month: String) -> (r: Result<
    (TransactionFilter, Page),
    ApiError,
>)
    ensures
        ({
            let m = match query.month {
                Some(s) => s@,
                None => current_month@,
            };
            if ymd_accepted(m + "-01"@) {
                r matches Ok((f, p)) && {
                    &&& f.user_id@ == user_id@
                    &&& opt_text(f.month) == Some(m)
                    &&& f.category == query.category
                    &&& p.offset == match query.offset {
                        Some(o) => o,
                        None => 0,
                    }
                    &&& p.limit == match query.limit {
                        Some(l) => l,
                        None => 50,
                    }
                }
            } else {
                r == Err::<(TransactionFilter, Page), ApiError>(ApiError::BadRequest(RequestProblem::MonthFormat))
            }
        }),
{
    let month = resolve_api_month(query.month, current_month)?;
    let offset = match query.offset {
        Some(o) => o,
        None => 0,
    };
    let limit = match query.limit {
        Some(l) => l,
        None => 50,
    };
    Ok((TransactionFilter { user_id, month: Some(month), category: query.category }, Page { offset, limit }))
}

/// The transactions of a page: those from position `offset` on, at most
/// `limit` of them.
pub open spec fn page_of(all: Seq<Transaction>, p: Page) -> Seq<Transaction> {
    let start = if p.offset <= all.len() {
        p.offset as int
    } else {
        all.len() as int
    };
    let end = if start + p.limit <= all.len() {
        start + p.limit
    } else {
        all.len() as int
    };
    all.subrange(start, end)
}

/// A page holds at most `limit` transactions, and two pages that follow each
/// other make up the page that spans both.
pub proof fn law_pages_follow_each_other(all: Seq<Transaction>, offset: usize, first: usize, second: usize)
    requires
        offset + first + second <= usize::MAX,
    ensures
        page_of(all, Page { offset, limit: first }).len() <= first,
        page_of(all, Page { offset, limit: first }) + page_of(
            all,
            Page { offset: (offset + first) as usize, limit: second },
        ) == page_of(all, Page { offset, limit: (first + second) as usize }),
{
    let p1 = page_of(all, Page { offset, limit: first });
    let p2 = page_of(all, Page { offset: (offset + first) as usize, limit: second });
    let p = page_of(all, Page { offset, limit: (first + second) as usize });
    assert(p1 + p2 =~= p);
}

/// Whatever scope is asked for, something is shown.
pub proof fn law_scope_shows_something(scope: Option<String>)
    ensures
        scope_flags(scope) matches Some((total, by_category)) ==> total || by_category,
{
}

/// Whether a response shows a transaction.
pub open spec fn responds_with(r: TransactionResponse, t: Transaction) -> bool {
    &&& r.id == t.id
    &&& r.name@ == t.name@
    &&& r.amount == t.amount
    &&& r.date@ == t.date@
    &&& r.category == t.category
    &&& opt_text(r.memo) == opt_text(t.memo)
    &&& r.created_at@ == t.created_at@
}

fn respond(t: &Transaction) -> (r: TransactionResponse)
    ensures
        responds_with(r, *t),
{
    TransactionResponse {
        id: t.id,
        name: t.name.clone(),
        amount: t.amount,
        date: t.date.clone(),
        category: t.category,
        memo: match &t.memo {
            Some(m) => Some(m.clone()),
            None => None,
        },
        created_at: t.created_at.clone(),
    }
}

/// One page of a listing and the number of transactions in the whole
/// listing.
pub fn paginate(all: Vec<Transaction>, page: Page) -> (r: (Vec<TransactionResponse>, usize))
    ensures
        r.1 == all@.len(),
        r.0@.len() == page_of(all@, page).len(),
        forall|i: int| 0 <= i < r.0@.len() ==> responds_with(#[trigger] r.0@[i], page_of(all@, page)[i]),
{
    let total = all.len();
    let start = if page.offset <= total {
        page.offset
    } else {
        total
    };
    let end = if page.limit <= total - start {
        start + page.limit
    } else {
        total
    };
    let ghost sel = page_of(all@, page);
    assert(sel =~= all@.subrange(start as int, end as int));
    let mut out: Vec<TransactionResponse> = Vec::new();
    let mut rest = all;
    let mut i: usize = 0;
    let ghost orig = rest@;
    while i < total
        invariant
            total == orig.len(),
            rest@ == orig,
            start <= end <= total,
            sel == orig.subrange(start as int, end as int),
            i <= total,
            i <= start ==> out@.len() == 0,
            i > start ==> out@.len() == (if i < end { i } else { end }) - start,
            forall|j: int| 0 <= j < out@.len() ==> responds_with(#[trigger] out@[j], sel[j]),
        decreases total - i,
    {
        if start <= i && i < end {
            let resp = respond(&rest[i]);
            out.push(resp);
        }
        i = i + 1;
    }
    (out, total)
}

/// Body of `PATCH /api/v1/transactions/{id}`.
#[derive(Debug)]
pub struct EditTransactionRequest {
    pub name: Option<String>,
    pub amount: Option<i64>,
    pub date: Option<String>,
    pub category: Option<Category>,
    pub memo: Option<String>,
}

/// `PATCH /api/v1/transactions/{id}`: a given amount must be positive and a
/// given date `YYYY-MM-DD`; the update carries the fields as given.
pub fn prepare_edit_transaction(req: EditTransactionRequest) -> (r: Result<TransactionUpdate, ApiError>)
    ensures
        req.amount matches Some(a) && a <= 0 ==> r == Err::<TransactionUpdate, ApiError>(
            ApiError::BadRequest(RequestProblem::AmountNotPositive),
        ),
        !(req.amount matches Some(a) && a <= 0) && !date_ok(req.date) ==> r == Err::<TransactionUpdate, ApiError>(
            ApiError::BadRequest(RequestProblem::DateFormat),
        ),
        !(req.amount matches Some(a) && a <= 0) && date_ok(req.date) ==> r == Ok::<TransactionUpdate, ApiError>(
            TransactionUpdate {
                name: req.name,
                amount: req.amount,
                date: req.date,
                category: req.category,
                memo: req.memo,
            },
        ),
{
    match req.amount {
        Some(a) => {
            if a <= 0 {
                return Err(ApiError::BadRequest(RequestProblem::AmountNotPositive));
            }
        },
        None => {},
    }
    match &req.date {
        Some(d) => {
            if !is_valid_date(d.as_str()) {
                return Err(ApiError::BadRequest(RequestProblem::DateFormat));
            }
        },
        None => {},
    }
    Ok(
        TransactionUpdate {
            name: req.name,
            amount: req.amount,
            date: req.date,
            category: req.category,
            memo: req.memo,
        },
    )
}

/// Query of `GET /api/v1/summary`.
#[derive(Debug)]
pub struct SummaryQuery {
    pub month: Option<String>,
    pub by_category: Option<bool>,
}

/// `GET /api/v1/summary`: which transactions to total (the month, default
/// the current one, must be `YYYY-MM`) and whether per-category totals are
/// asked for (default no).
pub fn prepare_summary(user_id: String, query: SummaryQuery, current_month: String) -> (r: Result<
    (TransactionFilter, bool),
    ApiError,
>)
    ensures
        ({
            let m = match query.month {
                Some(s) => s@,
                None => current_month@,
            };
            if ymd_accepted(m + "-01"@) {
                r matches Ok((f, b)) && {
                    &&& f.user_id@ == user_id@
                    &&& opt_text(f.month) == Some(m)
                    &&& f.category is None
                    &&& b == (query.by_category == Some(true))
                }
            } else {
                r == Err::<(TransactionFilter, bool), ApiError>(ApiError::BadRequest(RequestProblem::MonthFormat))
            }
        }),
{
    let month = resolve_api_month(query.month, current_month)?;
    let by_category = match query.by_category {
        Some(b) => b,
        None => false,
    };
    Ok((TransactionFilter { user_id, month: Some(month), category: None }, by_category))
}

/// Body of `POST /api/v1/budgets`.
#[derive(Debug)]
pub struct SetBudgetRequest {
    pub month: Option<String>,
    pub category: Option<Category>,
    pub amount: i64,
}

/// `POST /api/v1/budgets`: the amount must be positive, then a given month
/// must be `YYYY-MM`. Without a month the budget applies to every month;
/// with one, to that month alone.
pub fn prepare_set_budget(user_id: String, req: SetBudgetRequest) -> (r: Result<NewBudget, ApiError>)
    ensures
        req.amount <= 0 ==> r == Err::<NewBudget, ApiError>(ApiError::BadRequest(RequestProblem::AmountNotPositive)),
        req.amount > 0 && !month_ok(req.month) ==> r == Err::<NewBudget, ApiError>(
            ApiError::BadRequest(RequestProblem::MonthFormat),
        ),
        req.amount > 0 && month_ok(req.month) ==> (r matches Ok(b) && b.user_id@ == user_id@ && opt_text(b.month)
            == opt_text(req.month) && b.category == req.category && b.amount == req.amount),
{
    if req.amount <= 0 {
        return Err(ApiError::BadRequest(RequestProblem::AmountNotPositive));
    }
    match &req.month {
        Some(m) => {
            if !validate_month(m.as_str()) {
                return Err(ApiError::BadRequest(RequestProblem::MonthFormat));
            }
        },
        None => {},
    }
    Ok(NewBudget { user_id, month: req.month, category: req.category, amount: req.amount })
}

/// Query of `GET /api/v1/progress`.
#[derive(Debug)]
pub struct ProgressQuery {
    pub month: Option<String>,
    pub mode: Option<String>,
    pub scope: Option<String>,
}

/// What this month's spending is compared with.
#[derive(Debug)]
pub enum ProgressBasis {
    /// The budgets.
    Budget,
    /// Last month's spending.
    LastMonth,
}

impl ProgressBasis {
    /// The `mode` the answer reports: `budget` or `last_month`.
    pub fn mode_name(&self) -> (r: &'static str)
        ensures
            r@ == match self {
                ProgressBasis::Budget => "budget"@,
                ProgressBasis::LastMonth => "last_month"@,
            },
    {
        match self {
            ProgressBasis::Budget => "budget",
            ProgressBasis::LastMonth => "last_month",
        }
    }
}

/// What a progress request asks for.
#[derive(Debug)]
pub struct ProgressPlan {
    pub month: String,
    pub basis: ProgressBasis,
    pub show_total: bool,
    pub show_by_category: bool,
}

/// The mode asked for: `budget` (the default) or `last_month`.
pub open spec fn mode_is_last_month(mode: Option<String>) -> Option<bool> {
    match mode {
        None => Some(false),
        Some(s) => if s@ == "budget"@ {
            Some(false)
        } else if s@ == "last_month"@ {
            Some(true)
        } else {
            None
        },
    }
}

/// The scope asked for, as (month-wide line, per-category lines): `total`,
/// `by_category` or `both` (the default).
pub open spec fn scope_flags(scope: Option<String>) -> Option<(bool, bool)> {
    match scope {
        None => Some((true, true)),
        Some(s) => if s@ == "total"@ {
            Some((true, false))
        } else if s@ == "by_category"@ {
            Some((false, true))
        } else if s@ == "both"@ {
            Some((true, true))
        } else {
            None
        },
    }
}

fn read_mode(mode: &Option<String>) -> (r: Option<bool>)
    ensures
        r == mode_is_last_month(*mode),
{
    match mode {
        None => Some(false),
        Some(s) => {
            if str_equal(s.as_str(), "budget") {
                Some(false)
            } else if str_equal(s.as_str(), "last_month") {
                Some(true)
            } else {
                None
            }
        },
    }
}

fn read_scope(scope: &Option<String>) -> (r: Option<(bool, bool)>)
    ensures
        r == scope_flags(*scope),
{
    match scope {
        None => Some((true, true)),
        Some(s) => {
            if str_equal(s.as_str(), "total") {
                Some((true, false))
            } else if str_equal(s.as_str(), "by_category") {
                Some((false, true))
            } else if str_equal(s.as_str(), "both") {
                Some((true, true))
            } else {
                None
            }
        },
    }
}

/// `GET /api/v1/progress`: the month (default the current one) must be
/// `YYYY-MM`, then the mode must be known, then the scope.
pub fn prepare_progress(query: ProgressQuery, current_month: String) -> (r: Result<ProgressPlan, ApiError>)
    ensures
        ({
            let m = match query.month {
                Some(s) => s@,
                None => current_month@,
            };
            if !ymd_accepted(m + "-01"@) {
                r == Err::<ProgressPlan, ApiError>(ApiError::BadRequest(RequestProblem::MonthFormat))
            } else if mode_is_last_month(query.mode) is None {
                r == Err::<ProgressPlan, ApiError>(ApiError::BadRequest(RequestProblem::ModeInvalid))
            } else if scope_flags(query.scope) is None {
                r == Err::<ProgressPlan, ApiError>(ApiError::BadRequest(RequestProblem::ScopeInvalid))
            } else {
                r matches Ok(p) && {
                    &&& p.month@ == m
                    &&& (p.show_total, p.show_by_category) == scope_flags(query.scope)->0
                    &&& (p.basis is LastMonth) == (mode_is_last_month(query.mode) == Some(true))
                }
            }
        }),
{
    let month = resolve_api_month(query.month, current_month)?;
    let last = match read_mode(&query.mode) {
        Some(b) => b,
        None => {
            return Err(ApiError::BadRequest(RequestProblem::ModeInvalid));
        },
    };
    let (show_total, show_by_category) = match read_scope(&query.scope) {
        Some(f) => f,
        None => {
            return Err(ApiError::BadRequest(RequestProblem::ScopeInvalid));
        },
    };
    let basis = if last {
        ProgressBasis::LastMonth
    } else {
        ProgressBasis::Budget
    };
    Ok(ProgressPlan { month, basis, show_total, show_by_category })
}

/// The month compared with in `last_month` mode, worked out once this
/// month's spending has been read: the month before; a month that does not
/// read as a year and a month is refused as a bad month. (Month `00`, the
/// one month whose predecessor cannot be computed, is never a `YYYY-MM`
/// month, so the same answer is given for it.)
pub fn last_month_of(month: &str) -> (r: Result<String, ApiError>)
    ensures
        match previous_month(month@) {
            Some(p) => if previous_month_overflows(month@) {
                r == Err::<String, ApiError>(ApiError::BadRequest(RequestProblem::MonthFormat))
            } else {
                r matches Ok(s) && s@ == p
            },
            None => r == Err::<String, ApiError>(ApiError::BadRequest(RequestProblem::MonthFormat)),
        },
{
    if !prev_month_is_defined(month) {
        return Err(ApiError::BadRequest(RequestProblem::MonthFormat));
    }
    match prev_month(month) {
        Ok(p) => Ok(p),
        Err(_) => Err(ApiError::BadRequest(RequestProblem::MonthFormat)),
    }
}

} // verus!
