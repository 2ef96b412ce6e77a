use kakeibo::cli::{AddArgs, BudgetSetArgs, EditArgs, ListArgs, ProgressArgs, SummaryArgs};
use kakeibo::commands::{prepare_add, prepare_budget_set, prepare_edit, prepare_list, resolve_month};
use kakeibo::model::Category;
use kakeibo::progress::{budget_progress_checked, progress_scope_from_flags};
use kakeibo::totals::build_category_totals;

fn default_add_args() -> AddArgs {
    AddArgs {
        name: "テスト購入".to_string(),
        amount: 1000,
        category: Category::Food,
        date: Some("2025-04-15".to_string()),
        memo: None,
    }
}

fn default_edit_args(id: i64) -> EditArgs {
    EditArgs { id, name: None, amount: Some(2000), category: None, date: None, memo: None }
}

fn budget_set_args(total: Option<i64>, category: Option<Category>, amount: Option<i64>) -> BudgetSetArgs {
    BudgetSetArgs { total, category, amount }
}

fn today() -> String {
    "2025-04-30".to_string()
}

#[test]
fn run_add_rejects_non_positive_amount() {
    let args = AddArgs { amount: 0, ..default_add_args() };
    let result = prepare_add(args, today());
    assert!(result.is_err());
}

#[test]
fn run_add_rejects_invalid_date_format() {
    let args = AddArgs { date: Some("2025/04/15".to_string()), ..default_add_args() };
    let result = prepare_add(args, today());
    assert!(result.is_err());
}

#[test]
fn run_list_rejects_invalid_month_format() {
    let result = prepare_list(ListArgs { month: Some("2025/04".to_string()), category: None }, "2025-04".to_string());
    assert!(result.is_err());
}

#[test]
fn run_summary_rejects_invalid_month_format() {
    let args = SummaryArgs { month: Some("invalid".to_string()), by_category: false };
    let result = resolve_month(args.month, "2025-04".to_string());
    assert!(result.is_err());
}

#[test]
fn run_edit_with_no_fields_returns_error() {
    let args = EditArgs { id: 1, name: None, amount: None, category: None, date: None, memo: None };
    let result = prepare_edit(args);
    assert!(result.is_err());
}

#[test]
fn run_edit_rejects_non_positive_amount() {
    let args = EditArgs { amount: Some(-1), ..default_edit_args(1) };
    let result = prepare_edit(args);
    assert!(result.is_err());
}

#[test]
fn run_edit_rejects_invalid_date_format() {
    let args = EditArgs { amount: None, date: Some("2025/04/15".to_string()), ..default_edit_args(1) };
    let result = prepare_edit(args);
    assert!(result.is_err());
}

#[test]
fn run_budget_set_rejects_non_positive_amount() {
    let result = prepare_budget_set(budget_set_args(Some(0), None, None));
    assert!(result.is_err());
}

#[test]
fn run_budget_set_without_flags_returns_error() {
    let result = prepare_budget_set(budget_set_args(None, None, None));
    assert!(result.is_err());
}

#[test]
fn run_progress_total_without_budget_returns_error() {
    let args = ProgressArgs { total: true, by_category: false, last_month: false };
    let (show_total, show_by_category) = progress_scope_from_flags(args.total, args.by_category);
    let current = build_category_totals(&[]);
    let result = budget_progress_checked(&current, &[], show_total, show_by_category);
    assert!(result.is_err());
}

#[test]
fn run_progress_by_category_without_budget_returns_error() {
    let args = ProgressArgs { total: false, by_category: true, last_month: false };
    let (show_total, show_by_category) = progress_scope_from_flags(args.total, args.by_category);
    let current = build_category_totals(&[]);
    let result = budget_progress_checked(&current, &[], show_total, show_by_category);
    assert!(result.is_err());
}
