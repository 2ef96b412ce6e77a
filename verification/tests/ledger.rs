use kakeibo::cli::{AddArgs, BudgetSetArgs, EditArgs, ListArgs};
use kakeibo::commands::{
    budget_lines, list_lines, prepare_add, prepare_budget_set, prepare_edit, prepare_list, resolve_month,
    validate_month_format, CommandError,
};
use kakeibo::model::{all_categories, expense_categories, Budget, Category, Transaction};
use kakeibo::progress::{
    budget_progress, budget_progress_checked, budgets_for_month, last_month_progress, progress_scope_from_flags, CategoryProgress,
    ProgressError, TotalProgress,
};
use kakeibo::progress_lines::{budget_progress_lines, last_month_progress_lines, Gauge, GaugedLine};
use kakeibo::report::{
    category_summary_lines, check_balance_fits, check_summary_fits, monthly_summary_lines, summarize, CategoryAmount,
};
use kakeibo::repository::{
    apply_update, row_to_budget, row_to_transaction, BudgetResponse, BudgetRow, RowError, TransactionResponse,
    TransactionRow, TransactionUpdate,
};
use kakeibo::totals::build_category_totals;

fn tx(id: i64, amount: i64, category: Category) -> Transaction {
    Transaction {
        id,
        user_id: "local".to_string(),
        name: "テスト".to_string(),
        amount,
        date: "2025-04-01".to_string(),
        category,
        memo: None,
        created_at: "2025-04-01 00:00:00".to_string(),
    }
}

fn budget(id: i64, category: Option<Category>, amount: i64) -> Budget {
    Budget { id, user_id: "local".to_string(), month: None, category, amount }
}

fn sp(n: usize) -> String {
    " ".repeat(n)
}

fn add_args(amount: i64, date: Option<&str>) -> AddArgs {
    AddArgs {
        name: "テスト購入".to_string(),
        amount,
        category: Category::Food,
        date: date.map(|d| d.to_string()),
        memo: None,
    }
}

// ---- categories ----

#[test]
fn category_identifiers_and_names() {
    assert_eq!(Category::Food.code(), "food");
    assert_eq!(Category::Interior.code(), "interior");
    assert_eq!(Category::Food.display_name(), "食費");
    assert_eq!(Category::Interior.display_name(), "インテリア費");
    assert_eq!(Category::from_code("subscription"), Some(Category::Subscription));
    assert_eq!(Category::from_code("Food"), None);
    assert_eq!(Category::from_code(""), None);
    assert!(Category::Income.is_income());
    assert!(!Category::Food.is_income());
    for c in all_categories() {
        assert_eq!(Category::from_code(c.code()), Some(c));
    }
    assert_eq!(expense_categories().len(), 13);
    assert!(expense_categories().iter().all(|c| !c.is_income()));
    assert_eq!(all_categories()[0], Category::Income);
}

// ---- command-line requests ----

#[test]
fn add_rejects_non_positive_amount() {
    assert_eq!(prepare_add(add_args(0, Some("2025-04-15")), "2025-05-01".to_string()).unwrap_err(), CommandError::AmountNotPositive);
    assert_eq!(prepare_add(add_args(-3, Some("bad")), "2025-05-01".to_string()).unwrap_err(), CommandError::AmountNotPositive);
}

#[test]
fn add_rejects_invalid_date_format() {
    let e = prepare_add(add_args(1000, Some("2025/04/15")), "2025-05-01".to_string()).unwrap_err();
    assert_eq!(e, CommandError::DateFormat);
    assert_eq!(e.message(), "日付は YYYY-MM-DD 形式で入力してください");
}

#[test]
fn add_uses_the_given_date_or_today() {
    let t = prepare_add(add_args(1000, Some("2025-04-15")), "2025-05-01".to_string()).unwrap();
    assert_eq!(t.user_id, "local");
    assert_eq!(t.name, "テスト購入");
    assert_eq!(t.amount, 1000);
    assert_eq!(t.date, "2025-04-15");
    assert_eq!(t.category, Category::Food);
    let t = prepare_add(add_args(1000, None), "2025-05-01".to_string()).unwrap();
    assert_eq!(t.date, "2025-05-01");
}

#[test]
fn list_checks_the_month_and_defaults_to_the_current_one() {
    let e = prepare_list(ListArgs { month: Some("2025/04".to_string()), category: None }, "2025-05".to_string());
    assert_eq!(e.unwrap_err(), CommandError::MonthFormat);
    let f = prepare_list(ListArgs { month: None, category: Some(Category::Food) }, "2025-05".to_string()).unwrap();
    assert_eq!(f.month.as_deref(), Some("2025-05"));
    assert_eq!(f.category, Some(Category::Food));
    assert_eq!(f.user_id, "local");
    assert_eq!(validate_month_format("invalid"), Err(CommandError::MonthFormat));
    assert_eq!(validate_month_format("2025-04"), Ok(()));
    assert_eq!(resolve_month(Some("2025-04".to_string()), "2025-05".to_string()), Ok("2025-04".to_string()));
}

fn edit_args(amount: Option<i64>, date: Option<&str>) -> EditArgs {
    EditArgs { id: 1, name: None, amount, category: None, date: date.map(|d| d.to_string()), memo: None }
}

#[test]
fn edit_checks_its_fields() {
    assert_eq!(prepare_edit(edit_args(None, None)).unwrap_err(), CommandError::NoFields);
    assert_eq!(prepare_edit(edit_args(Some(-1), None)).unwrap_err(), CommandError::AmountNotPositive);
    assert_eq!(prepare_edit(edit_args(None, Some("2025/04/15"))).unwrap_err(), CommandError::DateFormat);
    let (id, u) = prepare_edit(edit_args(Some(2000), None)).unwrap();
    assert_eq!(id, 1);
    assert_eq!(u.amount, Some(2000));
    assert!(u.name.is_none());
    assert_eq!(CommandError::NoFields.message(), "更新するフィールドを少なくとも一つ指定してください");
}

#[test]
fn budget_set_checks_its_options() {
    let b = prepare_budget_set(BudgetSetArgs { total: Some(150000), category: None, amount: None }).unwrap();
    assert_eq!((b.category, b.amount), (None, 150000));
    let b = prepare_budget_set(BudgetSetArgs { total: None, category: Some(Category::Food), amount: Some(40000) }).unwrap();
    assert_eq!((b.category, b.amount), (Some(Category::Food), 40000));
    assert_eq!(
        prepare_budget_set(BudgetSetArgs { total: Some(0), category: None, amount: None }).unwrap_err(),
        CommandError::AmountNotPositive
    );
    assert_eq!(
        prepare_budget_set(BudgetSetArgs { total: None, category: Some(Category::Food), amount: None }).unwrap_err(),
        CommandError::CategoryWithoutAmount
    );
    assert_eq!(
        prepare_budget_set(BudgetSetArgs { total: None, category: Some(Category::Food), amount: Some(-5) }).unwrap_err(),
        CommandError::AmountNotPositive
    );
    let e = prepare_budget_set(BudgetSetArgs { total: None, category: None, amount: None }).unwrap_err();
    assert_eq!(e, CommandError::NoBudgetTarget);
    assert_eq!(e.message(), "月全体（--total）またはカテゴリ（--category）のいずれかを指定してください");
}

// ---- listings ----

#[test]
fn list_lines_show_a_notice_or_rows() {
    assert_eq!(list_lines(&[]), vec!["取引がありません".to_string()]);
    let mut t = tx(3, 1500, Category::Food);
    t.name = "UberEats".to_string();
    t.date = "2025-04-15".to_string();
    t.memo = Some("夕食".to_string());
    let lines = list_lines(&[t]);
    assert_eq!(lines.len(), 3);
    assert_eq!(lines[0], format!("{:>4}  {:<10}  {:>12}  {:<8}  名称  メモ", "ID", "日付", "金額", "カテゴリ"));
    assert_eq!(lines[1], "─".repeat(60));
    assert_eq!(lines[2], format!("{:>4}  {:<10}  {:>12}  {:<8}  {}  {}", 3, "2025-04-15", "1,500円", "食費", "UberEats", "夕食"));
}

#[test]
fn budget_lines_show_a_notice_or_rows() {
    assert_eq!(budget_lines(&[]), vec!["予算が設定されていません".to_string()]);
    let lines = budget_lines(&[budget(1, None, 150000), budget(2, Some(Category::Food), 40000)]);
    assert_eq!(lines[0], "== 予算設定 ==");
    assert_eq!(lines[1], "");
    assert_eq!(lines[2], format!("月全体{}{}150,000円", sp(8), sp(3)));
    assert_eq!(lines[3], format!("食費{}{}40,000円", sp(10), sp(4)));
}

// ---- summaries ----

fn april() -> Vec<Transaction> {
    vec![tx(1, 200000, Category::Income), tx(2, 32000, Category::Food), tx(3, 60000, Category::Fixed)]
}

#[test]
fn summary_reports_income_spending_and_balance() {
    let totals = build_category_totals(&april());
    assert!(check_summary_fits(&totals));
    let s = summarize("2025-04".to_string(), &totals, true);
    assert_eq!(s.month, "2025-04");
    assert_eq!((s.income, s.expense, s.balance), (200000, 92000, 108000));
    assert_eq!(
        s.by_category,
        vec![
            CategoryAmount { category: Category::Income, amount: 200000 },
            CategoryAmount { category: Category::Fixed, amount: 60000 },
            CategoryAmount { category: Category::Food, amount: 32000 },
        ]
    );
    assert!(summarize("2025-04".to_string(), &totals, false).by_category.is_empty());
}

#[test]
fn monthly_summary_screen() {
    let totals = build_category_totals(&april());
    let lines = monthly_summary_lines("2025-04", &totals);
    let expected = vec![
        "== 2025年04月 集計 ==".to_string(),
        String::new(),
        "収入".to_string(),
        format!("  収入{}{}200,000円", sp(10), sp(3)),
        String::new(),
        "支出".to_string(),
        format!("  固定費{}{}60,000円", sp(8), sp(4)),
        format!("  食費{}{}32,000円", sp(10), sp(4)),
        format!("  {}", "─".repeat(26)),
        format!("  合計{}{}92,000円", sp(10), sp(4)),
        String::new(),
        format!("収支{}{}+108,000円", sp(12), sp(2)),
    ];
    assert_eq!(lines, expected);
}

#[test]
fn monthly_summary_without_income_has_no_income_row() {
    let totals = build_category_totals(&[tx(1, 500, Category::Hobby)]);
    let lines = monthly_summary_lines("2025-04", &totals);
    assert_eq!(lines[2], "収入");
    assert_eq!(lines[3], "");
    assert_eq!(lines.last().unwrap(), &format!("収支{}{}-500円", sp(12), sp(6)));
}

#[test]
fn category_summary_screen() {
    let totals = build_category_totals(&april());
    let lines = category_summary_lines("2025-04", &totals);
    assert_eq!(lines[0], "== 2025年04月 カテゴリ別集計 ==");
    assert_eq!(lines[1], "");
    assert_eq!(lines[2], format!("カテゴリ{}{}金額", sp(6), sp(8)));
    assert_eq!(lines[3], "─".repeat(26));
    assert_eq!(lines[4], format!("収入{}{}200,000円", sp(10), sp(3)));
    assert_eq!(lines[5], format!("固定費{}{}60,000円", sp(8), sp(4)));
    assert_eq!(lines[6], format!("食費{}{}32,000円", sp(10), sp(4)));
    assert_eq!(lines.len(), 7);
    let empty = build_category_totals(&[]);
    assert_eq!(
        category_summary_lines("2025-05", &empty),
        vec!["== 2025年05月 カテゴリ別集計 ==".to_string(), String::new(), "取引がありません".to_string()]
    );
}

// ---- records ----

#[test]
fn edit_replaces_only_the_given_fields() {
    let mut current = tx(4, 1000, Category::Food);
    current.memo = Some("更新前".to_string());
    let u = TransactionUpdate { name: None, amount: Some(2000), date: None, category: None, memo: Some("新しいメモ".to_string()) };
    let after = apply_update(&current, &u);
    assert_eq!(after.id, 4);
    assert_eq!(after.amount, 2000);
    assert_eq!(after.name, "テスト");
    assert_eq!(after.date, "2025-04-01");
    assert_eq!(after.memo.as_deref(), Some("新しいメモ"));
    let keep = TransactionUpdate { name: None, amount: None, date: None, category: None, memo: None };
    let same = apply_update(&after, &keep);
    assert_eq!(same.memo.as_deref(), Some("新しいメモ"));
    assert_eq!(same.amount, 2000);
}

#[test]
fn rows_are_read_back_with_their_category() {
    let row = TransactionRow {
        id: 1,
        user_id: "u".to_string(),
        name: "n".to_string(),
        amount: 10,
        date: "2025-04-01".to_string(),
        category: "transport".to_string(),
        memo: None,
        created_at: "c".to_string(),
    };
    let t = row_to_transaction(row).unwrap();
    assert_eq!(t.category, Category::Transport);
    let bad = TransactionRow {
        id: 1,
        user_id: "u".to_string(),
        name: "n".to_string(),
        amount: 10,
        date: "2025-04-01".to_string(),
        category: "travel".to_string(),
        memo: None,
        created_at: "c".to_string(),
    };
    let e = row_to_transaction(bad).unwrap_err();
    assert_eq!(e, RowError::UnknownCategory);
    assert_eq!(e.message(), "DBのカテゴリ値を解析できませんでした");
    let b = row_to_budget(BudgetRow { id: 2, user_id: "u".to_string(), month: None, category: None, amount: 5 }).unwrap();
    assert!(b.category.is_none());
    let b = row_to_budget(BudgetRow { id: 2, user_id: "u".to_string(), month: None, category: Some("food".to_string()), amount: 5 })
        .unwrap();
    assert_eq!(b.category, Some(Category::Food));
    assert!(row_to_budget(BudgetRow { id: 2, user_id: "u".to_string(), month: None, category: Some("x".to_string()), amount: 5 })
        .is_err());
}

#[test]
fn responses_leave_out_the_owner() {
    let r = TransactionResponse::from_transaction(tx(9, 700, Category::Daily));
    assert_eq!((r.id, r.amount, r.category), (9, 700, Category::Daily));
    assert_eq!(r.created_at, "2025-04-01 00:00:00");
    let b = BudgetResponse::from_budget(budget(3, Some(Category::Hobby), 100));
    assert_eq!((b.id, b.category, b.amount), (3, Some(Category::Hobby), 100));
}

// ---- progress ----

#[test]
fn progress_against_the_budget() {
    let current = build_category_totals(&[tx(1, 32000, Category::Food), tx(2, 5000, Category::Transport), tx(3, 90000, Category::Income)]);
    let budgets = vec![budget(1, None, 150000), budget(2, Some(Category::Food), 40000), budget(3, Some(Category::Food), 45000)];
    let r = budget_progress(&current, &budgets, true, true);
    assert_eq!(r.total, Some(TotalProgress { base: 150000, current: 37000 }));
    assert_eq!(r.by_category, Some(vec![CategoryProgress { category: Category::Food, base: 45000, current: 32000 }]));
    let r = budget_progress(&current, &[], true, false);
    assert_eq!(r.total, Some(TotalProgress { base: 0, current: 37000 }));
    assert!(r.by_category.is_none());
}

#[test]
fn progress_against_the_budget_needs_budgets() {
    let current = build_category_totals(&[tx(1, 32000, Category::Food)]);
    let only_category = vec![budget(2, Some(Category::Food), 40000)];
    let only_total = vec![budget(1, None, 150000)];
    assert_eq!(budget_progress_checked(&current, &only_category, true, false).unwrap_err(), ProgressError::NoTotalBudget);
    assert_eq!(budget_progress_checked(&current, &only_total, false, true).unwrap_err(), ProgressError::NoCategoryBudget);
    assert!(budget_progress_checked(&current, &only_total, true, false).is_ok());
    assert!(budget_progress_checked(&current, &only_category, false, true).is_ok());
}

#[test]
fn progress_against_last_month() {
    let current = build_category_totals(&[tx(1, 30000, Category::Food)]);
    let last = build_category_totals(&[tx(2, 20000, Category::Hobby), tx(3, 200000, Category::Income)]);
    let r = last_month_progress(&current, &last, true, true);
    assert_eq!(r.total, Some(TotalProgress { base: 20000, current: 30000 }));
    assert_eq!(
        r.by_category,
        Some(vec![
            CategoryProgress { category: Category::Food, base: 0, current: 30000 },
            CategoryProgress { category: Category::Hobby, base: 20000, current: 0 },
        ])
    );
    assert_eq!(progress_scope_from_flags(false, false), (true, true));
    assert_eq!(progress_scope_from_flags(true, false), (true, false));
    assert_eq!(progress_scope_from_flags(false, true), (false, true));
}

fn gauge(p: &str, filled: usize) -> Gauge {
    Gauge { percent: p.to_string(), filled }
}

#[test]
fn progress_screen_against_the_budget() {
    let total = Some((TotalProgress { base: 150000, current: 120000 }, gauge("80.0%", 8)));
    let lines_by_cat = Some(vec![GaugedLine {
        line: CategoryProgress { category: Category::Food, base: 40000, current: 32000 },
        gauge: gauge("80.0%", 8),
    }]);
    let lines = budget_progress_lines("2025-04", &total, &lines_by_cat);
    let expected = vec![
        "== 2025年04月 消費進捗率（予算対比）==".to_string(),
        String::new(),
        "[ 月全体 ]".to_string(),
        format!("予算上限{}{}150,000円", sp(2), sp(3)),
        format!("現在支出{}{}120,000円", sp(2), sp(3)),
        format!("進捗率{}{}80.0%  [████████░░]", sp(4), sp(3)),
        String::new(),
        "[ カテゴリ別 ]".to_string(),
        format!("食費{}  {}32,000 / {}40,000円  {}80.0%  [████████░░]", sp(8), sp(2), sp(2), sp(2)),
    ];
    assert_eq!(lines, expected);
}

#[test]
fn progress_screen_against_last_month_without_data() {
    let total = Some((TotalProgress { base: 0, current: 5000 }, gauge("0.0%", 0)));
    let lines_by_cat = Some(vec![GaugedLine {
        line: CategoryProgress { category: Category::Food, base: 0, current: 5000 },
        gauge: gauge("0.0%", 0),
    }]);
    let lines = last_month_progress_lines("2025-05", &total, &lines_by_cat);
    assert_eq!(lines[0], "== 2025年05月 消費進捗率（昨月実績対比）==");
    assert_eq!(lines[3], format!("昨月実績{}（支出データなし）", sp(2)));
    assert_eq!(lines[4], format!("現在支出{}{}5,000円", sp(2), sp(5)));
    assert_eq!(lines[5], format!("進捗率{}N/A  [----------]", sp(4)));
    assert_eq!(lines[8], format!("食費{}  {}5,000 / （データなし）  N/A  [----------]", sp(8), sp(3)));
    assert_eq!(lines.len(), 9);
    let only_total = last_month_progress_lines("2025-05", &Some((TotalProgress { base: 20000, current: 30000 }, gauge("150.0%", 15))), &None);
    assert_eq!(only_total.len(), 6);
    assert_eq!(only_total[5], format!("進捗率{}{}150.0%  [██████████]", sp(4), sp(2)));
}

fn month_budget(id: i64, month: &str, category: Option<Category>, amount: i64) -> Budget {
    Budget { id, user_id: "local".to_string(), month: Some(month.to_string()), category, amount }
}

#[test]
fn a_month_budget_takes_the_place_of_the_all_month_one() {
    let budgets = vec![
        budget(1, None, 150000),
        budget(2, Some(Category::Food), 40000),
        month_budget(3, "2025-05", Some(Category::Food), 30000),
        month_budget(4, "2025-06", None, 90000),
        budget(5, Some(Category::Hobby), 10000),
    ];
    let may: Vec<i64> = budgets_for_month(budgets, "2025-05").iter().map(|b| b.id).collect();
    assert_eq!(may, vec![1, 3, 5]);
    let budgets = vec![budget(1, None, 150000), month_budget(4, "2025-06", None, 90000), budget(2, Some(Category::Food), 40000)];
    let june = budgets_for_month(budgets, "2025-06");
    assert_eq!(june.iter().map(|b| b.id).collect::<Vec<_>>(), vec![4, 2]);
    let current = build_category_totals(&[tx(1, 32000, Category::Food)]);
    let r = budget_progress(&current, &june, true, true);
    assert_eq!(r.total, Some(TotalProgress { base: 90000, current: 32000 }));
    assert_eq!(r.by_category, Some(vec![CategoryProgress { category: Category::Food, base: 40000, current: 32000 }]));
}

#[test]
fn the_balance_may_be_the_smallest_i64() {
    let totals = build_category_totals(&[tx(1, -1, Category::Income), tx(2, i64::MAX, Category::Food)]);
    assert!(check_balance_fits(&totals));
    assert!(!check_summary_fits(&totals));
    let s = summarize("2025-04".to_string(), &totals, false);
    assert_eq!((s.income, s.expense, s.balance), (-1, i64::MAX, i64::MIN));
}
