use kakeibo::cli::{BudgetCommands, Cli, Commands};
use kakeibo::model::Category;

#[test]
fn add_args_parses_required_fields() {
    let cli = Cli::try_parse_from(&[
        "kakeibo",
        "add",
        "--name",
        "UberEats",
        "--amount",
        "1500",
        "--category",
        "food",
    ])
    .expect("parse");
    let Commands::Add(args) = cli.command else {
        panic!("予期しないコマンドです");
    };
    assert_eq!(args.name, "UberEats");
    assert_eq!(args.amount, 1500);
    assert_eq!(args.category, Category::Food);
    assert!(args.date.is_none());
    assert!(args.memo.is_none());
}

#[test]
fn add_args_parses_optional_fields() {
    let cli = Cli::try_parse_from(&[
        "kakeibo",
        "add",
        "--name",
        "UberEats",
        "--amount",
        "1500",
        "--category",
        "food",
        "--date",
        "2025-04-15",
        "--memo",
        "夕食",
    ])
    .expect("parse");
    let Commands::Add(args) = cli.command else {
        panic!("予期しないコマンドです");
    };
    assert_eq!(args.date.as_deref(), Some("2025-04-15"));
    assert_eq!(args.memo.as_deref(), Some("夕食"));
}

#[test]
fn list_args_parses_without_options() {
    let cli = Cli::try_parse_from(&["kakeibo", "list"]).expect("parse");
    let Commands::List(args) = cli.command else {
        panic!("予期しないコマンドです");
    };
    assert!(args.month.is_none());
    assert!(args.category.is_none());
}

#[test]
fn list_args_parses_all_options() {
    let cli = Cli::try_parse_from(&[
        "kakeibo",
        "list",
        "--month",
        "2025-04",
        "--category",
        "food",
    ])
    .expect("parse");
    let Commands::List(args) = cli.command else {
        panic!("予期しないコマンドです");
    };
    assert_eq!(args.month.as_deref(), Some("2025-04"));
    assert_eq!(args.category, Some(Category::Food));
}

#[test]
fn add_args_rejects_invalid_category() {
    let result = Cli::try_parse_from(&[
        "kakeibo",
        "add",
        "--name",
        "test",
        "--amount",
        "1000",
        "--category",
        "invalid",
    ]);
    assert!(result.is_err());
}

#[test]
fn budget_set_total_parses_correctly() {
    let cli = Cli::try_parse_from(&["kakeibo", "budget", "set", "--total", "150000"]).expect("parse");
    let Commands::Budget(budget_args) = cli.command else {
        panic!("予期しないコマンドです");
    };
    let BudgetCommands::SetLimit(args) = budget_args.command else {
        panic!("予期しないサブコマンドです");
    };
    assert_eq!(args.total, Some(150000));
    assert!(args.category.is_none());
    assert!(args.amount.is_none());
}

#[test]
fn budget_set_category_parses_correctly() {
    let cli = Cli::try_parse_from(&["kakeibo", "budget", "set", "--category", "food", "40000"])
        .expect("parse");
    let Commands::Budget(budget_args) = cli.command else {
        panic!("予期しないコマンドです");
    };
    let BudgetCommands::SetLimit(args) = budget_args.command else {
        panic!("予期しないサブコマンドです");
    };
    assert!(args.total.is_none());
    assert_eq!(args.category, Some(Category::Food));
    assert_eq!(args.amount, Some(40000));
}

#[test]
fn budget_show_parses_correctly() {
    let cli = Cli::try_parse_from(&["kakeibo", "budget", "show"]).expect("parse");
    let Commands::Budget(budget_args) = cli.command else {
        panic!("予期しないコマンドです");
    };
    assert!(matches!(budget_args.command, BudgetCommands::Show));
}

#[test]
fn budget_set_total_and_category_are_exclusive() {
    let result = Cli::try_parse_from(&[
        "kakeibo",
        "budget",
        "set",
        "--total",
        "150000",
        "--category",
        "food",
        "40000",
    ]);
    assert!(result.is_err());
}

#[test]
fn budget_set_category_without_amount_is_error() {
    let result = Cli::try_parse_from(&["kakeibo", "budget", "set", "--category", "food"]);
    assert!(result.is_err());
}

#[test]
fn summary_args_parses_without_options() {
    let cli = Cli::try_parse_from(&["kakeibo", "summary"]).expect("parse");
    let Commands::Summary(args) = cli.command else {
        panic!("予期しないコマンドです");
    };
    assert!(args.month.is_none());
    assert!(!args.by_category);
}

#[test]
fn summary_args_parses_with_month() {
    let cli = Cli::try_parse_from(&["kakeibo", "summary", "--month", "2025-04"]).expect("parse");
    let Commands::Summary(args) = cli.command else {
        panic!("予期しないコマンドです");
    };
    assert_eq!(args.month.as_deref(), Some("2025-04"));
    assert!(!args.by_category);
}

#[test]
fn summary_args_parses_with_by_category() {
    let cli = Cli::try_parse_from(&["kakeibo", "summary", "--by-category"]).expect("parse");
    let Commands::Summary(args) = cli.command else {
        panic!("予期しないコマンドです");
    };
    assert!(args.month.is_none());
    assert!(args.by_category);
}

#[test]
fn summary_args_parses_all_options() {
    let cli = Cli::try_parse_from(&[
        "kakeibo",
        "summary",
        "--by-category",
        "--month",
        "2025-04",
    ])
    .expect("parse");
    let Commands::Summary(args) = cli.command else {
        panic!("予期しないコマンドです");
    };
    assert_eq!(args.month.as_deref(), Some("2025-04"));
    assert!(args.by_category);
}

#[test]
fn edit_args_parses_id_and_options() {
    let cli = Cli::try_parse_from(&[
        "kakeibo", "edit", "3", "--amount", "2000", "--memo", "新しいメモ",
    ])
    .expect("parse");
    let Commands::Edit(args) = cli.command else {
        panic!("予期しないコマンドです");
    };
    assert_eq!(args.id, 3);
    assert_eq!(args.amount, Some(2000));
    assert_eq!(args.memo.as_deref(), Some("新しいメモ"));
    assert!(args.name.is_none());
    assert!(args.category.is_none());
    assert!(args.date.is_none());
}

#[test]
fn edit_args_parses_id_only() {
    let cli = Cli::try_parse_from(&["kakeibo", "edit", "7"]).expect("parse");
    let Commands::Edit(args) = cli.command else {
        panic!("予期しないコマンドです");
    };
    assert_eq!(args.id, 7);
    assert!(args.name.is_none());
    assert!(args.amount.is_none());
}

#[test]
fn delete_args_parses_id() {
    let cli = Cli::try_parse_from(&["kakeibo", "delete", "5"]).expect("parse");
    let Commands::Delete(args) = cli.command else {
        panic!("予期しないコマンドです");
    };
    assert_eq!(args.id, 5);
}

#[test]
fn progress_args_parses_without_options() {
    let cli = Cli::try_parse_from(&["kakeibo", "progress"]).expect("parse");
    let Commands::Progress(args) = cli.command else {
        panic!("予期しないコマンドです");
    };
    assert!(!args.total);
    assert!(!args.by_category);
    assert!(!args.last_month);
}

#[test]
fn progress_args_parses_total_flag() {
    let cli = Cli::try_parse_from(&["kakeibo", "progress", "--total"]).expect("parse");
    let Commands::Progress(args) = cli.command else {
        panic!("予期しないコマンドです");
    };
    assert!(args.total);
    assert!(!args.by_category);
    assert!(!args.last_month);
}

#[test]
fn progress_args_parses_by_category_flag() {
    let cli = Cli::try_parse_from(&["kakeibo", "progress", "--by-category"]).expect("parse");
    let Commands::Progress(args) = cli.command else {
        panic!("予期しないコマンドです");
    };
    assert!(!args.total);
    assert!(args.by_category);
    assert!(!args.last_month);
}

#[test]
fn progress_args_parses_last_month_flag() {
    let cli = Cli::try_parse_from(&["kakeibo", "progress", "--last-month"]).expect("parse");
    let Commands::Progress(args) = cli.command else {
        panic!("予期しないコマンドです");
    };
    assert!(!args.total);
    assert!(!args.by_category);
    assert!(args.last_month);
}

#[test]
fn progress_args_parses_last_month_with_total() {
    let cli = Cli::try_parse_from(&["kakeibo", "progress", "--last-month", "--total"]).expect("parse");
    let Commands::Progress(args) = cli.command else {
        panic!("予期しないコマンドです");
    };
    assert!(args.total);
    assert!(!args.by_category);
    assert!(args.last_month);
}

#[test]
fn progress_args_total_and_by_category_are_exclusive() {
    let result = Cli::try_parse_from(&["kakeibo", "progress", "--total", "--by-category"]);
    assert!(result.is_err());
}

// ---- further command lines ----

#[test]
fn short_options_are_accepted() {
    let cli = Cli::try_parse_from(&[
        "kakeibo", "add", "-n", "UberEats", "-a", "1500", "-c", "food", "-d", "2025-04-30", "-m", "夕食",
    ])
    .expect("parse");
    let Commands::Add(args) = cli.command else {
        panic!("予期しないコマンドです");
    };
    assert_eq!(args.name, "UberEats");
    assert_eq!(args.amount, 1500);
    assert_eq!(args.category, Category::Food);
    assert_eq!(args.date.as_deref(), Some("2025-04-30"));
    assert_eq!(args.memo.as_deref(), Some("夕食"));
}

#[test]
fn equals_form_of_a_long_option_is_accepted() {
    let cli = Cli::try_parse_from(&["kakeibo", "list", "--month=2025-04"]).expect("parse");
    let Commands::List(args) = cli.command else {
        panic!("予期しないコマンドです");
    };
    assert_eq!(args.month.as_deref(), Some("2025-04"));
}

#[test]
fn missing_required_option_is_refused() {
    let result = Cli::try_parse_from(&["kakeibo", "add", "--name", "x", "--amount", "10"]);
    assert!(result.is_err());
}

#[test]
fn repeated_option_is_refused() {
    let result = Cli::try_parse_from(&["kakeibo", "summary", "--month", "2025-04", "--month", "2025-05"]);
    assert!(result.is_err());
}

#[test]
fn unknown_subcommand_and_option_are_refused() {
    assert!(Cli::try_parse_from(&["kakeibo", "export"]).is_err());
    assert!(Cli::try_parse_from(&["kakeibo", "list", "--limit", "3"]).is_err());
    assert!(Cli::try_parse_from(&["kakeibo"]).is_err());
    assert!(Cli::try_parse_from(&["kakeibo", "budget"]).is_err());
}

#[test]
fn non_numeric_amount_and_id_are_refused() {
    assert!(Cli::try_parse_from(&["kakeibo", "add", "--name", "x", "--amount", "abc", "--category", "food"]).is_err());
    assert!(Cli::try_parse_from(&["kakeibo", "delete", "five"]).is_err());
    assert!(Cli::try_parse_from(&["kakeibo", "edit"]).is_err());
}

#[test]
fn negative_amount_needs_the_equals_form() {
    assert!(Cli::try_parse_from(&["kakeibo", "edit", "3", "--amount", "-5"]).is_err());
    let cli = Cli::try_parse_from(&["kakeibo", "edit", "3", "--amount=-5"]).expect("parse");
    let Commands::Edit(args) = cli.command else {
        panic!("予期しないコマンドです");
    };
    assert_eq!(args.amount, Some(-5));
}

#[test]
fn budget_show_takes_no_arguments() {
    assert!(Cli::try_parse_from(&["kakeibo", "budget", "show", "extra"]).is_err());
}

#[test]
fn double_dash_ends_the_options() {
    let cli = Cli::try_parse_from(&["kakeibo", "delete", "--", "-3"]).expect("parse");
    let Commands::Delete(args) = cli.command else {
        panic!("予期しないコマンドです");
    };
    assert_eq!(args.id, -3);
    assert!(Cli::try_parse_from(&["kakeibo", "delete", "-3"]).is_err());
}

#[test]
fn short_option_value_may_be_attached() {
    let cli = Cli::try_parse_from(&["kakeibo", "list", "-c=food"]).expect("parse");
    let Commands::List(args) = cli.command else {
        panic!("予期しないコマンドです");
    };
    assert_eq!(args.category, Some(Category::Food));
    let cli = Cli::try_parse_from(&["kakeibo", "list", "-cincome"]).expect("parse");
    let Commands::List(args) = cli.command else {
        panic!("予期しないコマンドです");
    };
    assert_eq!(args.category, Some(Category::Income));
}

#[test]
fn flags_take_no_value_and_appear_once() {
    assert!(Cli::try_parse_from(&["kakeibo", "progress", "--total=true"]).is_err());
    assert!(Cli::try_parse_from(&["kakeibo", "summary", "--by-category", "--by-category"]).is_err());
    assert!(Cli::try_parse_from(&["kakeibo", "list", "--month"]).is_err());
}

#[test]
fn budget_amount_may_come_before_the_category() {
    let cli = Cli::try_parse_from(&["kakeibo", "budget", "set", "40000", "--category", "food"]).expect("parse");
    let Commands::Budget(budget_args) = cli.command else {
        panic!("予期しないコマンドです");
    };
    let BudgetCommands::SetLimit(args) = budget_args.command else {
        panic!("予期しないサブコマンドです");
    };
    assert_eq!(args.category, Some(Category::Food));
    assert_eq!(args.amount, Some(40000));
}
