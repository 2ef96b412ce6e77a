use kakeibo::fmt::{
    format_amount, format_amount_raw, format_month_display, format_signed_amount, pad_display,
    progress_bar_segments, right_align,
};
use kakeibo::model::{Category, Transaction};
use kakeibo::month::{is_valid_date, prev_month, prev_month_is_defined, validate_month, MonthError};
use kakeibo::totals::{build_category_totals, expense_fits, expense_total, income_total, try_build_category_totals};

fn make_tx(id: i64, amount: i64, category: Category) -> Transaction {
    Transaction {
        id,
        user_id: "local".to_string(),
        name: "テスト".to_string(),
        amount,
        date: "2025-04-01".to_string(),
        category,
        memo: None,
        created_at: "2025-04-01 00:00:00".to_string(),
    }
}

#[test]
fn format_amount_inserts_commas_correctly() {
    assert_eq!(format_amount(500), "500円");
    assert_eq!(format_amount(1500), "1,500円");
    assert_eq!(format_amount(200000), "200,000円");
}

#[test]
fn build_category_totals_aggregates_correctly() {
    let transactions = vec![
        make_tx(1, 1000, Category::Food),
        make_tx(2, 500, Category::Food),
        make_tx(3, 200000, Category::Income),
        make_tx(4, 60000, Category::Fixed),
    ];

    let totals = build_category_totals(&transactions);

    assert_eq!(totals.get(Category::Food), Some(1500));
    assert_eq!(totals.get(Category::Income), Some(200000));
    assert_eq!(totals.get(Category::Fixed), Some(60000));
    assert_eq!(totals.get(Category::Transport), None);
}

#[test]
fn format_month_display_converts_correctly() {
    assert_eq!(format_month_display("2025-04"), "2025年04月");
    assert_eq!(format_month_display("2025-12"), "2025年12月");
}

#[test]
fn format_signed_amount_shows_sign() {
    assert_eq!(format_signed_amount(80000), "+80,000円");
    assert_eq!(format_signed_amount(-20000), "-20,000円");
    assert_eq!(format_signed_amount(0), "+0円");
}

#[test]
fn prev_month_returns_correct_month() {
    assert_eq!(prev_month("2025-05").unwrap(), "2025-04");
    assert_eq!(prev_month("2025-01").unwrap(), "2024-12");
    assert_eq!(prev_month("2025-12").unwrap(), "2025-11");
}

// ---- further formatting cases ----

#[test]
fn format_amount_handles_small_large_and_negative_amounts() {
    assert_eq!(format_amount(0), "0円");
    assert_eq!(format_amount(999), "999円");
    assert_eq!(format_amount(1000), "1,000円");
    assert_eq!(format_amount(1234567), "1,234,567円");
    assert_eq!(format_amount(-1500), "-1,500円");
    assert_eq!(format_amount(-100), "-100円");
    assert_eq!(format_amount(-100000), "-100,000円");
    assert_eq!(format_amount(i64::MAX), "9,223,372,036,854,775,807円");
    assert_eq!(format_amount(i64::MIN), "-9,223,372,036,854,775,808円");
}

#[test]
fn format_amount_raw_drops_the_unit() {
    assert_eq!(format_amount_raw(1500), "1,500");
    assert_eq!(format_amount_raw(32000), "32,000");
    assert_eq!(format_amount_raw(7), "7");
}

#[test]
fn format_month_display_without_dash_is_unchanged() {
    assert_eq!(format_month_display("202504"), "202504");
    assert_eq!(format_month_display("2025-04-01"), "2025年04-01月");
}

#[test]
fn padding_counts_wide_characters_twice() {
    assert_eq!(pad_display("食費", 6), "食費  ");
    assert_eq!(pad_display("abc", 5), "abc  ");
    assert_eq!(pad_display("インテリア費", 4), "インテリア費");
    assert_eq!(right_align("1,500円", 10), "   1,500円");
    assert_eq!(right_align("abcdef", 3), "abcdef");
}

#[test]
fn progress_bar_has_ten_segments() {
    assert_eq!(progress_bar_segments(0), "░░░░░░░░░░");
    assert_eq!(progress_bar_segments(5), "█████░░░░░");
    assert_eq!(progress_bar_segments(8), "████████░░");
    assert_eq!(progress_bar_segments(10), "██████████");
}

#[test]
fn prev_month_rejects_text_that_is_not_a_month() {
    assert_eq!(prev_month("invalid"), Err(MonthError::InvalidMonth));
    assert_eq!(prev_month("2025-xx"), Err(MonthError::InvalidMonth));
    assert_eq!(prev_month("-05"), Err(MonthError::InvalidMonth));
    assert_eq!(prev_month("0001-01").unwrap(), "0000-12");
    assert_eq!(prev_month("99-3").unwrap(), "0099-02");
}

#[test]
fn prev_month_is_defined_except_where_it_overflows() {
    assert!(prev_month_is_defined("2025-05"));
    assert!(prev_month_is_defined("not a month"));
    assert!(!prev_month_is_defined("2025-00"));
    assert!(!prev_month_is_defined("2025-0"));
}

#[test]
fn dates_and_months_are_checked_by_the_calendar() {
    assert!(is_valid_date("2025-04-15"));
    assert!(!is_valid_date("2025/04/15"));
    assert!(!is_valid_date("2025-02-30"));
    assert!(validate_month("2025-04"));
    assert!(!validate_month("2025/04"));
    assert!(!validate_month("invalid"));
    assert!(!validate_month("2025-13"));
}

#[test]
fn totals_overflow_is_detected() {
    let txs = vec![make_tx(1, i64::MAX, Category::Food), make_tx(2, 1, Category::Food)];
    assert!(try_build_category_totals(&txs).is_none());
    let txs = vec![make_tx(1, i64::MAX, Category::Food), make_tx(2, 1, Category::Hobby)];
    let totals = try_build_category_totals(&txs).expect("fits");
    assert!(!expense_fits(&totals));
}

#[test]
fn income_and_spending_account_for_every_amount() {
    let transactions = vec![
        make_tx(1, 1000, Category::Food),
        make_tx(2, 500, Category::Food),
        make_tx(3, 200000, Category::Income),
        make_tx(4, 60000, Category::Fixed),
    ];
    let totals = build_category_totals(&transactions);
    assert!(expense_fits(&totals));
    assert_eq!(income_total(&totals), 200000);
    assert_eq!(expense_total(&totals), 61500);
    assert_eq!(income_total(&totals) + expense_total(&totals), 1000 + 500 + 200000 + 60000);
}

#[test]
fn separators_only_add_commas() {
    for amount in [0i64, 7, 999, 1000, 65536, 1234567, -1, -100, -123456, i64::MAX, i64::MIN] {
        assert_eq!(format_amount_raw(amount).replace(',', ""), amount.to_string());
    }
}

#[test]
fn previous_month_reads_back_as_a_month() {
    let once = prev_month("2025-02").unwrap();
    assert_eq!(once, "2025-01");
    let twice = prev_month(&once).unwrap();
    assert_eq!(twice, "2024-12");
    assert_eq!(prev_month(&twice).unwrap(), "2024-11");
    assert!(validate_month(&twice));
}

#[test]
fn commas_fall_every_three_digits() {
    for amount in [0i64, 5, 42, 999, 1000, 12345, 123456, 1234567, 98765432, i64::MAX, -7, -1234, -123456789] {
        let text = format_amount_raw(amount);
        let digits = text.trim_start_matches('-');
        let groups: Vec<&str> = digits.split(',').collect();
        assert!((1..=3).contains(&groups[0].len()), "{text}");
        assert!(groups[1..].iter().all(|g| g.len() == 3), "{text}");
        let d = amount.unsigned_abs().to_string().len();
        assert_eq!(groups.len() - 1, (d - 1) / 3, "{text}");
    }
}

#[test]
fn spending_is_added_up_in_display_order() {
    let txs = vec![
        make_tx(1, i64::MAX, Category::Fixed),
        make_tx(2, -10, Category::Food),
        make_tx(3, 10, Category::Hobby),
    ];
    let totals = try_build_category_totals(&txs).expect("fits");
    assert!(expense_fits(&totals));
    assert_eq!(expense_total(&totals), i64::MAX);
    let txs = vec![make_tx(1, 10, Category::Fixed), make_tx(2, i64::MAX, Category::Food), make_tx(3, -10, Category::Hobby)];
    let totals = try_build_category_totals(&txs).expect("fits");
    assert!(!expense_fits(&totals));
}
