use vstd::prelude::*;

use crate::args::{
    Field, FieldView, OptDef, ScanItem, field_of, find_long_from, find_short_from, items_of, lookup_field,
    positional_args,
    positionals, scan, scan_tokens, token_texts, ArgItem,
};
use crate::model::{Category, category_from_code};
use crate::text::{opt_text, parse_i64, parse_i64_spec, str_equal};

verus! {

/// Arguments of `add`.
#[derive(Debug)]
pub struct AddArgs {
    pub name: String,
    pub amount: i64,
    pub category: Category,
    pub date: Option<String>,
    pub memo: Option<String>,
}

/// Arguments of `edit`.
#[derive(Debug)]
pub struct EditArgs {
    pub id: i64,
    pub name: Option<String>,
    pub amount: Option<i64>,
    pub category: Option<Category>,
    pub date: Option<String>,
    pub memo: Option<String>,
}

/// Arguments of `delete`.
#[derive(Debug)]
pub struct DeleteArgs {
    pub id: i64,
}

/// Arguments of `budget set`.
#[derive(Debug)]
pub struct BudgetSetArgs {
    pub total: Option<i64>,
    pub category: Option<Category>,
    pub amount: Option<i64>,
}

/// Subcommands of `budget`.
#[derive(Debug)]
pub enum BudgetCommands {
    SetLimit(BudgetSetArgs),
    Show,
}

/// Arguments of `budget`.
#[derive(Debug)]
pub struct BudgetArgs {
    pub command: BudgetCommands,
}

/// Arguments of `summary`.
#[derive(Debug)]
pub struct SummaryArgs {
    pub month: Option<String>,
    pub by_category: bool,
}

/// Arguments of `list`.
#[derive(Debug)]
pub struct ListArgs {
    pub month: Option<String>,
    pub category: Option<Category>,
}

/// Arguments of `progress`.
#[derive(Debug)]
pub struct ProgressArgs {
    pub total: bool,
    pub by_category: bool,
    pub last_month: bool,
}

/// The subcommands.
#[derive(Debug)]
pub enum Commands {
    Add(AddArgs),
    List(ListArgs),
    Edit(EditArgs),
    Delete(DeleteArgs),
    Summary(SummaryArgs),
    Budget(BudgetArgs),
    Progress(ProgressArgs),
}

/// A parsed command line.
#[derive(Debug)]
pub struct Cli {
    pub command: Commands,
}

/// The command line was refused.
#[derive(Debug, Clone, Copy, PartialEq, Eq, Structural)]
pub struct CliError;

pub ghost struct AddView {
    pub name: Seq<char>,
    pub amount: i64,
    pub category: Category,
    pub date: Option<Seq<char>>,
    pub memo: Option<Seq<char>>,
}

pub ghost struct EditView {
    pub id: i64,
    pub name: Option<Seq<char>>,
    pub amount: Option<i64>,
    pub category: Option<Category>,
    pub date: Option<Seq<char>>,
    pub memo: Option<Seq<char>>,
}

pub ghost struct ListView {
    pub month: Option<Seq<char>>,
    pub category: Option<Category>,
}

pub ghost struct SummaryView {
    pub month: Option<Seq<char>>,
    pub by_category: bool,
}

pub ghost struct BudgetSetView {
    pub total: Option<i64>,
    pub category: Option<Category>,
    pub amount: Option<i64>,
}

pub ghost struct ProgressView {
    pub total: bool,
    pub by_category: bool,
    pub last_month: bool,
}

/// What a command line asks for.
pub ghost enum CommandView {
    Add(AddView),
    List(ListView),
    Edit(EditView),
    Delete(i64),
    Summary(SummaryView),
    BudgetSet(BudgetSetView),
    BudgetShow,
    Progress(ProgressView),
}

impl View for Commands {
    type V = CommandView;

    open spec fn view(&self) -> CommandView {
        match self {
            Commands::Add(a) => CommandView::Add(AddView {
                name: a.name@,
                amount: a.amount,
                category: a.category,
                date: opt_text(a.date),
                memo: opt_text(a.memo),
            }),
            Commands::List(a) => CommandView::List(ListView { month: opt_text(a.month), category: a.category }),
            Commands::Edit(a) => CommandView::Edit(EditView {
                id: a.id,
                name: opt_text(a.name),
                amount: a.amount,
                category: a.category,
                date: opt_text(a.date),
                memo: opt_text(a.memo),
            }),
            Commands::Delete(a) => CommandView::Delete(a.id),
            Commands::Summary(a) => CommandView::Summary(SummaryView { month: opt_text(a.month), by_category: a.by_category }),
            Commands::Budget(b) => match &b.command {
                BudgetCommands::SetLimit(s) => CommandView::BudgetSet(BudgetSetView {
                    total: s.total,
                    category: s.category,
                    amount: s.amount,
                }),
                BudgetCommands::Show => CommandView::BudgetShow,
            },
            Commands::Progress(p) => CommandView::Progress(ProgressView {
                total: p.total,
                by_category: p.by_category,
                last_month: p.last_month,
            }),
        }
    }
}

// ---- option tables ----

pub open spec fn add_table() -> Seq<OptDef> {
    seq![
        OptDef { long: "name", short: Some('n'), takes_value: true },
        OptDef { long: "amount", short: Some('a'), takes_value: true },
        OptDef { long: "category", short: Some('c'), takes_value: true },
        OptDef { long: "date", short: Some('d'), takes_value: true },
        OptDef { long: "memo", short: Some('m'), takes_value: true },
    ]
}

pub open spec fn list_table() -> Seq<OptDef> {
    seq![
        OptDef { long: "month", short: None, takes_value: true },
        OptDef { long: "category", short: Some('c'), takes_value: true },
    ]
}

pub open spec fn summary_table() -> Seq<OptDef> {
    seq![
        OptDef { long: "month", short: None, takes_value: true },
        OptDef { long: "by-category", short: None, takes_value: false },
    ]
}

pub open spec fn budget_set_table() -> Seq<OptDef> {
    seq![
        OptDef { long: "total", short: None, takes_value: true },
        OptDef { long: "category", short: None, takes_value: true },
    ]
}

pub open spec fn progress_table() -> Seq<OptDef> {
    seq![
        OptDef { long: "total", short: None, takes_value: false },
        OptDef { long: "by-category", short: None, takes_value: false },
        OptDef { long: "last-month", short: None, takes_value: false },
    ]
}

fn add_table_exec() -> (r: Vec<OptDef>)
    ensures
        r@ == add_table(),
{
    let r = vec![
        OptDef { long: "name", short: Some('n'), takes_value: true },
        OptDef { long: "amount", short: Some('a'), takes_value: true },
        OptDef { long: "category", short: Some('c'), takes_value: true },
        OptDef { long: "date", short: Some('d'), takes_value: true },
        OptDef { long: "memo", short: Some('m'), takes_value: true },
    ];
    assert(r@ =~= add_table());
    r
}

fn list_table_exec() -> (r: Vec<OptDef>)
    ensures
        r@ == list_table(),
{
    let r = vec![
        OptDef { long: "month", short: None, takes_value: true },
        OptDef { long: "category", short: Some('c'), takes_value: true },
    ];
    assert(r@ =~= list_table());
    r
}

fn summary_table_exec() -> (r: Vec<OptDef>)
    ensures
        r@ == summary_table(),
{
    let r = vec![
        OptDef { long: "month", short: None, takes_value: true },
        OptDef { long: "by-category", short: None, takes_value: false },
    ];
    assert(r@ =~= summary_table());
    r
}

fn budget_set_table_exec() -> (r: Vec<OptDef>)
    ensures
        r@ == budget_set_table(),
{
    let r = vec![
        OptDef { long: "total", short: None, takes_value: true },
        OptDef { long: "category", short: None, takes_value: true },
    ];
    assert(r@ =~= budget_set_table());
    r
}

fn progress_table_exec() -> (r: Vec<OptDef>)
    ensures
        r@ == progress_table(),
{
    let r = vec![
        OptDef { long: "total", short: None, takes_value: false },
        OptDef { long: "by-category", short: None, takes_value: false },
        OptDef { long: "last-month", short: None, takes_value: false },
    ];
    assert(r@ =~= progress_table());
    r
}

// ---- reading option values ----

/// An optional text option: absent, or given once.
pub open spec fn text_opt(f: FieldView) -> Option<Option<Seq<char>>> {
    match f {
        FieldView::Absent => Some(None),
        FieldView::Once(Some(v)) => Some(Some(v)),
        _ => None,
    }
}

/// An optional integer option: absent, or given once with an `i64`.
pub open spec fn int_opt(f: FieldView) -> Option<Option<i64>> {
    match f {
        FieldView::Absent => Some(None),
        FieldView::Once(Some(v)) => match parse_i64_spec(v) {
            Some(n) => Some(Some(n)),
            None => None,
        },
        _ => None,
    }
}

/// An optional category option: absent, or given once with a category
/// identifier.
pub open spec fn category_opt(f: FieldView) -> Option<Option<Category>> {
    match f {
        FieldView::Absent => Some(None),
        FieldView::Once(Some(v)) => match category_from_code(v) {
            Some(c) => Some(Some(c)),
            None => None,
        },
        _ => None,
    }
}

/// A flag: absent or given once.
pub open spec fn flag_opt(f: FieldView) -> Option<bool> {
    match f {
        FieldView::Absent => Some(false),
        FieldView::Once(_) => Some(true),
        FieldView::Repeated => None,
    }
}

fn text_field(f: Field) -> (r: Result<Option<String>, CliError>)
    ensures
        match text_opt(f.view_field()) {
            Some(o) => r matches Ok(x) && opt_text(x) == o,
            None => r is Err,
        },
{
    match f {
        Field::Absent => Ok(None),
        Field::Once(Some(v)) => Ok(Some(v)),
        _ => Err(CliError),
    }
}

fn int_field(f: Field) -> (r: Result<Option<i64>, CliError>)
    ensures
        match int_opt(f.view_field()) {
            Some(o) => r == Ok::<Option<i64>, CliError>(o),
            None => r is Err,
        },
{
    match f {
        Field::Absent => Ok(None),
        Field::Once(Some(v)) => match parse_i64(v.as_str()) {
            Some(n) => Ok(Some(n)),
            None => Err(CliError),
        },
        _ => Err(CliError),
    }
}

fn category_field(f: Field) -> (r: Result<Option<Category>, CliError>)
    ensures
        match category_opt(f.view_field()) {
            Some(o) => r == Ok::<Option<Category>, CliError>(o),
            None => r is Err,
        },
{
    match f {
        Field::Absent => Ok(None),
        Field::Once(Some(v)) => match Category::from_code(v.as_str()) {
            Some(c) => Ok(Some(c)),
            None => Err(CliError),
        },
        _ => Err(CliError),
    }
}

fn flag_field(f: Field) -> (r: Result<bool, CliError>)
    ensures
        match flag_opt(f.view_field()) {
            Some(b) => r == Ok::<bool, CliError>(b),
            None => r is Err,
        },
{
    match f {
        Field::Absent => Ok(false),
        Field::Once(_) => Ok(true),
        Field::Repeated => Err(CliError),
    }
}

// ---- what each subcommand accepts ----

/// `add`: `--name`, `--amount` and `--category` required, `--date` and
/// `--memo` optional, each at most once; no positional argument.
pub open spec fn add_view_of(items: Seq<ArgItem>) -> Option<AddView> {
    if positionals(items).len() != 0 {
        None
    } else {
        match (
            text_opt(field_of(items, 0)),
            int_opt(field_of(items, 1)),
            category_opt(field_of(items, 2)),
            text_opt(field_of(items, 3)),
            text_opt(field_of(items, 4)),
        ) {
            (Some(Some(name)), Some(Some(amount)), Some(Some(category)), Some(date), Some(memo)) => Some(
                AddView { name, amount, category, date, memo },
            ),
            _ => None,
        }
    }
}

/// `edit ID`: one positional `i64`, every option optional and at most once.
pub open spec fn edit_view_of(items: Seq<ArgItem>) -> Option<EditView> {
    if positionals(items).len() != 1 {
        None
    } else {
        match (
            parse_i64_spec(positionals(items)[0]),
            text_opt(field_of(items, 0)),
            int_opt(field_of(items, 1)),
            category_opt(field_of(items, 2)),
            text_opt(field_of(items, 3)),
            text_opt(field_of(items, 4)),
        ) {
            (Some(id), Some(name), Some(amount), Some(category), Some(date), Some(memo)) => Some(
                EditView { id, name, amount, category, date, memo },
            ),
            _ => None,
        }
    }
}

/// `list`: `--month` and `--category`, each optional.
pub open spec fn list_view_of(items: Seq<ArgItem>) -> Option<ListView> {
    if positionals(items).len() != 0 {
        None
    } else {
        match (text_opt(field_of(items, 0)), category_opt(field_of(items, 1))) {
            (Some(month), Some(category)) => Some(ListView { month, category }),
            _ => None,
        }
    }
}

/// `summary`: `--month` optional, `--by-category` flag.
pub open spec fn summary_view_of(items: Seq<ArgItem>) -> Option<SummaryView> {
    if positionals(items).len() != 0 {
        None
    } else {
        match (text_opt(field_of(items, 0)), flag_opt(field_of(items, 1))) {
            (Some(month), Some(by_category)) => Some(SummaryView { month, by_category }),
            _ => None,
        }
    }
}

/// `delete ID`: one positional `i64`.
pub open spec fn delete_view_of(items: Seq<ArgItem>) -> Option<i64> {
    if positionals(items).len() != 1 {
        None
    } else {
        parse_i64_spec(positionals(items)[0])
    }
}

/// `budget set`: `--total` and `--category` exclude each other; an optional
/// positional amount, required with `--category`.
pub open spec fn budget_set_view_of(items: Seq<ArgItem>) -> Option<BudgetSetView> {
    if positionals(items).len() > 1 {
        None
    } else {
        let amount = if positionals(items).len() == 0 {
            Some(None::<i64>)
        } else {
            match parse_i64_spec(positionals(items)[0]) {
                Some(n) => Some(Some(n)),
                None => None,
            }
        };
        match (int_opt(field_of(items, 0)), category_opt(field_of(items, 1)), amount) {
            (Some(total), Some(category), Some(amount)) => if total is Some && category is Some {
                None
            } else if category is Some && amount is None {
                None
            } else {
                Some(BudgetSetView { total, category, amount })
            },
            _ => None,
        }
    }
}

/// `progress`: three flags; `--total` and `--by-category` exclude each other.
pub open spec fn progress_view_of(items: Seq<ArgItem>) -> Option<ProgressView> {
    if positionals(items).len() != 0 {
        None
    } else {
        match (flag_opt(field_of(items, 0)), flag_opt(field_of(items, 1)), flag_opt(field_of(items, 2))) {
            (Some(total), Some(by_category), Some(last_month)) => if total && by_category {
                None
            } else {
                Some(ProgressView { total, by_category, last_month })
            },
            _ => None,
        }
    }
}

/// The command a command line asks for: the program name, a subcommand
/// (`budget` followed by `set` or `show`), then that subcommand's options and
/// arguments, scanned as `scan` says.
pub open spec fn parse_command_line(args: Seq<Seq<char>>) -> Option<CommandView> {
    if args.len() < 2 {
        None
    } else {
        let name = args[1];
        let rest = args.skip(2);
        if name == "add"@ {
            match scan(add_table(), rest, false) {
                Some(items) => match add_view_of(items) {
                    Some(v) => Some(CommandView::Add(v)),
                    None => None,
                },
                None => None,
            }
        } else if name == "list"@ {
            match scan(list_table(), rest, false) {
                Some(items) => match list_view_of(items) {
                    Some(v) => Some(CommandView::List(v)),
                    None => None,
                },
                None => None,
            }
        } else if name == "edit"@ {
            match scan(add_table(), rest, false) {
                Some(items) => match edit_view_of(items) {
                    Some(v) => Some(CommandView::Edit(v)),
                    None => None,
                },
                None => None,
            }
        } else if name == "delete"@ {
            match scan(Seq::empty(), rest, false) {
                Some(items) => match delete_view_of(items) {
                    Some(v) => Some(CommandView::Delete(v)),
                    None => None,
                },
                None => None,
            }
        } else if name == "summary"@ {
            match scan(summary_table(), rest, false) {
                Some(items) => match summary_view_of(items) {
                    Some(v) => Some(CommandView::Summary(v)),
                    None => None,
                },
                None => None,
            }
        } else if name == "budget"@ {
            if rest.len() == 0 {
                None
            } else if rest[0] == "set"@ {
                match scan(budget_set_table(), rest.skip(1), false) {
                    Some(items) => match budget_set_view_of(items) {
                        Some(v) => Some(CommandView::BudgetSet(v)),
                        None => None,
                    },
                    None => None,
                }
            } else if rest[0] == "show"@ {
                match scan(Seq::empty(), rest.skip(1), false) {
                    Some(items) => if items.len() == 0 {
                        Some(CommandView::BudgetShow)
                    } else {
                        None
                    },
                    None => None,
                }
            } else {
                None
            }
        } else if name == "progress"@ {
            match scan(progress_table(), rest, false) {
                Some(items) => match progress_view_of(items) {
                    Some(v) => Some(CommandView::Progress(v)),
                    None => None,
                },
                None => None,
            }
        } else {
            None
        }
    }
}

/// `budget set` never accepts `--total` together with `--category`, and
/// never `--category` without an amount.
pub proof fn law_budget_set_options_exclude(args: Seq<Seq<char>>, v: BudgetSetView)
    requires
        parse_command_line(args) == Some(CommandView::BudgetSet(v)),
    ensures
        !(v.total is Some && v.category is Some),
        v.category is Some ==> v.amount is Some,
{
}

/// `progress` never accepts `--total` together with `--by-category`, so
/// it always shows the month-wide line or the per-category lines.
pub proof fn law_progress_flags_exclude(args: Seq<Seq<char>>, v: ProgressView)
    requires
        parse_command_line(args) == Some(CommandView::Progress(v)),
    ensures
        !(v.total && v.by_category),
        !v.by_category || !v.total,
{
}


/// The position, in an option table, of the option with long name `long`.
pub open spec fn option_index(table: Seq<OptDef>, long: Seq<char>) -> int {
    find_long_from(table, long, 0)->0
}

/// The text given, once, with the option named `long` among scanned items
/// (by its long or its short name); `None` when it was not given.
pub open spec fn given_text(items: Seq<ArgItem>, table: Seq<OptDef>, long: Seq<char>) -> Option<Seq<char>> {
    match field_of(items, option_index(table, long)) {
        FieldView::Once(Some(v)) => Some(v),
        _ => None,
    }
}

proof fn lemma_add_table_names()
    ensures
        find_long_from(add_table(), "name"@, 0) == Some(0int),
        find_long_from(add_table(), "amount"@, 0) == Some(1int),
        find_long_from(add_table(), "category"@, 0) == Some(2int),
        find_long_from(add_table(), "date"@, 0) == Some(3int),
        find_long_from(add_table(), "memo"@, 0) == Some(4int),
        find_short_from(add_table(), 'n', 0) == Some(0int),
        find_short_from(add_table(), 'a', 0) == Some(1int),
        find_short_from(add_table(), 'c', 0) == Some(2int),
        find_short_from(add_table(), 'd', 0) == Some(3int),
        find_short_from(add_table(), 'm', 0) == Some(4int),
{
    reveal_strlit("name");
    reveal_strlit("amount");
    reveal_strlit("category");
    reveal_strlit("date");
    reveal_strlit("memo");
    let t = add_table();
    assert(t[0].long@ == "name"@);
    assert(t[1].long@ == "amount"@);
    assert(t[2].long@ == "category"@);
    assert(t[3].long@ == "date"@);
    assert(t[4].long@ == "memo"@);
    assert(find_long_from(t, "name"@, 0) == Some(0int));
    assert(find_short_from(t, 'n', 0) == Some(0int));
    assert("name"@.len() != "amount"@.len());
    assert(find_long_from(t, "amount"@, 1) == Some(1int));
    assert(find_long_from(t, "amount"@, 0) == Some(1int));
    assert(find_short_from(t, 'a', 1) == Some(1int));
    assert(find_short_from(t, 'a', 0) == Some(1int));
    assert("name"@.len() != "category"@.len());
    assert("amount"@.len() != "category"@.len());
    assert(find_long_from(t, "category"@, 2) == Some(2int));
    assert(find_long_from(t, "category"@, 1) == Some(2int));
    assert(find_long_from(t, "category"@, 0) == Some(2int));
    assert(find_short_from(t, 'c', 2) == Some(2int));
    assert(find_short_from(t, 'c', 1) == Some(2int));
    assert(find_short_from(t, 'c', 0) == Some(2int));
    assert("name"@[0] != "date"@[0]);
    assert("amount"@.len() != "date"@.len());
    assert("category"@.len() != "date"@.len());
    assert(find_long_from(t, "date"@, 3) == Some(3int));
    assert(find_long_from(t, "date"@, 2) == Some(3int));
    assert(find_long_from(t, "date"@, 1) == Some(3int));
    assert(find_long_from(t, "date"@, 0) == Some(3int));
    assert(find_short_from(t, 'd', 3) == Some(3int));
    assert(find_short_from(t, 'd', 2) == Some(3int));
    assert(find_short_from(t, 'd', 1) == Some(3int));
    assert(find_short_from(t, 'd', 0) == Some(3int));
    assert("name"@[0] != "memo"@[0]);
    assert("amount"@.len() != "memo"@.len());
    assert("category"@.len() != "memo"@.len());
    assert("date"@[0] != "memo"@[0]);
    assert(find_long_from(t, "memo"@, 4) == Some(4int));
    assert(find_long_from(t, "memo"@, 3) == Some(4int));
    assert(find_long_from(t, "memo"@, 2) == Some(4int));
    assert(find_long_from(t, "memo"@, 1) == Some(4int));
    assert(find_long_from(t, "memo"@, 0) == Some(4int));
    assert(find_short_from(t, 'm', 4) == Some(4int));
    assert(find_short_from(t, 'm', 3) == Some(4int));
    assert(find_short_from(t, 'm', 2) == Some(4int));
    assert(find_short_from(t, 'm', 1) == Some(4int));
    assert(find_short_from(t, 'm', 0) == Some(4int));
}

/// For `edit`, each option lands in the field of the same name: the text
/// given with `--name`/`-n` (and only it) is the new name, the one given
/// with `--date`/`-d` the new date, `--memo`/`-m` the new memo, `--amount`/
/// `-a` read as a number the new amount and `--category`/`-c` read as an
/// identifier the new category; an option not given leaves its field
/// empty.
pub proof fn law_edit_options_land_in_their_fields(args: Seq<Seq<char>>, ev: EditView)
    requires
        parse_command_line(args) == Some(CommandView::Edit(ev)),
    ensures
        ({
            let items = scan(add_table(), args.skip(2), false)->0;
            &&& args[1] == "edit"@
            &&& ev.name == given_text(items, add_table(), "name"@)
            &&& ev.date == given_text(items, add_table(), "date"@)
            &&& ev.memo == given_text(items, add_table(), "memo"@)
            &&& ev.amount == match given_text(items, add_table(), "amount"@) {
                Some(v) => parse_i64_spec(v),
                None => None,
            }
            &&& ev.category == match given_text(items, add_table(), "category"@) {
                Some(v) => category_from_code(v),
                None => None,
            }
            &&& find_short_from(add_table(), 'n', 0) == Some(option_index(add_table(), "name"@))
            &&& find_short_from(add_table(), 'd', 0) == Some(option_index(add_table(), "date"@))
            &&& find_short_from(add_table(), 'm', 0) == Some(option_index(add_table(), "memo"@))
            &&& find_short_from(add_table(), 'a', 0) == Some(option_index(add_table(), "amount"@))
            &&& find_short_from(add_table(), 'c', 0) == Some(option_index(add_table(), "category"@))
        }),
{
    lemma_add_table_names();
    reveal_strlit("edit");
    reveal_strlit("add");
    reveal_strlit("list");
    assert(args[1] == "edit"@);
}

/// For `add`, each option lands in the field of the same name, as for
/// `edit`; name, amount and category must have been given.
pub proof fn law_add_options_land_in_their_fields(args: Seq<Seq<char>>, av: AddView)
    requires
        parse_command_line(args) == Some(CommandView::Add(av)),
    ensures
        ({
            let items = scan(add_table(), args.skip(2), false)->0;
            &&& args[1] == "add"@
            &&& given_text(items, add_table(), "name"@) == Some(av.name)
            &&& av.date == given_text(items, add_table(), "date"@)
            &&& av.memo == given_text(items, add_table(), "memo"@)
            &&& given_text(items, add_table(), "amount"@) matches Some(v) && parse_i64_spec(v) == Some(av.amount)
            &&& given_text(items, add_table(), "category"@) matches Some(v) && category_from_code(v) == Some(
                av.category,
            )
        }),
{
    lemma_add_table_names();
    reveal_strlit("add");
}

fn build_add(items: &Vec<ScanItem>) -> (r: Result<AddArgs, CliError>)
    ensures
        match add_view_of(items_of(items@)) {
            Some(v) => r matches Ok(a) && Commands::Add(a)@ == CommandView::Add(v),
            None => r is Err,
        },
{
    let pos = positional_args(items);
    if pos.len() != 0 {
        return Err(CliError);
    }
    let name = text_field(lookup_field(items, 0));
    let amount = int_field(lookup_field(items, 1));
    let category = category_field(lookup_field(items, 2));
    let date = text_field(lookup_field(items, 3));
    let memo = text_field(lookup_field(items, 4));
    match (name, amount, category, date, memo) {
        (Ok(Some(name)), Ok(Some(amount)), Ok(Some(category)), Ok(date), Ok(memo)) => Ok(
            AddArgs { name, amount, category, date, memo },
        ),
        _ => Err(CliError),
    }
}

fn build_edit(items: &Vec<ScanItem>) -> (r: Result<EditArgs, CliError>)
    ensures
        match edit_view_of(items_of(items@)) {
            Some(v) => r matches Ok(a) && Commands::Edit(a)@ == CommandView::Edit(v),
            None => r is Err,
        },
{
    let pos = positional_args(items);
    if pos.len() != 1 {
        return Err(CliError);
    }
    assert(pos@.map_values(|s: String| s@)[0] == pos@[0]@);
    let id = parse_i64(pos[0].as_str());
    let name = text_field(lookup_field(items, 0));
    let amount = int_field(lookup_field(items, 1));
    let category = category_field(lookup_field(items, 2));
    let date = text_field(lookup_field(items, 3));
    let memo = text_field(lookup_field(items, 4));
    match (id, name, amount, category, date, memo) {
        (Some(id), Ok(name), Ok(amount), Ok(category), Ok(date), Ok(memo)) => Ok(
            EditArgs { id, name, amount, category, date, memo },
        ),
        _ => Err(CliError),
    }
}

fn build_list(items: &Vec<ScanItem>) -> (r: Result<ListArgs, CliError>)
    ensures
        match list_view_of(items_of(items@)) {
            Some(v) => r matches Ok(a) && Commands::List(a)@ == CommandView::List(v),
            None => r is Err,
        },
{
    let pos = positional_args(items);
    if pos.len() != 0 {
        return Err(CliError);
    }
    let month = text_field(lookup_field(items, 0));
    let category = category_field(lookup_field(items, 1));
    match (month, category) {
        (Ok(month), Ok(category)) => Ok(ListArgs { month, category }),
        _ => Err(CliError),
    }
}

fn build_summary(items: &Vec<ScanItem>) -> (r: Result<SummaryArgs, CliError>)
    ensures
        match summary_view_of(items_of(items@)) {
            Some(v) => r matches Ok(a) && Commands::Summary(a)@ == CommandView::Summary(v),
            None => r is Err,
        },
{
    let pos = positional_args(items);
    if pos.len() != 0 {
        return Err(CliError);
    }
    let month = text_field(lookup_field(items, 0));
    let by_category = flag_field(lookup_field(items, 1));
    match (month, by_category) {
        (Ok(month), Ok(by_category)) => Ok(SummaryArgs { month, by_category }),
        _ => Err(CliError),
    }
}

fn build_delete(items: &Vec<ScanItem>) -> (r: Result<DeleteArgs, CliError>)
    ensures
        match delete_view_of(items_of(items@)) {
            Some(v) => r matches Ok(a) && a.id == v,
            None => r is Err,
        },
{
    let pos = positional_args(items);
    if pos.len() != 1 {
        return Err(CliError);
    }
    assert(pos@.map_values(|s: String| s@)[0] == pos@[0]@);
    match parse_i64(pos[0].as_str()) {
        Some(id) => Ok(DeleteArgs { id }),
        None => Err(CliError),
    }
}

fn build_budget_set(items: &Vec<ScanItem>) -> (r: Result<BudgetSetArgs, CliError>)
    ensures
        match budget_set_view_of(items_of(items@)) {
            Some(v) => r matches Ok(a) && a.total == v.total && a.category == v.category && a.amount == v.amount,
            None => r is Err,
        },
{
    let pos = positional_args(items);
    if pos.len() > 1 {
        return Err(CliError);
    }
    let amount: Option<i64> = if pos.len() == 0 {
        None
    } else {
        assert(pos@.map_values(|s: String| s@)[0] == pos@[0]@);
        match parse_i64(pos[0].as_str()) {
            Some(n) => Some(n),
            None => {
                return Err(CliError);
            },
        }
    };
    let total = int_field(lookup_field(items, 0));
    let category = category_field(lookup_field(items, 1));
    match (total, category) {
        (Ok(total), Ok(category)) => {
            if total.is_some() && category.is_some() {
                Err(CliError)
            } else if category.is_some() && amount.is_none() {
                Err(CliError)
            } else {
                Ok(BudgetSetArgs { total, category, amount })
            }
        },
        _ => Err(CliError),
    }
}

fn build_progress(items: &Vec<ScanItem>) -> (r: Result<ProgressArgs, CliError>)
    ensures
        match progress_view_of(items_of(items@)) {
            Some(v) => r matches Ok(a) && Commands::Progress(a)@ == CommandView::Progress(v),
            None => r is Err,
        },
{
    let pos = positional_args(items);
    if pos.len() != 0 {
        return Err(CliError);
    }
    let total = flag_field(lookup_field(items, 0));
    let by_category = flag_field(lookup_field(items, 1));
    let last_month = flag_field(lookup_field(items, 2));
    match (total, by_category, last_month) {
        (Ok(total), Ok(by_category), Ok(last_month)) => {
            if total && by_category {
                Err(CliError)
            } else {
                Ok(ProgressArgs { total, by_category, last_month })
            }
        },
        _ => Err(CliError),
    }
}

impl Cli {
    /// Reads a command line (`args[0]` is the program name).
    pub fn try_parse_from(args: &[&str]) -> (r: Result<Cli, CliError>)
        ensures
            match parse_command_line(token_texts(args@)) {
                Some(v) => r matches Ok(c) && c.command@ == v,
                None => r is Err,
            },
    {
        let ghost toks = token_texts(args@);
        if args.len() < 2 {
            return Err(CliError);
        }
        let name: &str = args[1];
        assert(toks[1] == name@);
        assert(toks.skip(2) =~= token_texts(args@).skip(2));
        let command = if str_equal(name, "add") {
            let table = add_table_exec();
            match scan_tokens(&table, args, 2) {
                Some(items) => Commands::Add(build_add(&items)?),
                None => {
                    return Err(CliError);
                },
            }
        } else if str_equal(name, "list") {
            let table = list_table_exec();
            match scan_tokens(&table, args, 2) {
                Some(items) => Commands::List(build_list(&items)?),
                None => {
                    return Err(CliError);
                },
            }
        } else if str_equal(name, "edit") {
            let table = add_table_exec();
            match scan_tokens(&table, args, 2) {
                Some(items) => Commands::Edit(build_edit(&items)?),
                None => {
                    return Err(CliError);
                },
            }
        } else if str_equal(name, "delete") {
            let table: Vec<OptDef> = Vec::new();
            assert(table@ =~= Seq::<OptDef>::empty());
            match scan_tokens(&table, args, 2) {
                Some(items) => Commands::Delete(build_delete(&items)?),
                None => {
                    return Err(CliError);
                },
            }
        } else if str_equal(name, "summary") {
            let table = summary_table_exec();
            match scan_tokens(&table, args, 2) {
                Some(items) => Commands::Summary(build_summary(&items)?),
                None => {
                    return Err(CliError);
                },
            }
        } else if str_equal(name, "budget") {
            if args.len() < 3 {
                return Err(CliError);
            }
            let sub: &str = args[2];
            assert(toks.skip(2)[0] == sub@);
            assert(toks.skip(2).skip(1) =~= token_texts(args@).skip(3));
            if str_equal(sub, "set") {
                let table = budget_set_table_exec();
                match scan_tokens(&table, args, 3) {
                    Some(items) => Commands::Budget(BudgetArgs { command: BudgetCommands::SetLimit(build_budget_set(&items)?) }),
                    None => {
                        return Err(CliError);
                    },
                }
            } else if str_equal(sub, "show") {
                let table: Vec<OptDef> = Vec::new();
                assert(table@ =~= Seq::<OptDef>::empty());
                match scan_tokens(&table, args, 3) {
                    Some(items) => {
                        if items.len() != 0 {
                            return Err(CliError);
                        }
                        Commands::Budget(BudgetArgs { command: BudgetCommands::Show })
                    },
                    None => {
                        return Err(CliError);
                    },
                }
            } else {
                return Err(CliError);
            }
        } else if str_equal(name, "progress") {
            let table = progress_table_exec();
            match scan_tokens(&table, args, 2) {
                Some(items) => Commands::Progress(build_progress(&items)?),
                None => {
                    return Err(CliError);
                },
            }
        } else {
            return Err(CliError);
        };
        Ok(Cli { command })
    }
}

} // verus!
