use vstd::prelude::*;

use crate::text::str_equal;

verus! {

/// A transaction category. Its code is the identifier used on the command
/// line and stored in the database.
#[derive(Debug, Clone, Copy, PartialEq, Eq, Structural)]
pub enum Category {
    Fixed,
    Subscription,
    Food,
    Daily,
    Transport,
    Clothing,
    Medical,
    Beauty,
    Social,
    Special,
    Learning,
    Hobby,
    Interior,
    Income,
}

/// The identifier of a category (`fixed`, `food`, ...).
pub open spec fn category_code(c: Category) -> Seq<char> {
    match c {
        Category::Fixed => "fixed"@,
        Category::Subscription => "subscription"@,
        Category::Food => "food"@,
        Category::Daily => "daily"@,
        Category::Transport => "transport"@,
        Category::Clothing => "clothing"@,
        Category::Medical => "medical"@,
        Category::Beauty => "beauty"@,
        Category::Social => "social"@,
        Category::Special => "special"@,
        Category::Learning => "learning"@,
        Category::Hobby => "hobby"@,
        Category::Interior => "interior"@,
        Category::Income => "income"@,
    }
}

/// The Japanese name shown on screen for a category.
pub open spec fn category_label(c: Category) -> Seq<char> {
    match c {
        Category::Fixed => "固定費"@,
        Category::Subscription => "サブスク"@,
        Category::Food => "食費"@,
        Category::Daily => "日用品"@,
        Category::Transport => "交通費"@,
        Category::Clothing => "被服費"@,
        Category::Medical => "医療費"@,
        Category::Beauty => "美容費"@,
        Category::Social => "交際費"@,
        Category::Special => "特別日"@,
        Category::Learning => "学習"@,
        Category::Hobby => "趣味"@,
        Category::Interior => "インテリア費"@,
        Category::Income => "収入"@,
    }
}

/// The spending categories, in display order (every category but income).
pub open spec fn expense_order() -> Seq<Category> {
    seq![
        Category::Fixed,
        Category::Subscription,
        Category::Food,
        Category::Daily,
        Category::Transport,
        Category::Clothing,
        Category::Medical,
        Category::Beauty,
        Category::Social,
        Category::Special,
        Category::Learning,
        Category::Hobby,
        Category::Interior,
    ]
}

impl Category {
    /// The name shown on screen.
    pub fn display_name(&self) -> (r: &'static str)
        ensures
            r@ == category_label(*self),
    {
        match self {
            Category::Fixed => "固定費",
            Category::Subscription => "サブスク",
            Category::Food => "食費",
            Category::Daily => "日用品",
            Category::Transport => "交通費",
            Category::Clothing => "被服費",
            Category::Medical => "医療費",
            Category::Beauty => "美容費",
            Category::Social => "交際費",
            Category::Special => "特別日",
            Category::Learning => "学習",
            Category::Hobby => "趣味",
            Category::Interior => "インテリア費",
            Category::Income => "収入",
        }
    }

    /// Whether this is the income category.
    pub fn is_income(&self) -> (r: bool)
        ensures
            r == (*self == Category::Income),
    {
        matches!(self, Category::Income)
    }

    /// The identifier of this category.
    pub fn code(&self) -> (r: &'static str)
        ensures
            r@ == category_code(*self),
    {
        match self {
            Category::Fixed => "fixed",
            Category::Subscription => "subscription",
            Category::Food => "food",
            Category::Daily => "daily",
            Category::Transport => "transport",
            Category::Clothing => "clothing",
            Category::Medical => "medical",
            Category::Beauty => "beauty",
            Category::Social => "social",
            Category::Special => "special",
            Category::Learning => "learning",
            Category::Hobby => "hobby",
            Category::Interior => "interior",
            Category::Income => "income",
        }
    }

    /// The category whose identifier is `s`, if there is one.
    pub fn from_code(s: &str) -> (r: Option<Category>)
        ensures
            r == category_from_code(s@),
    {
        if str_equal(s, "fixed") {
            return Some(Category::Fixed);
        }
        if str_equal(s, "subscription") {
            return Some(Category::Subscription);
        }
        if str_equal(s, "food") {
            return Some(Category::Food);
        }
        if str_equal(s, "daily") {
            return Some(Category::Daily);
        }
        if str_equal(s, "transport") {
            return Some(Category::Transport);
        }
        if str_equal(s, "clothing") {
            return Some(Category::Clothing);
        }
        if str_equal(s, "medical") {
            return Some(Category::Medical);
        }
        if str_equal(s, "beauty") {
            return Some(Category::Beauty);
        }
        if str_equal(s, "social") {
            return Some(Category::Social);
        }
        if str_equal(s, "special") {
            return Some(Category::Special);
        }
        if str_equal(s, "learning") {
            return Some(Category::Learning);
        }
        if str_equal(s, "hobby") {
            return Some(Category::Hobby);
        }
        if str_equal(s, "interior") {
            return Some(Category::Interior);
        }
        if str_equal(s, "income") {
            return Some(Category::Income);
        }
        None
    }
}

/// The category whose identifier is `s`, if there is one.
pub open spec fn category_from_code(s: Seq<char>) -> Option<Category> {
    if s == "fixed"@ {
        Some(Category::Fixed)
    } else if s == "subscription"@ {
        Some(Category::Subscription)
    } else if s == "food"@ {
        Some(Category::Food)
    } else if s == "daily"@ {
        Some(Category::Daily)
    } else if s == "transport"@ {
        Some(Category::Transport)
    } else if s == "clothing"@ {
        Some(Category::Clothing)
    } else if s == "medical"@ {
        Some(Category::Medical)
    } else if s == "beauty"@ {
        Some(Category::Beauty)
    } else if s == "social"@ {
        Some(Category::Social)
    } else if s == "special"@ {
        Some(Category::Special)
    } else if s == "learning"@ {
        Some(Category::Learning)
    } else if s == "hobby"@ {
        Some(Category::Hobby)
    } else if s == "interior"@ {
        Some(Category::Interior)
    } else if s == "income"@ {
        Some(Category::Income)
    } else {
        None
    }
}

/// Reading back a category's identifier gives the category.
pub proof fn law_code_round_trip(c: Category)
    ensures
        category_from_code(category_code(c)) == Some(c),
{
    match c {
        Category::Fixed => {
            reveal_strlit("fixed");
        },
        Category::Subscription => {
            reveal_strlit("subscription");
            reveal_strlit("fixed");
            assert("subscription"@.len() != "fixed"@.len());
        },
        Category::Food => {
            reveal_strlit("food");
            reveal_strlit("fixed");
            assert("food"@.len() != "fixed"@.len());
            reveal_strlit("subscription");
            assert("food"@.len() != "subscription"@.len());
        },
        Category::Daily => {
            reveal_strlit("daily");
            reveal_strlit("fixed");
            assert("daily"@[0] != "fixed"@[0]);
            reveal_strlit("subscription");
            assert("daily"@.len() != "subscription"@.len());
            reveal_strlit("food");
            assert("daily"@.len() != "food"@.len());
        },
        Category::Transport => {
            reveal_strlit("transport");
            reveal_strlit("fixed");
            assert("transport"@.len() != "fixed"@.len());
            reveal_strlit("subscription");
            assert("transport"@.len() != "subscription"@.len());
            reveal_strlit("food");
            assert("transport"@.len() != "food"@.len());
            reveal_strlit("daily");
            assert("transport"@.len() != "daily"@.len());
        },
        Category::Clothing => {
            reveal_strlit("clothing");
            reveal_strlit("fixed");
            assert("clothing"@.len() != "fixed"@.len());
            reveal_strlit("subscription");
            assert("clothing"@.len() != "subscription"@.len());
            reveal_strlit("food");
            assert("clothing"@.len() != "food"@.len());
            reveal_strlit("daily");
            assert("clothing"@.len() != "daily"@.len());
            reveal_strlit("transport");
            assert("clothing"@.len() != "transport"@.len());
        },
        Category::Medical => {
            reveal_strlit("medical");
            reveal_strlit("fixed");
            assert("medical"@.len() != "fixed"@.len());
            reveal_strlit("subscription");
            assert("medical"@.len() != "subscription"@.len());
            reveal_strlit("food");
            assert("medical"@.len() != "food"@.len());
            reveal_strlit("daily");
            assert("medical"@.len() != "daily"@.len());
            reveal_strlit("transport");
            assert("medical"@.len() != "transport"@.len());
            reveal_strlit("clothing");
            assert("medical"@.len() != "clothing"@.len());
        },
        Category::Beauty => {
            reveal_strlit("beauty");
            reveal_strlit("fixed");
            assert("beauty"@.len() != "fixed"@.len());
            reveal_strlit("subscription");
            assert("beauty"@.len() != "subscription"@.len());
            reveal_strlit("food");
            assert("beauty"@.len() != "food"@.len());
            reveal_strlit("daily");
            assert("beauty"@.len() != "daily"@.len());
            reveal_strlit("transport");
            assert("beauty"@.len() != "transport"@.len());
            reveal_strlit("clothing");
            assert("beauty"@.len() != "clothing"@.len());
            reveal_strlit("medical");
            assert("beauty"@.len() != "medical"@.len());
        },
        Category::Social => {
            reveal_strlit("social");
            reveal_strlit("fixed");
            assert("social"@.len() != "fixed"@.len());
            reveal_strlit("subscription");
            assert("social"@.len() != "subscription"@.len());
            reveal_strlit("food");
            assert("social"@.len() != "food"@.len());
            reveal_strlit("daily");
            assert("social"@.len() != "daily"@.len());
            reveal_strlit("transport");
            assert("social"@.len() != "transport"@.len());
            reveal_strlit("clothing");
            assert("social"@.len() != "clothing"@.len());
            reveal_strlit("medical");
            assert("social"@.len() != "medical"@.len());
            reveal_strlit("beauty");
            assert("social"@[0] != "beauty"@[0]);
        },
        Category::Special => {
            reveal_strlit("special");
            reveal_strlit("fixed");
            assert("special"@.len() != "fixed"@.len());
            reveal_strlit("subscription");
            assert("special"@.len() != "subscription"@.len());
            reveal_strlit("food");
            assert("special"@.len() != "food"@.len());
            reveal_strlit("daily");
            assert("special"@.len() != "daily"@.len());
            reveal_strlit("transport");
            assert("special"@.len() != "transport"@.len());
            reveal_strlit("clothing");
            assert("special"@.len() != "clothing"@.len());
            reveal_strlit("medical");
            assert("special"@[0] != "medical"@[0]);
            reveal_strlit("beauty");
            assert("special"@.len() != "beauty"@.len());
            reveal_strlit("social");
            assert("special"@.len() != "social"@.len());
        },
        Category::Learning => {
            reveal_strlit("learning");
            reveal_strlit("fixed");
            assert("learning"@.len() != "fixed"@.len());
            reveal_strlit("subscription");
            assert("learning"@.len() != "subscription"@.len());
            reveal_strlit("food");
            assert("learning"@.len() != "food"@.len());
            reveal_strlit("daily");
            assert("learning"@.len() != "daily"@.len());
            reveal_strlit("transport");
            assert("learning"@.len() != "transport"@.len());
            reveal_strlit("clothing");
            assert("learning"@[0] != "clothing"@[0]);
            reveal_strlit("medical");
            assert("learning"@.len() != "medical"@.len());
            reveal_strlit("beauty");
            assert("learning"@.len() != "beauty"@.len());
            reveal_strlit("social");
            assert("learning"@.len() != "social"@.len());
            reveal_strlit("special");
            assert("learning"@.len() != "special"@.len());
        },
        Category::Hobby => {
            reveal_strlit("hobby");
            reveal_strlit("fixed");
            assert("hobby"@[0] != "fixed"@[0]);
            reveal_strlit("subscription");
            assert("hobby"@.len() != "subscription"@.len());
            reveal_strlit("food");
            assert("hobby"@.len() != "food"@.len());
            reveal_strlit("daily");
            assert("hobby"@[0] != "daily"@[0]);
            reveal_strlit("transport");
            assert("hobby"@.len() != "transport"@.len());
            reveal_strlit("clothing");
            assert("hobby"@.len() != "clothing"@.len());
            reveal_strlit("medical");
            assert("hobby"@.len() != "medical"@.len());
            reveal_strlit("beauty");
            assert("hobby"@.len() != "beauty"@.len());
            reveal_strlit("social");
            assert("hobby"@.len() != "social"@.len());
            reveal_strlit("special");
            assert("hobby"@.len() != "special"@.len());
            reveal_strlit("learning");
            assert("hobby"@.len() != "learning"@.len());
        },
        Category::Interior => {
            reveal_strlit("interior");
            reveal_strlit("fixed");
            assert("interior"@.len() != "fixed"@.len());
            reveal_strlit("subscription");
            assert("interior"@.len() != "subscription"@.len());
            reveal_strlit("food");
            assert("interior"@.len() != "food"@.len());
            reveal_strlit("daily");
            assert("interior"@.len() != "daily"@.len());
            reveal_strlit("transport");
            assert("interior"@.len() != "transport"@.len());
            reveal_strlit("clothing");
            assert("interior"@[0] != "clothing"@[0]);
            reveal_strlit("medical");
            assert("interior"@.len() != "medical"@.len());
            reveal_strlit("beauty");
            assert("interior"@.len() != "beauty"@.len());
            reveal_strlit("social");
            assert("interior"@.len() != "social"@.len());
            reveal_strlit("special");
            assert("interior"@.len() != "special"@.len());
            reveal_strlit("learning");
            assert("interior"@[0] != "learning"@[0]);
            reveal_strlit("hobby");
            assert("interior"@.len() != "hobby"@.len());
        },
        Category::Income => {
            reveal_strlit("income");
            reveal_strlit("fixed");
            assert("income"@.len() != "fixed"@.len());
            reveal_strlit("subscription");
            assert("income"@.len() != "subscription"@.len());
            reveal_strlit("food");
            assert("income"@.len() != "food"@.len());
            reveal_strlit("daily");
            assert("income"@.len() != "daily"@.len());
            reveal_strlit("transport");
            assert("income"@.len() != "transport"@.len());
            reveal_strlit("clothing");
            assert("income"@.len() != "clothing"@.len());
            reveal_strlit("medical");
            assert("income"@.len() != "medical"@.len());
            reveal_strlit("beauty");
            assert("income"@[0] != "beauty"@[0]);
            reveal_strlit("social");
            assert("income"@[0] != "social"@[0]);
            reveal_strlit("special");
            assert("income"@.len() != "special"@.len());
            reveal_strlit("learning");
            assert("income"@.len() != "learning"@.len());
            reveal_strlit("hobby");
            assert("income"@.len() != "hobby"@.len());
            reveal_strlit("interior");
            assert("income"@.len() != "interior"@.len());
        },
    }
}

/// A text is read as a category exactly when it is that category's
/// identifier.
pub proof fn law_from_code_exact(s: Seq<char>, c: Category)
    ensures
        category_from_code(s) == Some(c) <==> s == category_code(c),
{
    law_code_round_trip(c);
}

/// Every category, income first and then the spending categories in order.
pub open spec fn all_order() -> Seq<Category> {
    seq![Category::Income] + expense_order()
}

/// The spending categories in display order.
pub fn expense_categories() -> (r: Vec<Category>)
    ensures
        r@ == expense_order(),
{
    let r = vec![
        Category::Fixed,
        Category::Subscription,
        Category::Food,
        Category::Daily,
        Category::Transport,
        Category::Clothing,
        Category::Medical,
        Category::Beauty,
        Category::Social,
        Category::Special,
        Category::Learning,
        Category::Hobby,
        Category::Interior,
    ];
    assert(r@ =~= expense_order());
    r
}

/// Every category: income first, then the spending categories in order.
pub fn all_categories() -> (r: Vec<Category>)
    ensures
        r@ == all_order(),
{
    let mut r = vec![Category::Income];
    let e = expense_categories();
    let mut i: usize = 0;
    while i < e.len()
        invariant
            e@ == expense_order(),
            i <= e@.len(),
            r@ == seq![Category::Income] + e@.take(i as int),
        decreases e@.len() - i,
    {
        r.push(e[i]);
        assert(e@.take(i as int + 1) =~= e@.take(i as int).push(e@[i as int]));
        i = i + 1;
    }
    assert(e@.take(e@.len() as int) =~= e@);
    r
}

/// A stored transaction.
#[derive(Debug)]
pub struct Transaction {
    /// Number given by the database (never reused after deletion).
    pub id: i64,
    /// Owner of the record.
    pub user_id: String,
    pub name: String,
    /// Amount in yen.
    pub amount: i64,
    /// Date, `YYYY-MM-DD`.
    pub date: String,
    pub category: Category,
    pub memo: Option<String>,
    /// When the record was created.
    pub created_at: String,
}

/// A stored budget.
#[derive(Debug)]
pub struct Budget {
    pub id: i64,
    /// Owner of the record.
    pub user_id: String,
    /// Month (`YYYY-MM`) it applies to; `None` for every month.
    pub month: Option<String>,
    /// Category it limits; `None` for the whole month.
    pub category: Option<Category>,
    /// Limit in yen.
    pub amount: i64,
}

} // verus!
