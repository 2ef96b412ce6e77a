use vstd::prelude::*;

use crate::model::{Category, Transaction, all_order, expense_order};

verus! {

/// Position of a category in the list income, fixed, subscription, ...,
/// interior.
pub open spec fn category_index(c: Category) -> int {
    match c {
        Category::Income => 0,
        Category::Fixed => 1,
        Category::Subscription => 2,
        Category::Food => 3,
        Category::Daily => 4,
        Category::Transport => 5,
        Category::Clothing => 6,
        Category::Medical => 7,
        Category::Beauty => 8,
        Category::Social => 9,
        Category::Special => 10,
        Category::Learning => 11,
        Category::Hobby => 12,
        Category::Interior => 13,
    }
}

fn index_of(c: Category) -> (r: usize)
    ensures
        r == category_index(c),
        r < 14,
{
    match c {
        Category::Income => 0,
        Category::Fixed => 1,
        Category::Subscription => 2,
        Category::Food => 3,
        Category::Daily => 4,
        Category::Transport => 5,
        Category::Clothing => 6,
        Category::Medical => 7,
        Category::Beauty => 8,
        Category::Social => 9,
        Category::Special => 10,
        Category::Learning => 11,
        Category::Hobby => 12,
        Category::Interior => 13,
    }
}

/// Sum of the amounts of the transactions of category `c`.
pub open spec fn category_sum(txs: Seq<Transaction>, c: Category) -> int
    decreases txs.len(),
{
    if txs.len() == 0 {
        0
    } else {
        category_sum(txs.drop_last(), c) + if txs.last().category == c {
            txs.last().amount as int
        } else {
            0
        }
    }
}

/// Whether some transaction has category `c`.
pub open spec fn has_category(txs: Seq<Transaction>, c: Category) -> bool {
    exists|i: int| 0 <= i < txs.len() && (#[trigger] txs[i]).category == c
}

/// Adding the transactions up one by one, per category, never leaves the
/// range of `i64`.
pub open spec fn running_sums_fit(txs: Seq<Transaction>) -> bool {
    forall|k: int, c: Category|
        0 <= k <= txs.len() ==> i64::MIN <= #[trigger] category_sum(txs.take(k), c) <= i64::MAX
}

/// The per-category totals of a list of transactions: a category has a
/// total exactly when some transaction has that category.
pub open spec fn totals_of(txs: Seq<Transaction>) -> Map<Category, int> {
    Map::new(|c: Category| has_category(txs, c), |c: Category| category_sum(txs, c))
}

/// Per-category totals of a list of transactions: one slot per category,
/// indexed by `category_index`. (vstd specifies `HashMap` only for keys
/// whose hashing and equality it knows to agree with spec equality, which
/// a derived `Hash` on `Category` does not give it.)
pub struct CategoryTotals {
    sums: Vec<Option<i64>>,
}

impl View for CategoryTotals {
    type V = Map<Category, int>;

    closed spec fn view(&self) -> Map<Category, int> {
        Map::new(
            |c: Category| self.sums@[category_index(c)] is Some,
            |c: Category| self.sums@[category_index(c)]->0 as int,
        )
    }
}

impl CategoryTotals {
    #[verifier::type_invariant]
    spec fn inv(self) -> bool {
        self.sums@.len() == 14
    }

    /// The total of category `c`, if any transaction had that category.
    pub fn get(&self, c: Category) -> (r: Option<i64>)
        ensures
            r matches Some(v) ==> self@.dom().contains(c) && self@[c] == v,
            r is None ==> !self@.dom().contains(c),
    {
        proof {
            use_type_invariant(self);
        }
        self.sums[index_of(c)]
    }

    /// The total of category `c`, or 0.
    pub fn get_or_zero(&self, c: Category) -> (r: i64)
        ensures
            r == total_or_zero(self@, c),
    {
        match self.get(c) {
            Some(v) => v,
            None => 0,
        }
    }
}

/// The total of `c`, or 0 when there is none.
pub open spec fn total_or_zero(t: Map<Category, int>, c: Category) -> int {
    if t.dom().contains(c) {
        t[c]
    } else {
        0
    }
}

/// The per-category totals of `transactions`, or `None` when adding them up
/// one by one would leave the range of `i64` for some category.
pub fn try_build_category_totals(transactions: &[Transaction]) -> (r: Option<CategoryTotals>)
    ensures
        r matches Some(t) ==> running_sums_fit(transactions@) && t@ == totals_of(transactions@),
        r is None ==> !running_sums_fit(transactions@),
{
    let mut sums: Vec<Option<i64>> = vec![None, None, None, None, None, None, None, None, None, None, None, None, None, None];
    let n = transactions.len();
    let mut i: usize = 0;
    while i < n
        invariant
            n == transactions@.len(),
            i <= n,
            sums@.len() == 14,
            forall|k: int, c: Category|
                0 <= k <= i ==> i64::MIN <= #[trigger] category_sum(transactions@.take(k), c) <= i64::MAX,
            forall|c: Category| {
                let t = transactions@.take(i as int);
                #[trigger] sums@[category_index(c)] == if has_category(t, c) {
                    Some(category_sum(t, c) as i64)
                } else {
                    None
                }
            },
        decreases n - i,
    {
        let tx = &transactions[i];
        let k = index_of(tx.category);
        let ghost t = transactions@.take(i as int);
        let ghost t1 = transactions@.take(i as int + 1);
        assert(t1.drop_last() =~= t);
        assert(t1.last() == transactions@[i as int]);
        let prev = sums[k];
        proof {
            if prev is None {
                assert(!has_category(t, tx.category));
                lemma_sum_absent(t, tx.category);
            }
        }
        let next = match prev {
            Some(v) => match v.checked_add(tx.amount) {
                Some(s) => s,
                None => {
                    proof {
                        assert(!(i64::MIN <= category_sum(t1, tx.category) <= i64::MAX));
                        assert(!running_sums_fit(transactions@)) by {
                            assert(0 <= i + 1 <= transactions@.len());
                        }
                    }
                    return None;
                },
            },
            None => tx.amount,
        };
        sums.set(k, Some(next));
        proof {
            assert forall|c: Category| {
                #[trigger] sums@[category_index(c)] == if has_category(t1, c) {
                    Some(category_sum(t1, c) as i64)
                } else {
                    None
                }
            } by {
                if c == tx.category {
                    assert(t1[i as int].category == c);
                } else {
                    assert(category_index(c) != category_index(tx.category));
                    if has_category(t1, c) {
                        let j = choose|j: int| 0 <= j < t1.len() && (#[trigger] t1[j]).category == c;
                        assert(j < i);
                        assert(t[j] == t1[j]);
                    }
                    if has_category(t, c) {
                        let j = choose|j: int| 0 <= j < t.len() && (#[trigger] t[j]).category == c;
                        assert(t1[j] == t[j]);
                    }
                }
            }
            assert forall|kk: int, c: Category| 0 <= kk <= i + 1 implies i64::MIN <= #[trigger] category_sum(
                transactions@.take(kk),
                c,
            ) <= i64::MAX by {
                if kk == i + 1 {
                    if c != tx.category {
                        assert(category_sum(t1, c) == category_sum(t, c));
                    }
                }
            }
        }
        i = i + 1;
    }
    assert(transactions@.take(n as int) =~= transactions@);
    let r = CategoryTotals { sums };
    assert(r@ =~= totals_of(transactions@)) by {
        assert forall|c: Category| #[trigger] r@.dom().contains(c) == totals_of(transactions@).dom().contains(c) by {
            assert(sums@[category_index(c)] == sums@[category_index(c)]);
        }
        assert forall|c: Category| r@.dom().contains(c) implies #[trigger] r@[c] == totals_of(transactions@)[c] by {
            assert(sums@[category_index(c)] == sums@[category_index(c)]);
        }
    }
    Some(r)
}

/// The per-category totals of `transactions`.
pub fn build_category_totals(transactions: &[Transaction]) -> (r: CategoryTotals)
    requires
        running_sums_fit(transactions@),
    ensures
        r@ == totals_of(transactions@),
{
    match try_build_category_totals(transactions) {
        Some(t) => t,
        None => {
            proof {
                assert(false);
            }
            CategoryTotals { sums: vec![None, None, None, None, None, None, None, None, None, None, None, None, None, None] }
        },
    }
}

proof fn lemma_sum_absent(t: Seq<Transaction>, c: Category)
    requires
        !has_category(t, c),
    ensures
        category_sum(t, c) == 0,
    decreases t.len(),
{
    if t.len() > 0 {
        assert(t.last() == t[t.len() - 1]);
        let u = t.drop_last();
        assert forall|i: int| 0 <= i < u.len() implies (#[trigger] u[i]).category != c by {
            assert(u[i] == t[i]);
        }
        lemma_sum_absent(u, c);
    }
}

/// Sum of the totals of the categories in `cats` (a missing total counts 0).
pub open spec fn sum_over(t: Map<Category, int>, cats: Seq<Category>) -> int
    decreases cats.len(),
{
    if cats.len() == 0 {
        0
    } else {
        sum_over(t, cats.drop_last()) + total_or_zero(t, cats.last())
    }
}

/// Adding the spending totals one by one, in display order, never leaves
/// the range of `i64`.
pub open spec fn expense_sum_fits(t: Map<Category, int>) -> bool {
    forall|k: int|
        0 <= k <= expense_order().len() ==> i64::MIN <= #[trigger] sum_over(t, expense_order().take(k))
            <= i64::MAX
}

/// Total spending: the sum of the totals of every category but income.
pub open spec fn expense_of(t: Map<Category, int>) -> int {
    sum_over(t, expense_order())
}

/// Sum of the amounts of all the transactions.
pub open spec fn amount_sum(txs: Seq<Transaction>) -> int
    decreases txs.len(),
{
    if txs.len() == 0 {
        0
    } else {
        amount_sum(txs.drop_last()) + txs.last().amount
    }
}

/// Sum, over the categories in `cats`, of the category sums of `txs`.
spec fn sums_over(txs: Seq<Transaction>, cats: Seq<Category>) -> int
    decreases cats.len(),
{
    if cats.len() == 0 {
        0
    } else {
        sums_over(txs, cats.drop_last()) + category_sum(txs, cats.last())
    }
}

/// `a` counted once for every occurrence of `c` in `cats`.
spec fn counted(a: int, c: Category, cats: Seq<Category>) -> int
    decreases cats.len(),
{
    if cats.len() == 0 {
        0
    } else {
        counted(a, c, cats.drop_last()) + if cats.last() == c {
            a
        } else {
            0
        }
    }
}

proof fn lemma_counted_once(a: int, c: Category)
    ensures
        counted(a, c, all_order()) == a,
{
    reveal_with_fuel(counted, 15);
    let s = all_order();
    assert(s.len() == 14);
    assert(s.drop_last() =~= s.take(13));
    assert(s.take(13).drop_last() =~= s.take(12));
    assert(s.take(12).drop_last() =~= s.take(11));
    assert(s.take(11).drop_last() =~= s.take(10));
    assert(s.take(10).drop_last() =~= s.take(9));
    assert(s.take(9).drop_last() =~= s.take(8));
    assert(s.take(8).drop_last() =~= s.take(7));
    assert(s.take(7).drop_last() =~= s.take(6));
    assert(s.take(6).drop_last() =~= s.take(5));
    assert(s.take(5).drop_last() =~= s.take(4));
    assert(s.take(4).drop_last() =~= s.take(3));
    assert(s.take(3).drop_last() =~= s.take(2));
    assert(s.take(2).drop_last() =~= s.take(1));
    assert(s.take(1).drop_last() =~= s.take(0));
}

proof fn lemma_sums_over_step(txs: Seq<Transaction>, cats: Seq<Category>)
    requires
        txs.len() > 0,
    ensures
        sums_over(txs, cats) == sums_over(txs.drop_last(), cats) + counted(
            txs.last().amount as int,
            txs.last().category,
            cats,
        ),
    decreases cats.len(),
{
    if cats.len() > 0 {
        lemma_sums_over_step(txs, cats.drop_last());
    }
}

proof fn lemma_sums_over_all(txs: Seq<Transaction>)
    ensures
        sums_over(txs, all_order()) == amount_sum(txs),
    decreases txs.len(),
{
    if txs.len() == 0 {
        lemma_sums_over_empty(txs, all_order());
    } else {
        lemma_sums_over_all(txs.drop_last());
        lemma_sums_over_step(txs, all_order());
        lemma_counted_once(txs.last().amount as int, txs.last().category);
    }
}

proof fn lemma_sums_over_empty(txs: Seq<Transaction>, cats: Seq<Category>)
    requires
        txs.len() == 0,
    ensures
        sums_over(txs, cats) == 0,
    decreases cats.len(),
{
    if cats.len() > 0 {
        lemma_sums_over_empty(txs, cats.drop_last());
    }
}

proof fn lemma_totals_sum(txs: Seq<Transaction>, cats: Seq<Category>)
    ensures
        sum_over(totals_of(txs), cats) == sums_over(txs, cats),
    decreases cats.len(),
{
    if cats.len() > 0 {
        lemma_totals_sum(txs, cats.drop_last());
        let c = cats.last();
        if !has_category(txs, c) {
            lemma_sum_absent(txs, c);
        }
    }
}

proof fn lemma_sum_over_cons(t: Map<Category, int>, x: Category, s: Seq<Category>)
    ensures
        sum_over(t, seq![x] + s) == total_or_zero(t, x) + sum_over(t, s),
    decreases s.len(),
{
    let xs = seq![x] + s;
    if s.len() == 0 {
        assert(xs.drop_last() =~= Seq::<Category>::empty());
        assert(xs.last() == x);
        assert(sum_over(t, xs.drop_last()) == 0);
        assert(sum_over(t, xs) == sum_over(t, xs.drop_last()) + total_or_zero(t, x));
        assert(sum_over(t, s) == 0);
    } else {
        assert(xs.drop_last() =~= seq![x] + s.drop_last());
        assert(xs.last() == s.last());
        lemma_sum_over_cons(t, x, s.drop_last());
        assert(sum_over(t, xs) == sum_over(t, xs.drop_last()) + total_or_zero(t, s.last()));
    }
}

/// Aggregation loses nothing and counts nothing twice: the income total
/// plus the spending total of a list of transactions is the sum of all
/// their amounts.
pub proof fn law_totals_account_for_every_amount(txs: Seq<Transaction>)
    ensures
        total_or_zero(totals_of(txs), Category::Income) + expense_of(totals_of(txs)) == amount_sum(txs),
{
    lemma_sum_over_cons(totals_of(txs), Category::Income, expense_order());
    lemma_totals_sum(txs, all_order());
    lemma_sums_over_all(txs);
}

/// Total spending: the sum of the totals of every category but income.
pub fn expense_total(totals: &CategoryTotals) -> (r: i64)
    requires
        expense_sum_fits(totals@),
    ensures
        r == expense_of(totals@),
{
    let cats = crate::model::expense_categories();
    let mut sum: i64 = 0;
    let mut i: usize = 0;
    while i < cats.len()
        invariant
            cats@ == expense_order(),
            i <= cats@.len(),
            expense_sum_fits(totals@),
            sum == sum_over(totals@, cats@.take(i as int)),
        decreases cats@.len() - i,
    {
        let c = cats[i];
        let v = totals.get_or_zero(c);
        assert(cats@.take(i as int + 1).drop_last() =~= cats@.take(i as int));
        assert(i64::MIN <= sum_over(totals@, expense_order().take(i as int + 1)) <= i64::MAX);
        sum = sum + v;
        i = i + 1;
    }
    assert(cats@.take(cats@.len() as int) =~= cats@);
    sum
}

/// Whether the spending totals can be added up, in display order, without
/// overflow.
pub fn expense_fits(totals: &CategoryTotals) -> (r: bool)
    ensures
        r == expense_sum_fits(totals@),
{
    let cats = crate::model::expense_categories();
    let mut sum: i128 = 0;
    let mut i: usize = 0;
    while i < cats.len()
        invariant
            cats@ == expense_order(),
            i <= cats@.len(),
            sum == sum_over(totals@, cats@.take(i as int)),
            forall|k: int| 0 <= k <= i ==> i64::MIN <= #[trigger] sum_over(totals@, expense_order().take(k)) <= i64::MAX,
        decreases cats@.len() - i,
    {
        let c = cats[i];
        let v = totals.get_or_zero(c);
        assert(cats@.take(i as int + 1).drop_last() =~= cats@.take(i as int));
        sum = sum + v as i128;
        if sum < -0x8000_0000_0000_0000 || sum > 0x7fff_ffff_ffff_ffff {
            assert(!(i64::MIN <= sum_over(totals@, expense_order().take(i as int + 1)) <= i64::MAX));
            return false;
        }
        i = i + 1;
    }
    true
}

/// Income: the total of the income category, or 0.
pub fn income_total(totals: &CategoryTotals) -> (r: i64)
    ensures
        r == total_or_zero(totals@, Category::Income),
{
    totals.get_or_zero(Category::Income)
}

} // verus!
