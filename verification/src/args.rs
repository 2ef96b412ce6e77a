use vstd::prelude::*;

use crate::text::{find_char, index_of_char, str_equal};

verus! {

/// An option of a command: its long name (`--name`), its short letter
/// (`-n`), and whether it takes a value.
#[derive(Debug, Clone, Copy)]
pub struct OptDef {
    pub long: &'static str,
    pub short: Option<char>,
    pub takes_value: bool,
}

/// One piece of a scanned command line: an option (by its place in the
/// option table) with its value, or a positional argument.
pub ghost enum ArgItem {
    Opt(int, Option<Seq<char>>),
    Pos(Seq<char>),
}

/// The first option at or after `i` whose long name is `name`.
pub open spec fn find_long_from(table: Seq<OptDef>, name: Seq<char>, i: int) -> Option<int>
    decreases table.len() - i,
{
    if i < 0 || i >= table.len() {
        None
    } else if table[i].long@ == name {
        Some(i)
    } else {
        find_long_from(table, name, i + 1)
    }
}

/// The first option at or after `i` whose short letter is `c`.
pub open spec fn find_short_from(table: Seq<OptDef>, c: char, i: int) -> Option<int>
    decreases table.len() - i,
{
    if i < 0 || i >= table.len() {
        None
    } else if table[i].short == Some(c) {
        Some(i)
    } else {
        find_short_from(table, c, i + 1)
    }
}

/// Whether a token would be read as an option or an option cluster rather
/// than as a value: two or more characters starting with `-`.
pub open spec fn looks_like_option(t: Seq<char>) -> bool {
    t.len() >= 2 && t[0] == '-'
}

/// The name part of `--name=value` (everything before the first `=`).
pub open spec fn long_name(body: Seq<char>) -> Seq<char> {
    match index_of_char(body, '=') {
        Some(k) => body.take(k),
        None => body,
    }
}

/// The value attached with `=` in `--name=value`, if any.
pub open spec fn long_attached(body: Seq<char>) -> Option<Seq<char>> {
    match index_of_char(body, '=') {
        Some(k) => Some(body.skip(k + 1)),
        None => None,
    }
}

/// The items of a cluster of short options (`-xyz`, `-nVALUE`, `-n=VALUE`)
/// and the option still waiting for its value in the next token, if any.
pub open spec fn cluster_items(table: Seq<OptDef>, cs: Seq<char>) -> Option<(Seq<ArgItem>, Option<int>)>
    decreases cs.len(),
{
    if cs.len() == 0 {
        Some((Seq::empty(), None))
    } else {
        match find_short_from(table, cs[0], 0) {
            None => None,
            Some(k) => if !table[k].takes_value {
                match cluster_items(table, cs.drop_first()) {
                    Some((items, pending)) => Some((seq![ArgItem::Opt(k, None)] + items, pending)),
                    None => None,
                }
            } else {
                let tail = cs.drop_first();
                if tail.len() == 0 {
                    Some((Seq::empty(), Some(k)))
                } else {
                    let v = if tail[0] == '=' { tail.drop_first() } else { tail };
                    Some((seq![ArgItem::Opt(k, Some(v))], None))
                }
            },
        }
    }
}

/// `prefix` followed by the items of `rest`, or nothing when `rest` failed.
pub open spec fn prepend(prefix: Seq<ArgItem>, rest: Option<Seq<ArgItem>>) -> Option<Seq<ArgItem>> {
    match rest {
        Some(r) => Some(prefix + r),
        None => None,
    }
}

/// The items of the tokens `toks` of a command whose options are `table`.
/// After `--` every token is positional. An option taking a value takes the
/// text after `=`, the rest of its short cluster, or else the next token,
/// which must not look like an option. Unknown options are refused.
pub open spec fn scan(table: Seq<OptDef>, toks: Seq<Seq<char>>, escaped: bool) -> Option<Seq<ArgItem>>
    decreases toks.len(),
{
    if toks.len() == 0 {
        Some(Seq::empty())
    } else {
        let t = toks[0];
        let rest = toks.drop_first();
        if escaped {
            prepend(seq![ArgItem::Pos(t)], scan(table, rest, true))
        } else if t == "--"@ {
            scan(table, rest, true)
        } else if t.len() >= 2 && t[0] == '-' && t[1] == '-' {
            let body = t.skip(2);
            match find_long_from(table, long_name(body), 0) {
                None => None,
                Some(k) => if table[k].takes_value {
                    match long_attached(body) {
                        Some(v) => prepend(seq![ArgItem::Opt(k, Some(v))], scan(table, rest, false)),
                        None => if rest.len() > 0 && !looks_like_option(rest[0]) {
                            prepend(seq![ArgItem::Opt(k, Some(rest[0]))], scan(table, rest.drop_first(), false))
                        } else {
                            None
                        },
                    }
                } else {
                    match long_attached(body) {
                        Some(_) => None,
                        None => prepend(seq![ArgItem::Opt(k, None)], scan(table, rest, false)),
                    }
                },
            }
        } else if t.len() >= 2 && t[0] == '-' {
            match cluster_items(table, t.drop_first()) {
                None => None,
                Some((items, None)) => prepend(items, scan(table, rest, false)),
                Some((items, Some(k))) => if rest.len() > 0 && !looks_like_option(rest[0]) {
                    prepend(items.push(ArgItem::Opt(k, Some(rest[0]))), scan(table, rest.drop_first(), false))
                } else {
                    None
                },
            }
        } else {
            prepend(seq![ArgItem::Pos(t)], scan(table, rest, false))
        }
    }
}

/// A scanned piece of a command line.
pub enum ScanItem {
    Opt(usize, Option<String>),
    Pos(String),
}

impl ScanItem {
    pub open spec fn item(&self) -> ArgItem {
        match self {
            ScanItem::Opt(k, v) => ArgItem::Opt(*k as int, match v {
                Some(s) => Some(s@),
                None => None,
            }),
            ScanItem::Pos(s) => ArgItem::Pos(s@),
        }
    }
}

/// The abstract items of scanned pieces.
pub open spec fn items_of(v: Seq<ScanItem>) -> Seq<ArgItem> {
    v.map_values(|x: ScanItem| x.item())
}

/// The texts of a list of tokens.
pub open spec fn token_texts(args: Seq<&str>) -> Seq<Seq<char>> {
    args.map_values(|a: &str| a@)
}

fn find_long(table: &Vec<OptDef>, name: &str) -> (r: Option<usize>)
    ensures
        match r {
            Some(k) => find_long_from(table@, name@, 0) == Some(k as int) && k < table@.len(),
            None => find_long_from(table@, name@, 0) is None,
        },
{
    let mut i: usize = 0;
    while i < table.len()
        invariant
            i <= table@.len(),
            find_long_from(table@, name@, 0) == find_long_from(table@, name@, i as int),
        decreases table@.len() - i,
    {
        if str_equal(table[i].long, name) {
            return Some(i);
        }
        i = i + 1;
    }
    None
}

fn find_short(table: &Vec<OptDef>, c: char) -> (r: Option<usize>)
    ensures
        match r {
            Some(k) => find_short_from(table@, c, 0) == Some(k as int) && k < table@.len(),
            None => find_short_from(table@, c, 0) is None,
        },
{
    let mut i: usize = 0;
    while i < table.len()
        invariant
            i <= table@.len(),
            find_short_from(table@, c, 0) == find_short_from(table@, c, i as int),
        decreases table@.len() - i,
    {
        if table[i].short == Some(c) {
            return Some(i);
        }
        i = i + 1;
    }
    None
}

fn push_item(items: &mut Vec<ScanItem>, x: ScanItem)
    ensures
        items_of(final(items)@) == items_of(old(items)@).push(x.item()),
{
    let ghost before = items@;
    items.push(x);
    assert(items_of(items@) =~= items_of(before).push(x.item()));
}

fn looks_like_option_exec(t: &str) -> (r: bool)
    ensures
        r == looks_like_option(t@),
{
    t.unicode_len() >= 2 && t.get_char(0) == '-'
}

/// Scans the items of a short-option cluster `cs` (the token without its
/// leading `-`), appending them to `items`; returns the option waiting for
/// a value, or `Err` when the cluster is refused.
fn scan_cluster(table: &Vec<OptDef>, cs: &str, items: &mut Vec<ScanItem>) -> (r: Result<Option<usize>, ()>)
    ensures
        match cluster_items(table@, cs@) {
            Some((its, pending)) => r matches Ok(p) && items_of(final(items)@) == items_of(old(items)@) + its
                && match p {
                    Some(k) => pending == Some(k as int) && k < table@.len(),
                    None => pending is None,
                },
            None => r is Err,
        },
{
    let ghost start = items_of(items@);
    let n = cs.unicode_len();
    let mut j: usize = 0;
    assert(cs@.skip(0) =~= cs@);
    while j < n
        invariant
            n == cs@.len(),
            j <= n,
            cluster_items(table@, cs@) == match cluster_items(table@, cs@.skip(j as int)) {
                Some((its, pending)) => Some((items_of(items@).skip(start.len() as int) + its, pending)),
                None => None::<(Seq<ArgItem>, Option<int>)>,
            },
            items_of(items@).len() >= start.len(),
            items_of(items@).take(start.len() as int) == start,
            start == items_of(old(items)@),
        decreases n - j,
    {
        let ghost cur = cs@.skip(j as int);
        let ghost done = items_of(items@).skip(start.len() as int);
        assert(items_of(items@) =~= start + done);
        let c = cs.get_char(j);
        assert(cur[0] == c);
        match find_short(table, c) {
            None => {
                return Err(());
            },
            Some(k) => {
                if !table[k].takes_value {
                    assert(cur.drop_first() =~= cs@.skip(j as int + 1));
                    push_item(items, ScanItem::Opt(k, None));
                    proof {
                        let d2 = items_of(items@).skip(start.len() as int);
                        assert(d2 =~= done.push(ArgItem::Opt(k as int, None)));
                        match cluster_items(table@, cs@.skip(j as int + 1)) {
                            Some((its, p)) => {
                                assert(done + (seq![ArgItem::Opt(k as int, None)] + its) =~= d2 + its);
                            },
                            None => {},
                        }
                        assert(items_of(items@).take(start.len() as int) =~= start);
                    }
                    j = j + 1;
                } else {
                    let tail = cs.substring_char(j + 1, n);
                    assert(tail@ =~= cur.drop_first());
                    if j + 1 == n {
                        assert(done + Seq::<ArgItem>::empty() =~= done);
                        assert(cur.drop_first().len() == 0);
                        assert(cluster_items(table@, cur) == Some((Seq::<ArgItem>::empty(), Some(k as int))));
                        assert(cluster_items(table@, cs@) == Some((done, Some(k as int))));
                        assert(start == items_of(old(items)@));
                        assert(items_of(items@) == items_of(old(items)@) + done);
                        return Ok(Some(k));
                    }
                    let v = if cs.get_char(j + 1) == '=' {
                        cs.substring_char(j + 2, n).to_owned()
                    } else {
                        tail.to_owned()
                    };
                    assert(tail@[0] == cs@[j + 1]);
                    assert(v@ == (if tail@[0] == '=' { tail@.drop_first() } else { tail@ }));
                    push_item(items, ScanItem::Opt(k, Some(v)));
                    proof {
                        let d2 = items_of(items@).skip(start.len() as int);
                        assert(d2 =~= done + seq![ArgItem::Opt(k as int, Some(v@))]);
                        assert(items_of(items@).take(start.len() as int) =~= start);
                        assert(items_of(items@) =~= start + d2);
                        assert(cluster_items(table@, cur) == Some((seq![ArgItem::Opt(k as int, Some(v@))], None::<int>)));
                    }
                    return Ok(None);
                }
            },
        }
    }
    proof {
        assert(cs@.skip(n as int) =~= Seq::<char>::empty());
        let d = items_of(items@).skip(start.len() as int);
        assert(d + Seq::<ArgItem>::empty() =~= d);
        assert(items_of(items@) =~= start + d);
    }
    Ok(None)
}

/// Scans the tokens `toks[from..]` of a command whose options are `table`.
pub fn scan_tokens(table: &Vec<OptDef>, toks: &[&str], from: usize) -> (r: Option<Vec<ScanItem>>)
    requires
        from <= toks@.len(),
    ensures
        match r {
            Some(v) => scan(table@, token_texts(toks@).skip(from as int), false) == Some(items_of(v@)),
            None => scan(table@, token_texts(toks@).skip(from as int), false) is None,
        },
{
    let ghost all = token_texts(toks@).skip(from as int);
    let mut items: Vec<ScanItem> = Vec::new();
    let mut escaped = false;
    let mut i: usize = from;
    let n = toks.len();
    while i < n
        invariant
            n == toks@.len(),
            from <= i <= n,
            all == token_texts(toks@).skip(from as int),
            scan(table@, all, false) == prepend(items_of(items@), scan(table@, token_texts(toks@).skip(i as int), escaped)),
        decreases n - i,
    {
        let ghost rem = token_texts(toks@).skip(i as int);
        let ghost done = items_of(items@);
        let t: &str = toks[i];
        assert(rem[0] == t@);
        assert(rem.drop_first() =~= token_texts(toks@).skip(i as int + 1));
        if escaped {
            push_item(&mut items, ScanItem::Pos(t.to_owned()));
            proof {
                match scan(table@, rem.drop_first(), true) {
                    Some(r) => assert(done + (seq![ArgItem::Pos(t@)] + r) =~= items_of(items@) + r),
                    None => {},
                }
            }
            i = i + 1;
        } else if str_equal(t, "--") {
            escaped = true;
            i = i + 1;
        } else if t.unicode_len() >= 2 && t.get_char(0) == '-' && t.get_char(1) == '-' {
            let tl = t.unicode_len();
            let body = t.substring_char(2, tl);
            assert(body@ =~= t@.skip(2));
            let (name, attached): (&str, Option<&str>) = match find_char(body, '=') {
                Some(k) => (body.substring_char(0, k), Some(body.substring_char(k + 1, body.unicode_len()))),
                None => (body, None),
            };
            assert(name@ == long_name(body@));
            assert(match attached { Some(a) => long_attached(body@) == Some(a@), None => long_attached(body@) is None });
            match find_long(table, name) {
                None => {
                    return None;
                },
                Some(k) => {
                    if table[k].takes_value {
                        match attached {
                            Some(a) => {
                                push_item(&mut items, ScanItem::Opt(k, Some(a.to_owned())));
                                proof {
                                    match scan(table@, rem.drop_first(), false) {
                                        Some(r) => assert(done + (seq![ArgItem::Opt(k as int, Some(a@))] + r) =~= items_of(items@) + r),
                                        None => {},
                                    }
                                }
                                i = i + 1;
                            },
                            None => {
                                if i + 1 < n && !looks_like_option_exec(toks[i + 1]) {
                                    let v: &str = toks[i + 1];
                                    assert(rem.drop_first()[0] == v@);
                                    assert(rem.drop_first().drop_first() =~= token_texts(toks@).skip(i as int + 2));
                                    push_item(&mut items, ScanItem::Opt(k, Some(v.to_owned())));
                                    proof {
                                        match scan(table@, rem.drop_first().drop_first(), false) {
                                            Some(r) => assert(done + (seq![ArgItem::Opt(k as int, Some(v@))] + r) =~= items_of(items@) + r),
                                            None => {},
                                        }
                                    }
                                    i = i + 2;
                                } else {
                                    return None;
                                }
                            },
                        }
                    } else {
                        match attached {
                            Some(_) => {
                                return None;
                            },
                            None => {
                                push_item(&mut items, ScanItem::Opt(k, None));
                                proof {
                                    match scan(table@, rem.drop_first(), false) {
                                        Some(r) => assert(done + (seq![ArgItem::Opt(k as int, None)] + r) =~= items_of(items@) + r),
                                        None => {},
                                    }
                                }
                                i = i + 1;
                            },
                        }
                    }
                },
            }
        } else if t.unicode_len() >= 2 && t.get_char(0) == '-' {
            let tl = t.unicode_len();
            let cs = t.substring_char(1, tl);
            assert(cs@ =~= t@.drop_first());
            match scan_cluster(table, cs, &mut items) {
                Err(()) => {
                    return None;
                },
                Ok(None) => {
                    proof {
                        let (its, _p) = cluster_items(table@, cs@)->0;
                        match scan(table@, rem.drop_first(), false) {
                            Some(r) => assert(done + (its + r) =~= items_of(items@) + r),
                            None => {},
                        }
                    }
                    i = i + 1;
                },
                Ok(Some(k)) => {
                    if i + 1 < n && !looks_like_option_exec(toks[i + 1]) {
                        let ghost mid = items_of(items@);
                        let v: &str = toks[i + 1];
                        assert(rem.drop_first()[0] == v@);
                        assert(rem.drop_first().drop_first() =~= token_texts(toks@).skip(i as int + 2));
                        push_item(&mut items, ScanItem::Opt(k, Some(v.to_owned())));
                        proof {
                            let (its, _p) = cluster_items(table@, cs@)->0;
                            assert(mid == done + its);
                            match scan(table@, rem.drop_first().drop_first(), false) {
                                Some(r) => assert(done + (its.push(ArgItem::Opt(k as int, Some(v@))) + r) =~= items_of(items@) + r),
                                None => {},
                            }
                        }
                        i = i + 2;
                    } else {
                        return None;
                    }
                },
            }
        } else {
            push_item(&mut items, ScanItem::Pos(t.to_owned()));
            proof {
                match scan(table@, rem.drop_first(), false) {
                    Some(r) => assert(done + (seq![ArgItem::Pos(t@)] + r) =~= items_of(items@) + r),
                    None => {},
                }
            }
            i = i + 1;
        }
    }
    proof {
        assert(token_texts(toks@).skip(n as int) =~= Seq::<Seq<char>>::empty());
        assert(items_of(items@) + Seq::<ArgItem>::empty() =~= items_of(items@));
    }
    Some(items)
}

} // verus!

verus! {

/// How often an option occurs among the items.
pub open spec fn count_opt(items: Seq<ArgItem>, k: int) -> nat
    decreases items.len(),
{
    if items.len() == 0 {
        0
    } else {
        count_opt(items.drop_last(), k) + match items.last() {
            ArgItem::Opt(j, _) => if j == k { 1nat } else { 0nat },
            ArgItem::Pos(_) => 0nat,
        }
    }
}

/// The value given with the last occurrence of option `k`.
pub open spec fn last_value(items: Seq<ArgItem>, k: int) -> Option<Seq<char>>
    decreases items.len(),
{
    if items.len() == 0 {
        None
    } else {
        match items.last() {
            ArgItem::Opt(j, v) => if j == k { v } else { last_value(items.drop_last(), k) },
            ArgItem::Pos(_) => last_value(items.drop_last(), k),
        }
    }
}

/// The positional arguments, in order.
pub open spec fn positionals(items: Seq<ArgItem>) -> Seq<Seq<char>>
    decreases items.len(),
{
    if items.len() == 0 {
        Seq::empty()
    } else {
        match items.last() {
            ArgItem::Opt(_, _) => positionals(items.drop_last()),
            ArgItem::Pos(p) => positionals(items.drop_last()).push(p),
        }
    }
}

/// An option as given on the command line: absent, given once (with its
/// value), or given more than once.
pub ghost enum FieldView {
    Absent,
    Once(Option<Seq<char>>),
    Repeated,
}

pub open spec fn field_of(items: Seq<ArgItem>, k: int) -> FieldView {
    let n = count_opt(items, k);
    if n == 0 {
        FieldView::Absent
    } else if n == 1 {
        FieldView::Once(last_value(items, k))
    } else {
        FieldView::Repeated
    }
}

/// An option as found among scanned items.
pub enum Field {
    Absent,
    Once(Option<String>),
    Repeated,
}

impl Field {
    pub open spec fn view_field(&self) -> FieldView {
        match self {
            Field::Absent => FieldView::Absent,
            Field::Once(v) => FieldView::Once(match v {
                Some(s) => Some(s@),
                None => None,
            }),
            Field::Repeated => FieldView::Repeated,
        }
    }
}

/// How option `k` occurs among the items.
pub fn lookup_field(items: &Vec<ScanItem>, k: usize) -> (r: Field)
    ensures
        r.view_field() == field_of(items_of(items@), k as int),
{
    let mut count: usize = 0;
    let mut value: Option<String> = None;
    let mut i: usize = 0;
    while i < items.len()
        invariant
            i <= items@.len(),
            count == count_opt(items_of(items@).take(i as int), k as int),
            count <= i,
            (match value {
                Some(s) => Some(s@),
                None => None,
            }) == last_value(items_of(items@).take(i as int), k as int),
        decreases items@.len() - i,
    {
        let ghost t = items_of(items@).take(i as int);
        let ghost t1 = items_of(items@).take(i as int + 1);
        assert(t1.drop_last() =~= t);
        assert(t1.last() == items@[i as int].item());
        match &items[i] {
            ScanItem::Opt(j, v) => {
                if *j == k {
                    count = count + 1;
                    value = match v {
                        Some(s) => Some(s.clone()),
                        None => None,
                    };
                }
            },
            ScanItem::Pos(_) => {},
        }
        i = i + 1;
    }
    assert(items_of(items@).take(items@.len() as int) =~= items_of(items@));
    if count == 0 {
        Field::Absent
    } else if count == 1 {
        Field::Once(value)
    } else {
        Field::Repeated
    }
}

/// The positional arguments among the items.
pub fn positional_args(items: &Vec<ScanItem>) -> (r: Vec<String>)
    ensures
        r@.map_values(|s: String| s@) == positionals(items_of(items@)),
{
    let mut r: Vec<String> = Vec::new();
    let mut i: usize = 0;
    while i < items.len()
        invariant
            i <= items@.len(),
            r@.map_values(|s: String| s@) == positionals(items_of(items@).take(i as int)),
        decreases items@.len() - i,
    {
        let ghost t = items_of(items@).take(i as int);
        let ghost t1 = items_of(items@).take(i as int + 1);
        assert(t1.drop_last() =~= t);
        assert(t1.last() == items@[i as int].item());
        let ghost before = r@;
        match &items[i] {
            ScanItem::Opt(_, _) => {},
            ScanItem::Pos(p) => {
                r.push(p.clone());
                assert(r@.map_values(|s: String| s@) =~= before.map_values(|s: String| s@).push(p@));
            },
        }
        i = i + 1;
    }
    assert(items_of(items@).take(items@.len() as int) =~= items_of(items@));
    r
}

} // verus!
