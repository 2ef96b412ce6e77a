use vstd::prelude::*;

use crate::text::{
    all_digits, int_text, is_ascii_char, is_digit, lemma_nat_text_reads_back, nat_text, push_char, push_nat,
    push_repeat, push_spaces, push_str, spaces,
};

verus! {

/// The characters of `s[..i]` with a comma after each character that has a
/// positive multiple of three characters of `s` after it.
pub open spec fn commas_prefix(s: Seq<char>, i: int) -> Seq<char>
    decreases i,
{
    if i <= 0 {
        Seq::empty()
    } else {
        let after = s.len() - i;
        let with_char = commas_prefix(s, i - 1).push(s[i - 1]);
        if after > 0 && after % 3 == 0 {
            with_char.push(',')
        } else {
            with_char
        }
    }
}

/// `s` with thousands separators: a comma after every character that has a
/// positive multiple of three characters after it.
pub open spec fn with_commas(s: Seq<char>) -> Seq<char> {
    commas_prefix(s, s.len() as int)
}

/// The magnitude of an amount.
pub open spec fn magnitude(amount: int) -> nat {
    if amount < 0 {
        (-amount) as nat
    } else {
        amount as nat
    }
}

/// An amount with thousands separators and no unit (`1500` -> `1,500`,
/// `-1500` -> `-1,500`): the sign, then the digits of its magnitude grouped
/// in threes.
pub open spec fn amount_digits(amount: int) -> Seq<char> {
    (if amount < 0 {
        seq!['-']
    } else {
        Seq::empty()
    }) + with_commas(nat_text(magnitude(amount)))
}

/// An amount with thousands separators and the yen sign (`1500` -> `1,500円`).
pub open spec fn amount_text(amount: int) -> Seq<char> {
    amount_digits(amount) + "円"@
}

/// An amount with an explicit sign (`80000` -> `+80,000円`).
pub open spec fn signed_amount_text(amount: int) -> Seq<char> {
    if amount >= 0 {
        seq!['+'] + amount_text(amount)
    } else {
        seq!['-'] + amount_text(-amount)
    }
}


/// `s` with its commas taken out.
pub open spec fn strip_commas(s: Seq<char>) -> Seq<char>
    decreases s.len(),
{
    if s.len() == 0 {
        Seq::empty()
    } else if s.last() == ',' {
        strip_commas(s.drop_last())
    } else {
        strip_commas(s.drop_last()).push(s.last())
    }
}

proof fn lemma_strip_push(a: Seq<char>, x: char)
    ensures
        strip_commas(a.push(x)) == if x == ',' {
            strip_commas(a)
        } else {
            strip_commas(a).push(x)
        },
{
    assert(a.push(x).drop_last() =~= a);
}

proof fn lemma_commas_prefix_strips(s: Seq<char>, i: int)
    requires
        0 <= i <= s.len(),
        forall|j: int| 0 <= j < s.len() ==> s[j] != ',',
    ensures
        strip_commas(commas_prefix(s, i)) == s.take(i),
    decreases i,
{
    if i == 0 {
        assert(s.take(0) =~= Seq::<char>::empty());
    } else {
        lemma_commas_prefix_strips(s, i - 1);
        let w = commas_prefix(s, i - 1).push(s[i - 1]);
        lemma_strip_push(commas_prefix(s, i - 1), s[i - 1]);
        lemma_strip_push(w, ',');
        assert(s.take(i - 1).push(s[i - 1]) =~= s.take(i));
    }
}

proof fn lemma_strip_concat(a: Seq<char>, b: Seq<char>)
    ensures
        strip_commas(a + b) == strip_commas(a) + strip_commas(b),
    decreases b.len(),
{
    if b.len() == 0 {
        assert(a + b =~= a);
        assert(strip_commas(a) + Seq::<char>::empty() =~= strip_commas(a));
    } else {
        assert((a + b).drop_last() =~= a + b.drop_last());
        assert((a + b).last() == b.last());
        lemma_strip_concat(a, b.drop_last());
        if b.last() != ',' {
            assert(strip_commas(a) + strip_commas(b.drop_last()).push(b.last()) =~= (strip_commas(a) + strip_commas(
                b.drop_last(),
            )).push(b.last()));
        }
    }
}

/// Thousands separators only add commas: taking them out of a formatted
/// amount gives the amount's plain decimal text.
pub proof fn law_separators_only_add_commas(amount: int)
    ensures
        strip_commas(amount_digits(amount)) == int_text(amount),
{
    let d = nat_text(magnitude(amount));
    lemma_nat_text_reads_back(magnitude(amount));
    assert forall|j: int| 0 <= j < d.len() implies d[j] != ',' by {
        assert(crate::text::is_digit(d[j]));
    }
    lemma_commas_prefix_strips(d, d.len() as int);
    assert(d.take(d.len() as int) =~= d);
    let sign: Seq<char> = if amount < 0 {
        seq!['-']
    } else {
        Seq::empty()
    };
    lemma_strip_concat(sign, with_commas(d));
    if amount < 0 {
        assert(seq!['-'].drop_last() =~= Seq::<char>::empty());
        assert(seq!['-'].last() == '-');
        assert(strip_commas(Seq::<char>::empty()) =~= Seq::<char>::empty());
        assert(strip_commas(sign) =~= seq!['-']);
    } else {
        assert(strip_commas(sign) =~= Seq::<char>::empty());
    }
    assert(strip_commas(amount_digits(amount)) =~= int_text(amount));
}

proof fn lemma_short_prefix(s: Seq<char>, i: int)
    requires
        s.len() <= 3,
        0 <= i <= s.len(),
    ensures
        commas_prefix(s, i) == s.take(i),
    decreases i,
{
    if i == 0 {
        assert(s.take(0) =~= Seq::<char>::empty());
    } else {
        lemma_short_prefix(s, i - 1);
        assert(s.take(i - 1).push(s[i - 1]) =~= s.take(i));
    }
}

proof fn lemma_prefix_shift(s: Seq<char>, i: int)
    requires
        s.len() >= 4,
        0 <= i <= s.len() - 3,
    ensures
        commas_prefix(s, i) == if i == s.len() - 3 {
            commas_prefix(s.take(s.len() - 3), i).push(',')
        } else {
            commas_prefix(s.take(s.len() - 3), i)
        },
    decreases i,
{
    let p = s.take(s.len() - 3);
    if i > 0 {
        lemma_prefix_shift(s, i - 1);
        assert(p[i - 1] == s[i - 1]);
        let after_s = s.len() - i;
        let after_p = p.len() - i;
        assert(after_s == after_p + 3);
        assert((after_p + 3) % 3 == after_p % 3);
    }
}

proof fn lemma_grouping(s: Seq<char>)
    requires
        s.len() >= 1,
        forall|j: int| 0 <= j < s.len() ==> s[j] != ',',
    ensures
        with_commas(s).len() == s.len() + (s.len() - 1) / 3,
        forall|j: int|
            0 <= j < with_commas(s).len() ==> ((#[trigger] with_commas(s)[j] == ',') == ((with_commas(s).len() - 1
                - j) % 4 == 3)),
    decreases s.len(),
{
    let n = s.len() as int;
    let g = with_commas(s);
    if n <= 3 {
        lemma_short_prefix(s, n);
        assert(s.take(n) =~= s);
    } else {
        let p = s.take(n - 3);
        assert forall|j: int| 0 <= j < p.len() implies p[j] != ',' by {
            assert(p[j] == s[j]);
        }
        lemma_grouping(p);
        lemma_prefix_shift(s, n - 3);
        let wp = with_commas(p);
        assert(commas_prefix(p, n - 3) == wp);
        let c3 = commas_prefix(s, n - 3);
        assert(commas_prefix(s, n - 2) == c3.push(s[n - 3]));
        assert(commas_prefix(s, n - 1) == c3.push(s[n - 3]).push(s[n - 2]));
        assert(commas_prefix(s, n) == c3.push(s[n - 3]).push(s[n - 2]).push(s[n - 1]));
        assert(g =~= wp.push(',').push(s[n - 3]).push(s[n - 2]).push(s[n - 1]));
        assert(g.len() == wp.len() + 4);
        assert(p.len() == n - 3);
        assert((n - 1) / 3 == (n - 4) / 3 + 1);
        assert forall|j: int| 0 <= j < g.len() implies ((#[trigger] g[j] == ',') == ((g.len() - 1 - j) % 4 == 3)) by {
            if j < wp.len() {
                assert(g[j] == wp[j]);
                assert(g.len() - 1 - j == (wp.len() - 1 - j) + 4);
                assert(((wp.len() - 1 - j) + 4) % 4 == (wp.len() - 1 - j) % 4);
            }
        }
    }
}

/// Commas fall every three digits from the right: an amount is written as
/// its sign and then its digits, a first group of one to three digits
/// followed by groups of exactly three, each group after the first led by
/// a comma. Counting from the right, position `k` (from 0) holds a comma
/// exactly when `k % 4 == 3`, and there are `(d - 1) / 3` commas for `d`
/// digits.
pub proof fn law_commas_every_three_digits(amount: int)
    ensures
        ({
            let d = nat_text(magnitude(amount));
            let g = with_commas(d);
            &&& amount_digits(amount) == (if amount < 0 {
                seq!['-']
            } else {
                Seq::empty()
            }) + g
            &&& g.len() == d.len() + (d.len() - 1) / 3
            &&& forall|j: int| 0 <= j < g.len() ==> ((#[trigger] g[j] == ',') == ((g.len() - 1 - j) % 4 == 3))
            &&& forall|j: int| 0 <= j < g.len() && g[j] != ',' ==> is_digit(#[trigger] g[j])
        }),
{
    let d = nat_text(magnitude(amount));
    lemma_nat_text_reads_back(magnitude(amount));
    assert forall|j: int| 0 <= j < d.len() implies d[j] != ',' by {
        assert(is_digit(d[j]));
    }
    lemma_grouping(d);
    lemma_commas_chars(d, d.len() as int);
}

proof fn lemma_commas_chars(s: Seq<char>, i: int)
    requires
        0 <= i <= s.len(),
        all_digits(s),
    ensures
        forall|j: int|
            0 <= j < commas_prefix(s, i).len() && commas_prefix(s, i)[j] != ',' ==> is_digit(
                #[trigger] commas_prefix(s, i)[j],
            ),
    decreases i,
{
    if i > 0 {
        lemma_commas_chars(s, i - 1);
        assert(is_digit(s[i - 1]));
        let c = commas_prefix(s, i - 1);
        let w = c.push(s[i - 1]);
        let x = commas_prefix(s, i);
        assert forall|j: int| 0 <= j < x.len() && x[j] != ',' implies is_digit(#[trigger] x[j]) by {
            if j < c.len() {
                assert(x[j] == c[j]);
            } else if j == c.len() {
                assert(x[j] == w[j]);
            }
        }
    }
}

/// Appends `s` with thousands separators.
fn push_with_commas(out: &mut String, s: &str)
    ensures
        final(out)@ == old(out)@ + with_commas(s@),
{
    let ghost start = out@;
    let n = s.unicode_len();
    let mut i: usize = 0;
    while i < n
        invariant
            n == s@.len(),
            i <= n,
            out@ == start + commas_prefix(s@, i as int),
        decreases n - i,
    {
        let c = s.get_char(i);
        push_char(out, c);
        let after = n - 1 - i;
        if after > 0 && after % 3 == 0 {
            push_char(out, ',');
        }
        i = i + 1;
        assert(out@ =~= start + commas_prefix(s@, i as int));
    }
}

/// An amount with thousands separators, without the yen sign
/// (`1500` -> `"1,500"`, `-100` -> `"-100"`); the sign is written before the
/// digits are grouped.
pub fn format_amount_raw(amount: i64) -> (r: String)
    ensures
        r@ == amount_digits(amount as int),
{
    let mag: u64 = if amount < 0 {
        (0i128 - amount as i128) as u64
    } else {
        amount as u64
    };
    let mut digits = String::new();
    push_nat(&mut digits, mag);
    let mut r = String::new();
    if amount < 0 {
        push_char(&mut r, '-');
    }
    push_with_commas(&mut r, digits.as_str());
    assert(r@ =~= amount_digits(amount as int));
    r
}

/// An amount with thousands separators and the yen sign
/// (`1500` -> `"1,500円"`).
pub fn format_amount(amount: i64) -> (r: String)
    ensures
        r@ == amount_text(amount as int),
{
    let mut r = format_amount_raw(amount);
    push_str(&mut r, "円");
    r
}

/// An amount with an explicit `+` or `-` (`80000` -> `"+80,000円"`,
/// `-20000` -> `"-20,000円"`, `0` -> `"+0円"`).
pub fn format_signed_amount(amount: i64) -> (r: String)
    requires
        amount != i64::MIN,
    ensures
        r@ == signed_amount_text(amount as int),
{
    let mut r = String::new();
    if amount >= 0 {
        push_char(&mut r, '+');
        let a = format_amount(amount);
        push_str(&mut r, a.as_str());
    } else {
        push_char(&mut r, '-');
        let a = format_amount(-amount);
        push_str(&mut r, a.as_str());
    }
    assert(r@ =~= signed_amount_text(amount as int));
    r
}

/// `k` is the position of the first `-` in `s`.
pub open spec fn first_dash(s: Seq<char>, k: int) -> bool {
    0 <= k < s.len() && s[k] == '-' && forall|j: int| 0 <= j < k ==> s[j] != '-'
}

/// `YYYY-MM` shown as `YYYY年MM月`: the text before the first `-`, `年`,
/// the text after it, `月`; a text without `-` is shown unchanged.
pub open spec fn month_label(m: Seq<char>) -> Seq<char> {
    if exists|k: int| first_dash(m, k) {
        let k = choose|k: int| first_dash(m, k);
        m.take(k) + "年"@ + m.skip(k + 1) + "月"@
    } else {
        m
    }
}

pub proof fn lemma_first_dash_unique(s: Seq<char>, a: int, b: int)
    requires
        first_dash(s, a),
        first_dash(s, b),
    ensures
        a == b,
{
}

/// The position of the first `-` in `s`, if any.
pub(crate) fn find_dash(s: &str) -> (r: Option<usize>)
    ensures
        match r {
            Some(k) => first_dash(s@, k as int),
            None => forall|k: int| !first_dash(s@, k),
        },
{
    let n = s.unicode_len();
    let mut i: usize = 0;
    while i < n
        invariant
            n == s@.len(),
            i <= n,
            forall|j: int| 0 <= j < i ==> s@[j] != '-',
        decreases n - i,
    {
        if s.get_char(i) == '-' {
            return Some(i);
        }
        i = i + 1;
    }
    None
}

/// `"2025-04"` -> `"2025年04月"`. A text without `-` is returned unchanged.
pub fn format_month_display(month: &str) -> (r: String)
    ensures
        r@ == month_label(month@),
{
    match find_dash(month) {
        Some(k) => {
            let n = month.unicode_len();
            let mut r = month.substring_char(0, k).to_owned();
            push_str(&mut r, "年");
            push_str(&mut r, month.substring_char(k + 1, n));
            push_str(&mut r, "月");
            proof {
                let c = choose|j: int| first_dash(month@, j);
                lemma_first_dash_unique(month@, c, k as int);
            }
            r
        },
        None => month.to_owned(),
    }
}

/// Columns a character takes on a terminal: 1 for ASCII, 2 otherwise.
pub open spec fn char_width(c: char) -> int {
    if is_ascii_char(c) {
        1
    } else {
        2
    }
}

/// Columns a text takes on a terminal.
pub open spec fn display_width(s: Seq<char>) -> int
    decreases s.len(),
{
    if s.len() == 0 {
        0
    } else {
        display_width(s.drop_last()) + char_width(s.last())
    }
}

/// `s` followed by spaces up to `width` columns (unchanged when already
/// that wide).
pub open spec fn padded_right(s: Seq<char>, width: int) -> Seq<char> {
    if display_width(s) >= width {
        s
    } else {
        s + spaces(width - display_width(s))
    }
}

/// `s` preceded by spaces up to `width` columns (unchanged when already
/// that wide).
pub open spec fn padded_left(s: Seq<char>, width: int) -> Seq<char> {
    if display_width(s) >= width {
        s
    } else {
        spaces(width - display_width(s)) + s
    }
}

/// The terminal width of `s`.
pub(crate) fn text_width(s: &str) -> (r: u128)
    ensures
        r == display_width(s@),
{
    let n = s.unicode_len();
    let mut w: u128 = 0;
    let mut i: usize = 0;
    while i < n
        invariant
            n == s@.len(),
            i <= n,
            w == display_width(s@.take(i as int)),
            w <= 2 * i,
        decreases n - i,
    {
        let c = s.get_char(i);
        assert(s@.take(i as int + 1).drop_last() =~= s@.take(i as int));
        if (c as u32) < 128 {
            w = w + 1;
        } else {
            w = w + 2;
        }
        i = i + 1;
    }
    assert(s@.take(n as int) =~= s@);
    w
}


proof fn lemma_width_concat(a: Seq<char>, b: Seq<char>)
    ensures
        display_width(a + b) == display_width(a) + display_width(b),
    decreases b.len(),
{
    if b.len() == 0 {
        assert(a + b =~= a);
    } else {
        assert((a + b).drop_last() =~= a + b.drop_last());
        assert((a + b).last() == b.last());
        lemma_width_concat(a, b.drop_last());
    }
}

proof fn lemma_width_spaces(n: int)
    ensures
        display_width(spaces(n)) == if n > 0 {
            n
        } else {
            0
        },
    decreases n,
{
    if n > 0 {
        lemma_width_spaces(n - 1);
        assert(spaces(n).drop_last() =~= spaces(n - 1));
        assert(spaces(n).last() == ' ');
    }
}

/// Padding makes a text exactly `width` columns wide, and leaves a text
/// that is already that wide as it is; the text itself is kept, first when
/// padding on the right and last when padding on the left.
pub proof fn law_padding_reaches_the_width(s: Seq<char>, width: int)
    ensures
        display_width(padded_right(s, width)) == if display_width(s) >= width {
            display_width(s)
        } else {
            width
        },
        display_width(padded_left(s, width)) == display_width(padded_right(s, width)),
        padded_right(s, width).take(s.len() as int) == s,
        padded_left(s, width).skip(padded_left(s, width).len() - s.len()) == s,
{
    let n = width - display_width(s);
    lemma_width_spaces(n);
    lemma_width_concat(s, spaces(n));
    lemma_width_concat(spaces(n), s);
    assert((s + spaces(n)).take(s.len() as int) =~= s);
    assert(s.take(s.len() as int) =~= s);
    assert(s.skip(0) =~= s);
    assert((spaces(n) + s).skip((spaces(n) + s).len() - s.len()) =~= s);
}

/// Pads `s` with spaces on the right to `width` terminal columns.
pub fn pad_display(s: &str, width: usize) -> (r: String)
    ensures
        r@ == padded_right(s@, width as int),
{
    let w = text_width(s);
    let mut r = s.to_owned();
    if w < width as u128 {
        push_spaces(&mut r, width - w as usize);
    }
    r
}

/// Pads `s` with spaces on the left to `width` terminal columns.
pub fn right_align(s: &str, width: usize) -> (r: String)
    ensures
        r@ == padded_left(s@, width as int),
{
    let w = text_width(s);
    let mut r = String::new();
    if w < width as u128 {
        push_spaces(&mut r, width - w as usize);
    }
    push_str(&mut r, s);
    r
}

/// `n` copies of `c`.
pub open spec fn repeat_char(c: char, n: int) -> Seq<char>
    decreases n,
{
    if n <= 0 {
        Seq::empty()
    } else {
        repeat_char(c, n - 1).push(c)
    }
}

proof fn lemma_repeat_char(c: char, n: int)
    ensures
        n >= 0 ==> repeat_char(c, n).len() == n,
        forall|i: int| 0 <= i < repeat_char(c, n).len() ==> repeat_char(c, n)[i] == c,
    decreases n,
{
    if n > 0 {
        lemma_repeat_char(c, n - 1);
    }
}

/// A ten-segment bar with `filled` full segments: `"████████░░"` for 8.
pub fn progress_bar_segments(filled: usize) -> (r: String)
    requires
        filled <= 10,
    ensures
        r@ == repeat_char('█', filled as int) + repeat_char('░', 10 - filled),
{
    let mut r = String::new();
    push_repeat(&mut r, '█', filled);
    let ghost mid = r@;
    push_repeat(&mut r, '░', 10 - filled);
    proof {
        lemma_repeat_char('█', filled as int);
        lemma_repeat_char('░', 10 - filled);
        assert(mid =~= repeat_char('█', filled as int));
        assert(r@ =~= repeat_char('█', filled as int) + repeat_char('░', 10 - filled));
    }
    r
}

} // verus!
