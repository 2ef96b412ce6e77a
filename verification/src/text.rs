use vstd::prelude::*;

verus! {

/// The text of an optional string.
pub open spec fn opt_text(o: Option<String>) -> Option<Seq<char>> {
    match o {
        Some(s) => Some(s@),
        None => None,
    }
}


/// Character-by-character equality of two string slices.
pub fn str_equal(a: &str, b: &str) -> (r: bool)
    ensures
        r == (a@ == b@),
{
    let n = a.unicode_len();
    let m = b.unicode_len();
    if n != m {
        return false;
    }
    let mut i: usize = 0;
    while i < n
        invariant
            n == a@.len(),
            m == b@.len(),
            n == m,
            i <= n,
            forall|j: int| 0 <= j < i ==> a@[j] == b@[j],
        decreases n - i,
    {
        if a.get_char(i) != b.get_char(i) {
            return false;
        }
        i = i + 1;
    }
    assert(a@ =~= b@);
    true
}

/// Calls `String::push`, which appends the character to the end of the
/// string; the contract claims just that of the string's characters.
#[verifier::external_body]
pub(crate) fn push_char(s: &mut String, c: char)
    ensures
        final(s)@ == old(s)@.push(c),
{
    s.push(c);
}

/// Appends a string slice.
pub(crate) fn push_str(s: &mut String, t: &str)
    ensures
        final(s)@ == old(s)@ + t@,
{
    s.append(t);
}

/// Whether a character is ASCII.
pub open spec fn is_ascii_char(c: char) -> bool {
    (c as int) < 128
}

/// The decimal digit character for `d` (0..=9).
pub open spec fn digit_char(d: int) -> char {
    (48 + d) as char
}

/// The value of a decimal digit character.
pub open spec fn digit_value(c: char) -> int {
    c as int - 48
}

/// Whether `c` is one of `0`..`9`.
pub open spec fn is_digit(c: char) -> bool {
    48 <= (c as int) <= 57
}

/// Whether every character of `s` is a decimal digit.
pub open spec fn all_digits(s: Seq<char>) -> bool {
    forall|i: int| 0 <= i < s.len() ==> is_digit(#[trigger] s[i])
}

/// The value of a string of decimal digits.
pub open spec fn digits_value(s: Seq<char>) -> nat
    decreases s.len(),
{
    if s.len() == 0 {
        0
    } else {
        (digits_value(s.drop_last()) * 10 + digit_value(s.last())) as nat
    }
}

/// The decimal representation of a natural number, without leading zeros.
pub open spec fn nat_text(n: nat) -> Seq<char>
    decreases n,
{
    if n < 10 {
        seq![digit_char(n as int)]
    } else {
        nat_text(n / 10).push(digit_char((n % 10) as int))
    }
}

/// The decimal representation of an integer, with `-` for negative values.
pub open spec fn int_text(v: int) -> Seq<char> {
    if v < 0 {
        seq!['-'] + nat_text((-v) as nat)
    } else {
        nat_text(v as nat)
    }
}

/// `n` zeros followed by nothing: `0` repeated.
pub open spec fn zeros(n: int) -> Seq<char>
    decreases n,
{
    if n <= 0 {
        Seq::empty()
    } else {
        zeros(n - 1).push('0')
    }
}

/// `n` spaces.
pub open spec fn spaces(n: int) -> Seq<char>
    decreases n,
{
    if n <= 0 {
        Seq::empty()
    } else {
        spaces(n - 1).push(' ')
    }
}

/// An integer written with at least `width` characters, zeros inserted
/// after the sign (Rust's `{:0width$}`).
pub open spec fn zero_padded(v: int, width: int) -> Seq<char> {
    let sign: Seq<char> = if v < 0 { seq!['-'] } else { Seq::empty() };
    let digits = nat_text(if v < 0 { (-v) as nat } else { v as nat });
    sign + zeros(width - sign.len() - digits.len()) + digits
}

/// The digit character for a value below ten.
fn digit_to_char(d: u64) -> (c: char)
    requires
        d < 10,
    ensures
        c == digit_char(d as int),
{
    match d {
        0 => '0',
        1 => '1',
        2 => '2',
        3 => '3',
        4 => '4',
        5 => '5',
        6 => '6',
        7 => '7',
        8 => '8',
        _ => '9',
    }
}

/// Appends the decimal representation of `n`.
pub(crate) fn push_nat(out: &mut String, n: u64)
    ensures
        final(out)@ == old(out)@ + nat_text(n as nat),
    decreases n,
{
    if n >= 10 {
        push_nat(out, n / 10);
    }
    push_char(out, digit_to_char(n % 10));
    proof {
        if n >= 10 {
            assert(nat_text(n as nat) == nat_text((n / 10) as nat).push(digit_char((n % 10) as int)));
        }
    }
}

/// Appends `n` copies of `c`.
pub(crate) fn push_repeat(out: &mut String, c: char, n: usize)
    ensures
        final(out)@.len() == old(out)@.len() + n,
        final(out)@.take(old(out)@.len() as int) == old(out)@,
        forall|i: int| old(out)@.len() <= i < final(out)@.len() ==> final(out)@[i] == c,
{
    let ghost start = out@;
    let mut i: usize = 0;
    while i < n
        invariant
            i <= n,
            out@.len() == start.len() + i,
            out@.take(start.len() as int) == start,
            forall|j: int| start.len() <= j < out@.len() ==> out@[j] == c,
        decreases n - i,
    {
        push_char(out, c);
        assert(out@.take(start.len() as int) =~= start);
        i = i + 1;
    }
}

pub proof fn lemma_spaces_len(n: int)
    ensures
        n >= 0 ==> spaces(n).len() == n,
        forall|i: int| 0 <= i < spaces(n).len() ==> spaces(n)[i] == ' ',
    decreases n,
{
    if n > 0 {
        lemma_spaces_len(n - 1);
    }
}

pub proof fn lemma_zeros_len(n: int)
    ensures
        n >= 0 ==> zeros(n).len() == n,
        n < 0 ==> zeros(n).len() == 0,
        forall|i: int| 0 <= i < zeros(n).len() ==> zeros(n)[i] == '0',
    decreases n,
{
    if n > 0 {
        lemma_zeros_len(n - 1);
    }
}

/// Appends `n` spaces.
pub(crate) fn push_spaces(out: &mut String, n: usize)
    ensures
        final(out)@ == old(out)@ + spaces(n as int),
{
    let ghost start = out@;
    push_repeat(out, ' ', n);
    proof {
        lemma_spaces_len(n as int);
        assert(out@ =~= start + spaces(n as int));
    }
}

/// Appends `n` zeros.
pub(crate) fn push_zeros(out: &mut String, n: usize)
    ensures
        final(out)@ == old(out)@ + zeros(n as int),
{
    let ghost start = out@;
    push_repeat(out, '0', n);
    proof {
        lemma_zeros_len(n as int);
        assert(out@ =~= start + zeros(n as int));
    }
}

pub proof fn lemma_nat_text_len(n: nat)
    ensures
        nat_text(n).len() >= 1,
        n < 10 ==> nat_text(n).len() == 1,
        n >= 10 ==> nat_text(n).len() == nat_text(n / 10).len() + 1,
    decreases n,
{
    if n >= 10 {
        lemma_nat_text_len(n / 10);
    }
}


/// `nat_text(n)` is a string of digits that reads back as `n`.
pub proof fn lemma_nat_text_reads_back(n: nat)
    ensures
        all_digits(nat_text(n)),
        nat_text(n).len() >= 1,
        digits_value(nat_text(n)) == n,
    decreases n,
{
    lemma_nat_text_len(n);
    lemma_digit_char_value((n % 10) as int);
    if n < 10 {
        let s = nat_text(n);
        assert(s.drop_last() =~= Seq::<char>::empty());
        assert(n % 10 == n);
        assert(s.last() == digit_char(n as int));
        assert(digits_value(s.drop_last()) == 0);
        assert(is_digit(s[0]));
    } else {
        lemma_nat_text_reads_back(n / 10);
        let s = nat_text(n);
        let p = nat_text(n / 10);
        assert(s.drop_last() =~= p);
        assert(s.last() == digit_char((n % 10) as int));
        assert(n == (n / 10) * 10 + n % 10) by (nonlinear_arith);
        assert forall|i: int| 0 <= i < s.len() implies is_digit(#[trigger] s[i]) by {
            if i < p.len() {
                assert(s[i] == p[i]);
            }
        }
    }
}

proof fn lemma_digit_char_value(d: int)
    requires
        0 <= d < 10,
    ensures
        digit_value(digit_char(d)) == d,
        is_digit(digit_char(d)),
{
    assert(((48 + d) as char) as int == 48 + d);
}

/// Zeros read as zero.
pub proof fn lemma_zeros_read_zero(k: int)
    ensures
        all_digits(zeros(k)),
        digits_value(zeros(k)) == 0,
    decreases k,
{
    lemma_zeros_len(k);
    if k > 0 {
        lemma_zeros_read_zero(k - 1);
        assert(zeros(k).drop_last() =~= zeros(k - 1));
    }
}

/// Digits of value zero in front of `b` do not change what `b` reads as.
pub proof fn lemma_leading_zero_digits(a: Seq<char>, b: Seq<char>)
    requires
        all_digits(a),
        all_digits(b),
        digits_value(a) == 0,
    ensures
        all_digits(a + b),
        digits_value(a + b) == digits_value(b),
    decreases b.len(),
{
    assert forall|i: int| 0 <= i < (a + b).len() implies is_digit(#[trigger] (a + b)[i]) by {
        if i < a.len() {
            assert((a + b)[i] == a[i]);
        } else {
            assert((a + b)[i] == b[i - a.len()]);
        }
    }
    if b.len() == 0 {
        assert(a + b =~= a);
    } else {
        let bd = b.drop_last();
        assert((a + b).drop_last() =~= a + bd);
        assert((a + b).last() == b.last());
        assert forall|i: int| 0 <= i < bd.len() implies is_digit(#[trigger] bd[i]) by {
            assert(bd[i] == b[i]);
        }
        lemma_leading_zero_digits(a, bd);
    }
}

/// A non-negative value written with leading zeros reads back as itself.
pub proof fn lemma_zero_padded_reads_back(v: int, width: int, signed: bool)
    requires
        v >= 0,
    ensures
        all_digits(zero_padded(v, width)),
        numeral_value(zero_padded(v, width), signed) == Some(v),
{
    let z = zeros(width - nat_text(v as nat).len());
    let d = nat_text(v as nat);
    lemma_zeros_read_zero(width - d.len());
    lemma_nat_text_reads_back(v as nat);
    lemma_leading_zero_digits(z, d);
    let s = zero_padded(v, width);
    assert(s =~= z + d);
    assert(is_digit(s[0]));
}

/// Ten to the power `k`.
pub open spec fn pow10(k: nat) -> nat
    decreases k,
{
    if k == 0 {
        1
    } else {
        10 * pow10((k - 1) as nat)
    }
}

pub proof fn lemma_nat_text_len_bound(n: nat, k: nat)
    requires
        k >= 1,
        n < pow10(k),
    ensures
        nat_text(n).len() <= k,
    decreases k,
{
    lemma_nat_text_len(n);
    if n >= 10 {
        if k == 1 {
            assert(pow10(1) == 10 * pow10(0));
        } else {
            let p = pow10((k - 1) as nat);
            assert(n < 10 * p);
            assert(n / 10 < p) by (nonlinear_arith)
                requires
                    n < 10 * p,
            ;
            lemma_nat_text_len_bound(n / 10, (k - 1) as nat);
        }
    }
}

/// What Rust's `i64::from_str` returns.
pub open spec fn parse_i64_spec(s: Seq<char>) -> Option<i64> {
    match parse_int_in(s, true, i64::MIN as int, i64::MAX as int) {
        Some(v) => Some(v as i64),
        None => None,
    }
}

/// Reads an `i64` the way `i64::from_str` does.
pub fn parse_i64(s: &str) -> (r: Option<i64>)
    ensures
        r == parse_i64_spec(s@),
{
    parse_int(s, 9223372036854775808, 9223372036854775807)
}

/// The position of the first `ch` in `s` at or after `i`.
pub open spec fn find_char_from(s: Seq<char>, ch: char, i: int) -> Option<int>
    decreases s.len() - i,
{
    if i < 0 || i >= s.len() {
        None
    } else if s[i] == ch {
        Some(i)
    } else {
        find_char_from(s, ch, i + 1)
    }
}

/// The position of the first `ch` in `s`.
pub open spec fn index_of_char(s: Seq<char>, ch: char) -> Option<int> {
    find_char_from(s, ch, 0)
}

/// The position of the first `ch` in `s`, if any.
pub fn find_char(s: &str, ch: char) -> (r: Option<usize>)
    ensures
        match r {
            Some(k) => index_of_char(s@, ch) == Some(k as int) && k < s@.len() && s@[k as int] == ch,
            None => index_of_char(s@, ch) is None,
        },
{
    let n = s.unicode_len();
    let mut i: usize = 0;
    while i < n
        invariant
            n == s@.len(),
            i <= n,
            index_of_char(s@, ch) == find_char_from(s@, ch, i as int),
        decreases n - i,
    {
        if s.get_char(i) == ch {
            return Some(i);
        }
        i = i + 1;
    }
    None
}

/// Number of decimal digits of `n`.
fn nat_digit_count(n: u64) -> (r: usize)
    ensures
        r == nat_text(n as nat).len(),
        r <= 20,
    decreases n,
{
    proof {
        lemma_nat_text_len(n as nat);
        reveal_with_fuel(pow10, 21);
        assert(pow10(20) == 100000000000000000000);
        lemma_nat_text_len_bound(n as nat, 20);
    }
    if n < 10 {
        1
    } else {
        let k = nat_digit_count(n / 10);
        k + 1
    }
}

/// Appends `v` written with at least `width` characters, zero-padded after
/// the sign (Rust's `{:0width$}` for integers).
pub(crate) fn push_zero_padded(out: &mut String, v: i64, width: usize)
    ensures
        final(out)@ == old(out)@ + zero_padded(v as int, width as int),
{
    let ghost start = out@;
    let neg = v < 0;
    let mag: u64 = if neg { (-(v as i128)) as u64 } else { v as u64 };
    let sign_len: usize = if neg { 1 } else { 0 };
    if neg {
        push_char(out, '-');
    }
    let ghost after_sign = out@;
    let digits = nat_digit_count(mag);
    if width > sign_len && width - sign_len > digits {
        push_zeros(out, width - sign_len - digits);
    } else {
        proof {
            lemma_zeros_len(width - sign_len - digits);
        }
        assert(zeros(width - sign_len - digits) =~= Seq::<char>::empty());
    }
    let ghost after_zeros = out@;
    push_nat(out, mag);
    proof {
        let sign: Seq<char> = if neg { seq!['-'] } else { Seq::empty() };
        assert(after_sign =~= start + sign);
        assert(out@ =~= start + sign + zeros(width - sign.len() - nat_text(mag as nat).len())
            + nat_text(mag as nat));
    }
}

/// Appends the decimal representation of `v` (with `-` when negative).
pub(crate) fn push_int(out: &mut String, v: i64)
    ensures
        final(out)@ == old(out)@ + int_text(v as int),
{
    let ghost start = out@;
    if v < 0 {
        push_char(out, '-');
        let mag: u64 = (-(v as i128)) as u64;
        push_nat(out, mag);
        assert(out@ =~= start + int_text(v as int));
    } else {
        push_nat(out, v as u64);
    }
}

/// The value of an optionally signed decimal numeral: an optional `+` or `-`
/// followed by at least one digit (what Rust's integer `from_str` accepts,
/// before the range check). `signed` says whether `-` is allowed.
pub open spec fn numeral_value(s: Seq<char>, signed: bool) -> Option<int> {
    if s.len() > 0 && s[0] == '+' {
        if s.len() >= 2 && all_digits(s.skip(1)) {
            Some(digits_value(s.skip(1)) as int)
        } else {
            None
        }
    } else if signed && s.len() > 0 && s[0] == '-' {
        if s.len() >= 2 && all_digits(s.skip(1)) {
            Some(-(digits_value(s.skip(1)) as int))
        } else {
            None
        }
    } else if s.len() >= 1 && all_digits(s) {
        Some(digits_value(s) as int)
    } else {
        None
    }
}

/// What Rust's `from_str` for an integer type with range `[lo, hi]` returns.
pub open spec fn parse_int_in(s: Seq<char>, signed: bool, lo: int, hi: int) -> Option<int> {
    match numeral_value(s, signed) {
        Some(v) => if lo <= v <= hi { Some(v) } else { None },
        None => None,
    }
}

pub proof fn lemma_digits_value_monotone(s: Seq<char>, k: int)
    requires
        0 <= k <= s.len(),
        all_digits(s),
    ensures
        digits_value(s.take(k)) <= digits_value(s),
    decreases s.len() - k,
{
    if k < s.len() {
        lemma_digits_value_monotone(s, k + 1);
        assert(s.take(k + 1).drop_last() =~= s.take(k));
    } else {
        assert(s.take(k) =~= s);
    }
}

/// The value of the digits `s[from..]` if it does not exceed `bound`.
fn digits_up_to(s: &str, from: usize, n: usize, bound: u128) -> (r: Option<u128>)
    requires
        n == s@.len(),
        from <= n,
        bound <= u128::MAX / 20,
    ensures
        match r {
            Some(v) => all_digits(s@.skip(from as int)) && v == digits_value(s@.skip(from as int))
                && v <= bound,
            None => !all_digits(s@.skip(from as int)) || digits_value(s@.skip(from as int)) > bound,
        },
{
    let ghost t = s@.skip(from as int);
    let mut acc: u128 = 0;
    let mut i: usize = from;
    while i < n
        invariant
            n == s@.len(),
            from <= i <= n,
            t == s@.skip(from as int),
            bound <= u128::MAX / 20,
            all_digits(t.take(i - from)),
            acc == digits_value(t.take(i - from)),
            acc <= bound,
        decreases n - i,
    {
        let c = s.get_char(i);
        if !('0' <= c && c <= '9') {
            assert(t[i - from] == c);
            return None;
        }
        let d: u128 = ((c as u32) - 48) as u128;
        assert(t.take(i - from + 1).drop_last() =~= t.take(i - from));
        assert(t.take(i - from + 1).last() == c);
        let next = acc * 10 + d;
        assert(all_digits(t.take(i - from + 1)));
        if next > bound {
            proof {
                if all_digits(t) {
                    lemma_digits_value_monotone(t, i - from + 1);
                }
            }
            return None;
        }
        acc = next;
        i = i + 1;
    }
    assert(t.take(i - from) =~= t);
    Some(acc)
}

/// Parses an integer the way Rust's `from_str` does for a type whose range
/// is `[-neg_bound, pos_bound]` (`neg_bound` is 0 for unsigned types).
pub(crate) fn parse_int(s: &str, neg_bound: u64, pos_bound: u64) -> (r: Option<i64>)
    requires
        neg_bound <= 9223372036854775808,
        pos_bound <= 9223372036854775807,
    ensures
        r == (match parse_int_in(s@, neg_bound > 0, -(neg_bound as int), pos_bound as int) {
            Some(v) => Some(v as i64),
            None => None::<i64>,
        }),
{
    let n = s.unicode_len();
    if n == 0 {
        return None;
    }
    let c0 = s.get_char(0);
    if c0 == '+' || (neg_bound > 0 && c0 == '-') {
        if n < 2 {
            return None;
        }
        let bound: u128 = if c0 == '+' { pos_bound as u128 } else { neg_bound as u128 };
        match digits_up_to(s, 1, n, bound) {
            Some(v) => {
                if c0 == '+' {
                    Some(v as i64)
                } else {
                    Some((-(v as i128)) as i64)
                }
            },
            None => None,
        }
    } else {
        assert(s@.skip(0) =~= s@);
        match digits_up_to(s, 0, n, pos_bound as u128) {
            Some(v) => Some(v as i64),
            None => {
                proof {
                    if s@.len() >= 1 && all_digits(s@) {
                        assert(!is_digit('+'));
                    }
                }
                None
            },
        }
    }
}

} // verus!
