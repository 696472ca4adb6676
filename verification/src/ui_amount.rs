//! Amounts written with a decimal point, and how they are read.

use crate::amount::{
    all_digits, amount_to_ui_amount_string_trimmed, decimal_digits, digit_char, digit_value,
    digits_value, fraction_digits, is_digit, lemma_decimal_digits_value, lemma_pow10_bounds,
    pow10, pow10_u64, read_digits, ui_amount_string,
};
use vstd::arithmetic::div_mod::{
    lemma_fundamental_div_mod, lemma_mod_bound, lemma_multiply_divide_lt,
};
use crate::error::RebaseError;
use vstd::prelude::*;
use vstd::string::*;

verus! {

/// Whether the leading digits of `s` end at `k`: before `k` stand digits
/// only, and at `k` the text ends or something else stands.
pub open spec fn ends_leading_digits(s: Seq<char>, k: int) -> bool {
    &&& 0 <= k <= s.len()
    &&& all_digits(s.take(k))
    &&& (k < s.len() ==> !is_digit(s[k]))
}

/// The number of digits with which `s` begins.
pub open spec fn leading_digits(s: Seq<char>) -> int {
    choose|k: int| ends_leading_digits(s, k)
}

/// Whether `t` without its trailing zeros is `n` characters long.
pub open spec fn ends_without_zeros(t: Seq<char>, n: int) -> bool {
    &&& 0 <= n <= t.len()
    &&& (n > 0 ==> t[n - 1] != '0')
    &&& forall|i: int| n <= i < t.len() ==> t[i] == '0'
}

/// The length of `t` without its trailing zeros.
pub open spec fn trimmed_len(t: Seq<char>) -> int {
    choose|n: int| ends_without_zeros(t, n)
}

/// The leading digits of a text end at one place only.
pub proof fn lemma_leading_digits_unique(s: Seq<char>, a: int, b: int)
    requires
        ends_leading_digits(s, a),
        ends_leading_digits(s, b),
    ensures
        a == b,
{
    if a < b {
        assert(s.take(b)[a] == s[a]);
    }
    if b < a {
        assert(s.take(a)[b] == s[b]);
    }
}

/// The leading digits of every text end somewhere.
pub proof fn lemma_leading_digits(s: Seq<char>)
    ensures
        ends_leading_digits(s, leading_digits(s)),
    decreases s.len(),
{
    if s.len() == 0 {
        assert(ends_leading_digits(s, 0));
    } else {
        let t = s.drop_last();
        lemma_leading_digits(t);
        let k = leading_digits(t);
        if k < t.len() {
            assert(s.take(k) =~= t.take(k));
            assert(s[k] == t[k]);
            assert(ends_leading_digits(s, k));
        } else if is_digit(s.last()) {
            assert forall|i: int| 0 <= i < s.len() implies is_digit(
                #[trigger] s.take(s.len() as int)[i],
            ) by {
                if i < t.len() {
                    assert(t.take(k)[i] == s[i]);
                }
            }
            assert(ends_leading_digits(s, s.len() as int));
        } else {
            assert(s.take(k) =~= t.take(k));
            assert(ends_leading_digits(s, k));
        }
    }
}

/// A text without its trailing zeros has one length only.
pub proof fn lemma_trimmed_len_unique(t: Seq<char>, a: int, b: int)
    requires
        ends_without_zeros(t, a),
        ends_without_zeros(t, b),
    ensures
        a == b,
{
    if a < b {
        assert(t[b - 1] == '0');
    }
    if b < a {
        assert(t[a - 1] == '0');
    }
}

/// Every text has a length without its trailing zeros.
pub proof fn lemma_trimmed_len(t: Seq<char>)
    ensures
        ends_without_zeros(t, trimmed_len(t)),
    decreases t.len(),
{
    if t.len() == 0 {
        assert(ends_without_zeros(t, 0));
    } else if t.last() != '0' {
        assert(ends_without_zeros(t, t.len() as int));
    } else {
        let head = t.drop_last();
        lemma_trimmed_len(head);
        let n = trimmed_len(head);
        assert forall|i: int| n <= i < t.len() implies t[i] == '0' by {
            if i < head.len() {
                assert(head[i] == t[i]);
            }
        }
        if n > 0 {
            assert(head[n - 1] == t[n - 1]);
        }
        assert(ends_without_zeros(t, n));
    }
}

/// The amount that a whole part and a fraction write with `decimals`
/// fractional digits: `whole * 10^decimals + frac * 10^(decimals - length
/// of frac)`, where that fits in 64 bits.
pub open spec fn ui_value(whole: Seq<char>, frac: Seq<char>, decimals: nat) -> Option<u64> {
    let v = digits_value(whole) * pow10(decimals) + digits_value(frac) * pow10(
        (decimals - frac.len()) as nat,
    );
    if v <= u64::MAX {
        Some(v as u64)
    } else {
        None
    }
}

/// The raw amount that `s` writes with `decimals` fractional digits. `s` is
/// digits, or digits, a decimal point and digits; one of the two parts may
/// be empty, not both. Trailing zeros of the fraction do not count, and
/// what is left of it may not be longer than `decimals`.
pub open spec fn parse_ui_amount(s: Seq<char>, decimals: nat) -> Option<u64> {
    let k = leading_digits(s);
    let whole = s.take(k);
    if k == s.len() {
        if k == 0 {
            None
        } else {
            ui_value(whole, Seq::empty(), decimals)
        }
    } else if s[k] != '.' {
        None
    } else {
        let after = s.skip(k + 1);
        let frac = after.take(trimmed_len(after));
        if !all_digits(after) || (k == 0 && frac.len() == 0) || frac.len() > decimals {
            None
        } else {
            ui_value(whole, frac, decimals)
        }
    }
}

/// `value * 10^exponent`, where that fits in 64 bits.
pub open spec fn times_pow10(value: u64, exponent: nat) -> Option<u64> {
    if value * pow10(exponent) <= u64::MAX {
        Some((value * pow10(exponent)) as u64)
    } else {
        None
    }
}

/// Multiplies `value` by ten to the power `exponent`.
fn scale_pow10(value: u64, exponent: u8) -> (scaled: Option<u64>)
    ensures
        scaled == times_pow10(value, exponent as nat),
{
    proof {
        lemma_pow10_bounds(exponent as nat);
    }
    if value == 0 {
        assert(value * pow10(exponent as nat) == 0);
        Some(0)
    } else if exponent >= 20 {
        assert(value * pow10(exponent as nat) > u64::MAX) by (nonlinear_arith)
            requires
                value >= 1,
                pow10(exponent as nat) > u64::MAX,
        ;
        None
    } else {
        value.checked_mul(pow10_u64(exponent))
    }
}

/// A text with a character that is neither a digit nor the decimal point
/// writes no amount.
pub proof fn lemma_stray_character(s: Seq<char>, decimals: nat, j: int)
    requires
        0 <= j < s.len(),
        !is_digit(s[j]),
        s[j] != '.',
    ensures
        parse_ui_amount(s, decimals) is None,
{
    lemma_leading_digits(s);
    let k = leading_digits(s);
    if j < k {
        assert(s.take(k)[j] == s[j]);
    } else if s[k] == '.' {
        let after = s.skip(k + 1);
        assert(after[j - k - 1] == s[j]);
    }
}

/// Try to convert a UI representation of a token amount to its raw amount
/// using the given decimals field. Fails with `InvalidArgument` where the
/// text writes no amount with that many decimals, or one that does not fit
/// in 64 bits.
pub fn try_ui_amount_into_amount(ui_amount: &str, decimals: u8) -> (result: Result<
    u64,
    RebaseError,
>)
    ensures
        result == match parse_ui_amount(ui_amount@, decimals as nat) {
            Some(v) => Ok::<u64, RebaseError>(v),
            None => Err::<u64, RebaseError>(RebaseError::InvalidArgument),
        },
{
    broadcast use vstd::string::is_ascii_spec_bytes;

    let ghost s = ui_amount@;
    let ghost d = decimals as nat;
    if !ui_amount.is_ascii() {
        proof {
            let j = choose|j: int| 0 <= j < s.len() && !('\0' <= #[trigger] s[j] <= '\u{7f}');
            lemma_stray_character(s, d, j);
        }
        return Err(RebaseError::InvalidArgument);
    }
    let bytes = ui_amount.as_bytes();
    let n = bytes.len();
    assert(n == s.len());
    let mut k: usize = 0;
    while k < n && bytes[k] >= 48 && bytes[k] <= 57
        invariant
            k <= n,
            n == s.len(),
            s == ui_amount@,
            bytes@.len() == s.len(),
            is_ascii(ui_amount),
            bytes@ == ui_amount.spec_bytes(),
            all_digits(s.take(k as int)),
        decreases n - k,
    {
        let ghost c = s[k as int];
        assert(bytes@[k as int] == c as u8);
        assert('\0' <= c <= '\u{7f}');
        assert forall|i: int| 0 <= i < k + 1 implies is_digit(#[trigger] s.take(k + 1)[i]) by {
            if i < k {
                assert(s.take(k as int)[i] == s[i]);
            }
        }
        k += 1;
    }
    proof {
        if k < n {
            let c = s[k as int];
            assert(bytes@[k as int] == c as u8);
            assert('\0' <= c <= '\u{7f}');
            assert(!is_digit(c));
        }
        assert(ends_leading_digits(s, k as int));
        lemma_leading_digits(s);
        lemma_leading_digits_unique(s, k as int, leading_digits(s));
    }
    let ghost after = if k < n {
        s.skip(k + 1)
    } else {
        Seq::<char>::empty()
    };
    let mut end: usize = n;
    let start: usize = if k < n {
        k + 1
    } else {
        n
    };
    if k < n {
        assert(bytes@[k as int] == s[k as int] as u8);
        assert('\0' <= s[k as int] <= '\u{7f}');
        if bytes[k] != 46 {
            assert(s[k as int] != '.');
            return Err(RebaseError::InvalidArgument);
        }
        assert(s[k as int] == '.');
        while end > start && bytes[end - 1] == 48
            invariant
                start <= end <= n,
                start == k + 1,
                n == s.len(),
                s == ui_amount@,
                bytes@.len() == s.len(),
                is_ascii(ui_amount),
                bytes@ == ui_amount.spec_bytes(),
                forall|i: int| end <= i < n ==> s[i] == '0',
            decreases end,
        {
            let ghost c = s[end - 1];
            assert(bytes@[end - 1] == c as u8);
            assert('\0' <= c <= '\u{7f}');
            assert(c == '0');
            end -= 1;
        }
        proof {
            if end > start {
                let c = s[end - 1];
                assert(bytes@[end - 1] == c as u8);
                assert('\0' <= c <= '\u{7f}');
                assert(c != '0');
                assert(after[end - start - 1] == c);
            }
            assert forall|i: int| end - start <= i < after.len() implies after[i] == '0' by {
                assert(after[i] == s[start + i]);
            }
            assert(ends_without_zeros(after, end - start));
            lemma_trimmed_len(after);
            lemma_trimmed_len_unique(after, end - start, trimmed_len(after));
        }
    }
    let ghost whole = s.take(k as int);
    let ghost frac = s.subrange(start as int, end as int);
    proof {
        if k < n {
            assert(frac =~= after.take(trimmed_len(after)));
        } else {
            assert(frac =~= Seq::<char>::empty());
        }
        assert(whole =~= s.subrange(0, k as int));
    }
    let frac_len = end - start;
    if (k == 0 && frac_len == 0) || frac_len > decimals as usize {
        return Err(RebaseError::InvalidArgument);
    }
    proof {
        lemma_pow10_bounds(d);
        lemma_pow10_bounds((d - frac.len()) as nat);
    }
    let ghost unit = pow10(d);
    let ghost rest_unit = pow10((d - frac.len()) as nat);
    let whole_value = match read_digits(ui_amount, 0, k) {
        Some(v) => v,
        None => {
            assert(digits_value(whole) * unit + digits_value(frac) * rest_unit > u64::MAX)
                by (nonlinear_arith)
                requires
                    digits_value(whole) > u64::MAX,
                    unit >= 1,
                    rest_unit >= 1,
            ;
            return Err(RebaseError::InvalidArgument);
        },
    };
    let frac_value = match read_digits(ui_amount, start, end) {
        Some(v) => v,
        None => {
            proof {
                if all_digits(frac) {
                    assert(digits_value(whole) * unit + digits_value(frac) * rest_unit > u64::MAX)
                        by (nonlinear_arith)
                        requires
                            digits_value(frac) > u64::MAX,
                            unit >= 1,
                            rest_unit >= 1,
                    ;
                } else {
                    let j = choose|j: int| 0 <= j < frac.len() && !is_digit(#[trigger] frac[j]);
                    assert(after[j] == frac[j]);
                }
            }
            return Err(RebaseError::InvalidArgument);
        },
    };
    proof {
        if k < n {
            assert forall|i: int| 0 <= i < after.len() implies is_digit(#[trigger] after[i]) by {
                if i < frac.len() {
                    assert(after[i] == frac[i]);
                }
            }
        }
    }
    let whole_part = match scale_pow10(whole_value, decimals) {
        Some(v) => v,
        None => {
            assert(digits_value(whole) * unit + digits_value(frac) * rest_unit > u64::MAX)
                by (nonlinear_arith)
                requires
                    digits_value(whole) * unit > u64::MAX,
                    rest_unit >= 1,
            ;
            return Err(RebaseError::InvalidArgument);
        },
    };
    let frac_part = match scale_pow10(frac_value, decimals - frac_len as u8) {
        Some(v) => v,
        None => {
            assert(digits_value(whole) * unit + digits_value(frac) * rest_unit > u64::MAX)
                by (nonlinear_arith)
                requires
                    digits_value(frac) * rest_unit > u64::MAX,
                    unit >= 1,
            ;
            return Err(RebaseError::InvalidArgument);
        },
    };
    match whole_part.checked_add(frac_part) {
        Some(v) => Ok(v),
        None => Err(RebaseError::InvalidArgument),
    }
}


/// Powers of ten multiply as their exponents add.
pub proof fn lemma_pow10_add(a: nat, b: nat)
    ensures
        pow10(a + b) == pow10(a) * pow10(b),
    decreases a,
{
    if a == 0 {
        assert(pow10(0) == 1);
        assert(pow10(b) == 1 * pow10(b));
    } else {
        lemma_pow10_add((a - 1) as nat, b);
        let x = pow10((a - 1) as nat);
        let y = pow10(b);
        assert(pow10(a + b) == 10 * pow10((a - 1 + b) as nat));
        assert(10 * (x * y) == (10 * x) * y) by (nonlinear_arith);
    }
}

/// A digit in front of digits adds its value times the power of ten of
/// their number.
pub proof fn lemma_digits_value_prepend(c: char, t: Seq<char>)
    ensures
        digits_value(seq![c] + t) == digit_value(c) * pow10(t.len()) + digits_value(t),
    decreases t.len(),
{
    let s = seq![c] + t;
    if t.len() == 0 {
        assert(s.drop_last() =~= Seq::<char>::empty());
        assert(s.last() == c);
        assert(digits_value(s.drop_last()) == 0);
        assert(pow10(0) == 1);
        assert(digit_value(c) * 1 == digit_value(c));
    } else {
        let head = t.drop_last();
        lemma_digits_value_prepend(c, head);
        assert(s.drop_last() =~= seq![c] + head);
        assert(s.last() == t.last());
        let v = digit_value(c);
        let p = pow10(head.len());
        assert(pow10(t.len()) == 10 * p);
        assert(10 * (v * p + digits_value(head)) == v * (10 * p) + 10 * digits_value(head))
            by (nonlinear_arith);
    }
}

/// The digits of a fraction: they are digits, at most as many as the
/// fraction has places, the last of them is not zero, and with the places
/// that were left out filled by zeros they write the fraction.
pub proof fn lemma_fraction_digits(frac: nat, width: nat)
    requires
        frac < pow10(width),
    ensures
        all_digits(fraction_digits(frac, width)),
        fraction_digits(frac, width).len() <= width,
        frac == 0 ==> fraction_digits(frac, width).len() == 0,
        frac > 0 ==> fraction_digits(frac, width).len() > 0 && fraction_digits(
            frac,
            width,
        ).last() != '0',
        digits_value(fraction_digits(frac, width)) * pow10(
            (width - fraction_digits(frac, width).len()) as nat,
        ) == frac,
    decreases width,
{
    let t = fraction_digits(frac, width);
    if width == 0 || frac == 0 {
        assert(pow10(0) == 1);
        assert(t =~= Seq::<char>::empty());
        assert(digits_value(t) == 0);
        assert(0 * pow10(width) == 0);
    } else {
        let unit = pow10((width - 1) as nat);
        lemma_pow10_bounds((width - 1) as nat);
        let q = frac / unit;
        let r = frac % unit;
        lemma_fundamental_div_mod(frac as int, unit as int);
        lemma_mod_bound(frac as int, unit as int);
        assert(frac < unit * 10);
        lemma_multiply_divide_lt(frac as int, unit as int, 10);
        assert(0 <= q < 10) by (nonlinear_arith)
            requires
                q == frac / unit,
                frac / unit < 10,
                unit > 0,
                frac >= 0,
        ;
        let rest = fraction_digits(r, (width - 1) as nat);
        lemma_fraction_digits(r, (width - 1) as nat);
        let c = digit_char(q as int);
        assert(t == seq![c] + rest);
        assert(is_digit(c));
        assert(digit_value(c) == q);
        assert forall|i: int| 0 <= i < t.len() implies is_digit(#[trigger] t[i]) by {
            if i > 0 {
                assert(t[i] == rest[i - 1]);
            }
        }
        if r > 0 {
            assert(t.last() == rest.last());
        } else {
            assert(q > 0) by (nonlinear_arith)
                requires
                    frac == unit * q + r,
                    r == 0,
                    frac > 0,
                    q >= 0,
            ;
            assert(t.last() == c);
        }
        lemma_digits_value_prepend(c, rest);
        let gap = (width - 1 - rest.len()) as nat;
        lemma_pow10_add(rest.len(), gap);
        assert(pow10(rest.len()) * pow10(gap) == unit);
        assert((width - t.len()) as nat == gap);
        let a = pow10(rest.len());
        let b = pow10(gap);
        let v = digits_value(rest);
        assert((q * a + v) * b == q * (a * b) + v * b) by (nonlinear_arith);
        assert(q * unit == unit * q) by (nonlinear_arith);
    }
}

/// An amount that is shown with some number of decimals is read back, with
/// the same number of decimals, as the same amount.
pub proof fn lemma_ui_amount_round_trip(amount: u64, decimals: nat)
    ensures
        parse_ui_amount(ui_amount_string(amount as nat, decimals), decimals) == Some(amount),
{
    let unit = pow10(decimals);
    lemma_pow10_bounds(decimals);
    let w = amount as nat / unit;
    let f = amount as nat % unit;
    lemma_fundamental_div_mod(amount as int, unit as int);
    lemma_mod_bound(amount as int, unit as int);
    let whole = decimal_digits(w);
    lemma_decimal_digits_value(w);
    let s = ui_amount_string(amount as nat, decimals);
    lemma_leading_digits(s);
    assert(w * unit == unit * w) by (nonlinear_arith);
    if f == 0 {
        assert(s == whole);
        assert(s.take(s.len() as int) =~= s);
        assert(ends_leading_digits(s, s.len() as int));
        lemma_leading_digits_unique(s, s.len() as int, leading_digits(s));
        let none = Seq::<char>::empty();
        assert(digits_value(none) == 0);
        let filler = pow10((decimals - none.len()) as nat);
        assert(0 * filler == 0) by (nonlinear_arith);
        assert(ui_value(s.take(s.len() as int), none, decimals) == Some(amount));
    } else {
        let frac = fraction_digits(f, decimals);
        lemma_fraction_digits(f, decimals);
        assert(s == whole + seq!['.'] + frac);
        let k = whole.len() as int;
        assert(s.take(k) =~= whole);
        assert(s[k] == '.');
        assert(ends_leading_digits(s, k));
        lemma_leading_digits_unique(s, k, leading_digits(s));
        let after = s.skip(k + 1);
        assert(after =~= frac);
        lemma_trimmed_len(after);
        assert(ends_without_zeros(after, after.len() as int));
        lemma_trimmed_len_unique(after, after.len() as int, trimmed_len(after));
        assert(after.take(after.len() as int) =~= frac);
        assert(ui_value(whole, frac, decimals) == Some(amount));
    }
}


/// Shows `amount` with `decimals` fractional digits and reads the text
/// back. What is read is the amount itself, whatever the amount and the
/// number of decimals.
pub fn ui_amount_round_trip(amount: u64, decimals: u8) -> (result: Result<u64, RebaseError>)
    ensures
        result == Ok::<u64, RebaseError>(amount),
{
    let shown = amount_to_ui_amount_string_trimmed(amount, decimals);
    proof {
        lemma_ui_amount_round_trip(amount, decimals as nat);
    }
    try_ui_amount_into_amount(shown.as_str(), decimals)
}

} // verus!
