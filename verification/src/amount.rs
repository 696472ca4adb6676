//! Scaling of amounts against a reference quantity, and the decimal strings
//! in which amounts are shown and read.

use crate::error::RebaseError;
use crate::ui_amount::ui_amount_round_trip;
use vstd::arithmetic::div_mod::{
    lemma_basic_div, lemma_mod_bound, lemma_multiply_divide_lt, lemma_small_mod,
};
use vstd::prelude::*;
use vstd::string::*;

verus! {

/// Ten to the power `n`.
pub open spec fn pow10(n: nat) -> nat
    decreases n,
{
    if n == 0 {
        1
    } else {
        10 * pow10((n - 1) as nat)
    }
}

/// The character that shows the digit `d`.
pub open spec fn digit_char(d: int) -> char {
    if d == 0 {
        '0'
    } else if d == 1 {
        '1'
    } else if d == 2 {
        '2'
    } else if d == 3 {
        '3'
    } else if d == 4 {
        '4'
    } else if d == 5 {
        '5'
    } else if d == 6 {
        '6'
    } else if d == 7 {
        '7'
    } else if d == 8 {
        '8'
    } else {
        '9'
    }
}

/// The decimal digits of `n`, most significant first, without leading
/// zeros; zero is the single digit `0`.
pub open spec fn decimal_digits(n: nat) -> Seq<char>
    decreases n,
{
    if n < 10 {
        seq![digit_char(n as int)]
    } else {
        decimal_digits(n / 10).push(digit_char((n % 10) as int))
    }
}

/// The digits after the decimal point of the fraction `frac / 10^width`,
/// most significant first, ending at the last digit that is not zero.
pub open spec fn fraction_digits(frac: nat, width: nat) -> Seq<char>
    decreases width,
{
    if width == 0 || frac == 0 {
        Seq::empty()
    } else {
        seq![digit_char((frac / pow10((width - 1) as nat)) as int)] + fraction_digits(
            frac % pow10((width - 1) as nat),
            (width - 1) as nat,
        )
    }
}

/// How `amount` is shown with `decimals` fractional digits: the whole part,
/// then, unless the fraction is zero, a decimal point and the fraction's
/// digits without trailing zeros.
pub open spec fn ui_amount_string(amount: nat, decimals: nat) -> Seq<char> {
    let whole = amount / pow10(decimals);
    let frac = amount % pow10(decimals);
    if frac == 0 {
        decimal_digits(whole)
    } else {
        decimal_digits(whole) + seq!['.'] + fraction_digits(frac, decimals)
    }
}

/// `floor(amount * numerator / denominator)`, where the product fits in 64
/// bits and the denominator is not zero.
pub open spec fn scaled(amount: u64, numerator: u64, denominator: u64) -> Option<u64> {
    if amount * numerator > u64::MAX || denominator == 0 {
        None
    } else {
        Some(((amount * numerator) / (denominator as int)) as u64)
    }
}

/// Scales `amount` by `numerator / denominator`, rounding down. The product
/// is formed first and must fit in 64 bits.
pub fn checked_scale(amount: u64, numerator: u64, denominator: u64) -> (result: Result<
    u64,
    RebaseError,
>)
    ensures
        result == match scaled(amount, numerator, denominator) {
            Some(v) => Ok::<u64, RebaseError>(v),
            None => Err::<u64, RebaseError>(RebaseError::ArithmeticOverflow),
        },
{
    match amount.checked_mul(numerator) {
        None => Err(RebaseError::ArithmeticOverflow),
        Some(product) => match product.checked_div(denominator) {
            None => Err(RebaseError::ArithmeticOverflow),
            Some(quotient) => Ok(quotient),
        },
    }
}

/// Powers of ten grow with the exponent, and the twentieth does not fit in
/// 64 bits.
pub proof fn lemma_pow10_bounds(n: nat)
    ensures
        pow10(n) >= 1,
        n <= 19 ==> pow10(n) <= 10_000_000_000_000_000_000,
        n >= 20 ==> pow10(n) > u64::MAX,
    decreases n,
{
    reveal_with_fuel(pow10, 21);
    if n > 0 {
        lemma_pow10_bounds((n - 1) as nat);
    }
}

/// Ten to the power `k`, for a power that fits in 64 bits.
pub(crate) fn pow10_u64(k: u8) -> (p: u64)
    requires
        k < 20,
    ensures
        p == pow10(k as nat),
        p >= 1,
{
    let mut p: u64 = 1;
    let mut i: u8 = 0;
    while i < k
        invariant
            i <= k,
            k < 20,
            p == pow10(i as nat),
        decreases k - i,
    {
        proof {
            lemma_pow10_bounds(i as nat);
            lemma_pow10_bounds((i + 1) as nat);
        }
        p = p * 10;
        i += 1;
    }
    proof {
        lemma_pow10_bounds(k as nat);
    }
    p
}

/// The one-character string that shows the digit `d`.
fn digit_str(d: u8) -> (s: &'static str)
    requires
        d < 10,
    ensures
        s@ == seq![digit_char(d as int)],
{
    proof {
        reveal_strlit("0");
        reveal_strlit("1");
        reveal_strlit("2");
        reveal_strlit("3");
        reveal_strlit("4");
        reveal_strlit("5");
        reveal_strlit("6");
        reveal_strlit("7");
        reveal_strlit("8");
        reveal_strlit("9");
    }
    let s = match d {
        0 => "0",
        1 => "1",
        2 => "2",
        3 => "3",
        4 => "4",
        5 => "5",
        6 => "6",
        7 => "7",
        8 => "8",
        _ => "9",
    };
    assert(s@ =~= seq![digit_char(d as int)]);
    s
}

/// The digits that `low` holds, least significant first, read from the most
/// significant one.
pub open spec fn digits_reversed(low: Seq<u8>) -> Seq<char> {
    Seq::new(low.len(), |j: int| digit_char(low[low.len() - 1 - j] as int))
}

/// Appends the decimal digits of `n` to `out`.
pub fn push_decimal(out: &mut String, n: u64)
    ensures
        final(out)@ == old(out)@ + decimal_digits(n as nat),
{
    let mut low: Vec<u8> = Vec::new();
    let mut rest: u64 = n;
    while rest >= 10
        invariant
            decimal_digits(n as nat) == decimal_digits(rest as nat) + digits_reversed(low@),
            forall|j: int| 0 <= j < low@.len() ==> low@[j] < 10,
        decreases rest,
    {
        let ghost before = low@;
        let d: u8 = (rest % 10) as u8;
        low.push(d);
        proof {
            assert(decimal_digits(rest as nat) == decimal_digits((rest / 10) as nat).push(
                digit_char((rest % 10) as int),
            ));
            assert(digits_reversed(low@) =~= seq![digit_char(d as int)] + digits_reversed(
                before,
            ));
            assert(decimal_digits(rest as nat) + digits_reversed(before) =~= decimal_digits(
                (rest / 10) as nat,
            ) + digits_reversed(low@));
        }
        rest = rest / 10;
    }
    out.append(digit_str(rest as u8));
    let ghost head = decimal_digits(rest as nat);
    let mut i: usize = low.len();
    while i > 0
        invariant
            i <= low@.len(),
            forall|j: int| 0 <= j < low@.len() ==> low@[j] < 10,
            out@ == old(out)@ + head + digits_reversed(low@).subrange(0, low@.len() - i),
        decreases i,
    {
        i -= 1;
        let ghost before = out@;
        out.append(digit_str(low[i]));
        proof {
            let r = digits_reversed(low@);
            let k = low@.len() - i;
            assert(r.subrange(0, k as int) =~= r.subrange(0, k - 1).push(r[k - 1]));
            assert(r[k - 1] == digit_char(low@[i as int] as int));
            assert(out@ =~= old(out)@ + head + r.subrange(0, k as int));
        }
    }
    proof {
        let r = digits_reversed(low@);
        assert(r.subrange(0, low@.len() as int) =~= r);
        assert(out@ =~= old(out)@ + (head + r));
    }
}


/// Appends the digits of the fraction `frac / 10^width`, without trailing
/// zeros.
fn push_fraction(out: &mut String, frac: u64, width: u8)
    requires
        frac < pow10(width as nat),
    ensures
        final(out)@ == old(out)@ + fraction_digits(frac as nat, width as nat),
{
    let mut rest: u64 = frac;
    let mut w: u8 = width;
    while rest != 0
        invariant
            rest < pow10(w as nat),
            out@ + fraction_digits(rest as nat, w as nat) == old(out)@ + fraction_digits(
                frac as nat,
                width as nat,
            ),
        decreases w,
    {
        let ghost before = out@;
        let ghost tail = fraction_digits(rest as nat, w as nat);
        assert(w > 0);
        w -= 1;
        let ghost p = pow10(w as nat);
        proof {
            lemma_pow10_bounds(w as nat);
            lemma_mod_bound(rest as int, p as int);
            assert(tail == seq![digit_char((rest as nat / p) as int)] + fraction_digits(
                rest as nat % p,
                w as nat,
            ));
        }
        if w >= 20 {
            proof {
                lemma_basic_div(rest as int, p as int);
                lemma_small_mod(rest as nat, p);
                reveal_strlit("0");
                assert("0"@ =~= seq![digit_char(0)]);
            }
            out.append("0");
        } else {
            let unit = pow10_u64(w);
            proof {
                assert(rest < unit * 10);
                lemma_multiply_divide_lt(rest as int, unit as int, 10);
            }
            let d: u64 = rest / unit;
            out.append(digit_str(d as u8));
            rest = rest % unit;
        }
        assert(out@ + fraction_digits(rest as nat, w as nat) =~= before + tail);
    }
    assert(fraction_digits(0, w as nat) =~= Seq::<char>::empty());
    assert(out@ + Seq::<char>::empty() =~= out@);
}

/// Shows `amount` with `decimals` fractional digits. Trailing zeros of the
/// fraction are left out, and so is the decimal point where no fraction
/// digit is left.
pub fn amount_to_ui_amount_string_trimmed(amount: u64, decimals: u8) -> (shown: String)
    ensures
        shown@ == ui_amount_string(amount as nat, decimals as nat),
{
    let whole: u64;
    let frac: u64;
    proof {
        lemma_pow10_bounds(decimals as nat);
    }
    if decimals >= 20 {
        proof {
            lemma_basic_div(amount as int, pow10(decimals as nat) as int);
            lemma_small_mod(amount as nat, pow10(decimals as nat));
        }
        whole = 0;
        frac = amount;
    } else {
        let unit = pow10_u64(decimals);
        whole = amount / unit;
        frac = amount % unit;
    }
    proof {
        lemma_mod_bound(amount as int, pow10(decimals as nat) as int);
    }
    let mut shown = String::new();
    push_decimal(&mut shown, whole);
    assert(shown@ =~= decimal_digits(whole as nat));
    if frac != 0 {
        proof {
            reveal_strlit(".");
            assert("."@ =~= seq!['.']);
        }
        shown.append(".");
        push_fraction(&mut shown, frac, decimals);
    }
    shown
}

/// Whether `c` is one of the ten decimal digits.
pub open spec fn is_digit(c: char) -> bool {
    '0' <= c <= '9'
}

/// The value of the digit `c`.
pub open spec fn digit_value(c: char) -> nat {
    if is_digit(c) {
        (c as u32 - '0' as u32) as nat
    } else {
        0
    }
}

/// Whether `s` holds decimal digits only.
pub open spec fn all_digits(s: Seq<char>) -> bool {
    forall|i: int| 0 <= i < s.len() ==> is_digit(#[trigger] s[i])
}

/// The number that the digits of `s` write, most significant first.
pub open spec fn digits_value(s: Seq<char>) -> nat
    decreases s.len(),
{
    if s.len() == 0 {
        0
    } else {
        10 * digits_value(s.drop_last()) + digit_value(s.last())
    }
}

/// The number that `s` writes, where `s` is one or more decimal digits and
/// nothing else, and the number fits in 64 bits.
pub open spec fn parse_u64(s: Seq<char>) -> Option<u64> {
    if s.len() > 0 && all_digits(s) && digits_value(s) <= u64::MAX {
        Some(digits_value(s) as u64)
    } else {
        None
    }
}

/// The digits of a prefix write a number that is at most the number that
/// all the digits write.
pub proof fn lemma_digits_value_prefix(s: Seq<char>, k: int)
    requires
        0 <= k <= s.len(),
    ensures
        digits_value(s.take(k)) <= digits_value(s),
    decreases s.len(),
{
    if k == s.len() {
        assert(s.take(k) =~= s);
    } else {
        assert(s.take(k) =~= s.drop_last().take(k));
        lemma_digits_value_prefix(s.drop_last(), k);
    }
}

/// The number that the digits of `s` write, where `s` holds digits only
/// and the number fits in 64 bits. No digit at all writes zero.
pub open spec fn digits_u64(s: Seq<char>) -> Option<u64> {
    if all_digits(s) && digits_value(s) <= u64::MAX {
        Some(digits_value(s) as u64)
    } else {
        None
    }
}

/// Reads the digits of `text` from `from` up to `to`.
pub(crate) fn read_digits(text: &str, from: usize, to: usize) -> (value: Option<u64>)
    requires
        is_ascii(text),
        from <= to <= text@.len(),
    ensures
        value == digits_u64(text@.subrange(from as int, to as int)),
{
    broadcast use vstd::string::is_ascii_spec_bytes;

    let bytes = text.as_bytes();
    let ghost window = text@.subrange(from as int, to as int);
    let mut acc: u64 = 0;
    let mut i: usize = from;
    assert(window.take(0) =~= Seq::<char>::empty());
    while i < to
        invariant
            from <= i <= to,
            to <= text@.len(),
            bytes@.len() == text@.len(),
            is_ascii(text),
            bytes@ == text.spec_bytes(),
            window == text@.subrange(from as int, to as int),
            all_digits(window.take(i - from)),
            acc == digits_value(window.take(i - from)),
        decreases to - i,
    {
        let b = bytes[i];
        let ghost c = text@[i as int];
        assert(b == c as u8);
        assert('\0' <= c <= '\u{7f}');
        assert(window[i - from] == c);
        let ghost next = window.take(i - from + 1);
        assert(next.drop_last() =~= window.take(i - from));
        assert(next.last() == c);
        if b < 48 || b > 57 {
            assert(!is_digit(window[i - from]));
            return None;
        }
        assert(is_digit(c));
        assert(digit_value(c) == b - 48);
        proof {
            lemma_digits_value_prefix(window, i - from + 1);
        }
        let shifted = match acc.checked_mul(10) {
            Some(v) => v,
            None => {
                return None;
            },
        };
        acc = match shifted.checked_add((b - 48) as u64) {
            Some(v) => v,
            None => {
                return None;
            },
        };
        assert forall|j: int| 0 <= j < next.len() implies is_digit(#[trigger] next[j]) by {
            if j < i - from {
                assert(window.take(i - from)[j] == next[j]);
            }
        }
        i += 1;
    }
    assert(window.take(to - from) =~= window);
    Some(acc)
}


/// Reads an unsigned number from `text`: one or more decimal digits and
/// nothing else. A sign, a decimal point, a space or an empty text is
/// refused, and so is a number that does not fit in 64 bits.
pub fn parse_amount(text: &str) -> (value: Option<u64>)
    ensures
        value == parse_u64(text@),
{
    broadcast use vstd::string::is_ascii_spec_bytes;

    if !text.is_ascii() {
        proof {
            let i = choose|i: int|
                0 <= i < text@.len() && !('\0' <= #[trigger] text@[i] <= '\u{7f}');
            assert(!is_digit(text@[i]));
        }
        return None;
    }
    let len = text.as_bytes().len();
    if len == 0 {
        return None;
    }
    assert(text@.subrange(0, len as int) =~= text@);
    read_digits(text, 0, len)
}

/// What `amount_to_scaled_display` returns: the amount scaled by
/// `reference_quantity / total_supply` and shown with `decimals` fractional
/// digits, or the arithmetic error.
pub open spec fn scaled_display(
    amount: u64,
    decimals: u8,
    total_supply: u64,
    reference_quantity: u64,
) -> Result<Seq<char>, RebaseError> {
    match scaled(amount, reference_quantity, total_supply) {
        Some(v) => Ok(ui_amount_string(v as nat, decimals as nat)),
        None => Err(RebaseError::ArithmeticOverflow),
    }
}

/// What `display_to_amount` returns: the number that `display` writes,
/// scaled by `total_supply / reference_quantity`, or the error.
pub open spec fn display_amount(
    display: Seq<char>,
    total_supply: u64,
    reference_quantity: u64,
) -> Result<u64, RebaseError> {
    match parse_u64(display) {
        None => Err(RebaseError::InvalidArgument),
        Some(shown) => match scaled(shown, total_supply, reference_quantity) {
            Some(amount) => Ok(amount),
            None => Err(RebaseError::ArithmeticOverflow),
        },
    }
}

/// Converts a raw amount to the string in which it is shown:
/// `floor(amount * reference_quantity / total_supply)` with `decimals`
/// fractional digits. Fails with `ArithmeticOverflow` where the product does
/// not fit in 64 bits or `total_supply` is zero.
pub fn amount_to_scaled_display(
    amount: u64,
    decimals: u8,
    total_supply: u64,
    reference_quantity: u64,
) -> (result: Result<String, RebaseError>)
    ensures
        match scaled_display(amount, decimals, total_supply, reference_quantity) {
            Ok(shown) => result is Ok && result->Ok_0@ == shown,
            Err(e) => result == Err::<String, RebaseError>(e),
        },
        total_supply == 0 ==> result == Err::<String, RebaseError>(
            RebaseError::ArithmeticOverflow,
        ),
{
    match checked_scale(amount, reference_quantity, total_supply) {
        Ok(v) => Ok(amount_to_ui_amount_string_trimmed(v, decimals)),
        Err(e) => Err(e),
    }
}

/// Scales a shown amount by `total_supply / reference_quantity`, rounding
/// down, to the raw amount. The raw amount is then shown with `decimals`
/// fractional digits and read back, which gives the raw amount again. Fails
/// with `ArithmeticOverflow` where the product does not fit in 64 bits or
/// `reference_quantity` is zero.
pub fn shown_to_amount(shown: u64, decimals: u8, total_supply: u64, reference_quantity: u64) -> (result:
    Result<u64, RebaseError>)
    ensures
        result == match scaled(shown, total_supply, reference_quantity) {
            Some(amount) => Ok::<u64, RebaseError>(amount),
            None => Err::<u64, RebaseError>(RebaseError::ArithmeticOverflow),
        },
        reference_quantity == 0 ==> result == Err::<u64, RebaseError>(
            RebaseError::ArithmeticOverflow,
        ),
{
    match checked_scale(shown, total_supply, reference_quantity) {
        Err(e) => Err(e),
        Ok(amount) => ui_amount_round_trip(amount, decimals),
    }
}

/// Converts a shown amount back to a raw amount:
/// `floor(shown * total_supply / reference_quantity)`, where `display`
/// writes `shown` in decimal digits. Fails with `InvalidArgument` where
/// `display` is not such a number, and with `ArithmeticOverflow` where the
/// product does not fit in 64 bits or `reference_quantity` is zero.
pub fn display_to_amount(
    display: &str,
    decimals: u8,
    total_supply: u64,
    reference_quantity: u64,
) -> (result: Result<u64, RebaseError>)
    ensures
        result == display_amount(display@, total_supply, reference_quantity),
        parse_u64(display@) is Some && reference_quantity == 0 ==> result == Err::<
            u64,
            RebaseError,
        >(RebaseError::ArithmeticOverflow),
{
    match parse_amount(display) {
        None => Err(RebaseError::InvalidArgument),
        Some(shown) => shown_to_amount(shown, decimals, total_supply, reference_quantity),
    }
}

/// The decimal digits of a number are read back as that number.
pub proof fn lemma_decimal_digits_value(n: nat)
    ensures
        decimal_digits(n).len() > 0,
        all_digits(decimal_digits(n)),
        digits_value(decimal_digits(n)) == n,
    decreases n,
{
    let s = decimal_digits(n);
    if n < 10 {
        assert(s.drop_last() =~= Seq::<char>::empty());
        assert(s.last() == digit_char(n as int));
        assert(digits_value(s.drop_last()) == 0);
        assert(digit_value(digit_char(n as int)) == n);
    } else {
        lemma_decimal_digits_value(n / 10);
        let head = decimal_digits(n / 10);
        assert(s.drop_last() =~= head);
        assert(s.last() == digit_char((n % 10) as int));
        assert(digit_value(digit_char((n % 10) as int)) == n % 10);
        assert forall|i: int| 0 <= i < s.len() implies is_digit(#[trigger] s[i]) by {
            if i < head.len() {
                assert(s[i] == head[i]);
            }
        }
    }
}

/// With no fractional digits, an amount is shown as its decimal digits.
pub proof fn lemma_ui_amount_string_whole(amount: nat)
    ensures
        ui_amount_string(amount, 0) == decimal_digits(amount),
{
    assert(pow10(0) == 1);
}

/// Scaling down and back up loses at most what the two divisions cut off:
/// `floor(floor(a * r / t) * t / r)` is at most `a`, and falls short of it
/// by less than `t / r + 1`.
pub proof fn lemma_scale_round_trip(a: nat, t: nat, r: nat)
    by (nonlinear_arith)
    requires
        t > 0,
        r > 0,
    ensures
        (a * r / t) * t <= a * r,
        (a * r / t) * t / r <= a,
        (a - (a * r / t) * t / r) * r < t + r,
{
    let s = a * r / t;
    let back = s * t / r;
    assert(s * t <= a * r && a * r < s * t + t) by {
        assert(a * r == t * s + (a * r) % t);
        assert(0 <= (a * r) % t < t);
    }
    assert(back * r <= s * t && s * t < back * r + r) by {
        assert(s * t == r * back + (s * t) % r);
        assert(0 <= (s * t) % r < r);
    }
    assert(back <= a) by {
        assert(back * r <= a * r);
    }
    assert((a - back) * r == a * r - back * r);
}

/// Round trip with no fractional digits: an amount that is shown and read
/// back comes out no larger than it went in, and smaller by less than
/// `total_supply / reference_quantity + 1`.
pub proof fn lemma_display_round_trip(amount: u64, total_supply: u64, reference_quantity: u64)
    requires
        total_supply > 0,
        reference_quantity > 0,
        amount * reference_quantity <= u64::MAX,
    ensures
        scaled_display(amount, 0, total_supply, reference_quantity) is Ok,
        display_amount(
            scaled_display(amount, 0, total_supply, reference_quantity)->Ok_0,
            total_supply,
            reference_quantity,
        ) is Ok,
        ({
            let back = display_amount(
                scaled_display(amount, 0, total_supply, reference_quantity)->Ok_0,
                total_supply,
                reference_quantity,
            )->Ok_0;
            back <= amount && (amount - back) * reference_quantity < total_supply
                + reference_quantity
        }),
{
    let a = amount as nat;
    let t = total_supply as nat;
    let r = reference_quantity as nat;
    let shown = a * r / t;
    lemma_scale_round_trip(a, t, r);
    assert(shown <= a * r) by (nonlinear_arith)
        requires
            shown * t <= a * r,
            t > 0,
    ;
    assert(scaled(amount, reference_quantity, total_supply) == Some(shown as u64));
    lemma_ui_amount_string_whole(shown);
    lemma_decimal_digits_value(shown);
    assert(parse_u64(decimal_digits(shown)) == Some(shown as u64));
    assert(scaled(shown as u64, total_supply, reference_quantity) == Some(
        (shown * t / r) as u64,
    ));
}

} // verus!
