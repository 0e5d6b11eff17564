//! The decimal text of an amount: `raw / 10^decimals`, written exactly.

use vstd::prelude::*;
use vstd::arithmetic::div_mod::{
    lemma_basic_div, lemma_fundamental_div_mod, lemma_fundamental_div_mod_converse,
    lemma_small_mod,
};
use vstd::string::{StrSliceExecFns, StringExecFns};
use crate::amount::{
    all_digits, decimal_value, digit_value, is_digit, lemma_decimal_value_prefix, UiAmount,
};

verus! {

/// Ten to the power of `n`.
pub open spec fn pow10(n: nat) -> nat
    decreases n,
{
    if n == 0 {
        1
    } else {
        10 * pow10((n - 1) as nat)
    }
}

/// The character that writes a digit.
pub open spec fn digit_char(d: nat) -> char {
    if d == 0 {
        '0'
    } else if d == 1 {
        '1'
    } else if d == 2 {
        '2'
    } else if d == 3 {
        '3'
    } else if d == 4 {
        '4'
    } else if d == 5 {
        '5'
    } else if d == 6 {
        '6'
    } else if d == 7 {
        '7'
    } else if d == 8 {
        '8'
    } else {
        '9'
    }
}

/// The decimal digits of `n`, without leading zeros; one zero for 0.
pub open spec fn digits(n: nat) -> Seq<char>
    decreases n,
{
    if n < 10 {
        seq![digit_char(n)]
    } else {
        digits(n / 10).push(digit_char(n % 10))
    }
}

/// The last `width` decimal digits of `n`, with leading zeros.
pub open spec fn padded(n: nat, width: nat) -> Seq<char>
    decreases width,
{
    if width == 0 {
        Seq::empty()
    } else {
        padded(n / 10, (width - 1) as nat).push(digit_char(n % 10))
    }
}

/// `s` without its trailing zeros.
pub open spec fn trim_zeros(s: Seq<char>) -> Seq<char>
    decreases s.len(),
{
    if s.len() > 0 && s.last() == '0' {
        trim_zeros(s.drop_last())
    } else {
        s
    }
}

/// The text of `raw / 10^decimals`: the whole part, then, unless the
/// fraction is zero, a point and the fraction's digits up to the last one
/// that is not zero.
pub open spec fn displayed(raw: nat, decimals: nat) -> Seq<char> {
    let whole = raw / pow10(decimals);
    let fraction = raw % pow10(decimals);
    if fraction == 0 {
        digits(whole)
    } else {
        digits(whole) + seq!['.'] + trim_zeros(padded(fraction, decimals))
    }
}

/// Powers of ten are positive and grow.
pub proof fn lemma_pow10_grows(a: nat, b: nat)
    requires
        a <= b,
    ensures
        0 < pow10(a) <= pow10(b),
    decreases b,
{
    if b == 0 {
    } else if a == b {
        lemma_pow10_grows((a - 1) as nat, (b - 1) as nat);
    } else {
        lemma_pow10_grows(a, (b - 1) as nat);
    }
}

/// Twenty digits are more than 64 bits hold.
pub proof fn lemma_pow10_exceeds_u64(n: nat)
    requires
        n >= 20,
    ensures
        pow10(n) > u64::MAX,
{
    assert(pow10(20) == 100_000_000_000_000_000_000) by {
        reveal_with_fuel(pow10, 21);
    }
    lemma_pow10_grows(20, n);
}

fn digit_text(d: u64) -> (r: &'static str)
    requires
        d < 10,
    ensures
        r@ == seq![digit_char(d as nat)],
{
    proof {
        reveal_strlit("0");
        reveal_strlit("1");
        reveal_strlit("2");
        reveal_strlit("3");
        reveal_strlit("4");
        reveal_strlit("5");
        reveal_strlit("6");
        reveal_strlit("7");
        reveal_strlit("8");
        reveal_strlit("9");
    }
    let r = if d == 0 {
        "0"
    } else if d == 1 {
        "1"
    } else if d == 2 {
        "2"
    } else if d == 3 {
        "3"
    } else if d == 4 {
        "4"
    } else if d == 5 {
        "5"
    } else if d == 6 {
        "6"
    } else if d == 7 {
        "7"
    } else if d == 8 {
        "8"
    } else {
        "9"
    };
    assert(r@ =~= seq![digit_char(d as nat)]);
    r
}

fn push_digits(out: &mut String, n: u64)
    ensures
        final(out)@ == old(out)@ + digits(n as nat),
    decreases n,
{
    if n >= 10 {
        push_digits(out, n / 10);
    }
    out.append(digit_text(n % 10));
    assert(final(out)@ =~= old(out)@ + digits(n as nat));
}

fn push_padded(out: &mut String, n: u64, width: u8)
    ensures
        final(out)@ == old(out)@ + padded(n as nat, width as nat),
    decreases width,
{
    if width > 0 {
        push_padded(out, n / 10, width - 1);
        out.append(digit_text(n % 10));
    }
    assert(final(out)@ =~= old(out)@ + padded(n as nat, width as nat));
}

fn push_trimmed(out: &mut String, n: u64, width: u8)
    ensures
        final(out)@ == old(out)@ + trim_zeros(padded(n as nat, width as nat)),
    decreases width,
{
    if width == 0 {
        assert(final(out)@ =~= old(out)@ + trim_zeros(padded(n as nat, width as nat)));
    } else if n % 10 == 0 {
        proof {
            let full = padded(n as nat, width as nat);
            assert(full.last() == '0');
            assert(full.drop_last() =~= padded((n / 10) as nat, (width - 1) as nat));
        }
        push_trimmed(out, n / 10, width - 1);
    } else {
        proof {
            let full = padded(n as nat, width as nat);
            assert(full.last() == digit_char((n % 10) as nat));
            assert(trim_zeros(full) == full);
        }
        push_padded(out, n, width);
    }
}

/// Ten to the power of `decimals`, where 64 bits hold it.
fn scale(decimals: u8) -> (r: Option<u64>)
    ensures
        match r {
            Some(p) => p == pow10(decimals as nat),
            None => pow10(decimals as nat) > u64::MAX,
        },
{
    if decimals >= 20 {
        proof {
            lemma_pow10_exceeds_u64(decimals as nat);
        }
        return None;
    }
    let mut p: u64 = 1;
    let mut i: u8 = 0;
    while i < decimals
        invariant
            i <= decimals < 20,
            p == pow10(i as nat),
        decreases decimals - i,
    {
        proof {
            lemma_pow10_grows((i + 1) as nat, 19);
            assert(pow10(19) == 10_000_000_000_000_000_000) by {
                reveal_with_fuel(pow10, 20);
            }
        }
        p = p * 10;
        i += 1;
    }
    Some(p)
}

impl UiAmount {
    /// The decimal text of this amount.
    pub open spec fn text(self) -> Seq<char> {
        displayed(self.raw as nat, self.decimals as nat)
    }

    /// Writes the amount as decimal text: `raw / 10^decimals`, exactly, with
    /// neither trailing zeros nor a trailing point.
    pub fn display(&self) -> (r: String)
        ensures
            r@ == self.text(),
    {
        proof {
            lemma_pow10_grows(0, self.decimals as nat);
        }
        let (whole, fraction) = match scale(self.decimals) {
            Some(p) => (self.raw / p, self.raw % p),
            None => {
                proof {
                    let p = pow10(self.decimals as nat);
                    assert(self.raw as nat / p == 0 && self.raw as nat % p == self.raw) by {
                        lemma_small_mod(self.raw as nat, p);
                        lemma_basic_div(self.raw as int, p as int);
                    }
                }
                (0, self.raw)
            },
        };
        let mut out = String::new();
        push_digits(&mut out, whole);
        if fraction != 0 {
            out.append(".");
            proof {
                reveal_strlit(".");
                assert("."@ =~= seq!['.']);
            }
            push_trimmed(&mut out, fraction, self.decimals);
        }
        assert(out@ =~= self.text());
        out
    }
}

/// The index of the first point in `s`; the length of `s` where it has none.
pub open spec fn point_index(s: Seq<char>) -> int
    decreases s.len(),
{
    if s.len() == 0 || s[0] == '.' {
        0
    } else {
        1 + point_index(s.drop_first())
    }
}

/// `n` zeros.
pub open spec fn zeros(n: nat) -> Seq<char> {
    Seq::new(n, |i: int| '0')
}

/// What stands before the first point of `text`.
pub open spec fn whole_part(text: Seq<char>) -> Seq<char> {
    text.subrange(0, point_index(text))
}

/// What stands behind the first point of `text`.
pub open spec fn fraction_part(text: Seq<char>) -> Seq<char> {
    if point_index(text) < text.len() {
        text.subrange(point_index(text) + 1, text.len() as int)
    } else {
        Seq::empty()
    }
}

/// The digits of the raw amount that `text` writes at a precision: those
/// before the point, those behind it, and zeros up to the precision.
pub open spec fn raw_digits(text: Seq<char>, decimals: nat) -> Seq<char> {
    whole_part(text) + fraction_part(text) + zeros(
        (decimals - fraction_part(text).len()) as nat,
    )
}

/// The raw amount that a decimal text writes at a precision. The text is
/// one or more digits, then, if a point follows, one or more digits behind
/// it, no more than the precision has; and the raw amount fits 64 bits.
pub open spec fn undisplayed(text: Seq<char>, decimals: nat) -> Option<u64> {
    let fraction = fraction_part(text);
    if whole_part(text).len() > 0 && all_digits(whole_part(text)) && all_digits(fraction) && (
    point_index(text) < text.len() ==> fraction.len() > 0) && fraction.len() <= decimals
        && decimal_value(raw_digits(text, decimals)) <= u64::MAX {
        Some(decimal_value(raw_digits(text, decimals)) as u64)
    } else {
        None
    }
}

/// The first point of a text stands where no point stands before it.
pub proof fn lemma_point_index(s: Seq<char>, at: int)
    requires
        0 <= at <= s.len(),
        forall|j: int| 0 <= j < at ==> s[j] != '.',
        at < s.len() ==> s[at] == '.',
    ensures
        point_index(s) == at,
    decreases at,
{
    if at > 0 {
        let rest = s.drop_first();
        assert forall|j: int| 0 <= j < at - 1 implies rest[j] != '.' by {
            assert(rest[j] == s[j + 1]);
        }
        lemma_point_index(rest, at - 1);
    }
}

/// Appending digits shifts a number to the left and adds the digits' own.
pub proof fn lemma_decimal_value_concat(a: Seq<char>, b: Seq<char>)
    ensures
        decimal_value(a + b) == decimal_value(a) * pow10(b.len()) + decimal_value(b),
    decreases b.len(),
{
    if b.len() == 0 {
        assert(a + b =~= a);
        assert(pow10(0) == 1);
        assert(decimal_value(b) == 0);
    } else {
        let shorter = b.drop_last();
        lemma_decimal_value_concat(a, shorter);
        assert((a + b).drop_last() =~= a + shorter);
        assert((a + b).last() == b.last());
        let x = decimal_value(a);
        let p = pow10(shorter.len());
        let y = decimal_value(shorter);
        let last = digit_value(b.last());
        assert(pow10(b.len()) == 10 * p);
        assert(decimal_value(b) == y * 10 + last);
        assert(decimal_value(a + b) == (x * p + y) * 10 + last);
        assert((x * p + y) * 10 == x * (10 * p) + y * 10) by (nonlinear_arith);
    }
}

/// Zeros are digits and write nothing.
pub proof fn lemma_zeros(n: nat)
    ensures
        all_digits(zeros(n)),
        decimal_value(zeros(n)) == 0,
    decreases n,
{
    if n > 0 {
        lemma_zeros((n - 1) as nat);
        assert(zeros(n).drop_last() =~= zeros((n - 1) as nat));
    }
}

/// The digits of a number write that number.
pub proof fn lemma_digits(n: nat)
    ensures
        digits(n).len() > 0,
        all_digits(digits(n)),
        decimal_value(digits(n)) == n,
    decreases n,
{
    if n < 10 {
        let s = digits(n);
        assert(s.drop_last() =~= Seq::<char>::empty());
        assert(decimal_value(s.drop_last()) == 0);
    } else {
        lemma_digits(n / 10);
        let s = digits(n);
        assert(s.drop_last() =~= digits(n / 10));
        assert forall|i: int| 0 <= i < s.len() implies is_digit(#[trigger] s[i]) by {
            if i < s.len() - 1 {
                assert(s[i] == digits(n / 10)[i]);
            }
        }
    }
}

/// The last `width` digits of a number write its remainder by `10^width`.
pub proof fn lemma_padded(n: nat, width: nat)
    ensures
        padded(n, width).len() == width,
        all_digits(padded(n, width)),
        decimal_value(padded(n, width)) == n % pow10(width),
    decreases width,
{
    if width > 0 {
        let w = (width - 1) as nat;
        lemma_padded(n / 10, w);
        lemma_pow10_grows(0, w);
        let s = padded(n, width);
        assert(s.drop_last() =~= padded(n / 10, w));
        assert forall|i: int| 0 <= i < s.len() implies is_digit(#[trigger] s[i]) by {
            if i < s.len() - 1 {
                assert(s[i] == padded(n / 10, w)[i]);
            }
        }
        let p = pow10(w) as int;
        let q = (n / 10) as int;
        lemma_fundamental_div_mod(q, p);
        let m = (n % 10) as int;
        let ni = n as int;
        let r = (q % p) * 10 + m;
        assert(ni == (10 * p) * (q / p) + r) by (nonlinear_arith)
            requires
                q == p * (q / p) + q % p,
                ni == 10 * q + m,
                r == (q % p) * 10 + m,
        ;
        assert(0 <= r && r < 10 * p) by (nonlinear_arith)
            requires
                0 <= q % p,
                q % p < p,
                0 <= m,
                m < 10,
                r == (q % p) * 10 + m,
        ;
        lemma_fundamental_div_mod_converse(n as int, 10 * p, q / p, r);
    } else {
        assert(n % 1 == 0);
    }
}

/// Trimming keeps a front part and drops zeros only.
pub proof fn lemma_trim_zeros(s: Seq<char>)
    ensures
        trim_zeros(s).len() <= s.len(),
        trim_zeros(s) + zeros((s.len() - trim_zeros(s).len()) as nat) == s,
        all_digits(s) ==> all_digits(trim_zeros(s)),
    decreases s.len(),
{
    let t = trim_zeros(s);
    if s.len() > 0 && s.last() == '0' {
        let shorter = s.drop_last();
        lemma_trim_zeros(shorter);
        let k = (shorter.len() - t.len()) as nat;
        assert(t + zeros(k + 1) =~= (t + zeros(k)).push('0'));
        assert(shorter.push('0') =~= s);
        assert(t + zeros((s.len() - t.len()) as nat) =~= s);
        if all_digits(s) {
            assert forall|i: int| 0 <= i < shorter.len() implies is_digit(
                #[trigger] shorter[i],
            ) by {
                assert(shorter[i] == s[i]);
            }
        }
    } else {
        assert(t + zeros(0) =~= s);
    }
}

/// Reading back what was displayed gives the raw amount again, and so
/// displaying what was read back gives the same text: an amount is displayed
/// without loss.
pub proof fn law_display_round_trip(raw: u64, decimals: u8)
    ensures
        undisplayed(displayed(raw as nat, decimals as nat), decimals as nat) == Some(raw),
        displayed(
            undisplayed(displayed(raw as nat, decimals as nat), decimals as nat)->0 as nat,
            decimals as nat,
        ) == displayed(raw as nat, decimals as nat),
{
    let d = decimals as nat;
    let n = raw as nat;
    let p = pow10(d);
    lemma_pow10_grows(0, d);
    let whole = n / p;
    let fraction = n % p;
    lemma_fundamental_div_mod(n as int, p as int);
    let text = displayed(n, d);
    let front = digits(whole);
    lemma_digits(whole);
    assert forall|j: int| 0 <= j < front.len() implies front[j] != '.' by {
        assert(is_digit(front[j]));
    }
    if fraction == 0 {
        lemma_point_index(text, text.len() as int);
        assert(whole_part(text) =~= front);
        assert(fraction_part(text) =~= Seq::<char>::empty());
        assert(raw_digits(text, d) =~= front + zeros(d));
        lemma_decimal_value_concat(front, zeros(d));
        lemma_zeros(d);
        assert(whole * p == p * whole) by (nonlinear_arith);
    } else {
        let full = padded(fraction, d);
        let back = trim_zeros(full);
        lemma_padded(fraction, d);
        lemma_trim_zeros(full);
        lemma_small_mod(fraction, p);
        assert(text =~= front + seq!['.'] + back);
        assert(text[front.len() as int] == '.');
        assert forall|j: int| 0 <= j < front.len() implies text[j] != '.' by {
            assert(text[j] == front[j]);
        }
        lemma_point_index(text, front.len() as int);
        assert(whole_part(text) =~= front);
        assert(fraction_part(text) =~= back);
        if back.len() == 0 {
            assert(full =~= zeros(d));
            lemma_zeros(d);
        }
        assert(raw_digits(text, d) =~= front + full) by {
            assert(back + zeros((d - back.len()) as nat) == full);
        }
        lemma_decimal_value_concat(front, full);
        assert(whole * p == p * whole) by (nonlinear_arith);
    }
}

/// Takes in the characters of `text` from `from` up to `to` as further
/// digits of a number.
fn take_digits(text: &str, from: usize, to: usize, value: u64, Ghost(seen): Ghost<Seq<char>>) -> (r:
    Option<u64>)
    requires
        from <= to <= text@.len(),
        value == decimal_value(seen),
    ensures
        match r {
            Some(v) => all_digits(text@.subrange(from as int, to as int)) && v == decimal_value(
                seen + text@.subrange(from as int, to as int),
            ),
            None => !all_digits(text@.subrange(from as int, to as int)) || decimal_value(
                seen + text@.subrange(from as int, to as int),
            ) > u64::MAX,
        },
{
    let ghost part = text@.subrange(from as int, to as int);
    let mut value = value;
    let mut i: usize = from;
    proof {
        assert(seen + part.subrange(0, 0) =~= seen);
    }
    while i < to
        invariant
            from <= i <= to <= text@.len(),
            part == text@.subrange(from as int, to as int),
            all_digits(part.subrange(0, i - from)),
            value == decimal_value(seen + part.subrange(0, i - from)),
        decreases to - i,
    {
        let c = text.get_char(i);
        let ghost before = seen + part.subrange(0, i - from);
        let ghost after = seen + part.subrange(0, i - from + 1);
        proof {
            assert(after.drop_last() =~= before);
            assert(after.last() == c);
            assert(after =~= (seen + part).subrange(0, seen.len() + i - from + 1));
            lemma_decimal_value_prefix(seen + part, seen.len() + i - from + 1);
        }
        if c < '0' || c > '9' {
            proof {
                assert(!is_digit(part[i - from]));
            }
            return None;
        }
        let d: u64 = (c as u32 - '0' as u32) as u64;
        if value > (u64::MAX - d) / 10 {
            proof {
                assert(value * 10 + d > u64::MAX);
            }
            return None;
        }
        value = value * 10 + d;
        proof {
            let next = part.subrange(0, i - from + 1);
            assert forall|j: int| 0 <= j < next.len() implies is_digit(#[trigger] next[j]) by {
                if j < next.len() - 1 {
                    assert(next[j] == part.subrange(0, i - from)[j]);
                }
            }
        }
        i += 1;
    }
    proof {
        assert(part.subrange(0, i - from) =~= part);
    }
    Some(value)
}

/// Appends `count` zeros to the digits of a number.
fn take_zeros(count: usize, value: u64, Ghost(seen): Ghost<Seq<char>>) -> (r: Option<u64>)
    requires
        value == decimal_value(seen),
    ensures
        match r {
            Some(v) => v == decimal_value(seen + zeros(count as nat)),
            None => decimal_value(seen + zeros(count as nat)) > u64::MAX,
        },
{
    let mut value = value;
    let mut i: usize = 0;
    proof {
        assert(seen + zeros(0) =~= seen);
    }
    while i < count
        invariant
            i <= count,
            value == decimal_value(seen + zeros(i as nat)),
        decreases count - i,
    {
        let ghost all = seen + zeros(count as nat);
        let ghost after = seen + zeros((i + 1) as nat);
        proof {
            assert(after.drop_last() =~= seen + zeros(i as nat));
            assert(after.last() == '0');
            assert(after =~= all.subrange(0, seen.len() + i + 1));
            lemma_decimal_value_prefix(all, seen.len() + i + 1);
        }
        if value > u64::MAX / 10 {
            return None;
        }
        value = value * 10;
        i += 1;
    }
    Some(value)
}

/// Finds the first point of `text`.
fn find_point(text: &str) -> (at: usize)
    ensures
        at == point_index(text@),
        at <= text@.len(),
{
    let len = text.unicode_len();
    let mut at: usize = 0;
    while at < len && text.get_char(at) != '.'
        invariant
            at <= len == text@.len(),
            forall|j: int| 0 <= j < at ==> text@[j] != '.',
        decreases len - at,
    {
        at += 1;
    }
    proof {
        lemma_point_index(text@, at as int);
    }
    at
}

/// Reads the raw amount that a decimal text writes at the precision
/// `decimals`: the inverse of [`UiAmount::display`].
pub fn parse_display(text: &str, decimals: u8) -> (r: Option<u64>)
    ensures
        r == undisplayed(text@, decimals as nat),
{
    let len = text.unicode_len();
    let at = find_point(text);
    let ghost whole = whole_part(text@);
    let ghost fraction = fraction_part(text@);
    let ghost all = raw_digits(text@, decimals as nat);
    if at == 0 {
        return None;
    }
    let from = if at < len {
        at + 1
    } else {
        len
    };
    proof {
        assert(fraction =~= text@.subrange(from as int, len as int));
    }
    if at < len && from == len {
        return None;
    }
    if len - from > decimals as usize {
        return None;
    }
    let count = decimals as usize - (len - from);
    proof {
        assert(Seq::<char>::empty() + whole =~= whole);
        assert(decimal_value(Seq::<char>::empty()) == 0);
        assert(whole =~= all.subrange(0, whole.len() as int));
        lemma_decimal_value_prefix(all, whole.len() as int);
        assert(whole + fraction =~= all.subrange(0, (whole.len() + fraction.len()) as int));
        lemma_decimal_value_prefix(all, (whole.len() + fraction.len()) as int);
    }
    let value = match take_digits(text, 0, at, 0, Ghost(Seq::empty())) {
        Some(v) => v,
        None => {
            return None;
        },
    };
    let value = match take_digits(text, from, len, value, Ghost(whole)) {
        Some(v) => v,
        None => {
            return None;
        },
    };
    take_zeros(count, value, Ghost(whole + fraction))
}

} // verus!
