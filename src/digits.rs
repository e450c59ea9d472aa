use vstd::prelude::*;

verus! {

/// The character that writes the digit `d` (0 to 15) in lower-case hexadecimal.
pub open spec fn digit_char(d: int) -> char {
    if d < 10 {
        ((d + 48) as u32) as char
    } else {
        ((d + 87) as u32) as char
    }
}

/// Relies on String::push: appends one character at the end.
#[verifier::external_body]
pub(crate) fn push_char(s: &mut String, c: char)
    ensures
        final(s)@ == old(s)@.push(c),
{
    s.push(c);
}

/// Executable counterpart of `digit_char`.
pub fn digit_to_char(d: u8) -> (c: char)
    requires
        d < 16,
    ensures
        c == digit_char(d as int),
{
    if d < 10 {
        (d + 48) as char
    } else {
        (d + 87) as char
    }
}

/// The last `width` digits of `n` written in `base`, most significant first,
/// padded on the left with zeros.
pub open spec fn digits(n: nat, base: nat, width: nat) -> Seq<char>
    decreases width,
{
    if width == 0 {
        Seq::empty()
    } else {
        digits(n / base, base, (width - 1) as nat).push(digit_char((n % base) as int))
    }
}

/// The number of decimal digits of `n`, with no leading zero (one for zero).
pub open spec fn decimal_width(n: nat) -> nat
    decreases n,
{
    if n < 10 {
        1
    } else {
        1 + decimal_width(n / 10)
    }
}

/// `n` in decimal, with no leading zero.
pub open spec fn decimal(n: nat) -> Seq<char> {
    digits(n, 10, decimal_width(n))
}

/// Writes the last `width` digits of `n` in `base`, padded with zeros.
pub fn fixed_digits(n: u64, base: u64, width: usize) -> (r: String)
    requires
        2 <= base <= 16,
    ensures
        r@ == digits(n as nat, base as nat, width as nat),
{
    let mut v: u64 = n;
    let mut k: usize = 0;
    let mut rev: Vec<char> = Vec::new();
    let ghost mut suffix: Seq<char> = Seq::empty();
    while k < width
        invariant
            2 <= base <= 16,
            k <= width,
            digits(n as nat, base as nat, width as nat) == digits(v as nat, base as nat, (width - k) as nat) + suffix,
            rev@.len() == k,
            suffix.len() == k,
            forall|j: int| 0 <= j < k ==> rev@[j] == #[trigger] suffix[k - 1 - j],
        decreases width - k,
    {
        let d: u64 = v % base;
        let c = digit_to_char(d as u8);
        proof {
            let w = (width - k) as nat;
            assert(digits(v as nat, base as nat, w) == digits((v / base) as nat, base as nat, (w - 1) as nat).push(c));
            assert(digits((v / base) as nat, base as nat, (w - 1) as nat) + (seq![c] + suffix)
                =~= digits(v as nat, base as nat, w) + suffix);
        }
        rev.push(c);
        proof {
            let old_suffix = suffix;
            suffix = seq![c] + suffix;
            assert forall|j: int| 0 <= j < k + 1 implies rev@[j] == #[trigger] suffix[k - j] by {
                if j < k {
                    assert(suffix[k - j] == old_suffix[k - 1 - j]);
                }
            }
        }
        v = v / base;
        k = k + 1;
    }
    assert(digits(n as nat, base as nat, width as nat) =~= suffix);
    let mut r = String::new();
    let mut j: usize = 0;
    while j < width
        invariant
            j <= width,
            rev@.len() == width,
            suffix.len() == width,
            forall|i: int| 0 <= i < width ==> #[trigger] rev@[i] == suffix[width - 1 - i],
            r@ == suffix.subrange(0, j as int),
        decreases width - j,
    {
        let c = rev[width - 1 - j];
        assert(c == suffix[j as int]);
        push_char(&mut r, c);
        assert(r@ =~= suffix.subrange(0, j + 1));
        j = j + 1;
    }
    assert(r@ =~= suffix);
    r
}

/// Ten to the power `k`.
pub open spec fn pow10(k: nat) -> nat
    decreases k,
{
    if k == 0 {
        1
    } else {
        10 * pow10((k - 1) as nat)
    }
}

/// A number below `10^k` has at most `k` decimal digits.
proof fn lemma_decimal_width_bound(v: nat, k: nat)
    requires
        k >= 1,
        v < pow10(k),
    ensures
        decimal_width(v) <= k,
    decreases k,
{
    if v >= 10 {
        if k == 1 {
            assert(pow10(1) == 10) by {
                reveal_with_fuel(pow10, 2);
            }
        } else {
            lemma_decimal_width_bound(v / 10, (k - 1) as nat);
        }
    }
}

/// Writes `n` in decimal, with no leading zero.
pub fn decimal_string(n: u64) -> (r: String)
    ensures
        r@ == decimal(n as nat),
{
    let mut v: u64 = n;
    let mut width: usize = 1;
    proof {
        assert(pow10(20) == 100000000000000000000) by {
            reveal_with_fuel(pow10, 21);
        }
        lemma_decimal_width_bound(n as nat, 20);
    }
    while v >= 10
        invariant
            1 <= width <= 20,
            decimal_width(n as nat) == width - 1 + decimal_width(v as nat),
            width - 1 + decimal_width(v as nat) <= 20,
        decreases v,
    {
        assert(decimal_width(v as nat) == 1 + decimal_width((v / 10) as nat));
        assert(decimal_width((v / 10) as nat) >= 1);
        v = v / 10;
        width = width + 1;
    }
    fixed_digits(n, 10, width)
}

} // verus!
