use vstd::prelude::*;
use vstd::string::{StrSliceExecFns, StringExecFns};

use crate::text::push_char;

verus! {

/// The ASCII digit for `d` in base 16, upper case; for `d < 10` also the decimal digit.
pub open spec fn digit_char(d: nat) -> char {
    if d < 10 {
        (('0' as u32) + d) as char
    } else {
        (('A' as u32) + d - 10) as char
    }
}

/// The decimal numeral of `n`, without leading zeros, as `{}` formats an integer.
pub open spec fn decimal(n: nat) -> Seq<char>
    decreases n,
{
    if n < 10 {
        seq![digit_char(n)]
    } else {
        decimal(n / 10).push(digit_char(n % 10))
    }
}

/// The last `width` hexadecimal digits of `n`, upper case and zero-padded, as
/// `{:0width$X}` formats a value below `16^width`.
pub open spec fn hex_padded(n: nat, width: nat) -> Seq<char>
    decreases width,
{
    if width == 0 {
        seq![]
    } else {
        hex_padded(n / 16, (width - 1) as nat).push(digit_char(n % 16))
    }
}

/// The hexadecimal numeral of `n`, upper case, without leading zeros, as `{:X}`
/// formats an integer.
pub open spec fn hex(n: nat) -> Seq<char>
    decreases n,
{
    if n < 16 {
        seq![digit_char(n)]
    } else {
        hex(n / 16).push(digit_char(n % 16))
    }
}

/// `s` after as many `'0'`s as it takes to make it `width` chars long, as `{:0width$}`
/// pads a numeral.
pub open spec fn zero_padded(s: Seq<char>, width: nat) -> Seq<char> {
    if s.len() >= width {
        s
    } else {
        Seq::new((width - s.len()) as nat, |i: int| '0') + s
    }
}

fn digit(d: u64) -> (c: char)
    requires
        d < 16,
    ensures
        c == digit_char(d as nat),
{
    if d < 10 {
        (('0' as u8) + (d as u8)) as char
    } else {
        (('A' as u8) + (d as u8) - 10) as char
    }
}

/// `n` written in decimal.
pub fn decimal_string(n: u64) -> (s: String)
    ensures
        s@ == decimal(n as nat),
{
    // Collect digits from the least significant one.
    let mut rev: Vec<char> = Vec::new();
    let mut m = n;
    loop
        invariant_except_break
            decimal(n as nat) == decimal(m as nat) + rev@.reverse(),
        ensures
            decimal(n as nat) == rev@.reverse(),
        decreases m,
    {
        if m < 10 {
            let ghost before = rev@;
            rev.push(digit(m));
            proof {
                assert(rev@.reverse() =~= seq![digit_char(m as nat)] + before.reverse());
            }
            break;
        }
        let d = m % 10;
        let ghost before = rev@;
        rev.push(digit(d));
        proof {
            assert(rev@.reverse() =~= seq![digit_char(d as nat)] + before.reverse());
            assert(decimal(m as nat) == decimal((m / 10) as nat).push(digit_char(d as nat)));
            assert(decimal((m / 10) as nat).push(digit_char(d as nat)) + before.reverse()
                =~= decimal((m / 10) as nat) + rev@.reverse());
        }
        m = m / 10;
    }
    assert(decimal(n as nat) == rev@.reverse());
    let mut s = String::new();
    let mut i = rev.len();
    while i > 0
        invariant
            i <= rev.len(),
            decimal(n as nat) == rev@.reverse(),
            s@ == rev@.subrange(i as int, rev.len() as int).reverse(),
        decreases i,
    {
        i = i - 1;
        let ghost before = s@;
        push_char(&mut s, rev[i]);
        assert(rev@.subrange(i as int, rev.len() as int).reverse() =~= before.push(rev@[i as int]));
    }
    assert(rev@.subrange(0, rev.len() as int) =~= rev@);
    s
}

/// `n` written as sixteen upper-case hexadecimal digits.
pub fn hex16_string(n: u64) -> (s: String)
    ensures
        s@ == hex_padded(n as nat, 16),
{
    let mut digits: Vec<char> = Vec::new();
    let mut m = n;
    let mut k: usize = 0;
    while k < 16
        invariant
            k <= 16,
            digits.len() == k,
            hex_padded(n as nat, 16) == hex_padded(m as nat, (16 - k) as nat) + digits@.reverse(),
        decreases 16 - k,
    {
        let d = m % 16;
        let ghost before = digits@;
        digits.push(digit(d));
        proof {
            assert(hex_padded(m as nat, (16 - k) as nat) == hex_padded((m / 16) as nat, (16 - k
                - 1) as nat).push(digit_char(d as nat)));
            assert(digits@.reverse() =~= seq![digit_char(d as nat)] + before.reverse());
            assert(hex_padded((m / 16) as nat, (16 - k - 1) as nat).push(digit_char(d as nat))
                + before.reverse() =~= hex_padded((m / 16) as nat, (16 - k - 1) as nat)
                + digits@.reverse());
        }
        m = m / 16;
        k = k + 1;
    }
    assert(hex_padded(m as nat, 0) =~= Seq::<char>::empty());
    assert(hex_padded(n as nat, 16) =~= digits@.reverse());
    let mut s = String::new();
    let mut i = digits.len();
    while i > 0
        invariant
            i <= digits.len(),
            hex_padded(n as nat, 16) == digits@.reverse(),
            s@ == digits@.subrange(i as int, digits.len() as int).reverse(),
        decreases i,
    {
        i = i - 1;
        let ghost before = s@;
        push_char(&mut s, digits[i]);
        assert(digits@.subrange(i as int, digits.len() as int).reverse() =~= before.push(
            digits@[i as int],
        ));
    }
    assert(digits@.subrange(0, digits.len() as int) =~= digits@);
    s
}

/// `n` written in upper-case hexadecimal, without leading zeros.
pub fn hex_string(n: u64) -> (s: String)
    ensures
        s@ == hex(n as nat),
{
    // Collect digits from the least significant one.
    let mut rev: Vec<char> = Vec::new();
    let mut m = n;
    loop
        invariant_except_break
            hex(n as nat) == hex(m as nat) + rev@.reverse(),
        ensures
            hex(n as nat) == rev@.reverse(),
        decreases m,
    {
        if m < 16 {
            let ghost before = rev@;
            rev.push(digit(m));
            proof {
                assert(rev@.reverse() =~= seq![digit_char(m as nat)] + before.reverse());
            }
            break;
        }
        let d = m % 16;
        let ghost before = rev@;
        rev.push(digit(d));
        proof {
            assert(rev@.reverse() =~= seq![digit_char(d as nat)] + before.reverse());
            assert(hex(m as nat) == hex((m / 16) as nat).push(digit_char(d as nat)));
            assert(hex((m / 16) as nat).push(digit_char(d as nat)) + before.reverse() =~= hex(
                (m / 16) as nat,
            ) + rev@.reverse());
        }
        m = m / 16;
    }
    let mut s = String::new();
    let mut i = rev.len();
    while i > 0
        invariant
            i <= rev.len(),
            hex(n as nat) == rev@.reverse(),
            s@ == rev@.subrange(i as int, rev.len() as int).reverse(),
        decreases i,
    {
        i = i - 1;
        let ghost before = s@;
        push_char(&mut s, rev[i]);
        assert(rev@.subrange(i as int, rev.len() as int).reverse() =~= before.push(rev@[i as int]));
    }
    assert(rev@.subrange(0, rev.len() as int) =~= rev@);
    s
}

/// `s` with `'0'`s put before it until it is `width` chars long.
pub fn pad_zeros(s: &str, width: usize) -> (r: String)
    ensures
        r@ == zero_padded(s@, width as nat),
{
    let n = s.unicode_len();
    let mut r = String::new();
    if n < width {
        let mut k: usize = 0;
        while k < width - n
            invariant
                n < width,
                k <= width - n,
                r@ == Seq::new(k as nat, |i: int| '0'),
            decreases width - n - k,
        {
            push_char(&mut r, '0');
            k = k + 1;
            assert(r@ =~= Seq::new(k as nat, |i: int| '0'));
        }
    }
    r.append(s);
    assert(r@ =~= zero_padded(s@, width as nat));
    r
}

/// `n` in upper-case hexadecimal, zero-padded to at least `width` digits, as
/// `{:0width$X}` formats it.
pub fn hex_string_width(n: u64, width: usize) -> (s: String)
    ensures
        s@ == zero_padded(hex(n as nat), width as nat),
{
    let h = hex_string(n);
    pad_zeros(h.as_str(), width)
}

} // verus!
