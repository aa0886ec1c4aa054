//! Text rendering of numbers, as the screens of the application show them.

use vstd::prelude::*;
use vstd::string::*;

verus! {

/// The character of the decimal digit `d` (meaningful for `d < 10`).
pub open spec fn digit_char(d: nat) -> char {
    (48 + d) as char
}

/// The lower-case character of the hexadecimal digit `d` (meaningful for `d < 16`).
pub open spec fn hex_digit_char(d: nat) -> char {
    if d < 10 {
        (48 + d) as char
    } else {
        (87 + d) as char
    }
}

/// Decimal notation of `n`, without leading zeros (`"0"` for zero).
pub open spec fn dec(n: nat) -> Seq<char>
    decreases n,
{
    if n < 10 {
        seq![digit_char(n)]
    } else {
        dec(n / 10).push(digit_char(n % 10))
    }
}

/// Lower-case hexadecimal notation of `n`, without leading zeros.
pub open spec fn hex(n: nat) -> Seq<char>
    decreases n,
{
    if n < 16 {
        seq![hex_digit_char(n)]
    } else {
        hex(n / 16).push(hex_digit_char(n % 16))
    }
}

/// `s` filled on the left with `fill` up to `width` characters; unchanged when
/// it is already that long.
pub open spec fn pad_left(s: Seq<char>, width: nat, fill: char) -> Seq<char> {
    if s.len() >= width {
        s
    } else {
        Seq::new((width - s.len()) as nat, |_i: int| fill) + s
    }
}

/// Decimal notation of a signed integer: a minus sign before the magnitude of
/// a negative value.
pub open spec fn signed_dec(i: int) -> Seq<char> {
    if i < 0 {
        seq!['-'] + dec((-i) as nat)
    } else {
        dec(i as nat)
    }
}

/// A quantity in thousandths shown with two decimals, truncated:
/// 3712 becomes `3.71`.
pub open spec fn milli_two_decimals(m: nat) -> Seq<char> {
    dec(m / 1000) + seq!['.'] + pad_left(dec((m % 1000) / 10), 2, '0')
}

/// Appends `c` to `s`.
///
/// Calls `String::push`, which appends the character at the end of the string.
#[verifier::external_body]
pub(crate) fn push_char(s: &mut String, c: char)
    ensures
        final(s)@ == old(s)@.push(c),
{
    s.push(c);
}

/// Removes the last character of `s`, if any, and returns it.
///
/// Calls `String::pop`, which returns `None` on an empty string and otherwise
/// removes and returns the last character.
#[verifier::external_body]
pub(crate) fn pop_char(s: &mut String) -> (r: Option<char>)
    ensures
        old(s)@.len() == 0 ==> r is None && final(s)@ == old(s)@,
        old(s)@.len() > 0 ==> r == Some(old(s)@.last()) && final(s)@ == old(s)@.drop_last(),
{
    s.pop()
}

/// Appends the string slice `t` to `s`.
pub fn push_str(s: &mut String, t: &str)
    ensures
        final(s)@ == old(s)@ + t@,
{
    s.append(t);
}

/// The character of the decimal digit `d`.
pub fn digit(d: u8) -> (c: char)
    requires
        d < 10,
    ensures
        c == digit_char(d as nat),
{
    (48u8 + d) as char
}

/// The lower-case character of the hexadecimal digit `d`.
pub fn hex_digit(d: u8) -> (c: char)
    requires
        d < 16,
    ensures
        c == hex_digit_char(d as nat),
{
    if d < 10 {
        (48u8 + d) as char
    } else {
        (87u8 + d) as char
    }
}

proof fn lemma_dec_len_pos(n: nat)
    ensures
        dec(n).len() >= 1,
    decreases n,
{
    if n >= 10 {
        lemma_dec_len_pos(n / 10);
    }
}

proof fn lemma_hex_len_pos(n: nat)
    ensures
        hex(n).len() >= 1,
    decreases n,
{
    if n >= 16 {
        lemma_hex_len_pos(n / 16);
    }
}

/// Appends the decimal notation of `n` to `s`.
pub fn push_dec(s: &mut String, n: u64)
    ensures
        final(s)@ == old(s)@ + dec(n as nat),
    decreases n,
{
    let ghost start = s@;
    if n >= 10 {
        push_dec(s, n / 10);
    }
    push_char(s, digit((n % 10) as u8));
    proof {
        if n >= 10 {
            assert(s@ =~= start + dec(n as nat / 10).push(digit_char(n as nat % 10)));
        } else {
            assert(s@ =~= start + dec(n as nat));
        }
    }
}

/// Appends the hexadecimal notation of `n` to `s`.
pub fn push_hex(s: &mut String, n: u64)
    ensures
        final(s)@ == old(s)@ + hex(n as nat),
    decreases n,
{
    let ghost start = s@;
    if n >= 16 {
        push_hex(s, n / 16);
    }
    push_char(s, hex_digit((n % 16) as u8));
    proof {
        if n >= 16 {
            assert(s@ =~= start + hex(n as nat / 16).push(hex_digit_char(n as nat % 16)));
        } else {
            assert(s@ =~= start + hex(n as nat));
        }
    }
}

/// The number of characters in the decimal notation of `n`.
pub fn dec_len(n: u64) -> (len: usize)
    ensures
        len == dec(n as nat).len(),
    decreases n,
{
    proof {
        lemma_dec_len_pos(n as nat);
    }
    if n >= 10 {
        let l = dec_len(n / 10);
        assert(l <= 20) by {
            lemma_dec_len_bound(n as nat / 10);
        }
        l + 1
    } else {
        1
    }
}

/// The number of characters in the hexadecimal notation of `n`.
pub fn hex_len(n: u64) -> (len: usize)
    ensures
        len == hex(n as nat).len(),
    decreases n,
{
    proof {
        lemma_hex_len_pos(n as nat);
    }
    if n >= 16 {
        let l = hex_len(n / 16);
        assert(l <= 20) by {
            lemma_hex_len_bound(n as nat / 16);
        }
        l + 1
    } else {
        1
    }
}

proof fn lemma_dec_len_bound(n: nat)
    requires
        n < 0x1_0000_0000_0000_0000,
    ensures
        dec(n).len() <= 20,
{
    assert(pow10(20) == 100_000_000_000_000_000_000) by {
        reveal_with_fuel(pow10, 21);
    }
    lemma_dec_len_le(n, 20);
}

proof fn lemma_hex_len_bound(n: nat)
    requires
        n < 0x1_0000_0000_0000_0000,
    ensures
        hex(n).len() <= 16,
{
    assert(pow16(16) == 0x1_0000_0000_0000_0000) by {
        reveal_with_fuel(pow16, 17);
    }
    lemma_hex_len_le(n, 16);
}

spec fn pow10(k: nat) -> nat
    decreases k,
{
    if k == 0 {
        1
    } else {
        10 * pow10((k - 1) as nat)
    }
}

spec fn pow16(k: nat) -> nat
    decreases k,
{
    if k == 0 {
        1
    } else {
        16 * pow16((k - 1) as nat)
    }
}

proof fn lemma_dec_len_le(n: nat, k: nat)
    requires
        k >= 1,
    ensures
        n < pow10(k) ==> dec(n).len() <= k,
    decreases k,
{
    if n >= 10 && k >= 2 && n < pow10(k) {
        lemma_dec_len_le(n / 10, (k - 1) as nat);
    }
    if n >= 10 && k == 1 {
        assert(pow10(1) == 10) by {
            reveal_with_fuel(pow10, 2);
        }
    }
}

proof fn lemma_hex_len_le(n: nat, k: nat)
    requires
        k >= 1,
    ensures
        n < pow16(k) ==> hex(n).len() <= k,
    decreases k,
{
    if n >= 16 && k >= 2 && n < pow16(k) {
        lemma_hex_len_le(n / 16, (k - 1) as nat);
    }
    if n >= 16 && k == 1 {
        assert(pow16(1) == 16) by {
            reveal_with_fuel(pow16, 2);
        }
    }
}

/// Appends `fill` to `s` until `width` characters would have been written for a
/// field whose own text is `len` characters long.
fn push_fill(s: &mut String, len: usize, width: usize, fill: char)
    ensures
        len >= width ==> final(s)@ == old(s)@,
        len < width ==> final(s)@ == old(s)@ + Seq::new((width - len) as nat, |_i: int| fill),
{
    let ghost start = s@;
    let mut k = len;
    while k < width
        invariant
            len <= k <= width || (len >= width && k == len),
            len < width ==> s@ =~= start + Seq::new((k - len) as nat, |_i: int| fill),
            len >= width ==> s@ == start,
        decreases width - k,
    {
        push_char(s, fill);
        k = k + 1;
    }
    proof {
        if len < width {
            assert(k == width);
        }
    }
}

/// Appends the decimal notation of `n`, filled on the left with `fill` to
/// `width` characters (Rust's `{:0w}` with `'0'`, `{:>w}` with a space).
pub fn push_dec_padded(s: &mut String, n: u64, width: usize, fill: char)
    ensures
        final(s)@ == old(s)@ + pad_left(dec(n as nat), width as nat, fill),
{
    let ghost start = s@;
    let len = dec_len(n);
    push_fill(s, len, width, fill);
    push_dec(s, n);
    proof {
        if len < width {
            assert(s@ =~= start + pad_left(dec(n as nat), width as nat, fill));
        } else {
            assert(s@ =~= start + pad_left(dec(n as nat), width as nat, fill));
        }
    }
}

/// Appends the lower-case hexadecimal notation of `n`, filled on the left with
/// zeros to `width` characters (Rust's `{:0wx}`).
pub fn push_hex_padded(s: &mut String, n: u64, width: usize)
    ensures
        final(s)@ == old(s)@ + pad_left(hex(n as nat), width as nat, '0'),
{
    let ghost start = s@;
    let len = hex_len(n);
    push_fill(s, len, width, '0');
    push_hex(s, n);
    proof {
        assert(s@ =~= start + pad_left(hex(n as nat), width as nat, '0'));
    }
}

/// Appends the decimal notation of the signed value `i`.
pub fn push_signed(s: &mut String, i: i64)
    ensures
        final(s)@ == old(s)@ + signed_dec(i as int),
{
    let ghost start = s@;
    if i < 0 {
        push_char(s, '-');
        let m: u64 = ((-(i + 1)) as u64) + 1;
        push_dec(s, m);
        assert(s@ =~= start + signed_dec(i as int));
    } else {
        push_dec(s, i as u64);
        assert(s@ =~= start + signed_dec(i as int));
    }
}

/// Appends a quantity in thousandths with two truncated decimals
/// (Rust's `"{}.{:02}"` of `m / 1000` and `(m % 1000) / 10`).
pub fn push_milli_two_decimals(s: &mut String, m: u64)
    ensures
        final(s)@ == old(s)@ + milli_two_decimals(m as nat),
{
    let ghost start = s@;
    push_dec(s, m / 1000);
    push_char(s, '.');
    push_dec_padded(s, (m % 1000) / 10, 2, '0');
    assert(s@ =~= start + milli_two_decimals(m as nat));
}

} // verus!
