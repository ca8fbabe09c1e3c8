//! Verified rendering of integers as decimal and hexadecimal text.
//!
//! The specification functions here define the canonical textual forms the
//! value codec promises: plain decimal, zero-padded decimal of a minimum
//! width, signed decimal, and uppercase hexadecimal byte pairs.

use vstd::prelude::*;

verus! {

/// The decimal digit character for `d` (`d < 10`).
pub open spec fn dec_digit(d: int) -> char {
    if d == 0 { '0' }
    else if d == 1 { '1' }
    else if d == 2 { '2' }
    else if d == 3 { '3' }
    else if d == 4 { '4' }
    else if d == 5 { '5' }
    else if d == 6 { '6' }
    else if d == 7 { '7' }
    else if d == 8 { '8' }
    else { '9' }
}

/// The uppercase hexadecimal digit character for `d` (`d < 16`).
pub open spec fn hex_digit(d: int) -> char {
    if d < 10 { dec_digit(d) }
    else if d == 10 { 'A' }
    else if d == 11 { 'B' }
    else if d == 12 { 'C' }
    else if d == 13 { 'D' }
    else if d == 14 { 'E' }
    else { 'F' }
}

/// The decimal representation of `n`, without leading zeros (`"0"` for 0).
pub open spec fn dec_rep(n: nat) -> Seq<char>
    decreases n,
{
    if n < 10 {
        seq![dec_digit(n as int)]
    } else {
        dec_rep(n / 10) + seq![dec_digit((n % 10) as int)]
    }
}

/// `k` zero characters.
pub open spec fn zeros(k: nat) -> Seq<char> {
    Seq::new(k, |i: int| '0')
}

/// The decimal representation of `n`, left-padded with zeros to at least
/// `w` characters.
pub open spec fn dec_pad(n: nat, w: nat) -> Seq<char> {
    if dec_rep(n).len() >= w {
        dec_rep(n)
    } else {
        zeros((w - dec_rep(n).len()) as nat) + dec_rep(n)
    }
}

/// The decimal representation of `i`, prefixed with `-` when negative.
pub open spec fn signed_dec_rep(i: int) -> Seq<char> {
    if i < 0 {
        seq!['-'] + dec_rep((-i) as nat)
    } else {
        dec_rep(i as nat)
    }
}

/// The two uppercase hexadecimal digits of one byte.
pub open spec fn hex_byte(b: u8) -> Seq<char> {
    seq![hex_digit(b as int / 16), hex_digit(b as int % 16)]
}

/// The concatenated uppercase hexadecimal pairs of a byte sequence.
pub open spec fn hex_rep(bs: Seq<u8>) -> Seq<char>
    decreases bs.len(),
{
    if bs.len() == 0 {
        Seq::empty()
    } else {
        hex_rep(bs.drop_last()) + hex_byte(bs.last())
    }
}

/// The decimal representation never holds fewer than one character.
pub proof fn lemma_dec_rep_len(n: nat)
    ensures
        dec_rep(n).len() >= 1,
    decreases n,
{
    if n >= 10 {
        lemma_dec_rep_len(n / 10);
    }
}

/// Powers of ten.
pub open spec fn pow10(k: nat) -> nat
    decreases k,
{
    if k == 0 {
        1
    } else {
        10 * pow10((k - 1) as nat)
    }
}

/// A number below `pow10(k)` has at most `k` decimal digits.
pub proof fn lemma_dec_rep_len_bound(n: nat, k: nat)
    requires
        k >= 1,
        n < pow10(k),
    ensures
        dec_rep(n).len() <= k,
    decreases k,
{
    if n >= 10 {
        assert(pow10(k) == 10 * pow10((k - 1) as nat));
        assert(n / 10 < pow10((k - 1) as nat)) by (nonlinear_arith)
            requires
                n < 10 * pow10((k - 1) as nat),
        ;
        assert(k >= 2) by {
            if k == 1 {
                assert(pow10(1nat) == 10);
            }
        }
        lemma_dec_rep_len_bound(n / 10, (k - 1) as nat);
    }
}

/// A 64-bit value has at most 20 decimal digits.
pub proof fn lemma_dec_rep_len_u64(n: u64)
    ensures
        dec_rep(n as nat).len() <= 20,
{
    assert(pow10(20nat) == 100000000000000000000nat) by {
        reveal_with_fuel(pow10, 21);
    }
    lemma_dec_rep_len_bound(n as nat, 20nat);
}

/// The executable digit table, equal to [`dec_digit`].
fn dec_digit_exec(d: u64) -> (c: char)
    requires
        d < 10,
    ensures
        c == dec_digit(d as int),
{
    if d == 0 { '0' }
    else if d == 1 { '1' }
    else if d == 2 { '2' }
    else if d == 3 { '3' }
    else if d == 4 { '4' }
    else if d == 5 { '5' }
    else if d == 6 { '6' }
    else if d == 7 { '7' }
    else if d == 8 { '8' }
    else { '9' }
}

/// The executable hexadecimal digit table, equal to [`hex_digit`].
fn hex_digit_exec(d: u8) -> (c: char)
    requires
        d < 16,
    ensures
        c == hex_digit(d as int),
{
    if d < 10 { dec_digit_exec(d as u64) }
    else if d == 10 { 'A' }
    else if d == 11 { 'B' }
    else if d == 12 { 'C' }
    else if d == 13 { 'D' }
    else if d == 14 { 'E' }
    else { 'F' }
}

/// Appends the decimal representation of `n` to `out`.
pub fn push_dec(n: u64, out: &mut Vec<char>)
    ensures
        final(out)@ == old(out)@ + dec_rep(n as nat),
    decreases n,
{
    if n < 10 {
        out.push(dec_digit_exec(n));
    } else {
        push_dec(n / 10, out);
        out.push(dec_digit_exec(n % 10));
        proof {
            assert(out@ =~= old(out)@ + dec_rep(n as nat));
        }
    }
}

/// The number of characters in the decimal representation of `n`.
pub fn dec_len(n: u64) -> (l: usize)
    ensures
        l == dec_rep(n as nat).len(),
    decreases n,
{
    if n < 10 {
        1
    } else {
        let rest = dec_len(n / 10);
        proof {
            lemma_dec_rep_len(n as nat / 10);
            lemma_dec_rep_len_u64(n / 10);
            assert(dec_rep(n as nat).len() == dec_rep(n as nat / 10).len() + 1);
        }
        rest + 1
    }
}

/// Appends the decimal representation of `n`, zero-padded to at least `w`
/// characters, to `out`.
pub fn push_dec_pad(n: u64, w: usize, out: &mut Vec<char>)
    ensures
        final(out)@ == old(out)@ + dec_pad(n as nat, w as nat),
{
    let l = dec_len(n);
    let mut k: usize = 0;
    if l < w {
        let pad = w - l;
        while k < pad
            invariant
                k <= pad,
                out@ == old(out)@ + zeros(k as nat),
            decreases pad - k,
        {
            out.push('0');
            proof {
                assert(out@ =~= old(out)@ + zeros((k + 1) as nat));
            }
            k = k + 1;
        }
    }
    push_dec(n, out);
    proof {
        if l < w {
            assert(out@ =~= old(out)@ + dec_pad(n as nat, w as nat));
        }
    }
}

/// Appends the two uppercase hexadecimal digits of `b` to `out`.
pub fn push_hex_byte(b: u8, out: &mut Vec<char>)
    ensures
        final(out)@ == old(out)@ + hex_byte(b),
{
    out.push(hex_digit_exec(b / 16));
    out.push(hex_digit_exec(b % 16));
    proof {
        assert(out@ =~= old(out)@ + hex_byte(b));
    }
}

/// Appends the hexadecimal pairs of every byte of `bs` to `out`.
pub fn push_hex(bs: &Vec<u8>, out: &mut Vec<char>)
    ensures
        final(out)@ == old(out)@ + hex_rep(bs@),
{
    let mut i: usize = 0;
    while i < bs.len()
        invariant
            i <= bs@.len(),
            out@ == old(out)@ + hex_rep(bs@.subrange(0, i as int)),
        decreases bs@.len() - i,
    {
        push_hex_byte(bs[i], out);
        proof {
            let pre = bs@.subrange(0, i as int);
            let post = bs@.subrange(0, (i + 1) as int);
            assert(post.drop_last() =~= pre);
            assert(post.last() == bs@[i as int]);
            assert(out@ =~= old(out)@ + hex_rep(post));
        }
        i = i + 1;
    }
    proof {
        assert(bs@.subrange(0, bs@.len() as int) =~= bs@);
    }
}

} // verus!
