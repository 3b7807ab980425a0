//! Byte-level text building blocks: appending, decimal and hexadecimal
//! numerals, space padding.  Every function states the exact bytes it
//! appends.

use vstd::prelude::*;

verus! {

/// The decimal digit byte for a value below ten.
pub open spec fn dec_digit(d: nat) -> u8 {
    ('0' as u8 + d) as u8
}

/// The decimal numeral of `n`, most significant digit first, no sign, no
/// leading zeros (the numeral of zero is the single byte `0`).
pub open spec fn dec_digits(n: nat) -> Seq<u8>
    decreases n,
{
    if n < 10 {
        seq![dec_digit(n)]
    } else {
        dec_digits(n / 10) + seq![dec_digit(n % 10)]
    }
}

/// The hexadecimal digit byte for a value below sixteen, lower case.
pub open spec fn hex_digit(d: nat) -> u8 {
    if d < 10 {
        ('0' as u8 + d) as u8
    } else {
        ('a' as u8 + (d - 10)) as u8
    }
}

/// The hexadecimal numeral of `n`, most significant digit first, lower case,
/// no prefix, no leading zeros (the numeral of zero is the single byte `0`).
pub open spec fn hex_digits(n: nat) -> Seq<u8>
    decreases n,
{
    if n < 16 {
        seq![hex_digit(n)]
    } else {
        hex_digits(n / 16) + seq![hex_digit(n % 16)]
    }
}

/// `n` space bytes.
pub open spec fn spaces(n: nat) -> Seq<u8> {
    Seq::new(n, |i: int| ' ' as u8)
}

/// `s` padded on the left with spaces up to `width`; `s` itself when it is
/// already at least that wide.
pub open spec fn pad_left(s: Seq<u8>, width: nat) -> Seq<u8> {
    if s.len() < width {
        spaces((width - s.len()) as nat) + s
    } else {
        s
    }
}

/// The line break.
pub open spec fn newline_text() -> Seq<u8> {
    seq!['\n' as u8]
}

/// The ` - ` separator written between a segment and what follows it.
pub open spec fn dash_text() -> Seq<u8> {
    seq![' ' as u8, '-' as u8, ' ' as u8]
}

/// Appends the ` - ` separator to `out`.
pub fn push_dash(out: &mut Vec<u8>)
    ensures
        final(out)@ == old(out)@ + dash_text(),
{
    out.push(' ' as u8);
    out.push('-' as u8);
    out.push(' ' as u8);
    proof {
        assert(out@ =~= old(out)@ + dash_text());
    }
}

/// Appends every byte of `src` to `out`, in order.
pub fn push_bytes(out: &mut Vec<u8>, src: &[u8])
    ensures
        final(out)@ == old(out)@ + src@,
{
    let mut i: usize = 0;
    while i < src.len()
        invariant
            i <= src@.len(),
            out@ == old(out)@ + src@.take(i as int),
        decreases src@.len() - i,
    {
        out.push(src[i]);
        proof {
            assert(old(out)@ + src@.take(i + 1) =~= (old(out)@ + src@.take(i as int)).push(
                src@[i as int],
            ));
        }
        i += 1;
    }
    proof {
        assert(src@.take(src@.len() as int) =~= src@);
    }
}

/// A fresh copy of the bytes in `src`.
pub fn copy_bytes(src: &Vec<u8>) -> (out: Vec<u8>)
    ensures
        out@ == src@,
{
    let mut out: Vec<u8> = Vec::new();
    push_bytes(&mut out, src.as_slice());
    proof {
        assert(Seq::<u8>::empty() + src@ =~= src@);
    }
    out
}

/// Appends `n` space bytes to `out`.
pub fn push_spaces(out: &mut Vec<u8>, n: usize)
    ensures
        final(out)@ == old(out)@ + spaces(n as nat),
{
    let mut i: usize = 0;
    while i < n
        invariant
            i <= n,
            out@ == old(out)@ + spaces(i as nat),
        decreases n - i,
    {
        out.push(' ' as u8);
        proof {
            assert(old(out)@ + spaces((i + 1) as nat) =~= (old(out)@ + spaces(i as nat)).push(
                ' ' as u8,
            ));
        }
        i += 1;
    }
}

/// Appends `src` to `out`, left-padded with spaces up to `width`.
pub fn push_pad_left(out: &mut Vec<u8>, src: &[u8], width: usize)
    ensures
        final(out)@ == old(out)@ + pad_left(src@, width as nat),
{
    if src.len() < width {
        push_spaces(out, width - src.len());
    }
    push_bytes(out, src);
    proof {
        if src@.len() < width {
            assert(out@ =~= old(out)@ + pad_left(src@, width as nat));
        }
    }
}

/// Appends the decimal numeral of `n` to `out`.
pub fn push_dec_u32(out: &mut Vec<u8>, n: u32)
    ensures
        final(out)@ == old(out)@ + dec_digits(n as nat),
    decreases n,
{
    if n >= 10 {
        push_dec_u32(out, n / 10);
    }
    out.push('0' as u8 + (n % 10) as u8);
    proof {
        if n < 10 {
            assert(out@ =~= old(out)@ + dec_digits(n as nat));
        } else {
            assert(out@ =~= old(out)@ + (dec_digits(n as nat / 10) + seq![
                dec_digit(n as nat % 10),
            ]));
        }
    }
}

/// Appends the decimal numeral of `n` to `out`.
pub fn push_dec_usize(out: &mut Vec<u8>, n: usize)
    ensures
        final(out)@ == old(out)@ + dec_digits(n as nat),
    decreases n,
{
    if n >= 10 {
        push_dec_usize(out, n / 10);
    }
    out.push('0' as u8 + (n % 10) as u8);
    proof {
        if n < 10 {
            assert(out@ =~= old(out)@ + dec_digits(n as nat));
        } else {
            assert(out@ =~= old(out)@ + (dec_digits(n as nat / 10) + seq![
                dec_digit(n as nat % 10),
            ]));
        }
    }
}

/// Appends the hexadecimal numeral of `n` to `out`, lower case, no prefix.
pub fn push_hex_usize(out: &mut Vec<u8>, n: usize)
    ensures
        final(out)@ == old(out)@ + hex_digits(n as nat),
    decreases n,
{
    if n >= 16 {
        push_hex_usize(out, n / 16);
    }
    let d: u8 = (n % 16) as u8;
    if d < 10 {
        out.push('0' as u8 + d);
    } else {
        out.push('a' as u8 + (d - 10));
    }
    proof {
        if n < 16 {
            assert(out@ =~= old(out)@ + hex_digits(n as nat));
        } else {
            assert(out@ =~= old(out)@ + (hex_digits(n as nat / 16) + seq![
                hex_digit(n as nat % 16),
            ]));
        }
    }
}

} // verus!
