use vstd::prelude::*;

use crate::colour::Colour;

verus! {

/// The ASCII decimal digits of `n`, most significant first, no leading zero.
pub open spec fn decimal(n: nat) -> Seq<u8>
    decreases n,
{
    if n < 10 {
        seq![(48 + n) as u8]
    } else {
        decimal(n / 10).push((48 + n % 10) as u8)
    }
}

/// One pixel as its text line: the three channels in decimal, separated by
/// single spaces.
pub open spec fn pixel_line(c: Colour<u32>) -> Seq<u8> {
    decimal(c.r as nat) + seq![32u8] + decimal(c.g as nat) + seq![32u8] + decimal(c.b as nat)
}

/// The header of a plain-text pixel map: `P3`, then width and height, then
/// the largest channel value 255, one per line.
pub open spec fn header(width: u32, height: u32) -> Seq<u8> {
    seq![80u8, 51u8, 10u8] + decimal(width as nat) + seq![32u8] + decimal(height as nat) + seq![
        10u8,
        50u8,
        53u8,
        53u8,
    ]
}

/// The pixel lines, each preceded by a line break.
pub open spec fn pixel_lines(pixels: Seq<Colour<u32>>) -> Seq<u8>
    decreases pixels.len(),
{
    if pixels.len() == 0 {
        Seq::empty()
    } else {
        pixel_lines(pixels.drop_last()) + seq![10u8] + pixel_line(pixels.last())
    }
}

/// The whole file: header, one line per pixel in the order given, and a
/// final line break.
pub open spec fn ppm(width: u32, height: u32, pixels: Seq<Colour<u32>>) -> Seq<u8> {
    header(width, height) + pixel_lines(pixels) + seq![10u8]
}

/// Appends the decimal digits of `n`.
fn push_decimal(out: &mut Vec<u8>, n: u32)
    ensures
        final(out)@ == old(out)@ + decimal(n as nat),
    decreases n,
{
    if n >= 10 {
        push_decimal(out, n / 10);
    }
    let digit: u8 = (n % 10) as u8;
    out.push(48 + digit);
    assert(final(out)@ =~= old(out)@ + decimal(n as nat));
}

/// Appends the bytes of `s`.
fn push_all(out: &mut Vec<u8>, s: &[u8])
    ensures
        final(out)@ == old(out)@ + s@,
{
    let mut i: usize = 0;
    while i < s.len()
        invariant
            0 <= i <= s@.len(),
            out@ == old(out)@ + s@.subrange(0, i as int),
        decreases s@.len() - i,
    {
        out.push(s[i]);
        i = i + 1;
        assert(out@ =~= old(out)@ + s@.subrange(0, i as int));
    }
    assert(s@.subrange(0, s@.len() as int) =~= s@);
}

/// Encodes an image of discrete colours as a plain-text pixel map, rows in
/// the order the pixels are given.
pub fn encode_ppm(width: u32, height: u32, pixels: &Vec<Colour<u32>>) -> (out: Vec<u8>)
    ensures
        out@ == ppm(width, height, pixels@),
{
    let mut out: Vec<u8> = Vec::new();
    push_all(&mut out, &[80u8, 51u8, 10u8]);
    push_decimal(&mut out, width);
    out.push(32u8);
    push_decimal(&mut out, height);
    push_all(&mut out, &[10u8, 50u8, 53u8, 53u8]);
    assert(out@ =~= header(width, height));
    let mut i: usize = 0;
    while i < pixels.len()
        invariant
            0 <= i <= pixels@.len(),
            out@ == header(width, height) + pixel_lines(pixels@.subrange(0, i as int)),
        decreases pixels@.len() - i,
    {
        let c = pixels[i];
        let ghost before = out@;
        out.push(10u8);
        push_decimal(&mut out, c.r);
        out.push(32u8);
        push_decimal(&mut out, c.g);
        out.push(32u8);
        push_decimal(&mut out, c.b);
        let ghost done = pixels@.subrange(0, i + 1);
        assert(done.drop_last() =~= pixels@.subrange(0, i as int));
        assert(out@ =~= before + seq![10u8] + pixel_line(c));
        i = i + 1;
    }
    assert(pixels@.subrange(0, pixels@.len() as int) =~= pixels@);
    out.push(10u8);
    out
}

} // verus!
