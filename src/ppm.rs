use vstd::prelude::*;

use crate::image::{ImageFormat, Pixel};

verus! {

/// ASCII `P`.
pub const LETTER_P: u8 = 80;

/// ASCII `0`.
pub const DIGIT_0: u8 = 48;

/// ASCII `2`.
pub const DIGIT_2: u8 = 50;

/// ASCII `3`.
pub const DIGIT_3: u8 = 51;

/// ASCII `5`.
pub const DIGIT_5: u8 = 53;

/// ASCII space.
pub const SPACE: u8 = 32;

/// ASCII line feed.
pub const NEWLINE: u8 = 10;

/// The plain-text PPM format (`P3`).
pub struct Ppm;

/// The ASCII decimal digits of `n`, without leading zeros.
pub open spec fn decimal(n: nat) -> Seq<u8>
    decreases n,
{
    if n < 10 {
        seq![(n + DIGIT_0) as u8]
    } else {
        decimal(n / 10) + seq![((n % 10) + DIGIT_0) as u8]
    }
}

/// `P3`, the dimensions and the largest channel value, one per line.
pub open spec fn ppm_header(width: nat, height: nat) -> Seq<u8> {
    seq![LETTER_P, DIGIT_3, NEWLINE] + decimal(width) + seq![SPACE] + decimal(height) + seq![
        NEWLINE,
        DIGIT_2,
        DIGIT_5,
        DIGIT_5,
        NEWLINE,
    ]
}

/// The three channels of a pixel in decimal, each followed by a space.
pub open spec fn pixel_text(p: Pixel) -> Seq<u8> {
    decimal(p@[0] as nat) + seq![SPACE] + decimal(p@[1] as nat) + seq![SPACE] + decimal(
        p@[2] as nat,
    ) + seq![SPACE]
}

/// The text of the first `k` pixels of row `y`.
pub open spec fn row_prefix_text(data: Seq<Pixel>, width: nat, y: nat, k: nat) -> Seq<u8>
    decreases k,
{
    if k == 0 {
        Seq::empty()
    } else {
        row_prefix_text(data, width, y, (k - 1) as nat) + pixel_text(
            data[(y * width + k - 1) as int],
        )
    }
}

/// The text of row `y`, ended by a newline.
pub open spec fn row_text(data: Seq<Pixel>, width: nat, y: nat) -> Seq<u8> {
    row_prefix_text(data, width, y, width) + seq![NEWLINE]
}

/// The text of the first `n` rows.
pub open spec fn rows_text(data: Seq<Pixel>, width: nat, n: nat) -> Seq<u8>
    decreases n,
{
    if n == 0 {
        Seq::empty()
    } else {
        rows_text(data, width, (n - 1) as nat) + row_text(data, width, (n - 1) as nat)
    }
}

/// The whole PPM file. A zero-width image has no rows to write.
pub open spec fn ppm_bytes(data: Seq<Pixel>, width: nat, height: nat) -> Seq<u8> {
    ppm_header(width, height) + if width == 0 {
        Seq::empty()
    } else {
        rows_text(data, width, height)
    }
}

/// Appends the decimal digits of `n` to `out`.
fn push_decimal(out: &mut Vec<u8>, n: usize)
    ensures
        final(out)@ == old(out)@ + decimal(n as nat),
    decreases n,
{
    if n >= 10 {
        push_decimal(out, n / 10);
    }
    out.push((n % 10) as u8 + DIGIT_0);
    proof {
        assert(final(out)@ =~= old(out)@ + decimal(n as nat));
    }
}

impl ImageFormat for Ppm {
    open spec fn encoding(data: Seq<Pixel>, width: nat, height: nat) -> Seq<u8> {
        ppm_bytes(data, width, height)
    }

    fn serialize_to_bytes(data: &[Pixel], width: usize, height: usize) -> (r: Vec<u8>) {
        let mut out: Vec<u8> = Vec::new();
        out.push(LETTER_P);
        out.push(DIGIT_3);
        out.push(NEWLINE);
        push_decimal(&mut out, width);
        out.push(SPACE);
        push_decimal(&mut out, height);
        out.push(NEWLINE);
        out.push(DIGIT_2);
        out.push(DIGIT_5);
        out.push(DIGIT_5);
        out.push(NEWLINE);
        assert(out@ =~= ppm_header(width as nat, height as nat));
        if width == 0 {
            assert(out@ =~= ppm_bytes(data@, width as nat, height as nat));
            return out;
        }
        let ghost header = out@;
        let len = data.len();
        let mut y: usize = 0;
        while y < height
            invariant
                data@.len() == width * height,
                len == data@.len(),
                width > 0,
                y <= height,
                out@ == header + rows_text(data@, width as nat, y as nat),
            decreases height - y,
        {
            let ghost before_row = out@;
            let mut x: usize = 0;
            while x < width
                invariant
                    data@.len() == width * height,
                    len == data@.len(),
                    width > 0,
                    y < height,
                    x <= width,
                    out@ == before_row + row_prefix_text(data@, width as nat, y as nat, x as nat),
                decreases width - x,
            {
                assert(y * width + x < width * height) by (nonlinear_arith)
                    requires
                        y < height,
                        x < width,
                ;
                let p = data[y * width + x];
                let ghost before_pixel = out@;
                push_decimal(&mut out, p.0[0] as usize);
                out.push(SPACE);
                push_decimal(&mut out, p.0[1] as usize);
                out.push(SPACE);
                push_decimal(&mut out, p.0[2] as usize);
                out.push(SPACE);
                assert(out@ =~= before_pixel + pixel_text(p));
                x = x + 1;
                assert(out@ =~= before_row + row_prefix_text(
                    data@,
                    width as nat,
                    y as nat,
                    x as nat,
                ));
            }
            out.push(NEWLINE);
            y = y + 1;
            assert(out@ =~= header + rows_text(data@, width as nat, y as nat));
        }
        out
    }
}

} // verus!
