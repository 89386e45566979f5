use vstd::prelude::*;

use crate::filter_type::CrtFilter;

verus! {

/// How much each channel of a darkened scanline loses.
pub const SCANLINE_DARKEN: u8 = 80;

/// A channel value lowered by `SCANLINE_DARKEN`, stopping at zero.
pub open spec fn darkened(b: u8) -> u8 {
    if b >= SCANLINE_DARKEN {
        (b - SCANLINE_DARKEN) as u8
    } else {
        0
    }
}

/// Bytes in one row of packed RGB pixels `width` wide.
pub open spec fn row_bytes(width: nat) -> nat {
    3 * width
}

/// Whether byte `i` of a packed RGB buffer of `len` bytes and rows `width` pixels
/// wide lies in a complete even-numbered row (row 0, 2, 4, ...).
pub open spec fn in_dark_row(i: int, width: nat, len: nat) -> bool {
    &&& width > 0
    &&& 0 <= i < (len / row_bytes(width)) * row_bytes(width)
    &&& (i / row_bytes(width) as int) % 2 == 0
}

/// The buffer after scanline emulation: every complete even row is darkened,
/// everything else is left as it was.
pub open spec fn scanlined(old: Seq<u8>, width: nat) -> Seq<u8> {
    Seq::new(
        old.len(),
        |i: int|
            if in_dark_row(i, width, old.len()) {
                darkened(old[i])
            } else {
                old[i]
            },
    )
}

/// The buffer after `filter` ran on it: only `Scanlines` works on the CPU side.
pub open spec fn filtered(filter: CrtFilter, old: Seq<u8>, width: nat) -> Seq<u8> {
    match filter {
        CrtFilter::Scanlines => scanlined(old, width),
        _ => old,
    }
}

proof fn lemma_row_of(j: int, row: int, rl: int)
    requires
        rl > 0,
        row >= 0,
        row * rl <= j < row * rl + rl,
    ensures
        j / rl == row,
{
    assert(j / rl == row) by (nonlinear_arith)
        requires
            rl > 0,
            row >= 0,
            row * rl <= j < row * rl + rl,
    ;
}

/// Applies the CPU side of `filter` in place to a packed RGB frame whose rows are
/// `width` pixels wide. `_height` is implied by the buffer length.
pub fn apply_filter(filter: CrtFilter, frame_data: &mut [u8], width: u32, _height: u32)
    ensures
        final(frame_data)@ == filtered(filter, old(frame_data)@, width as nat),
{
    match filter {
        CrtFilter::Off => {},
        CrtFilter::Scanlines => apply_scanlines(frame_data, width, _height),
        CrtFilter::Lottes => {},
    }
    proof {
        if filter != CrtFilter::Scanlines {
            assert(final(frame_data)@ =~= old(frame_data)@);
        }
    }
}

/// Darkens every other row of a packed RGB frame, starting with the first; a
/// trailing partial row is left untouched.
pub fn apply_scanlines(frame_data: &mut [u8], width: u32, _height: u32)
    ensures
        final(frame_data)@ == scanlined(old(frame_data)@, width as nat),
{
    let ghost orig = frame_data@;
    let len = frame_data.len();
    let w = width as usize;
    if w == 0 || w > len / 3 {
        proof {
            if w > 0 {
                assert(len as nat / row_bytes(w as nat) == 0) by (nonlinear_arith)
                    requires
                        w > len / 3,
                        row_bytes(w as nat) == 3 * w,
                ;
            }
            assert(scanlined(orig, width as nat) =~= orig);
        }
        return;
    }
    let rl: usize = 3 * w;
    let rows: usize = len / rl;
    assert(rows * rl <= len) by (nonlinear_arith)
        requires
            rows == len / rl,
            rl > 0,
    ;
    let limit: usize = rows * rl;
    let mut pos: usize = 0;
    let mut row: usize = 0;
    let mut col: usize = 0;
    while pos < limit
        invariant
            len == frame_data@.len(),
            orig.len() == len,
            rl == row_bytes(width as nat),
            rl > 0,
            rows == len / rl,
            limit == rows * rl,
            limit <= len,
            pos == row * rl + col,
            col < rl,
            pos <= limit,
            forall|j: int|
                0 <= j < pos ==> #[trigger] frame_data@[j] == scanlined(orig, width as nat)[j],
            forall|j: int| pos <= j < len ==> #[trigger] frame_data@[j] == orig[j],
        decreases limit - pos,
    {
        proof {
            lemma_row_of(pos as int, row as int, rl as int);
        }
        if row % 2 == 0 {
            let b = frame_data[pos];
            let d = if b >= SCANLINE_DARKEN {
                b - SCANLINE_DARKEN
            } else {
                0
            };
            frame_data[pos] = d;
        }
        pos = pos + 1;
        if col + 1 == rl {
            proof {
                assert(row + 1 <= rows && pos == (row + 1) * rl) by (nonlinear_arith)
                    requires
                        pos == row * rl + col + 1,
                        col + 1 == rl,
                        pos <= limit,
                        limit == rows * rl,
                        rl > 0,
                ;
            }
            col = 0;
            row = row + 1;
        } else {
            col = col + 1;
        }
    }
    proof {
        assert(frame_data@ =~= scanlined(orig, width as nat));
    }
}

} // verus!
