use vstd::prelude::*;

verus! {

/// An owned, tightly packed RGB24 image: `3 * width` bytes per row, rows top to
/// bottom.
#[derive(Debug, Clone, PartialEq)]
pub struct DecodedFrame {
    pub width: u32,
    pub height: u32,
    pub pixels: Vec<u8>,
}

/// Why a converted picture could not be turned into a frame.
#[derive(Debug, Clone, Copy, PartialEq, Eq, Structural)]
pub enum FrameError {
    /// A row of the plane is shorter than `3 * width` bytes.
    StrideTooShort,
    /// The plane holds fewer bytes than its last row needs.
    PlaneTooShort,
}

impl DecodedFrame {
    pub open spec fn wf(&self) -> bool {
        self.pixels@.len() == 3 * self.width * self.height
    }
}

/// Whether rows of `3 * width` bytes fit in rows of `stride` bytes.
pub open spec fn stride_fits(stride: nat, width: nat) -> bool {
    3 * width <= stride
}

/// Whether a plane of `len` bytes holds `height` rows `stride` apart, the last of
/// which needs only its `3 * width` pixel bytes.
pub open spec fn plane_fits(len: nat, stride: nat, width: nat, height: nat) -> bool {
    height == 0 || (height - 1) * stride + 3 * width <= len
}

/// The packed pixels of a plane whose rows start `stride` bytes apart: byte `x`
/// of row `y` is `data[y * stride + x]`.
pub open spec fn packed_rows(data: Seq<u8>, stride: nat, width: nat, height: nat) -> Seq<u8> {
    Seq::new(
        3 * width * height,
        |i: int| data[(i / (3 * width) as int) * stride + i % (3 * width) as int],
    )
}

proof fn lemma_split_index(i: int, y: int, x: int, rl: int)
    requires
        rl > 0,
        y >= 0,
        0 <= x < rl,
        i == y * rl + x,
    ensures
        i / rl == y,
        i % rl == x,
{
    vstd::arithmetic::div_mod::lemma_fundamental_div_mod_converse(i, rl, y, x);
}

impl DecodedFrame {
    /// Packs the first plane of a converted RGB24 picture, whose rows start
    /// `stride` bytes apart, into a frame of `width` x `height`.
    pub fn from_rgb_plane(data: &[u8], stride: usize, width: u32, height: u32) -> (r: Result<
        DecodedFrame,
        FrameError,
    >)
        ensures
            r == Err::<DecodedFrame, FrameError>(FrameError::StrideTooShort) <==> !stride_fits(
                stride as nat,
                width as nat,
            ),
            r == Err::<DecodedFrame, FrameError>(FrameError::PlaneTooShort) <==> stride_fits(
                stride as nat,
                width as nat,
            ) && !plane_fits(data@.len(), stride as nat, width as nat, height as nat),
            r matches Ok(f) ==> {
                &&& f.wf()
                &&& f.width == width
                &&& f.height == height
                &&& f.pixels@ == packed_rows(data@, stride as nat, width as nat, height as nat)
            },
    {
        let w = width as usize;
        if w > stride / 3 {
            return Err(FrameError::StrideTooShort);
        }
        let rl: usize = 3 * w;
        let h = height as usize;
        let dlen = data.len();
        if h > 0 {
            let fits = match (h - 1).checked_mul(stride) {
                Some(p) => match p.checked_add(rl) {
                    Some(q) => q <= dlen,
                    None => false,
                },
                None => false,
            };
            if !fits {
                assert((h - 1) * stride + rl > dlen);
                return Err(FrameError::PlaneTooShort);
            }
        }
        let ghost len = data@.len();
        let ghost target = packed_rows(data@, stride as nat, w as nat, h as nat);
        let mut pixels: Vec<u8> = Vec::new();
        if rl == 0 {
            proof {
                assert(3 * w * h == 0) by (nonlinear_arith)
                    requires
                        w == 0,
                ;
                assert(target.len() == 0);
                assert(pixels@ =~= target);
            }
            return Ok(DecodedFrame { width, height, pixels });
        }
        let mut y: usize = 0;
        while y < h
            invariant
                rl == 3 * w,
                rl > 0,
                rl <= stride,
                w == width,
                h == height,
                dlen == data@.len(),
                h > 0 ==> (h - 1) * stride + rl <= data@.len(),
                y <= h,
                pixels@.len() == y * rl,
                target == packed_rows(data@, stride as nat, w as nat, h as nat),
                pixels@.len() <= target.len(),
                forall|i: int| 0 <= i < pixels@.len() ==> #[trigger] pixels@[i] == target[i],
            decreases h - y,
        {
            assert(y * stride + rl <= data@.len()) by (nonlinear_arith)
                requires
                    y < h,
                    (h - 1) * stride + rl <= data@.len(),
                    stride >= 0,
            ;
            assert(target.len() == rl * h) by (nonlinear_arith)
                requires
                    target.len() == 3 * w * h,
                    rl == 3 * w,
            ;
            assert(y * rl + rl <= rl * h) by (nonlinear_arith)
                requires
                    y < h,
                    rl > 0,
            ;
            let start: usize = y * stride;
            let mut x: usize = 0;
            while x < rl
                invariant
                    rl == 3 * w,
                    rl > 0,
                    y < h,
                    dlen == data@.len(),
                    start == y * stride,
                    start + rl <= data@.len(),
                    x <= rl,
                    y * rl + rl <= rl * h,
                    pixels@.len() == y * rl + x,
                    target.len() == rl * h,
                    target == packed_rows(data@, stride as nat, w as nat, h as nat),
                    forall|i: int| 0 <= i < pixels@.len() ==> #[trigger] pixels@[i] == target[i],
                decreases rl - x,
            {
                proof {
                    let i = y * rl + x;
                    lemma_split_index(i as int, y as int, x as int, rl as int);
                    assert(i < rl * h) by (nonlinear_arith)
                        requires
                            i == y * rl + x,
                            x < rl,
                            y < h,
                    ;
                    assert(target[i as int] == data@[start + x]);
                }
                pixels.push(data[start + x]);
                x = x + 1;
            }
            y = y + 1;
            assert(pixels@.len() == y * rl) by (nonlinear_arith)
                requires
                    pixels@.len() == (y - 1) * rl + rl,
            ;
        }
        proof {
            assert(pixels@.len() == target.len()) by (nonlinear_arith)
                requires
                    pixels@.len() == h * rl,
                    target.len() == 3 * w * h,
                    rl == 3 * w,
            ;
            assert(pixels@ =~= target);
        }
        Ok(DecodedFrame { width, height, pixels })
    }
}

} // verus!
