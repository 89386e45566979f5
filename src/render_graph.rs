use vstd::prelude::*;

verus! {

/// Fixed-point one: shader parameters are held in thousandths.
pub const UNIT: i32 = 1000;

/// Width of the low-resolution grid the pixelate pass quantises to.
pub const PIXELATE_WIDTH: u32 = 854;

/// Height of the low-resolution grid the pixelate pass quantises to.
pub const PIXELATE_HEIGHT: u32 = 480;

/// Offscreen target of the pixelate pass.
pub const PIXELATE_TARGET: usize = 0;

/// Offscreen target of the horizontal bloom pass.
pub const BLOOM_H_TARGET: usize = 1;

/// Offscreen target of the vertical bloom pass.
pub const BLOOM_V_TARGET: usize = 2;

/// Offscreen target of the horizontal scan pass.
pub const SCAN_H_TARGET: usize = 3;

/// Offscreen target of the vertical scan pass.
pub const SCAN_V_TARGET: usize = 4;

/// Number of offscreen framebuffers the graph owns.
pub const OFFSCREEN_TARGETS: usize = 5;

/// Tunable parameters of the CRT effect, in thousandths (`UNIT` is 1.0), except
/// `shadow_mask`, which picks one of five mask patterns.
#[derive(Debug, Clone, Copy, PartialEq, Eq, Structural)]
pub struct ShaderParams {
    pub warp_x: i32,
    pub warp_y: i32,
    pub hard_scan: i32,
    pub hard_pix: i32,
    pub hard_bloom_pix: i32,
    pub hard_bloom_scan: i32,
    pub bloom_amount: i32,
    pub shape: i32,
    pub shadow_mask: u8,
    pub brightboost: i32,
    pub mask_dark: i32,
    pub mask_light: i32,
}

impl ShaderParams {
    pub open spec fn wf(&self) -> bool {
        self.shadow_mask <= 4
    }

    /// The stock tuning of the effect.
    pub fn default() -> (r: Self)
        ensures
            r.wf(),
            r == (ShaderParams {
                warp_x: 31,
                warp_y: 41,
                hard_scan: -8000i32,
                hard_pix: -3000i32,
                hard_bloom_pix: -1500i32,
                hard_bloom_scan: -2000i32,
                bloom_amount: 150,
                shape: 2000,
                shadow_mask: 3,
                brightboost: 1000,
                mask_dark: 500,
                mask_light: 1500,
            }),
    {
        ShaderParams {
            warp_x: 31,
            warp_y: 41,
            hard_scan: -8000,
            hard_pix: -3000,
            hard_bloom_pix: -1500,
            hard_bloom_scan: -2000,
            bloom_amount: 150,
            shape: 2000,
            shadow_mask: 3,
            brightboost: 1000,
            mask_dark: 500,
            mask_light: 1500,
        }
    }
}

/// The shadow-mask pattern of the composite pass.
#[derive(Debug, Clone, Copy, PartialEq, Eq, Structural)]
pub enum MaskPattern {
    NoMask,
    CompressedTv,
    ApertureGrille,
    StretchedVga,
    VgaBlock,
}

pub open spec fn mask_pattern_of(m: u8) -> MaskPattern {
    if m == 0 {
        MaskPattern::NoMask
    } else if m == 1 {
        MaskPattern::CompressedTv
    } else if m == 2 {
        MaskPattern::ApertureGrille
    } else if m == 3 {
        MaskPattern::StretchedVga
    } else {
        MaskPattern::VgaBlock
    }
}

/// The shader program a pass runs.
#[derive(Debug, Clone, Copy, PartialEq, Eq, Structural)]
pub enum PassKind {
    Pixelate,
    BloomHorizontal,
    BloomVertical,
    ScanHorizontal,
    ScanVertical,
    Composite,
    Passthrough,
}

/// A texture a pass samples: the decoded frame or an offscreen target.
#[derive(Debug, Clone, Copy, PartialEq, Eq, Structural)]
pub enum TextureRef {
    Source,
    Offscreen(usize),
}

/// Where a pass draws: the visible surface or an offscreen target.
#[derive(Debug, Clone, Copy, PartialEq, Eq, Structural)]
pub enum Target {
    Screen,
    Offscreen(usize),
}

#[derive(Debug, Clone, Copy, PartialEq, Eq, Structural)]
pub struct Viewport {
    pub x: u32,
    pub y: u32,
    pub width: u32,
    pub height: u32,
}

/// One draw of the graph. `scale` is the falloff hardness of a blur pass and
/// `shape` the falloff exponent of the vertical scan pass, both in thousandths;
/// passes that take neither have zero there.
#[derive(Debug, Clone, Copy, PartialEq, Eq, Structural)]
pub struct Pass {
    pub kind: PassKind,
    pub input: TextureRef,
    pub aux_input: Option<TextureRef>,
    pub target: Target,
    pub viewport: Viewport,
    pub scale: i32,
    pub shape: i32,
}

/// The uniforms of the composite pass; `mask_dark` and `mask_light` are the
/// factors the mask pattern multiplies by.
#[derive(Debug, Clone, Copy, PartialEq, Eq, Structural)]
pub struct CompositeUniforms {
    pub warp_x: i32,
    pub warp_y: i32,
    pub bloom_amount: i32,
    pub brightboost: i32,
    pub mask: MaskPattern,
    pub mask_dark: i32,
    pub mask_light: i32,
}

/// The work of one render call: the offscreen targets to reallocate at the given
/// size first, if any, then the passes in order.
pub struct RenderPlan {
    pub reallocate: Option<(u32, u32)>,
    pub passes: Vec<Pass>,
    pub composite: Option<CompositeUniforms>,
}

/// The whole of a `width` x `height` target.
pub open spec fn full_viewport(cap: (u32, u32)) -> Viewport {
    Viewport { x: 0, y: 0, width: cap.0, height: cap.1 }
}

/// The largest viewport of the capture's aspect ratio that fits the display,
/// centred: letterboxed when the capture is relatively wider, pillarboxed when
/// it is relatively taller.
pub open spec fn fit_viewport(cap: (u32, u32), display: (u32, u32)) -> Viewport {
    let (cw, ch) = (cap.0 as int, cap.1 as int);
    let (dw, dh) = (display.0 as int, display.1 as int);
    if cw * dh >= dw * ch {
        let h = dw * ch / cw;
        Viewport { x: 0, y: ((dh - h) / 2) as u32, width: display.0, height: h as u32 }
    } else {
        let w = dh * cw / ch;
        Viewport { x: ((dw - w) / 2) as u32, y: 0, width: w as u32, height: display.1 }
    }
}

pub open spec fn offscreen_pass(
    kind: PassKind,
    input: TextureRef,
    target: usize,
    cap: (u32, u32),
    scale: i32,
    shape: i32,
) -> Pass {
    Pass {
        kind,
        input,
        aux_input: None,
        target: Target::Offscreen(target),
        viewport: full_viewport(cap),
        scale,
        shape,
    }
}

/// The passes of one render call, in order.
/// - Pixelate (when on) draws the frame into its target, which then stands in for
///   the frame.
/// - With the CRT effect: horizontal then vertical bloom, horizontal then vertical
///   scan, and the composite of bloom and scan onto the screen.
/// - Without it: one aspect-correct passthrough onto the screen.
pub open spec fn planned_passes(
    cap: (u32, u32),
    display: (u32, u32),
    p: ShaderParams,
    pixelate: bool,
    crt: bool,
) -> Seq<Pass> {
    let src = if pixelate {
        TextureRef::Offscreen(PIXELATE_TARGET)
    } else {
        TextureRef::Source
    };
    let pix = if pixelate {
        seq![offscreen_pass(PassKind::Pixelate, TextureRef::Source, PIXELATE_TARGET, cap, 0, 0)]
    } else {
        seq![]
    };
    let fit = fit_viewport(cap, display);
    if crt {
        pix + seq![
            offscreen_pass(PassKind::BloomHorizontal, src, BLOOM_H_TARGET, cap, p.hard_bloom_pix, 0),
            offscreen_pass(
                PassKind::BloomVertical,
                TextureRef::Offscreen(BLOOM_H_TARGET),
                BLOOM_V_TARGET,
                cap,
                p.hard_bloom_scan,
                0,
            ),
            offscreen_pass(PassKind::ScanHorizontal, src, SCAN_H_TARGET, cap, p.hard_pix, 0),
            offscreen_pass(
                PassKind::ScanVertical,
                TextureRef::Offscreen(SCAN_H_TARGET),
                SCAN_V_TARGET,
                cap,
                p.hard_scan,
                p.shape,
            ),
            Pass {
                kind: PassKind::Composite,
                input: TextureRef::Offscreen(BLOOM_V_TARGET),
                aux_input: Some(TextureRef::Offscreen(SCAN_V_TARGET)),
                target: Target::Screen,
                viewport: fit,
                scale: 0,
                shape: 0,
            },
        ]
    } else {
        pix + seq![
            Pass {
                kind: PassKind::Passthrough,
                input: src,
                aux_input: None,
                target: Target::Screen,
                viewport: fit,
                scale: 0,
                shape: 0,
            },
        ]
    }
}

/// The composite uniforms for `p`. With no mask pattern both mask factors are
/// one, so nothing is multiplied in.
pub open spec fn composite_uniforms(p: ShaderParams) -> CompositeUniforms {
    let mask = mask_pattern_of(p.shadow_mask);
    CompositeUniforms {
        warp_x: p.warp_x,
        warp_y: p.warp_y,
        bloom_amount: p.bloom_amount,
        brightboost: p.brightboost,
        mask,
        mask_dark: if mask == MaskPattern::NoMask { UNIT } else { p.mask_dark },
        mask_light: if mask == MaskPattern::NoMask { UNIT } else { p.mask_light },
    }
}

/// The reallocation a render call starts with: the targets are rebuilt at the
/// capture size whenever it differs from the size they were last built at.
pub open spec fn reallocation(built: Option<(u32, u32)>, cap: (u32, u32)) -> Option<(u32, u32)> {
    if built == Some(cap) {
        None
    } else {
        Some(cap)
    }
}

/// Computes `fit_viewport`.
pub fn fit_viewport_exec(cap: (u32, u32), display: (u32, u32)) -> (r: Viewport)
    requires
        cap.0 > 0,
        cap.1 > 0,
    ensures
        r == fit_viewport(cap, display),
{
    let cw = cap.0 as u64;
    let ch = cap.1 as u64;
    let dw = display.0 as u64;
    let dh = display.1 as u64;
    assert(cw * dh <= u32::MAX as u64 * u32::MAX as u64) by (nonlinear_arith)
        requires
            cw <= u32::MAX,
            dh <= u32::MAX,
    ;
    assert(dw * ch <= u32::MAX as u64 * u32::MAX as u64) by (nonlinear_arith)
        requires
            dw <= u32::MAX,
            ch <= u32::MAX,
    ;
    if cw * dh >= dw * ch {
        let h = dw * ch / cw;
        assert(h <= dh) by (nonlinear_arith)
            requires
                h == dw * ch / (cw as int),
                cw * dh >= dw * ch,
                cw > 0,
        ;
        Viewport { x: 0, y: ((dh - h) / 2) as u32, width: display.0, height: h as u32 }
    } else {
        let w = dh * cw / ch;
        assert(w <= dw) by (nonlinear_arith)
            requires
                w == dh * cw / (ch as int),
                cw * dh < dw * ch,
                ch > 0,
        ;
        Viewport { x: ((dw - w) / 2) as u32, y: 0, width: w as u32, height: display.1 }
    }
}

fn offscreen_pass_exec(
    kind: PassKind,
    input: TextureRef,
    target: usize,
    cap: (u32, u32),
    scale: i32,
    shape: i32,
) -> (r: Pass)
    ensures
        r == offscreen_pass(kind, input, target, cap, scale, shape),
{
    Pass {
        kind,
        input,
        aux_input: None,
        target: Target::Offscreen(target),
        viewport: Viewport { x: 0, y: 0, width: cap.0, height: cap.1 },
        scale,
        shape,
    }
}

fn mask_pattern(m: u8) -> (r: MaskPattern)
    ensures
        r == mask_pattern_of(m),
{
    if m == 0 {
        MaskPattern::NoMask
    } else if m == 1 {
        MaskPattern::CompressedTv
    } else if m == 2 {
        MaskPattern::ApertureGrille
    } else if m == 3 {
        MaskPattern::StretchedVga
    } else {
        MaskPattern::VgaBlock
    }
}

/// Computes `composite_uniforms`.
pub fn composite_uniforms_exec(p: &ShaderParams) -> (r: CompositeUniforms)
    ensures
        r == composite_uniforms(*p),
{
    let mask = mask_pattern(p.shadow_mask);
    let no_mask = p.shadow_mask == 0;
    CompositeUniforms {
        warp_x: p.warp_x,
        warp_y: p.warp_y,
        bloom_amount: p.bloom_amount,
        brightboost: p.brightboost,
        mask,
        mask_dark: if no_mask { UNIT } else { p.mask_dark },
        mask_light: if no_mask { UNIT } else { p.mask_light },
    }
}

/// Computes `planned_passes`.
pub fn plan_passes(
    cap: (u32, u32),
    display: (u32, u32),
    p: &ShaderParams,
    pixelate: bool,
    crt: bool,
) -> (r: Vec<Pass>)
    requires
        cap.0 > 0,
        cap.1 > 0,
    ensures
        r@ == planned_passes(cap, display, *p, pixelate, crt),
{
    let src = if pixelate {
        TextureRef::Offscreen(PIXELATE_TARGET)
    } else {
        TextureRef::Source
    };
    let mut r: Vec<Pass> = Vec::new();
    if pixelate {
        r.push(
            offscreen_pass_exec(PassKind::Pixelate, TextureRef::Source, PIXELATE_TARGET, cap, 0, 0),
        );
    }
    let fit = fit_viewport_exec(cap, display);
    if crt {
        r.push(
            offscreen_pass_exec(
                PassKind::BloomHorizontal,
                src,
                BLOOM_H_TARGET,
                cap,
                p.hard_bloom_pix,
                0,
            ),
        );
        r.push(
            offscreen_pass_exec(
                PassKind::BloomVertical,
                TextureRef::Offscreen(BLOOM_H_TARGET),
                BLOOM_V_TARGET,
                cap,
                p.hard_bloom_scan,
                0,
            ),
        );
        r.push(offscreen_pass_exec(PassKind::ScanHorizontal, src, SCAN_H_TARGET, cap, p.hard_pix, 0));
        r.push(
            offscreen_pass_exec(
                PassKind::ScanVertical,
                TextureRef::Offscreen(SCAN_H_TARGET),
                SCAN_V_TARGET,
                cap,
                p.hard_scan,
                p.shape,
            ),
        );
        r.push(
            Pass {
                kind: PassKind::Composite,
                input: TextureRef::Offscreen(BLOOM_V_TARGET),
                aux_input: Some(TextureRef::Offscreen(SCAN_V_TARGET)),
                target: Target::Screen,
                viewport: fit,
                scale: 0,
                shape: 0,
            },
        );
    } else {
        r.push(
            Pass {
                kind: PassKind::Passthrough,
                input: src,
                aux_input: None,
                target: Target::Screen,
                viewport: fit,
                scale: 0,
                shape: 0,
            },
        );
    }
    assert(r@ =~= planned_passes(cap, display, *p, pixelate, crt));
    r
}

/// The render graph's own state: the size its offscreen targets were last built
/// at, if they were built.
pub struct RenderGraph {
    pub framebuffer_size: Option<(u32, u32)>,
}

impl RenderGraph {
    pub fn new() -> (r: Self)
        ensures
            r.framebuffer_size is None,
    {
        RenderGraph { framebuffer_size: None }
    }

    /// Plans one displayed frame of a `capture` sized source onto a `display`
    /// sized surface. The offscreen targets always end up at the capture size.
    pub fn render(
        &mut self,
        capture: (u32, u32),
        display: (u32, u32),
        params: &ShaderParams,
        pixelate_enabled: bool,
        crt_enabled: bool,
    ) -> (r: RenderPlan)
        requires
            capture.0 > 0,
            capture.1 > 0,
        ensures
            final(self).framebuffer_size == Some(capture),
            r.reallocate == reallocation(old(self).framebuffer_size, capture),
            r.passes@ == planned_passes(capture, display, *params, pixelate_enabled, crt_enabled),
            r.composite == if crt_enabled {
                Some(composite_uniforms(*params))
            } else {
                None
            },
    {
        let reallocate = match self.framebuffer_size {
            Some((w, h)) => if w == capture.0 && h == capture.1 {
                None
            } else {
                Some(capture)
            },
            None => Some(capture),
        };
        self.framebuffer_size = Some(capture);
        let passes = plan_passes(capture, display, params, pixelate_enabled, crt_enabled);
        let composite = if crt_enabled {
            Some(composite_uniforms_exec(params))
        } else {
            None
        };
        RenderPlan { reallocate, passes, composite }
    }
}

/// With both effects off the frame goes straight to the screen in a single
/// passthrough draw of the decoded frame, whatever the shader parameters, into a
/// viewport that keeps the capture's aspect ratio: it spans the display in one
/// direction, fits in the other, and is centred.
pub proof fn lemma_passthrough_keeps_source(
    cap: (u32, u32),
    display: (u32, u32),
    p: ShaderParams,
    q: ShaderParams,
)
    requires
        cap.0 > 0,
        cap.1 > 0,
    ensures
        planned_passes(cap, display, p, false, false) == seq![
            Pass {
                kind: PassKind::Passthrough,
                input: TextureRef::Source,
                aux_input: None,
                target: Target::Screen,
                viewport: fit_viewport(cap, display),
                scale: 0,
                shape: 0,
            },
        ],
        planned_passes(cap, display, p, false, false) == planned_passes(cap, display, q, false, false),
        ({
            let v = fit_viewport(cap, display);
            let (cw, ch) = (cap.0 as int, cap.1 as int);
            &&& v.width <= display.0 && v.height <= display.1
            &&& v.width == display.0 || v.height == display.1
            &&& -ch < v.width * ch - v.height * cw < cw
            &&& 2 * v.x + v.width <= display.0 <= 2 * v.x + v.width + 1
            &&& 2 * v.y + v.height <= display.1 <= 2 * v.y + v.height + 1
        }),
{
    assert(planned_passes(cap, display, p, false, false) =~= planned_passes(cap, display, q, false, false));
    let (cw, ch) = (cap.0 as int, cap.1 as int);
    let (dw, dh) = (display.0 as int, display.1 as int);
    if cw * dh >= dw * ch {
        let h = dw * ch / cw;
        assert(0 <= h <= dh && h * cw <= dw * ch < h * cw + cw) by (nonlinear_arith)
            requires
                h == dw * ch / cw,
                cw * dh >= dw * ch,
                cw > 0,
                ch > 0,
                dw >= 0,
        ;
    } else {
        let w = dh * cw / ch;
        assert(0 <= w <= dw && w * ch <= dh * cw < w * ch + ch) by (nonlinear_arith)
            requires
                w == dh * cw / ch,
                cw * dh < dw * ch,
                cw > 0,
                ch > 0,
                dh >= 0,
        ;
    }
}

/// With no mask pattern selected, the mask factors do not reach the output: two
/// parameter sets that differ only in them give the same passes and the same
/// composite uniforms, and those uniforms multiply by one.
pub proof fn lemma_no_mask_ignores_mask_factors(
    cap: (u32, u32),
    display: (u32, u32),
    p: ShaderParams,
    q: ShaderParams,
    pixelate: bool,
    crt: bool,
)
    requires
        p.shadow_mask == 0,
        q == (ShaderParams { mask_dark: q.mask_dark, mask_light: q.mask_light, ..p }),
    ensures
        composite_uniforms(p) == composite_uniforms(q),
        composite_uniforms(p).mask == MaskPattern::NoMask,
        composite_uniforms(p).mask_dark == UNIT && composite_uniforms(p).mask_light == UNIT,
        planned_passes(cap, display, p, pixelate, crt) == planned_passes(cap, display, q, pixelate, crt),
{
}

/// Resizing the capture between renders rebuilds the offscreen targets at the new
/// size before the next draw, and every offscreen pass of that render covers
/// exactly the new size.
pub proof fn lemma_resize_reallocates(
    old_cap: (u32, u32),
    cap: (u32, u32),
    display: (u32, u32),
    p: ShaderParams,
    pixelate: bool,
    crt: bool,
)
    requires
        old_cap != cap,
    ensures
        reallocation(Some(old_cap), cap) == Some(cap),
        forall|i: int|
            0 <= i < planned_passes(cap, display, p, pixelate, crt).len() && (#[trigger] planned_passes(
                cap,
                display,
                p,
                pixelate,
                crt,
            )[i]).target is Offscreen ==> planned_passes(cap, display, p, pixelate, crt)[i].viewport
                == full_viewport(cap),
{
    let s = planned_passes(cap, display, p, pixelate, crt);
    assert forall|i: int| 0 <= i < s.len() && (#[trigger] s[i]).target is Offscreen implies s[i].viewport
        == full_viewport(cap) by {
        if pixelate {
            if i == 0 {
            } else {
            }
        }
    }
}

} // verus!
