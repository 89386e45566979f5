use michadame::render_graph::{
    composite_uniforms_exec, fit_viewport_exec, MaskPattern, PassKind, RenderGraph, ShaderParams, Target,
    TextureRef, Viewport, UNIT,
};

#[test]
fn passthrough_draws_source_once_aspect_correct() {
    let mut g = RenderGraph::new();
    let plan = g.render((1920, 1080), (1000, 1000), &ShaderParams::default(), false, false);
    assert_eq!(plan.passes.len(), 1);
    let p = plan.passes[0];
    assert_eq!(p.kind, PassKind::Passthrough);
    assert_eq!(p.input, TextureRef::Source);
    assert_eq!(p.target, Target::Screen);
    assert_eq!(p.viewport, Viewport { x: 0, y: 219, width: 1000, height: 562 });
    assert!(plan.composite.is_none());
}

#[test]
fn fit_viewport_pillarboxes_tall_sources() {
    assert_eq!(fit_viewport_exec((640, 480), (1920, 1080)), Viewport { x: 240, y: 0, width: 1440, height: 1080 });
    assert_eq!(fit_viewport_exec((1280, 720), (1280, 720)), Viewport { x: 0, y: 0, width: 1280, height: 720 });
}

#[test]
fn crt_graph_runs_passes_in_order() {
    let mut g = RenderGraph::new();
    let params = ShaderParams::default();
    let plan = g.render((640, 480), (640, 480), &params, true, true);
    let kinds: Vec<PassKind> = plan.passes.iter().map(|p| p.kind).collect();
    assert_eq!(
        kinds,
        vec![
            PassKind::Pixelate,
            PassKind::BloomHorizontal,
            PassKind::BloomVertical,
            PassKind::ScanHorizontal,
            PassKind::ScanVertical,
            PassKind::Composite,
        ]
    );
    assert_eq!(plan.passes[1].input, TextureRef::Offscreen(0));
    assert_eq!(plan.passes[1].scale, params.hard_bloom_pix);
    assert_eq!(plan.passes[4].scale, params.hard_scan);
    assert_eq!(plan.passes[4].shape, params.shape);
    assert_eq!(plan.passes[5].input, TextureRef::Offscreen(2));
    assert_eq!(plan.passes[5].aux_input, Some(TextureRef::Offscreen(4)));
    let c = plan.composite.unwrap();
    assert_eq!(c.mask, MaskPattern::StretchedVga);
    assert_eq!((c.mask_dark, c.mask_light), (500, 1500));
}

#[test]
fn no_mask_ignores_mask_factors() {
    let mut a = ShaderParams::default();
    a.shadow_mask = 0;
    let mut b = a;
    b.mask_dark = 123;
    b.mask_light = 4567;
    let ua = composite_uniforms_exec(&a);
    let ub = composite_uniforms_exec(&b);
    assert_eq!(ua, ub);
    assert_eq!(ua.mask, MaskPattern::NoMask);
    assert_eq!((ua.mask_dark, ua.mask_light), (UNIT, UNIT));
}

#[test]
fn resize_reallocates_before_next_draw() {
    let mut g = RenderGraph::new();
    let params = ShaderParams::default();
    let first = g.render((640, 480), (800, 600), &params, true, false);
    assert_eq!(first.reallocate, Some((640, 480)));
    let same = g.render((640, 480), (800, 600), &params, true, false);
    assert_eq!(same.reallocate, None);
    let resized = g.render((1280, 720), (800, 600), &params, true, false);
    assert_eq!(resized.reallocate, Some((1280, 720)));
    assert_eq!(resized.passes.len(), 2);
    assert_eq!(resized.passes[0].kind, PassKind::Pixelate);
    assert_eq!(resized.passes[0].viewport, Viewport { x: 0, y: 0, width: 1280, height: 720 });
    assert_eq!(resized.passes[1].kind, PassKind::Passthrough);
    assert_eq!(resized.passes[1].input, TextureRef::Offscreen(0));
    assert_eq!(g.framebuffer_size, Some((1280, 720)));
}
