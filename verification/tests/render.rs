use nlock::auth::AuthState;
use nlock::config::NLockConfig;
use nlock::fixed::Ratio;
use nlock::image::{BackgroundImageScale, ImageSize};
use nlock::render::{
    masked_text, DrawOp, FrameGeometry, InputGeometry, NLockRenderBackgroundArgs,
    NLockRenderOverlayArgs, NLockRenderer, OverlayLayout, RenderError, SubpixelOrder, TextMetrics,
    DEFAULT_DPI, DEFAULT_SCALE,
};
use nlock::util::{BackgroundType, FontSlant, FontWeight, Rgba};

const CLEAR: Rgba = Rgba { r: 0, g: 0, b: 0, a: 0 };
const BLACK: Rgba = Rgba { r: 0, g: 0, b: 0, a: 255 };
const WHITE: Rgba = Rgba { r: 255, g: 255, b: 255, a: 255 };
const RED: Rgba = Rgba { r: 255, g: 0, b: 0, a: 255 };

fn reset() -> Vec<DrawOp> {
    vec![
        DrawOp::SetAntialiasBest,
        DrawOp::Save,
        DrawOp::SetOperatorSource,
        DrawOp::SetSourceRgba(CLEAR),
        DrawOp::Paint,
        DrawOp::Restore,
        DrawOp::IdentityMatrix,
    ]
}

fn metrics() -> TextMetrics {
    TextMetrics {
        text_width: 90_000_000,
        x_bearing: 2_000_000,
        height: 100_000_000,
        ascent: 80_000_000,
        descent: 20_000_000,
    }
}

fn overlay_args(w: i64, h: i64, pwd_len: usize) -> NLockRenderOverlayArgs {
    NLockRenderOverlayArgs {
        auth_state: AuthState::Idle,
        buf_height: h,
        buf_width: w,
        pwd_len,
        metrics: metrics(),
    }
}

fn rounded(x: i64, y: i64, w: i64, h: i64, r: i64) -> Vec<DrawOp> {
    vec![
        DrawOp::NewSubPath,
        DrawOp::Arc { cx: x + w - r, cy: y + r, radius: r, from_deg: -90, to_deg: 0 },
        DrawOp::Arc { cx: x + w - r, cy: y + h - r, radius: r, from_deg: 0, to_deg: 90 },
        DrawOp::Arc { cx: x + r, cy: y + h - r, radius: r, from_deg: 90, to_deg: 180 },
        DrawOp::Arc { cx: x + r, cy: y + r, radius: r, from_deg: 180, to_deg: 270 },
        DrawOp::ClosePath,
    ]
}

#[test]
fn color_background_fills_with_opaque_black_replacing_content() {
    let config = NLockConfig::default();
    let mut renderer = NLockRenderer::default();
    let args = NLockRenderBackgroundArgs { buf_height: 1080, buf_width: 1920, image: None };
    let ops = renderer.render_background(&config, args).unwrap();
    let mut expected = reset();
    expected.extend([DrawOp::SetSourceRgba(BLACK), DrawOp::SetOperatorSource, DrawOp::Paint]);
    assert_eq!(ops, expected);
}

#[test]
fn rendering_the_background_twice_gives_the_same_operations() {
    let mut config = NLockConfig::default();
    config.general.bg_type = BackgroundType::Image;
    config.image.scale = BackgroundImageScale::Fit;
    let mut renderer = NLockRenderer::default();
    let args = NLockRenderBackgroundArgs {
        buf_height: 1080,
        buf_width: 1920,
        image: Some(ImageSize { width: 640, height: 480 }),
    };
    let first = renderer.render_background(&config, args);
    let second = renderer.render_background(&config, args);
    assert!(first.is_ok());
    assert_eq!(first, second);
    assert_eq!(renderer, NLockRenderer::default());
}

#[test]
fn image_background_scales_then_takes_the_image_as_source() {
    let mut config = NLockConfig::default();
    config.general.bg_type = BackgroundType::Image;
    config.image.scale = BackgroundImageScale::Fill;
    let mut renderer = NLockRenderer::default();
    let args = NLockRenderBackgroundArgs {
        buf_height: 1080,
        buf_width: 1920,
        image: Some(ImageSize { width: 1000, height: 1000 }),
    };
    let ops = renderer.render_background(&config, args).unwrap();
    let mut expected = reset();
    expected.extend([
        DrawOp::Scale { sx: Ratio { num: 1920, den: 1000 }, sy: Ratio { num: 1920, den: 1000 } },
        DrawOp::SetSourceSurface {
            left: Ratio { num: 0, den: 1 },
            top: Ratio { num: -840_000, den: 3840 },
        },
        DrawOp::Paint,
    ]);
    assert_eq!(ops, expected);
}

#[test]
fn centred_and_tiled_images_are_not_scaled() {
    let mut config = NLockConfig::default();
    config.general.bg_type = BackgroundType::Image;
    let mut renderer = NLockRenderer::default();
    let args = NLockRenderBackgroundArgs {
        buf_height: 1080,
        buf_width: 1920,
        image: Some(ImageSize { width: 1000, height: 1000 }),
    };
    config.image.scale = BackgroundImageScale::Center;
    let ops = renderer.render_background(&config, args).unwrap();
    assert_eq!(
        ops[7..],
        [
            DrawOp::SetSourceSurface {
                left: Ratio { num: 460, den: 1 },
                top: Ratio { num: 40, den: 1 },
            },
            DrawOp::Paint,
        ]
    );
    config.image.scale = BackgroundImageScale::Tile;
    let ops = renderer.render_background(&config, args).unwrap();
    assert_eq!(ops[7..], [DrawOp::SetSourceTiled, DrawOp::Paint]);
}

#[test]
fn image_background_without_an_image_is_an_error() {
    let mut config = NLockConfig::default();
    config.general.bg_type = BackgroundType::Image;
    let mut renderer = NLockRenderer::default();
    let args = NLockRenderBackgroundArgs { buf_height: 1080, buf_width: 1920, image: None };
    assert_eq!(renderer.render_background(&config, args), Err(RenderError::MissingImage));
}

#[test]
fn background_needs_valid_sizes() {
    let mut config = NLockConfig::default();
    let mut renderer = NLockRenderer::default();
    for (w, h) in [(0, 1080), (1920, 0), (-1, 5), (536_870_912, 5)] {
        let args = NLockRenderBackgroundArgs { buf_height: h, buf_width: w, image: None };
        assert_eq!(renderer.render_background(&config, args), Err(RenderError::Geometry));
    }
    config.general.bg_type = BackgroundType::Image;
    let args = NLockRenderBackgroundArgs {
        buf_height: 1080,
        buf_width: 1920,
        image: Some(ImageSize { width: 0, height: 10 }),
    };
    assert_eq!(renderer.render_background(&config, args), Err(RenderError::Geometry));
    let args = NLockRenderBackgroundArgs { buf_height: 0, buf_width: 1920, image: None };
    assert_eq!(renderer.render_background(&config, args), Err(RenderError::Geometry));
}

#[test]
fn overlay_layout_with_the_defaults() {
    let config = NLockConfig::default();
    let renderer = NLockRenderer::default();
    let layout = renderer.overlay_layout(&config, &overlay_args(1920, 1080, 3)).unwrap();
    assert_eq!(
        layout,
        OverlayLayout {
            frame: FrameGeometry {
                line: 25_000_000,
                offset: 12_500_000,
                width: 1_895_000_000,
                height: 1_055_000_000,
                radius: 0,
            },
            input: Some(InputGeometry {
                inner_x: 480_000_000,
                inner_y: 490_000_000,
                inner_w: 960_000_000,
                inner_h: 100_000_000,
                outer_x: 384_000_000,
                outer_y: 436_000_000,
                outer_w: 1_152_000_000,
                outer_h: 208_000_000,
                corner: 0,
                edge: 0,
                text_x: 913_000_000,
                text_y: 570_000_000,
            }),
        }
    );
}

#[test]
fn overlay_operations_with_the_defaults() {
    let config = NLockConfig::default();
    let mut renderer = NLockRenderer::default();
    let ops = renderer.render_overlay(&config, overlay_args(1920, 1080, 3)).unwrap();
    let mut expected = reset();
    expected.extend([DrawOp::Save, DrawOp::SetSourceRgba(CLEAR), DrawOp::SetLineWidth(25_000_000)]);
    expected.extend(rounded(12_500_000, 12_500_000, 1_895_000_000, 1_055_000_000, 0));
    expected.extend([DrawOp::Stroke, DrawOp::Restore, DrawOp::ConfigureFont, DrawOp::Save]);
    expected.extend(rounded(384_000_000, 436_000_000, 1_152_000_000, 208_000_000, 0));
    expected.extend([
        DrawOp::SetSourceRgba(BLACK),
        DrawOp::FillPreserve,
        DrawOp::SetSourceRgba(BLACK),
        DrawOp::SetLineWidth(0),
        DrawOp::StrokePreserve,
        DrawOp::Clip,
        DrawOp::Rectangle {
            x: 480_000_000,
            y: 490_000_000,
            width: 960_000_000,
            height: 100_000_000,
        },
        DrawOp::Clip,
        DrawOp::SetSourceRgba(WHITE),
        DrawOp::MoveTo { x: 913_000_000, y: 570_000_000 },
        DrawOp::ShowMaskedText,
        DrawOp::Restore,
    ]);
    assert_eq!(ops, expected);
    assert_eq!(renderer, NLockRenderer::default());
}

#[test]
fn frame_stroke_is_border_times_scale_and_inset_by_half() {
    let mut config = NLockConfig::default();
    config.frame.border = 10_000_000;
    config.frame.radius = 4_000_000;
    let mut renderer = NLockRenderer::default();
    renderer.set_scale(2_000_000);
    for (w, h) in [(1i64, 1i64), (640, 480), (3840, 2160)] {
        let layout = renderer.overlay_layout(&config, &overlay_args(w, h, 1)).unwrap();
        let f = layout.frame;
        assert_eq!(f.line, 20_000_000);
        assert_eq!(f.offset, 10_000_000);
        assert_eq!(f.radius, 8_000_000);
        assert_eq!(f.offset + f.width + f.offset, w * 1_000_000);
        assert_eq!(f.offset + f.height + f.offset, h * 1_000_000);
        let ops = renderer.render_overlay(&config, overlay_args(w, h, 1)).unwrap();
        assert_eq!(ops[9], DrawOp::SetLineWidth(20_000_000));
        assert_eq!(ops[10..16], rounded(f.offset, f.offset, f.width, f.height, f.radius)[..]);
        assert_eq!(ops[16], DrawOp::Stroke);
    }
}

#[test]
fn an_odd_stroke_width_is_halved_downwards() {
    let mut config = NLockConfig::default();
    config.frame.border = 3;
    let renderer = NLockRenderer::default();
    let f = renderer.overlay_layout(&config, &overlay_args(100, 100, 0)).unwrap().frame;
    assert_eq!((f.line, f.offset, f.width), (3, 1, 99_999_998));
}

#[test]
fn frame_colour_follows_the_authentication_state() {
    let mut config = NLockConfig::default();
    config.colors.frame_border_idle = Rgba::new(1, 2, 3, 4);
    config.colors.frame_border_success = Rgba::new(5, 6, 7, 8);
    let mut renderer = NLockRenderer::default();
    for (state, color) in [
        (AuthState::Idle, Rgba::new(1, 2, 3, 4)),
        (AuthState::Success, Rgba::new(5, 6, 7, 8)),
        (AuthState::Fail, RED),
    ] {
        let mut args = overlay_args(800, 600, 2);
        args.auth_state = state;
        let ops = renderer.render_overlay(&config, args).unwrap();
        assert_eq!(ops[8], DrawOp::SetSourceRgba(color));
        assert_eq!(NLockRenderer::set_frame_border_color(&config, state), color);
    }
}

#[test]
fn box_fits_its_content_when_asked() {
    let mut config = NLockConfig::default();
    config.input.fit_to_content = true;
    config.input.width = 500_000;
    let renderer = NLockRenderer::default();
    let mut args = overlay_args(1000, 500, 4);
    args.metrics.text_width = 80_000_000;
    let g = renderer.overlay_layout(&config, &args).unwrap().input.unwrap();
    assert_eq!(g.inner_w, 80_000_000);
    assert_eq!(g.inner_x, 460_000_000);
    config.input.fit_to_content = false;
    let g = renderer.overlay_layout(&config, &args).unwrap().input.unwrap();
    assert_eq!(g.inner_w, 500_000_000);
}

#[test]
fn fitted_box_is_never_wider_than_configured() {
    let mut config = NLockConfig::default();
    config.input.fit_to_content = true;
    let renderer = NLockRenderer::default();
    let mut args = overlay_args(1000, 500, 40);
    args.metrics.text_width = 800_000_000;
    let g = renderer.overlay_layout(&config, &args).unwrap().input.unwrap();
    assert_eq!(g.inner_w, 500_000_000);
}

#[test]
fn corner_radius_is_a_share_of_the_outer_height() {
    let mut config = NLockConfig::default();
    config.input.radius = 250_000;
    config.input.border = 4_000_000;
    let mut renderer = NLockRenderer::default();
    renderer.set_scale(2_000_000);
    let g = renderer.overlay_layout(&config, &overlay_args(1920, 1080, 1)).unwrap().input.unwrap();
    assert_eq!(g.edge, 8_000_000);
    assert_eq!(g.outer_h, 100_000_000 + 108_000_000 + 8_000_000);
    assert_eq!(g.outer_w, 960_000_000 + 192_000_000 + 8_000_000);
    assert_eq!(g.corner, 54_000_000);
}

#[test]
fn empty_box_is_hidden_only_when_configured() {
    let mut config = NLockConfig::default();
    let mut renderer = NLockRenderer::default();
    let shown = renderer.render_overlay(&config, overlay_args(800, 600, 0)).unwrap();
    assert_eq!(shown.len(), 18 + 20);
    config.input.hide_when_empty = true;
    assert!(NLockRenderer::hides_input(&config, 0));
    assert!(!NLockRenderer::hides_input(&config, 1));
    let hidden = renderer.render_overlay(&config, overlay_args(800, 600, 0)).unwrap();
    assert_eq!(hidden.len(), 18);
    assert_eq!(hidden[..], shown[..18]);
    assert_eq!(renderer.overlay_layout(&config, &overlay_args(800, 600, 0)).unwrap().input, None);
    let typed = renderer.render_overlay(&config, overlay_args(800, 600, 1)).unwrap();
    assert_eq!(typed.len(), 38);
}

#[test]
fn overlay_needs_a_valid_buffer_size() {
    let config = NLockConfig::default();
    let mut renderer = NLockRenderer::default();
    for (w, h) in [(0, 600), (800, 0), (-800, 600), (800, 536_870_912)] {
        assert_eq!(renderer.render_overlay(&config, overlay_args(w, h, 1)), Err(RenderError::Geometry));
        assert_eq!(renderer.overlay_layout(&config, &overlay_args(w, h, 1)), Err(RenderError::Geometry));
    }
}

#[test]
fn values_out_of_range_are_refused() {
    let mut renderer = NLockRenderer::default();
    let mut config = NLockConfig::default();
    config.frame.border = 1_000_000_000_001;
    assert_eq!(renderer.render_overlay(&config, overlay_args(800, 600, 1)), Err(RenderError::Range));
    let mut config = NLockConfig::default();
    config.input.width = 1_000_000_001;
    assert_eq!(renderer.render_overlay(&config, overlay_args(800, 600, 1)), Err(RenderError::Range));
    config.input.hide_when_empty = true;
    assert!(renderer.render_overlay(&config, overlay_args(800, 600, 0)).is_ok());
    let config = NLockConfig::default();
    let mut args = overlay_args(800, 600, 1);
    args.metrics.ascent = i64::MIN;
    assert_eq!(renderer.render_overlay(&config, args), Err(RenderError::Range));
    let mut config = NLockConfig::default();
    config.font.size = 2_000_000_000;
    assert_eq!(renderer.render_overlay(&config, overlay_args(800, 600, 1)), Err(RenderError::Range));
    assert_eq!(renderer.configure_cairo_font(&config).err(), Some(RenderError::Range));
}

#[test]
fn negative_lengths_round_towards_negative_infinity() {
    let mut config = NLockConfig::default();
    config.frame.border = -3;
    let renderer = NLockRenderer::default();
    let f = renderer.overlay_layout(&config, &overlay_args(10, 10, 0)).unwrap().frame;
    assert_eq!((f.line, f.offset, f.width), (-3, -2, 10_000_004));
}

#[test]
fn font_size_is_points_over_72_times_dpi_times_scale() {
    let mut config = NLockConfig::default();
    let mut renderer = NLockRenderer::default();
    let font = renderer.configure_cairo_font(&config).unwrap();
    assert_eq!(font.size, 96_000_000);
    assert_eq!(font.family, "");
    assert_eq!(font.slant, FontSlant::Normal);
    assert_eq!(font.weight, FontWeight::Normal);
    assert_eq!(font.subpixel_order, SubpixelOrder::Default);
    config.font.size = 12_000_000;
    config.font.family = "serif".to_string();
    config.font.slant = FontSlant::Italic;
    config.font.weight = FontWeight::Bold;
    renderer.set_dpi(110_000_000);
    renderer.set_scale(1_500_000);
    renderer.set_subpixel_order(SubpixelOrder::Vbgr);
    let font = renderer.configure_cairo_font(&config).unwrap();
    assert_eq!(font.size, 27_500_000);
    assert_eq!(font.family, "serif");
    assert_eq!(font.slant, FontSlant::Italic);
    assert_eq!(font.weight, FontWeight::Bold);
    assert_eq!(font.subpixel_order, SubpixelOrder::Vbgr);
}

#[test]
fn renderer_setters_guard_their_values() {
    let mut r = NLockRenderer::default();
    assert_eq!((r.current_dpi(), r.current_scale()), (DEFAULT_DPI, DEFAULT_SCALE));
    assert_eq!((DEFAULT_DPI, DEFAULT_SCALE), (96_000_000, 1_000_000));
    r.set_dpi(0);
    assert_eq!(r.dpi, Some(96_000_000));
    r.set_dpi(-5);
    assert_eq!(r.dpi, Some(96_000_000));
    r.set_dpi(1_000_000_000_001);
    assert_eq!(r.dpi, Some(96_000_000));
    r.set_dpi(144_000_000);
    assert_eq!(r.dpi, Some(144_000_000));
    r.set_scale(0);
    assert_eq!(r.scale, None);
    r.set_scale(2_000_000);
    r.set_scale(-1);
    assert_eq!(r.scale, Some(2_000_000));
}

#[test]
fn masked_text_repeats_the_mask() {
    assert_eq!(masked_text("*", 0), "");
    assert_eq!(masked_text("*", 5), "*****");
    assert_eq!(masked_text("ab", 3), "ababab");
    assert_eq!(masked_text("", 4), "");
    for n in 0..20 {
        assert_eq!(masked_text("•", n), "•".repeat(n));
    }
}

#[test]
fn text_to_measure_is_the_masked_password_under_the_font() {
    let mut config = NLockConfig::default();
    let renderer = NLockRenderer::default();
    let request = renderer.text_request(&config, 4).unwrap().unwrap();
    assert_eq!(request.text, "****");
    assert_eq!(request.font.size, 96_000_000);
    let request = renderer.text_request(&config, 0).unwrap().unwrap();
    assert_eq!(request.text, "");
    config.input.hide_when_empty = true;
    assert!(renderer.text_request(&config, 0).unwrap().is_none());
    assert!(renderer.text_request(&config, 1).unwrap().is_some());
    config.font.size = i64::MAX;
    assert!(renderer.text_request(&config, 0).unwrap().is_none());
    assert_eq!(renderer.text_request(&config, 1).err(), Some(RenderError::Range));
}

#[test]
fn a_radius_beyond_half_the_box_is_no_error() {
    let mut config = NLockConfig::default();
    config.input.radius = 900_000;
    config.frame.radius = 5_000_000_000;
    let mut renderer = NLockRenderer::default();
    let layout = renderer.overlay_layout(&config, &overlay_args(1920, 1080, 2)).unwrap();
    assert_eq!(layout.frame.radius, 5_000_000_000);
    let g = layout.input.unwrap();
    assert_eq!(g.corner, 187_200_000);
    assert!(2 * g.corner > g.outer_h);
    assert!(renderer.render_overlay(&config, overlay_args(1920, 1080, 2)).is_ok());
}

#[test]
fn overlay_is_rendered_on_the_largest_buffers() {
    let config = NLockConfig::default();
    let mut renderer = NLockRenderer::default();
    for (w, h) in [(536_870_911i64, 1i64), (1, 536_870_911), (23_170, 23_170), (2_000_000, 200)] {
        assert!(nlock::buffer::NLockBuffer::new(w as i32, h as i32).is_some());
        let layout = renderer.overlay_layout(&config, &overlay_args(w, h, 3)).unwrap();
        let f = layout.frame;
        assert_eq!((f.line, f.offset), (25_000_000, 12_500_000));
        assert_eq!(f.offset + f.width + f.offset, w * 1_000_000);
        assert_eq!(f.offset + f.height + f.offset, h * 1_000_000);
        let ops = renderer.render_overlay(&config, overlay_args(w, h, 3)).unwrap();
        assert_eq!(ops[9], DrawOp::SetLineWidth(25_000_000));
        assert_eq!(ops[16], DrawOp::Stroke);
        let args = NLockRenderBackgroundArgs { buf_height: h, buf_width: w, image: None };
        assert!(renderer.render_background(&config, args).is_ok());
    }
    let g = renderer
        .overlay_layout(&config, &overlay_args(536_870_911, 536_870_911, 3))
        .unwrap()
        .input
        .unwrap();
    assert_eq!(g.inner_w, 268_435_455_500_000);
    assert_eq!(g.outer_w, 268_435_455_500_000 + 2 * 26_843_545_550_000);
}

#[test]
fn a_corner_radius_out_of_range_is_refused() {
    let mut config = NLockConfig::default();
    config.input.radius = 1_000_000_000;
    config.input.padding_y = 1_000_000_000;
    let mut renderer = NLockRenderer::default();
    assert!(renderer.render_overlay(&config, overlay_args(800, 1_000_000, 1)).is_ok());
    assert!(renderer.render_overlay(&config, overlay_args(800, 2_499_999, 1)).is_ok());
    assert_eq!(
        renderer.render_overlay(&config, overlay_args(800, 2_500_000, 1)),
        Err(RenderError::Range)
    );
    let g = renderer.overlay_layout(&config, &overlay_args(800, 2_499_999, 1)).unwrap().input;
    assert_eq!(g.unwrap().corner, 4_999_998_100_000_000_000);
    config.input.radius = -1_000_000_000;
    assert!(renderer.render_overlay(&config, overlay_args(800, 2_499_999, 1)).is_ok());
    assert_eq!(
        renderer.render_overlay(&config, overlay_args(800, 536_870_911, 1)),
        Err(RenderError::Range)
    );
    config.input.hide_when_empty = true;
    assert!(renderer.render_overlay(&config, overlay_args(800, 536_870_911, 0)).is_ok());
}
