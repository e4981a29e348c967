//! The renderer: from the configuration and the state of a surface to the
//! drawing operations that paint the background and the overlay.
//!
//! The renderer draws nothing itself. It lays the screen out in fixed-point
//! arithmetic and hands back a list of [`DrawOp`]s for a canvas to carry out
//! in order. What only the canvas knows, the measured size of the masked
//! text, comes in as [`TextMetrics`].

use vstd::prelude::*;
use vstd::string::*;
use crate::auth::AuthState;
use crate::config::{
    NLockConfig,
    NLockConfigColors,
    NLockConfigFrame,
    NLockConfigInput,
};
use crate::fixed::{
    floor_div,
    half,
    halve,
    is_within,
    lemma_product_within,
    scale_fixed,
    scaled,
    times,
    whole,
    whole_px,
    within,
    Ratio,
    DIMENSION_LIMIT,
    LENGTH_LIMIT,
    RATIO_LIMIT,
};
use crate::image::{
    image_placement,
    place,
    size_valid,
    BackgroundImageScale,
    ImagePlacement,
    ImageSize,
};
use crate::util::{BackgroundType, FontSlant, FontWeight, Rgba};

verus! {

/// Largest magnitude of the corner radius of the password box, in
/// millionths of a pixel.
pub const CORNER_LIMIT: i64 = 5_000_000_000_000_000_000;

/// The resolution assumed where the output states none: 96 dots per inch.
pub const DEFAULT_DPI: i64 = 96_000_000;

/// The scale factor assumed where the output states none: 1.
pub const DEFAULT_SCALE: i64 = 1_000_000;

/// Why nothing was rendered.
#[derive(Copy, Clone, Debug, PartialEq, Eq, Structural)]
pub enum RenderError {
    /// A width or height of the buffer or of the image is not positive, or
    /// is above [`DIMENSION_LIMIT`].
    Geometry,
    /// The background is an image and no image was given.
    MissingImage,
    /// A setting or a measurement is too large to lay out.
    Range,
}

/// The order of the colour stripes within a pixel, for font rendering.
#[derive(Copy, Clone, Debug, PartialEq, Eq, Structural)]
pub enum SubpixelOrder {
    Default,
    Rgb,
    Bgr,
    Vrgb,
    Vbgr,
}

/// One operation on the canvas. Lengths and coordinates are in millionths
/// of a pixel, angles in whole degrees.
#[derive(Copy, Clone, Debug, PartialEq, Eq, Structural)]
pub enum DrawOp {
    Save,
    Restore,
    /// Select the best antialiasing for shapes.
    SetAntialiasBest,
    /// Let what is painted replace what is there, instead of blending.
    SetOperatorSource,
    SetSourceRgba(Rgba),
    /// Fill the whole clip region with the source.
    Paint,
    IdentityMatrix,
    SetLineWidth(i64),
    NewSubPath,
    /// A clockwise arc round `(cx, cy)`.
    Arc { cx: i64, cy: i64, radius: i64, from_deg: i32, to_deg: i32 },
    ClosePath,
    Stroke,
    FillPreserve,
    StrokePreserve,
    Clip,
    Rectangle { x: i64, y: i64, width: i64, height: i64 },
    /// Select the font that [`NLockRenderer::configure_cairo_font`] describes.
    ConfigureFont,
    MoveTo { x: i64, y: i64 },
    /// Show the text that [`masked_text`] gives for the password's length.
    ShowMaskedText,
    /// Scale the user space by the two ratios.
    Scale { sx: Ratio, sy: Ratio },
    /// Take the image as the source, its top left corner `left` pixels from
    /// the origin to the right and `top` pixels down.
    SetSourceSurface { left: Ratio, top: Ratio },
    /// Take the image as the source, repeated in both directions.
    SetSourceTiled,
}

/// What the canvas measured of the masked text under the configured font,
/// in millionths of a pixel.
#[derive(Copy, Clone, Debug, PartialEq, Eq, Structural)]
pub struct TextMetrics {
    /// The width of the text's ink.
    pub text_width: i64,
    /// The distance from the origin to the left edge of the ink.
    pub x_bearing: i64,
    /// The font's line height.
    pub height: i64,
    /// The font's ascent.
    pub ascent: i64,
    /// The font's descent.
    pub descent: i64,
}

/// The frame round the buffer: the path of its stroke and the stroke's width.
#[derive(Copy, Clone, Debug, PartialEq, Eq, Structural)]
pub struct FrameGeometry {
    pub line: i64,
    pub offset: i64,
    pub width: i64,
    pub height: i64,
    pub radius: i64,
}

/// The password box: the inner box that holds the text, the outer box that
/// is drawn, the outer box's corner radius and border width, and where the
/// text starts.
#[derive(Copy, Clone, Debug, PartialEq, Eq, Structural)]
pub struct InputGeometry {
    pub inner_x: i64,
    pub inner_y: i64,
    pub inner_w: i64,
    pub inner_h: i64,
    pub outer_x: i64,
    pub outer_y: i64,
    pub outer_w: i64,
    pub outer_h: i64,
    pub corner: i64,
    pub edge: i64,
    pub text_x: i64,
    pub text_y: i64,
}

/// The layout of the overlay. The password box is absent where it is hidden.
#[derive(Copy, Clone, Debug, PartialEq, Eq, Structural)]
pub struct OverlayLayout {
    pub frame: FrameGeometry,
    pub input: Option<InputGeometry>,
}

/// What the overlay is rendered from, besides the configuration.
#[derive(Copy, Clone, Debug, PartialEq, Eq, Structural)]
pub struct NLockRenderOverlayArgs {
    pub auth_state: AuthState,
    /// The buffer's height in pixels.
    pub buf_height: i64,
    /// The buffer's width in pixels.
    pub buf_width: i64,
    /// The length of the password typed so far.
    pub pwd_len: usize,
    /// The measurements of the masked text; not read where the box is hidden.
    pub metrics: TextMetrics,
}

/// What the background is rendered from, besides the configuration.
#[derive(Copy, Clone, Debug, PartialEq, Eq, Structural)]
pub struct NLockRenderBackgroundArgs {
    /// The buffer's height in pixels.
    pub buf_height: i64,
    /// The buffer's width in pixels.
    pub buf_width: i64,
    /// The size of the decoded background image, if there is one.
    pub image: Option<ImageSize>,
}

/// The font to select on the canvas before the masked text is measured
/// and shown. The size is in millionths of a pixel. Hinting is full and
/// the antialiasing is by subpixel.
#[derive(Clone, Debug)]
pub struct FontSetup {
    pub family: String,
    pub slant: FontSlant,
    pub weight: FontWeight,
    pub size: i64,
    pub subpixel_order: SubpixelOrder,
}

/// What is to be measured on the canvas before the overlay is rendered:
/// the masked text, under the font.
#[derive(Clone, Debug)]
pub struct TextRequest {
    pub font: FontSetup,
    pub text: String,
}

/// Whether a buffer or an image of this size can be rendered.
pub open spec fn dimensions_valid(width: int, height: int) -> bool {
    size_valid(width, height)
}

/// Whether the font's size can be computed.
pub open spec fn font_in_range(size: int, dpi: int, scale: int) -> bool {
    &&& within(size, RATIO_LIMIT as int)
    &&& within(dpi, LENGTH_LIMIT as int)
    &&& within(scale, RATIO_LIMIT as int)
}

/// The font's size in pixels: a point is the 72nd part of an inch, and
/// the result is scaled as the output is.
pub open spec fn font_size_px(size: int, dpi: int, scale: int) -> int {
    (size * dpi * scale) / 72_000_000_000_000
}

/// A text repeated `n` times.
pub open spec fn repeated(text: Seq<char>, n: nat) -> Seq<char>
    decreases n,
{
    if n == 0 {
        Seq::<char>::empty()
    } else {
        repeated(text, (n - 1) as nat) + text
    }
}

/// The text that stands for a password of `len` characters: the mask
/// repeated `len` times.
pub fn masked_text(mask: &str, len: usize) -> (r: String)
    ensures
        r@ == repeated(mask@, len as nat),
{
    let mut r: String = String::new();
    let mut i: usize = 0;
    while i < len
        invariant
            i <= len,
            r@ == repeated(mask@, i as nat),
        decreases len - i,
    {
        r.append(mask);
        i += 1;
    }
    r
}

/// Whether the frame's settings can be laid out at this scale.
pub open spec fn frame_in_range(frame: NLockConfigFrame, scale: int) -> bool {
    &&& within(frame.border as int, LENGTH_LIMIT as int)
    &&& within(frame.radius as int, LENGTH_LIMIT as int)
    &&& within(scale, RATIO_LIMIT as int)
}

/// Whether the password box's settings and the text's measurements can be
/// laid out.
pub open spec fn input_in_range(input: NLockConfigInput, metrics: TextMetrics) -> bool {
    &&& within(input.width as int, RATIO_LIMIT as int)
    &&& within(input.padding_x as int, RATIO_LIMIT as int)
    &&& within(input.padding_y as int, RATIO_LIMIT as int)
    &&& within(input.radius as int, RATIO_LIMIT as int)
    &&& within(input.border as int, LENGTH_LIMIT as int)
    &&& within(metrics.text_width as int, LENGTH_LIMIT as int)
    &&& within(metrics.x_bearing as int, LENGTH_LIMIT as int)
    &&& within(metrics.height as int, LENGTH_LIMIT as int)
    &&& within(metrics.ascent as int, LENGTH_LIMIT as int)
    &&& within(metrics.descent as int, LENGTH_LIMIT as int)
}

/// The frame: a stroke of the configured border width times the scale, on
/// a path inset by half that width from the buffer's edges, with the
/// configured radius times the scale.
pub open spec fn frame_geometry(frame: NLockConfigFrame, scale: int, width: int, height: int) -> FrameGeometry {
    let line = scaled(frame.border as int, scale);
    let offset = half(line);
    FrameGeometry {
        line: line as i64,
        offset: offset as i64,
        width: (whole(width) - 2 * offset) as i64,
        height: (whole(height) - 2 * offset) as i64,
        radius: scaled(frame.radius as int, scale) as i64,
    }
}

/// The height of the outer box of the password box: a line of the font,
/// the padding above and below, and the border once.
pub open spec fn outer_height(input: NLockConfigInput, scale: int, height: int, m: TextMetrics) -> int {
    m.height + 2 * (input.padding_y * height) + scaled(input.border as int, scale)
}

/// Whether the corner radius of the password box, the configured share of
/// the outer box's height, is within [`CORNER_LIMIT`].
pub open spec fn corner_in_range(input: NLockConfigInput, scale: int, height: int, m: TextMetrics) -> bool {
    within(scaled(input.radius as int, outer_height(input, scale, height, m)), CORNER_LIMIT as int)
}

/// The inner width of the password box: the configured share of the
/// buffer's width, and no more than the text where the box fits its content.
pub open spec fn inner_width(input: NLockConfigInput, width: int, text_width: int) -> int {
    let full = input.width * width;
    if input.fit_to_content && text_width < full {
        text_width
    } else {
        full
    }
}

/// The password box. The inner box is as wide as [`inner_width`] says and
/// as high as a line of the font, centred in the buffer. The outer box is
/// the inner box with the padding on each side and the border once in each
/// direction, centred too. The corner radius is the configured share of the
/// outer box's height. The text is centred in the inner box.
pub open spec fn input_geometry(
    input: NLockConfigInput,
    scale: int,
    width: int,
    height: int,
    m: TextMetrics,
) -> InputGeometry {
    let pad_x = input.padding_x * width;
    let pad_y = input.padding_y * height;
    let inner_w = inner_width(input, width, m.text_width as int);
    let inner_h = m.height as int;
    let inner_x = half(whole(width) - inner_w);
    let inner_y = half(whole(height) - inner_h);
    let edge = scaled(input.border as int, scale);
    let outer_w = inner_w + 2 * pad_x + edge;
    let outer_h = inner_h + 2 * pad_y + edge;
    InputGeometry {
        inner_x: inner_x as i64,
        inner_y: inner_y as i64,
        inner_w: inner_w as i64,
        inner_h: inner_h as i64,
        outer_x: half(whole(width) - outer_w) as i64,
        outer_y: half(whole(height) - outer_h) as i64,
        outer_w: outer_w as i64,
        outer_h: outer_h as i64,
        corner: scaled(input.radius as int, outer_h) as i64,
        edge: edge as i64,
        text_x: (inner_x + half(inner_w - m.text_width) - m.x_bearing) as i64,
        text_y: (inner_y + half(inner_h - m.descent) + half(m.ascent as int)) as i64,
    }
}

/// Whether the password box is left out: the password is empty and the
/// configuration hides an empty box.
pub open spec fn input_hidden(input: NLockConfigInput, pwd_len: usize) -> bool {
    pwd_len == 0 && input.hide_when_empty
}

/// The layout of the overlay, or the reason why there is none.
pub open spec fn overlay_layout_spec(
    renderer: NLockRenderer,
    config: NLockConfig,
    args: NLockRenderOverlayArgs,
) -> Result<OverlayLayout, RenderError> {
    let scale = renderer.scale_spec();
    let w = args.buf_width as int;
    let h = args.buf_height as int;
    if !dimensions_valid(w, h) {
        Err(RenderError::Geometry)
    } else if !frame_in_range(config.frame, scale) {
        Err(RenderError::Range)
    } else if input_hidden(config.input, args.pwd_len) {
        Ok(OverlayLayout { frame: frame_geometry(config.frame, scale, w, h), input: None })
    } else if !font_in_range(config.font.size as int, renderer.dpi_spec(), scale)
        || !input_in_range(config.input, args.metrics) || !corner_in_range(
        config.input,
        scale,
        h,
        args.metrics,
    ) {
        Err(RenderError::Range)
    } else {
        Ok(
            OverlayLayout {
                frame: frame_geometry(config.frame, scale, w, h),
                input: Some(input_geometry(config.input, scale, w, h, args.metrics)),
            },
        )
    }
}

/// Whether the corners of a rounded rectangle can be computed from these
/// values without leaving the range of the coordinates.
pub open spec fn rect_bounded(x: i64, y: i64, w: i64, h: i64, r: i64) -> bool {
    &&& within(x as int, 2_000_000_000_000_000_000)
    &&& within(y as int, 2_000_000_000_000_000_000)
    &&& within(w as int, 2_000_000_000_000_000_000)
    &&& within(h as int, 2_000_000_000_000_000_000)
    &&& within(r as int, CORNER_LIMIT as int)
}

/// Whether the two rounded rectangles of a layout are bounded.
pub open spec fn layout_bounded(layout: OverlayLayout) -> bool {
    let f = layout.frame;
    &&& rect_bounded(f.offset, f.offset, f.width, f.height, f.radius)
    &&& match layout.input {
        Some(g) => rect_bounded(g.outer_x, g.outer_y, g.outer_w, g.outer_h, g.corner),
        None => true,
    }
}

/// The colour of the frame in an authentication state.
pub open spec fn frame_border_color(colors: NLockConfigColors, auth_state: AuthState) -> Rgba {
    match auth_state {
        AuthState::Idle => colors.frame_border_idle,
        AuthState::Success => colors.frame_border_success,
        AuthState::Fail => colors.frame_border_fail,
    }
}

/// The path of a rectangle with rounded corners: four quarter circles,
/// clockwise from the top right corner, joined by straight lines.
pub open spec fn rounded_rect_ops(x: i64, y: i64, w: i64, h: i64, r: i64) -> Seq<DrawOp> {
    seq![
        DrawOp::NewSubPath,
        DrawOp::Arc { cx: (x + w - r) as i64, cy: (y + r) as i64, radius: r, from_deg: -90i32, to_deg: 0 },
        DrawOp::Arc {
            cx: (x + w - r) as i64,
            cy: (y + h - r) as i64,
            radius: r,
            from_deg: 0,
            to_deg: 90,
        },
        DrawOp::Arc { cx: (x + r) as i64, cy: (y + h - r) as i64, radius: r, from_deg: 90, to_deg: 180 },
        DrawOp::Arc { cx: (x + r) as i64, cy: (y + r) as i64, radius: r, from_deg: 180, to_deg: 270 },
        DrawOp::ClosePath,
    ]
}

/// Clearing the canvas: everything is replaced by transparent black,
/// whatever was there, and the transformation is reset.
pub open spec fn reset_ops() -> Seq<DrawOp> {
    seq![
        DrawOp::SetAntialiasBest,
        DrawOp::Save,
        DrawOp::SetOperatorSource,
        DrawOp::SetSourceRgba(Rgba { r: 0, g: 0, b: 0, a: 0 }),
        DrawOp::Paint,
        DrawOp::Restore,
        DrawOp::IdentityMatrix,
    ]
}

/// Stroking the frame in the given colour.
pub open spec fn frame_ops(g: FrameGeometry, color: Rgba) -> Seq<DrawOp> {
    seq![DrawOp::Save, DrawOp::SetSourceRgba(color), DrawOp::SetLineWidth(g.line)]
        + rounded_rect_ops(g.offset, g.offset, g.width, g.height, g.radius)
        + seq![DrawOp::Stroke, DrawOp::Restore]
}

/// Drawing the password box: the outer box filled and stroked, then the
/// masked text, clipped to the inner box.
pub open spec fn input_ops(g: InputGeometry, colors: NLockConfigColors) -> Seq<DrawOp> {
    seq![DrawOp::ConfigureFont, DrawOp::Save]
        + rounded_rect_ops(g.outer_x, g.outer_y, g.outer_w, g.outer_h, g.corner)
        + seq![
        DrawOp::SetSourceRgba(colors.input_bg),
        DrawOp::FillPreserve,
        DrawOp::SetSourceRgba(colors.input_border),
        DrawOp::SetLineWidth(g.edge),
        DrawOp::StrokePreserve,
        DrawOp::Clip,
        DrawOp::Rectangle { x: g.inner_x, y: g.inner_y, width: g.inner_w, height: g.inner_h },
        DrawOp::Clip,
        DrawOp::SetSourceRgba(colors.text),
        DrawOp::MoveTo { x: g.text_x, y: g.text_y },
        DrawOp::ShowMaskedText,
        DrawOp::Restore,
    ]
}

/// The operations that paint an overlay of the given layout.
pub open spec fn overlay_ops(
    layout: OverlayLayout,
    colors: NLockConfigColors,
    auth_state: AuthState,
) -> Seq<DrawOp> {
    reset_ops() + frame_ops(layout.frame, frame_border_color(colors, auth_state)) + match layout.input {
        Some(g) => input_ops(g, colors),
        None => Seq::<DrawOp>::empty(),
    }
}

/// Taking the image as the source, placed under a scale policy.
pub open spec fn image_ops(mode: BackgroundImageScale, p: ImagePlacement) -> Seq<DrawOp> {
    match mode {
        BackgroundImageScale::Tile => seq![DrawOp::SetSourceTiled],
        BackgroundImageScale::Center => seq![DrawOp::SetSourceSurface { left: p.left, top: p.top }],
        _ => seq![
            DrawOp::Scale { sx: p.scale_x, sy: p.scale_y },
            DrawOp::SetSourceSurface { left: p.left, top: p.top },
        ],
    }
}

/// Filling the canvas with a colour that replaces what is there.
pub open spec fn color_ops(color: Rgba) -> Seq<DrawOp> {
    seq![DrawOp::SetSourceRgba(color), DrawOp::SetOperatorSource]
}

/// The operations that paint the background, or the reason why there are
/// none. The canvas is cleared first; then the whole of it is painted,
/// with the background colour or with the image.
pub open spec fn background_ops(config: NLockConfig, args: NLockRenderBackgroundArgs) -> Result<
    Seq<DrawOp>,
    RenderError,
> {
    let bw = args.buf_width as int;
    let bh = args.buf_height as int;
    if !dimensions_valid(bw, bh) {
        Err(RenderError::Geometry)
    } else {
        match config.general.bg_type {
            BackgroundType::Color => Ok(
                reset_ops() + color_ops(config.colors.bg) + seq![DrawOp::Paint],
            ),
            BackgroundType::Image => match args.image {
                None => Err(RenderError::MissingImage),
                Some(image) => if !dimensions_valid(image.width as int, image.height as int) {
                    Err(RenderError::Geometry)
                } else {
                    Ok(
                        reset_ops() + image_ops(
                            config.image.scale,
                            image_placement(
                                config.image.scale,
                                bw,
                                bh,
                                image.width as int,
                                image.height as int,
                            ),
                        ) + seq![DrawOp::Paint],
                    )
                },
            },
        }
    }
}

/// Lays the frame out.
fn lay_out_frame(frame: &NLockConfigFrame, scale: i64, width: i64, height: i64) -> (g: FrameGeometry)
    requires
        dimensions_valid(width as int, height as int),
        frame_in_range(*frame, scale as int),
    ensures
        g == frame_geometry(*frame, scale as int, width as int, height as int),
        within(g.line as int, 1_000_000_000_000_000),
        within(g.offset as int, 1_000_000_000_000_000),
        within(g.width as int, 3_000_000_000_000_000),
        within(g.height as int, 3_000_000_000_000_000),
        within(g.radius as int, 1_000_000_000_000_000),
{
    proof {
        lemma_product_within(
            frame.border as int,
            scale as int,
            LENGTH_LIMIT as int,
            RATIO_LIMIT as int,
        );
        lemma_product_within(
            frame.radius as int,
            scale as int,
            LENGTH_LIMIT as int,
            RATIO_LIMIT as int,
        );
    }
    let line: i64 = scale_fixed(frame.border, scale);
    let offset: i64 = halve(line);
    let radius: i64 = scale_fixed(frame.radius, scale);
    FrameGeometry {
        line,
        offset,
        width: whole_px(width) - 2 * offset,
        height: whole_px(height) - 2 * offset,
        radius,
    }
}

/// Lays the password box out. There is no layout where the corner radius
/// is out of range.
fn lay_out_input(input: &NLockConfigInput, scale: i64, width: i64, height: i64, m: &TextMetrics) -> (r:
    Option<InputGeometry>)
    requires
        dimensions_valid(width as int, height as int),
        within(scale as int, RATIO_LIMIT as int),
        input_in_range(*input, *m),
    ensures
        r is Some <==> corner_in_range(*input, scale as int, height as int, *m),
        r is Some ==> {
            let g = r.unwrap();
            &&& g == input_geometry(*input, scale as int, width as int, height as int, *m)
            &&& rect_bounded(g.outer_x, g.outer_y, g.outer_w, g.outer_h, g.corner)
        },
{
    let pad_x: i64 = times(input.padding_x, width);
    let pad_y: i64 = times(input.padding_y, height);
    let full: i64 = times(input.width, width);
    let inner_w: i64 = if input.fit_to_content && m.text_width < full {
        m.text_width
    } else {
        full
    };
    let inner_h: i64 = m.height;
    let inner_x: i64 = halve(whole_px(width) - inner_w);
    let inner_y: i64 = halve(whole_px(height) - inner_h);
    proof {
        lemma_product_within(
            input.border as int,
            scale as int,
            LENGTH_LIMIT as int,
            RATIO_LIMIT as int,
        );
    }
    let edge: i64 = scale_fixed(input.border, scale);
    let outer_w: i64 = inner_w + 2 * pad_x + edge;
    let outer_h: i64 = inner_h + 2 * pad_y + edge;
    proof {
        lemma_product_within(
            input.radius as int,
            outer_h as int,
            RATIO_LIMIT as int,
            2_000_000_000_000_000_000,
        );
    }
    let product: i128 = (input.radius as i128) * (outer_h as i128);
    let wide: i128 = floor_div(product, 1_000_000);
    if wide < -(CORNER_LIMIT as i128) || wide > CORNER_LIMIT as i128 {
        return None;
    }
    let corner: i64 = wide as i64;
    Some(InputGeometry {
        inner_x,
        inner_y,
        inner_w,
        inner_h,
        outer_x: halve(whole_px(width) - outer_w),
        outer_y: halve(whole_px(height) - outer_h),
        outer_w,
        outer_h,
        corner,
        edge,
        text_x: inner_x + halve(inner_w - m.text_width) - m.x_bearing,
        text_y: inner_y + halve(inner_h - m.descent) + halve(m.ascent),
    })
}

/// Appends the path of a rounded rectangle.
fn draw_rounded_rect(ops: &mut Vec<DrawOp>, x: i64, y: i64, w: i64, h: i64, r: i64)
    requires
        rect_bounded(x, y, w, h, r),
    ensures
        final(ops)@ == old(ops)@ + rounded_rect_ops(x, y, w, h, r),
{
    ops.push(DrawOp::NewSubPath);
    ops.push(DrawOp::Arc { cx: x + w - r, cy: y + r, radius: r, from_deg: -90, to_deg: 0 });
    ops.push(DrawOp::Arc { cx: x + w - r, cy: y + h - r, radius: r, from_deg: 0, to_deg: 90 });
    ops.push(DrawOp::Arc { cx: x + r, cy: y + h - r, radius: r, from_deg: 90, to_deg: 180 });
    ops.push(DrawOp::Arc { cx: x + r, cy: y + r, radius: r, from_deg: 180, to_deg: 270 });
    ops.push(DrawOp::ClosePath);
}

/// The renderer of one surface: what it knows of the output it draws for.
#[derive(Copy, Clone, Debug, PartialEq, Eq, Structural)]
pub struct NLockRenderer {
    /// The output's resolution in millionths of a dot per inch.
    pub dpi: Option<i64>,
    /// The output's scale factor in millionths.
    pub scale: Option<i64>,
    pub subpixel_order: Option<SubpixelOrder>,
}

impl Default for NLockRenderer {
    fn default() -> (r: Self)
        ensures
            r == (NLockRenderer { dpi: None, scale: None, subpixel_order: None }),
    {
        NLockRenderer { dpi: None, scale: None, subpixel_order: None }
    }
}

impl NLockRenderer {
    /// The scale factor in use: the one set, or 1.
    pub open spec fn scale_spec(self) -> int {
        match self.scale {
            Some(s) => s as int,
            None => DEFAULT_SCALE as int,
        }
    }

    /// The resolution in use: the one set, or 96 dots per inch.
    pub open spec fn dpi_spec(self) -> int {
        match self.dpi {
            Some(d) => d as int,
            None => DEFAULT_DPI as int,
        }
    }

    /// Sets the resolution. One that is not positive, or above
    /// [`LENGTH_LIMIT`], is replaced by 96 dots per inch.
    pub fn set_dpi(&mut self, dpi: i64)
        ensures
            final(self).dpi == Some(
                if 0 < dpi <= LENGTH_LIMIT {
                    dpi
                } else {
                    DEFAULT_DPI
                },
            ),
            final(self).scale == old(self).scale,
            final(self).subpixel_order == old(self).subpixel_order,
    {
        if dpi <= 0 || dpi > LENGTH_LIMIT {
            self.dpi = Some(DEFAULT_DPI);
        } else {
            self.dpi = Some(dpi);
        }
    }

    /// Sets the order of the colour stripes within a pixel.
    pub fn set_subpixel_order(&mut self, order: SubpixelOrder)
        ensures
            final(self).subpixel_order == Some(order),
            final(self).dpi == old(self).dpi,
            final(self).scale == old(self).scale,
    {
        self.subpixel_order = Some(order);
    }

    /// Sets the scale factor. One that is not positive is ignored.
    pub fn set_scale(&mut self, scale: i64)
        ensures
            final(self).scale == (if 0 < scale {
                Some(scale)
            } else {
                old(self).scale
            }),
            final(self).dpi == old(self).dpi,
            final(self).subpixel_order == old(self).subpixel_order,
    {
        if scale > 0 {
            self.scale = Some(scale);
        }
    }

    /// Appends the operations that clear the canvas.
    fn reset_cairo_context(ops: &mut Vec<DrawOp>)
        ensures
            final(ops)@ == old(ops)@ + reset_ops(),
    {
        ops.push(DrawOp::SetAntialiasBest);
        ops.push(DrawOp::Save);
        ops.push(DrawOp::SetOperatorSource);
        ops.push(DrawOp::SetSourceRgba(Rgba { r: 0, g: 0, b: 0, a: 0 }));
        ops.push(DrawOp::Paint);
        ops.push(DrawOp::Restore);
        ops.push(DrawOp::IdentityMatrix);
    }

    /// The colour of the frame in an authentication state.
    pub fn set_frame_border_color(config: &NLockConfig, auth_state: AuthState) -> (c: Rgba)
        ensures
            c == frame_border_color(config.colors, auth_state),
    {
        match auth_state {
            AuthState::Idle => config.colors.frame_border_idle,
            AuthState::Success => config.colors.frame_border_success,
            AuthState::Fail => config.colors.frame_border_fail,
        }
    }

    /// Tells whether the password box is left out of the overlay.
    pub fn hides_input(config: &NLockConfig, pwd_len: usize) -> (r: bool)
        ensures
            r == input_hidden(config.input, pwd_len),
    {
        pwd_len == 0 && config.input.hide_when_empty
    }

    /// The scale factor in use.
    pub fn current_scale(&self) -> (s: i64)
        ensures
            s == self.scale_spec(),
    {
        match self.scale {
            Some(s) => s,
            None => DEFAULT_SCALE,
        }
    }

    /// The resolution in use.
    pub fn current_dpi(&self) -> (d: i64)
        ensures
            d == self.dpi_spec(),
    {
        match self.dpi {
            Some(d) => d,
            None => DEFAULT_DPI,
        }
    }

    /// The font of the masked text: family, slant and weight as
    /// configured, the size converted from points to pixels at the
    /// output's resolution and scale.
    pub fn configure_cairo_font(&self, config: &NLockConfig) -> (r: Result<FontSetup, RenderError>)
        ensures
            match r {
                Ok(f) => {
                    &&& font_in_range(config.font.size as int, self.dpi_spec(), self.scale_spec())
                    &&& f.family@ == config.font.family@
                    &&& f.slant == config.font.slant
                    &&& f.weight == config.font.weight
                    &&& f.size == font_size_px(
                        config.font.size as int,
                        self.dpi_spec(),
                        self.scale_spec(),
                    )
                    &&& f.subpixel_order == (match self.subpixel_order {
                        Some(o) => o,
                        None => SubpixelOrder::Default,
                    })
                },
                Err(e) => e == RenderError::Range && !font_in_range(
                    config.font.size as int,
                    self.dpi_spec(),
                    self.scale_spec(),
                ),
            },
    {
        let size: i64 = config.font.size;
        let dpi: i64 = self.current_dpi();
        let scale: i64 = self.current_scale();
        if !(is_within(size, RATIO_LIMIT) && is_within(dpi, LENGTH_LIMIT) && is_within(
            scale,
            RATIO_LIMIT,
        )) {
            return Err(RenderError::Range);
        }
        proof {
            lemma_product_within(size as int, dpi as int, RATIO_LIMIT as int, LENGTH_LIMIT as int);
            lemma_product_within(
                size * dpi,
                scale as int,
                1_000_000_000_000_000_000_000,
                RATIO_LIMIT as int,
            );
        }
        let by_dpi: i128 = (size as i128) * (dpi as i128);
        let product: i128 = by_dpi * (scale as i128);
        let px: i128 = floor_div(product, 72_000_000_000_000);
        Ok(
            FontSetup {
                family: config.font.family.clone(),
                slant: config.font.slant,
                weight: config.font.weight,
                size: px as i64,
                subpixel_order: match self.subpixel_order {
                    Some(o) => o,
                    None => SubpixelOrder::Default,
                },
            },
        )
    }

    /// Says what is to be measured before the overlay is rendered: nothing
    /// where the password box is hidden, else the masked text under the
    /// configured font.
    pub fn text_request(&self, config: &NLockConfig, pwd_len: usize) -> (r: Result<
        Option<TextRequest>,
        RenderError,
    >)
        ensures
            match r {
                Ok(None) => input_hidden(config.input, pwd_len),
                Ok(Some(t)) => {
                    &&& !input_hidden(config.input, pwd_len)
                    &&& font_in_range(config.font.size as int, self.dpi_spec(), self.scale_spec())
                    &&& t.text@ == repeated(config.input.mask_char@, pwd_len as nat)
                    &&& t.font.family@ == config.font.family@
                    &&& t.font.slant == config.font.slant
                    &&& t.font.weight == config.font.weight
                    &&& t.font.size == font_size_px(
                        config.font.size as int,
                        self.dpi_spec(),
                        self.scale_spec(),
                    )
                    &&& t.font.subpixel_order == (match self.subpixel_order {
                        Some(o) => o,
                        None => SubpixelOrder::Default,
                    })
                },
                Err(e) => {
                    &&& e == RenderError::Range
                    &&& !input_hidden(config.input, pwd_len)
                    &&& !font_in_range(config.font.size as int, self.dpi_spec(), self.scale_spec())
                },
            },
    {
        if Self::hides_input(config, pwd_len) {
            return Ok(None);
        }
        let font: FontSetup = match self.configure_cairo_font(config) {
            Ok(font) => font,
            Err(e) => {
                return Err(e);
            },
        };
        let text: String = masked_text(config.input.mask_char.as_str(), pwd_len);
        Ok(Some(TextRequest { font, text }))
    }

    /// Lays the overlay out: the frame, and the password box unless it is
    /// hidden. Fails on a buffer without a valid size and on values too
    /// large to lay out.
    pub fn overlay_layout(&self, config: &NLockConfig, args: &NLockRenderOverlayArgs) -> (r: Result<
        OverlayLayout,
        RenderError,
    >)
        ensures
            r == overlay_layout_spec(*self, *config, *args),
            r is Ok ==> layout_bounded(r.unwrap()),
    {
        let w: i64 = args.buf_width;
        let h: i64 = args.buf_height;
        if w <= 0 || w > DIMENSION_LIMIT || h <= 0 || h > DIMENSION_LIMIT {
            return Err(RenderError::Geometry);
        }
        let scale: i64 = self.current_scale();
        if !(is_within(config.frame.border, LENGTH_LIMIT) && is_within(
            config.frame.radius,
            LENGTH_LIMIT,
        ) && is_within(scale, RATIO_LIMIT)) {
            return Err(RenderError::Range);
        }
        let frame: FrameGeometry = lay_out_frame(&config.frame, scale, w, h);
        if Self::hides_input(config, args.pwd_len) {
            return Ok(OverlayLayout { frame, input: None });
        }
        let m: &TextMetrics = &args.metrics;
        let input: &NLockConfigInput = &config.input;
        if !(is_within(config.font.size, RATIO_LIMIT) && is_within(
            self.current_dpi(),
            LENGTH_LIMIT,
        )) {
            return Err(RenderError::Range);
        }
        if !(is_within(input.width, RATIO_LIMIT) && is_within(input.padding_x, RATIO_LIMIT)
            && is_within(input.padding_y, RATIO_LIMIT) && is_within(input.radius, RATIO_LIMIT)
            && is_within(input.border, LENGTH_LIMIT) && is_within(m.text_width, LENGTH_LIMIT)
            && is_within(m.x_bearing, LENGTH_LIMIT) && is_within(m.height, LENGTH_LIMIT)
            && is_within(m.ascent, LENGTH_LIMIT) && is_within(m.descent, LENGTH_LIMIT)) {
            return Err(RenderError::Range);
        }
        match lay_out_input(input, scale, w, h, m) {
            Some(g) => Ok(OverlayLayout { frame, input: Some(g) }),
            None => Err(RenderError::Range),
        }
    }

    /// Appends the operations that take the image as the source.
    fn draw_background_image(
        ops: &mut Vec<DrawOp>,
        image: ImageSize,
        buf_width: i64,
        buf_height: i64,
        mode: BackgroundImageScale,
    )
        requires
            dimensions_valid(buf_width as int, buf_height as int),
            dimensions_valid(image.width as int, image.height as int),
        ensures
            final(ops)@ == old(ops)@ + image_ops(
                mode,
                image_placement(
                    mode,
                    buf_width as int,
                    buf_height as int,
                    image.width as int,
                    image.height as int,
                ),
            ),
    {
        let p: ImagePlacement = place(
            mode,
            buf_width,
            buf_height,
            image.width as i64,
            image.height as i64,
        );
        match mode {
            BackgroundImageScale::Tile => {
                ops.push(DrawOp::SetSourceTiled);
            },
            BackgroundImageScale::Center => {
                ops.push(DrawOp::SetSourceSurface { left: p.left, top: p.top });
            },
            _ => {
                ops.push(DrawOp::Scale { sx: p.scale_x, sy: p.scale_y });
                ops.push(DrawOp::SetSourceSurface { left: p.left, top: p.top });
            },
        }
    }

    /// Renders the background: clears the canvas, then paints all of it
    /// with the configured colour, replacing what was there, or with the
    /// image under the configured scale policy.
    pub fn render_background(&mut self, config: &NLockConfig, args: NLockRenderBackgroundArgs) -> (r:
        Result<Vec<DrawOp>, RenderError>)
        ensures
            *final(self) == *old(self),
            match background_ops(*config, args) {
                Ok(ops) => r is Ok && r.unwrap()@ == ops,
                Err(e) => r == Err::<Vec<DrawOp>, RenderError>(e),
            },
    {
        let bw: i64 = args.buf_width;
        let bh: i64 = args.buf_height;
        if bw <= 0 || bw > DIMENSION_LIMIT || bh <= 0 || bh > DIMENSION_LIMIT {
            return Err(RenderError::Geometry);
        }
        let mut ops: Vec<DrawOp> = Vec::new();
        Self::reset_cairo_context(&mut ops);
        match config.general.bg_type {
            BackgroundType::Color => {
                ops.push(DrawOp::SetSourceRgba(config.colors.bg));
                ops.push(DrawOp::SetOperatorSource);
            },
            BackgroundType::Image => {
                let image: ImageSize = match args.image {
                    Some(image) => image,
                    None => {
                        return Err(RenderError::MissingImage);
                    },
                };
                if image.width <= 0 || image.width as i64 > DIMENSION_LIMIT || image.height <= 0
                    || image.height as i64 > DIMENSION_LIMIT {
                    return Err(RenderError::Geometry);
                }
                Self::draw_background_image(&mut ops, image, bw, bh, config.image.scale);
            },
        }
        ops.push(DrawOp::Paint);
        Ok(ops)
    }

    /// Renders the overlay: clears the canvas to transparent, strokes the
    /// frame in the colour of the authentication state, and draws the
    /// password box with the masked text unless the box is hidden.
    pub fn render_overlay(&mut self, config: &NLockConfig, args: NLockRenderOverlayArgs) -> (r:
        Result<Vec<DrawOp>, RenderError>)
        ensures
            *final(self) == *old(self),
            match overlay_layout_spec(*old(self), *config, args) {
                Ok(layout) => r is Ok && r.unwrap()@ == overlay_ops(
                    layout,
                    config.colors,
                    args.auth_state,
                ),
                Err(e) => r == Err::<Vec<DrawOp>, RenderError>(e),
            },
    {
        let layout: OverlayLayout = match self.overlay_layout(config, &args) {
            Ok(layout) => layout,
            Err(e) => {
                return Err(e);
            },
        };
        let mut ops: Vec<DrawOp> = Vec::new();
        Self::reset_cairo_context(&mut ops);
        let f: FrameGeometry = layout.frame;
        ops.push(DrawOp::Save);
        ops.push(DrawOp::SetSourceRgba(Self::set_frame_border_color(config, args.auth_state)));
        ops.push(DrawOp::SetLineWidth(f.line));
        draw_rounded_rect(&mut ops, f.offset, f.offset, f.width, f.height, f.radius);
        ops.push(DrawOp::Stroke);
        ops.push(DrawOp::Restore);
        match layout.input {
            None => {},
            Some(g) => {
                ops.push(DrawOp::ConfigureFont);
                ops.push(DrawOp::Save);
                draw_rounded_rect(&mut ops, g.outer_x, g.outer_y, g.outer_w, g.outer_h, g.corner);
                ops.push(DrawOp::SetSourceRgba(config.colors.input_bg));
                ops.push(DrawOp::FillPreserve);
                ops.push(DrawOp::SetSourceRgba(config.colors.input_border));
                ops.push(DrawOp::SetLineWidth(g.edge));
                ops.push(DrawOp::StrokePreserve);
                ops.push(DrawOp::Clip);
                ops.push(
                    DrawOp::Rectangle {
                        x: g.inner_x,
                        y: g.inner_y,
                        width: g.inner_w,
                        height: g.inner_h,
                    },
                );
                ops.push(DrawOp::Clip);
                ops.push(DrawOp::SetSourceRgba(config.colors.text));
                ops.push(DrawOp::MoveTo { x: g.text_x, y: g.text_y });
                ops.push(DrawOp::ShowMaskedText);
                ops.push(DrawOp::Restore);
            },
        }
        Ok(ops)
    }
}

/// When the overlay is owed. It is laid out, and with that rendered,
/// exactly on these inputs: both sides of the buffer are positive and at
/// most [`DIMENSION_LIMIT`]; the frame's border and radius and the scale
/// are within their limits; and, unless the password box is hidden, so
/// are the font's size, the resolution, the box's settings, the text's
/// measurements and the corner radius of the box. Nothing else decides:
/// not the state of authentication, not the colours, not what the buffer
/// held.
pub proof fn lemma_overlay_is_owed(renderer: NLockRenderer, config: NLockConfig, args: NLockRenderOverlayArgs)
    ensures
        overlay_layout_spec(renderer, config, args) is Ok <==> {
            &&& 0 < args.buf_width <= DIMENSION_LIMIT
            &&& 0 < args.buf_height <= DIMENSION_LIMIT
            &&& frame_in_range(config.frame, renderer.scale_spec())
            &&& input_hidden(config.input, args.pwd_len) || (font_in_range(
                config.font.size as int,
                renderer.dpi_spec(),
                renderer.scale_spec(),
            ) && input_in_range(config.input, args.metrics) && corner_in_range(
                config.input,
                renderer.scale_spec(),
                args.buf_height as int,
                args.metrics,
            ))
        },
        overlay_layout_spec(renderer, config, args) is Err ==> overlay_layout_spec(
            renderer,
            config,
            args,
        ) == Err::<OverlayLayout, RenderError>(
            if 0 < args.buf_width <= DIMENSION_LIMIT && 0 < args.buf_height <= DIMENSION_LIMIT {
                RenderError::Range
            } else {
                RenderError::Geometry
            },
        ),
{
}

/// Every size that a buffer can have is a size at which the overlay and
/// the background can be rendered: no surface has a buffer that is too
/// large to draw on.
pub proof fn lemma_every_buffer_can_be_rendered(width: int, height: int)
    requires
        crate::buffer::buffer_size_valid(width, height),
    ensures
        dimensions_valid(width, height),
{
    assert(4 * width <= 4 * width * height && 4 * height <= 4 * width * height) by (nonlinear_arith)
        requires
            1 <= width,
            1 <= height,
    ;
    assert(crate::buffer::size_of(width, height) == 4 * width * height) by (nonlinear_arith)
        requires
            crate::buffer::size_of(width, height) == (4 * width) * height,
    ;
}

/// The frame on every buffer. Whatever size a buffer can have, the overlay
/// is rendered on it if the settings are within their limits, and its
/// frame is stroked as wide as the configured border times the scale, on
/// a path inset from each edge by half that width.
pub proof fn lemma_frame_on_every_buffer(
    renderer: NLockRenderer,
    config: NLockConfig,
    args: NLockRenderOverlayArgs,
)
    requires
        crate::buffer::buffer_size_valid(args.buf_width as int, args.buf_height as int),
        frame_in_range(config.frame, renderer.scale_spec()),
        input_hidden(config.input, args.pwd_len) || (font_in_range(
            config.font.size as int,
            renderer.dpi_spec(),
            renderer.scale_spec(),
        ) && input_in_range(config.input, args.metrics) && corner_in_range(
            config.input,
            renderer.scale_spec(),
            args.buf_height as int,
            args.metrics,
        )),
    ensures
        overlay_layout_spec(renderer, config, args) is Ok,
        ({
            let f = overlay_layout_spec(renderer, config, args).unwrap().frame;
            let ops = overlay_ops(
                overlay_layout_spec(renderer, config, args).unwrap(),
                config.colors,
                args.auth_state,
            );
            &&& f.line == scaled(config.frame.border as int, renderer.scale_spec())
            &&& f.offset == half(f.line as int)
            &&& f.offset + f.width + f.offset == whole(args.buf_width as int)
            &&& f.offset + f.height + f.offset == whole(args.buf_height as int)
            &&& ops[8] == DrawOp::SetSourceRgba(frame_border_color(config.colors, args.auth_state))
            &&& ops[9] == DrawOp::SetLineWidth(f.line)
            &&& ops[16] == DrawOp::Stroke
        }),
{
    lemma_every_buffer_can_be_rendered(args.buf_width as int, args.buf_height as int);
    lemma_overlay_is_owed(renderer, config, args);
    lemma_frame_stroke(renderer, config, args);
}

/// The frame scales with the output. At a whole scale factor `k`, as an
/// output states it, the stroke is exactly `k` times the configured border
/// wide, the corner radius `k` times the configured radius, and the path
/// is inset by half the stroke's width.
pub proof fn lemma_frame_scales_with_output(frame: NLockConfigFrame, k: int, width: int, height: int)
    requires
        0 < k,
        frame_in_range(frame, whole(k)),
        dimensions_valid(width, height),
    ensures
        ({
            let f = frame_geometry(frame, whole(k), width, height);
            &&& f.line == frame.border * k
            &&& f.radius == frame.radius * k
            &&& f.offset == half(frame.border * k)
            &&& f.offset + f.width + f.offset == whole(width)
            &&& f.offset + f.height + f.offset == whole(height)
        }),
{
    let b = frame.border as int;
    let r = frame.radius as int;
    lemma_product_within(b, whole(k), LENGTH_LIMIT as int, RATIO_LIMIT as int);
    lemma_product_within(r, whole(k), LENGTH_LIMIT as int, RATIO_LIMIT as int);
    assert(b * (k * 1_000_000) == (b * k) * 1_000_000 && r * (k * 1_000_000) == (r * k)
        * 1_000_000) by (nonlinear_arith);
}

/// On a buffer of up to a million pixels a side, the corner radius of the
/// password box is in range whenever the box's settings are.
pub proof fn lemma_corner_in_range(input: NLockConfigInput, scale: int, height: int, m: TextMetrics)
    requires
        0 < height <= 1_000_000,
        within(scale, RATIO_LIMIT as int),
        input_in_range(input, m),
    ensures
        corner_in_range(input, scale, height, m),
{
    lemma_product_within(input.padding_y as int, height, RATIO_LIMIT as int, 1_000_000);
    lemma_product_within(input.border as int, scale, LENGTH_LIMIT as int, RATIO_LIMIT as int);
    lemma_product_within(
        input.radius as int,
        outer_height(input, scale, height, m),
        RATIO_LIMIT as int,
        4_000_000_000_000_000,
    );
}

/// The frame of every overlay that can be rendered: the stroke is as wide
/// as the configured border times the scale; its path is inset from each
/// edge of the buffer by half that width, rounded down to a millionth of a
/// pixel; and the overlay strokes exactly that path with that width, in
/// the colour of the authentication state.
pub proof fn lemma_frame_stroke(renderer: NLockRenderer, config: NLockConfig, args: NLockRenderOverlayArgs)
    requires
        overlay_layout_spec(renderer, config, args) is Ok,
    ensures
        ({
            let layout = overlay_layout_spec(renderer, config, args).unwrap();
            let f = layout.frame;
            let ops = overlay_ops(layout, config.colors, args.auth_state);
            &&& f.line == scaled(config.frame.border as int, renderer.scale_spec())
            &&& f.offset == half(f.line as int)
            &&& 0 <= f.line - 2 * f.offset <= 1
            &&& f.offset + f.width + f.offset == whole(args.buf_width as int)
            &&& f.offset + f.height + f.offset == whole(args.buf_height as int)
            &&& f.radius == scaled(config.frame.radius as int, renderer.scale_spec())
            &&& ops[8] == DrawOp::SetSourceRgba(frame_border_color(config.colors, args.auth_state))
            &&& ops[9] == DrawOp::SetLineWidth(f.line)
            &&& ops.subrange(10, 16) == rounded_rect_ops(
                f.offset,
                f.offset,
                f.width,
                f.height,
                f.radius,
            )
            &&& ops[16] == DrawOp::Stroke
        }),
{
    let scale = renderer.scale_spec();
    lemma_product_within(config.frame.border as int, scale, LENGTH_LIMIT as int, RATIO_LIMIT as int);
    lemma_product_within(config.frame.radius as int, scale, LENGTH_LIMIT as int, RATIO_LIMIT as int);
}

/// The password box of every overlay that shows one. The inner box is as
/// wide as the configured share of the buffer's width, or as the measured
/// text if the box fits its content and the text is narrower; it is as
/// high as a line of the font; and it is centred. The outer box adds the
/// padding twice and the border once to each, and its corner radius is the
/// configured share of its own height. The ink of the text is centred
/// across the buffer, and its baseline lies so that ascent and descent
/// are centred down the buffer. Centred is to within a millionth of a
/// pixel for each halving.
pub proof fn lemma_input_box(renderer: NLockRenderer, config: NLockConfig, args: NLockRenderOverlayArgs)
    requires
        overlay_layout_spec(renderer, config, args) is Ok,
        !input_hidden(config.input, args.pwd_len),
    ensures
        ({
            let layout = overlay_layout_spec(renderer, config, args).unwrap();
            let w = args.buf_width as int;
            let h = args.buf_height as int;
            let full = config.input.width * w;
            let text = args.metrics.text_width as int;
            let edge = scaled(config.input.border as int, renderer.scale_spec());
            &&& layout.input is Some
            &&& ({
                let g = layout.input.unwrap();
                &&& g.inner_w == (if config.input.fit_to_content {
                    if text < full {
                        text
                    } else {
                        full
                    }
                } else {
                    full
                })
                &&& g.inner_h == args.metrics.height
                &&& 0 <= whole(w) - g.inner_w - 2 * g.inner_x <= 1
                &&& 0 <= whole(h) - g.inner_h - 2 * g.inner_y <= 1
                &&& g.outer_w == g.inner_w + 2 * (config.input.padding_x * w) + edge
                &&& g.outer_h == g.inner_h + 2 * (config.input.padding_y * h) + edge
                &&& 0 <= whole(w) - g.outer_w - 2 * g.outer_x <= 1
                &&& 0 <= whole(h) - g.outer_h - 2 * g.outer_y <= 1
                &&& g.corner == scaled(config.input.radius as int, g.outer_h as int)
                &&& g.edge == edge
                &&& 0 <= whole(w) - text - 2 * (g.text_x + args.metrics.x_bearing) <= 2
                &&& 0 <= whole(h) - (args.metrics.descent - args.metrics.ascent) - 2 * g.text_y <= 3
            })
        }),
{
    let scale = renderer.scale_spec();
    let w = args.buf_width as int;
    let h = args.buf_height as int;
    lemma_product_within(config.input.padding_x as int, w, RATIO_LIMIT as int, DIMENSION_LIMIT as int);
    lemma_product_within(config.input.padding_y as int, h, RATIO_LIMIT as int, DIMENSION_LIMIT as int);
    lemma_product_within(config.input.width as int, w, RATIO_LIMIT as int, DIMENSION_LIMIT as int);
    lemma_product_within(config.input.border as int, scale, LENGTH_LIMIT as int, RATIO_LIMIT as int);
    let g = input_geometry(config.input, scale, w, h, args.metrics);
    lemma_product_within(
        config.input.radius as int,
        g.outer_h as int,
        RATIO_LIMIT as int,
        2_000_000_000_000_000_000,
    );
}

/// Every background that can be rendered starts from a cleared canvas and
/// ends by painting all of it: nothing of what the buffer held before
/// shows in the result, which is a matter of the configuration and the
/// sizes alone. With a colour for background, the paint is that colour and
/// replaces instead of blending.
pub proof fn lemma_background_repaints_everything(config: NLockConfig, args: NLockRenderBackgroundArgs)
    requires
        background_ops(config, args) is Ok,
    ensures
        ({
            let ops = background_ops(config, args).unwrap();
            &&& ops.len() >= 8
            &&& ops.subrange(0, 7) == reset_ops()
            &&& ops.last() == DrawOp::Paint
            &&& config.general.bg_type == BackgroundType::Color ==> ops == reset_ops() + seq![
                DrawOp::SetSourceRgba(config.colors.bg),
                DrawOp::SetOperatorSource,
                DrawOp::Paint,
            ]
        }),
{
}

impl RenderError {
    /// The error in words.
    pub fn message(self) -> (r: String)
        ensures
            r@ == (match self {
                RenderError::Geometry => "invalid width or height"@,
                RenderError::MissingImage => "surface in image mode, but no image set"@,
                RenderError::Range => "a setting or a measurement is out of range"@,
            }),
    {
        match self {
            RenderError::Geometry => String::from_str("invalid width or height"),
            RenderError::MissingImage => String::from_str("surface in image mode, but no image set"),
            RenderError::Range => String::from_str("a setting or a measurement is out of range"),
        }
    }
}

} // verus!
