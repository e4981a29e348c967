//! One surface per output: what is known of the output, the compositor
//! objects that exist for it, its buffers, and the plan of each render.
//!
//! A surface is unconfigured until its drawable objects are created, created
//! until the compositor assigns it a size, and ready from then on until it
//! is destroyed. Failures of a render never change that state.

use vstd::prelude::*;
use vstd::string::*;
use crate::buffer::{find_free, is_first_free, none_free, NLockBuffer};
use crate::fixed::{floor_div, FIXED_ONE, LENGTH_LIMIT};
use crate::render::{NLockRenderer, SubpixelOrder, DEFAULT_DPI};

verus! {

/// How the colour stripes of an output's pixels lie, as the output says.
#[derive(Copy, Clone, Debug, PartialEq, Eq, Structural)]
pub enum Subpixel {
    Unknown,
    /// The pixels have no stripes.
    NoSubpixels,
    HorizontalRgb,
    HorizontalBgr,
    VerticalRgb,
    VerticalBgr,
}

/// Where a surface stands in its life.
#[derive(Copy, Clone, Debug, PartialEq, Eq, Structural)]
pub enum SurfacePhase {
    /// No drawable object exists yet.
    Unconfigured,
    /// The drawable objects exist; no size has been assigned.
    Created,
    /// A size has been assigned; every trigger renders.
    Ready,
    /// Torn down for good.
    Destroyed,
}

/// Why a surface has no usable size.
#[derive(Copy, Clone, Debug, PartialEq, Eq, Structural)]
pub enum DimensionError {
    WidthNotSet,
    HeightNotSet,
    /// A side is zero, or not positive for a physical size.
    Invalid,
}

/// What to do about the background in a render.
#[derive(Copy, Clone, Debug, PartialEq, Eq, Structural)]
pub enum BackgroundStep {
    /// Paint it into a buffer and commit that.
    Repaint,
    /// Commit the background surface again as it is.
    Recommit,
}

/// A step of a render.
#[derive(Copy, Clone, Debug, PartialEq, Eq, Structural)]
pub enum RenderStep {
    /// Paint the overlay into a buffer and commit that.
    Overlay,
    /// Paint the background into a buffer and commit that.
    BackgroundRepaint,
    /// Commit the background surface again as it is.
    BackgroundRecommit,
}

/// Why a surface cannot be drawn on.
#[derive(Copy, Clone, Debug, PartialEq, Eq, Structural)]
pub enum SurfaceError {
    /// The drawable surface does not exist.
    NoSurface,
    /// The overlay is not placed on the background.
    NoSubsurface,
}

/// Where to draw: a buffer that the surface has, or one yet to allocate.
#[derive(Copy, Clone, Debug, PartialEq, Eq, Structural)]
pub enum BufferChoice {
    /// The buffer at this index is free and of the right size.
    Reuse(usize),
    /// No buffer is free at this size: allocate one, then hand it to
    /// [`NLockSurface::new_buffer`].
    Allocate { width: u32, height: u32 },
    /// The surface has no size that a buffer could have.
    Unavailable,
}

/// What one render of a ready surface consists of: the overlay is painted
/// first, at the given size, then the background follows.
#[derive(Copy, Clone, Debug, PartialEq, Eq, Structural)]
pub struct RenderPlan {
    pub width: u32,
    pub height: u32,
    pub background: BackgroundStep,
}

/// What to create for an output that has described itself.
#[derive(Copy, Clone, Debug, PartialEq, Eq, Structural)]
pub enum CreateStep {
    /// Nothing: the objects exist, or the surface is gone.
    Nothing,
    /// A background and an overlay surface, the overlay a desynchronised
    /// child of the background with an empty input region, and a lock
    /// surface on the background.
    WithOverlay,
    /// The same without the parent and child relation, which the
    /// compositor does not offer. The overlay cannot be shown then.
    WithoutRelation,
}

/// The state of one output's surface.
#[derive(Clone, Debug)]
pub struct NLockSurface {
    pub created: bool,
    pub destroyed: bool,
    /// Whether the background has been painted at the current size.
    pub bg_rendered: bool,
    pub index: usize,
    pub output_name: Option<String>,
    pub output_scale: i32,
    pub width: Option<u32>,
    pub height: Option<u32>,
    pub last_width: Option<u32>,
    pub last_height: Option<u32>,
    /// The output's width in millimetres.
    pub physical_width: Option<i32>,
    /// The output's height in millimetres.
    pub physical_height: Option<i32>,
    /// The resolution in millionths of a dot per inch, once computed.
    pub dpi: Option<i64>,
    pub subpixel: Option<Subpixel>,
    pub has_ov_surface: bool,
    pub has_bg_surface: bool,
    pub has_subsurface: bool,
    pub has_lock_surface: bool,
    pub buffers: Vec<NLockBuffer>,
}

/// The order of the stripes for font rendering that corresponds to what an
/// output says of its pixels. Where the output does not know, or has no
/// stripes, the font system decides.
pub open spec fn subpixel_order_of(subpixel: Option<Subpixel>) -> SubpixelOrder {
    match subpixel {
        Some(Subpixel::HorizontalRgb) => SubpixelOrder::Rgb,
        Some(Subpixel::HorizontalBgr) => SubpixelOrder::Bgr,
        Some(Subpixel::VerticalRgb) => SubpixelOrder::Vrgb,
        Some(Subpixel::VerticalBgr) => SubpixelOrder::Vbgr,
        _ => SubpixelOrder::Default,
    }
}

/// The size assigned to a surface, if it has one with both sides positive.
pub open spec fn dimensions_of(width: Option<u32>, height: Option<u32>) -> Result<
    (u32, u32),
    DimensionError,
> {
    match (width, height) {
        (None, _) => Err(DimensionError::WidthNotSet),
        (Some(_), None) => Err(DimensionError::HeightNotSet),
        (Some(w), Some(h)) => if w == 0 || h == 0 {
            Err(DimensionError::Invalid)
        } else {
            Ok((w, h))
        },
    }
}

/// The physical size of an output in millimetres, if it states one with
/// both sides positive.
pub open spec fn physical_dimensions_of(width: Option<i32>, height: Option<i32>) -> Result<
    (i32, i32),
    DimensionError,
> {
    match (width, height) {
        (None, _) => Err(DimensionError::WidthNotSet),
        (Some(_), None) => Err(DimensionError::HeightNotSet),
        (Some(w), Some(h)) => if w <= 0 || h <= 0 {
            Err(DimensionError::Invalid)
        } else {
            Ok((w, h))
        },
    }
}

/// The mean of the resolutions across and down, in millionths of a dot per
/// inch, for `w` by `h` pixels on `pw` by `ph` millimetres: an inch is 25.4
/// millimetres, so the mean of `25.4 * w / pw` and `25.4 * h / ph`.
pub open spec fn mean_dpi(w: int, h: int, pw: int, ph: int) -> int {
    (127 * FIXED_ONE * (w * ph + h * pw)) / (10 * (pw * ph))
}

/// The resolution computed for `w` by `h` pixels on `pw` by `ph`
/// millimetres: [`mean_dpi`], kept within the resolutions that there are,
/// from one millionth of a dot per inch to [`LENGTH_LIMIT`]. A resolution
/// that is computed is positive, however small.
pub open spec fn computed_dpi(w: int, h: int, pw: int, ph: int) -> int {
    let mean = mean_dpi(w, h, pw, ph);
    if mean < 1 {
        1
    } else if mean > LENGTH_LIMIT {
        LENGTH_LIMIT as int
    } else {
        mean
    }
}

/// The resolution of a surface: [`computed_dpi`] where both the assigned
/// and the physical size are known and positive, else 96 dots per inch.
pub open spec fn dpi_of(
    width: Option<u32>,
    height: Option<u32>,
    physical_width: Option<i32>,
    physical_height: Option<i32>,
) -> int {
    match (dimensions_of(width, height), physical_dimensions_of(physical_width, physical_height)) {
        (Ok((w, h)), Ok((pw, ph))) => computed_dpi(w as int, h as int, pw as int, ph as int),
        _ => DEFAULT_DPI as int,
    }
}

/// The resolution of a surface is one that a renderer takes as it is:
/// positive and at most [`LENGTH_LIMIT`]. The default comes in only where
/// a size is absent or not positive, never in place of a computed value.
pub proof fn lemma_dpi_is_taken(
    width: Option<u32>,
    height: Option<u32>,
    physical_width: Option<i32>,
    physical_height: Option<i32>,
)
    ensures
        0 < dpi_of(width, height, physical_width, physical_height) <= LENGTH_LIMIT,
        dimensions_of(width, height) is Ok && physical_dimensions_of(
            physical_width,
            physical_height,
        ) is Ok ==> dpi_of(width, height, physical_width, physical_height) == computed_dpi(
            width.unwrap() as int,
            height.unwrap() as int,
            physical_width.unwrap() as int,
            physical_height.unwrap() as int,
        ),
{
}

/// The mean of the resolutions is not negative and within `i64`.
pub proof fn lemma_mean_dpi_bounds(w: int, h: int, pw: int, ph: int)
    requires
        0 < w <= u32::MAX,
        0 < h <= u32::MAX,
        0 < pw <= i32::MAX,
        0 < ph <= i32::MAX,
    ensures
        0 <= mean_dpi(w, h, pw, ph) <= 12_700_000 * (w + h),
        0 < pw * ph <= 0x7fff_ffff * 0x7fff_ffff,
        0 <= w * ph + h * pw <= 2 * (0xffff_ffff * 0x7fff_ffff),
{
    let d = pw * ph;
    let n = w * ph + h * pw;
    assert(0 < d <= 0x7fff_ffff * 0x7fff_ffff) by (nonlinear_arith)
        requires
            d == pw * ph,
            0 < pw <= 0x7fff_ffff,
            0 < ph <= 0x7fff_ffff,
    ;
    assert(0 <= n <= 2 * (0xffff_ffff * 0x7fff_ffff)) by (nonlinear_arith)
        requires
            n == w * ph + h * pw,
            0 < w <= 0xffff_ffff,
            0 < h <= 0xffff_ffff,
            0 < pw <= 0x7fff_ffff,
            0 < ph <= 0x7fff_ffff,
    ;
    assert(n <= (w + h) * d) by (nonlinear_arith)
        requires
            n == w * ph + h * pw,
            d == pw * ph,
            0 < w,
            0 < h,
            1 <= pw,
            1 <= ph,
    ;
    let num = 127 * FIXED_ONE * n;
    assert(num <= (12_700_000 * (w + h)) * (10 * d)) by (nonlinear_arith)
        requires
            num == 127 * 1_000_000 * n,
            n <= (w + h) * d,
    ;
    assert(0 <= num / (10 * d) <= 12_700_000 * (w + h)) by (nonlinear_arith)
        requires
            0 <= num <= (12_700_000 * (w + h)) * (10 * d),
            0 < 10 * d,
    ;
}

impl RenderPlan {
    /// The steps of the render in their order: the overlay first, then
    /// the background.
    pub open spec fn steps_spec(self) -> Seq<RenderStep> {
        seq![
            RenderStep::Overlay,
            match self.background {
                BackgroundStep::Repaint => RenderStep::BackgroundRepaint,
                BackgroundStep::Recommit => RenderStep::BackgroundRecommit,
            },
        ]
    }

    /// The steps of the render in their order.
    pub fn steps(&self) -> (r: Vec<RenderStep>)
        ensures
            r@ == self.steps_spec(),
    {
        let mut r: Vec<RenderStep> = Vec::new();
        r.push(RenderStep::Overlay);
        match self.background {
            BackgroundStep::Repaint => {
                r.push(RenderStep::BackgroundRepaint);
            },
            BackgroundStep::Recommit => {
                r.push(RenderStep::BackgroundRecommit);
            },
        }
        r
    }
}

impl SubpixelOrder {
    /// Converts what an output says of its pixels.
    pub fn from_wl_subpixel(subpixel: Subpixel) -> (r: SubpixelOrder)
        ensures
            r == subpixel_order_of(Some(subpixel)),
    {
        match subpixel {
            Subpixel::HorizontalRgb => SubpixelOrder::Rgb,
            Subpixel::HorizontalBgr => SubpixelOrder::Bgr,
            Subpixel::VerticalRgb => SubpixelOrder::Vrgb,
            Subpixel::VerticalBgr => SubpixelOrder::Vbgr,
            _ => SubpixelOrder::Default,
        }
    }
}

impl NLockSurface {
    /// Where the surface stands in its life.
    pub open spec fn phase(self) -> SurfacePhase {
        if self.destroyed {
            SurfacePhase::Destroyed
        } else if !self.created {
            SurfacePhase::Unconfigured
        } else if self.width is None || self.height is None {
            SurfacePhase::Created
        } else {
            SurfacePhase::Ready
        }
    }

    /// Whether the surface is as [`NLockSurface::new`] makes it.
    pub open spec fn is_new(self, index: usize) -> bool {
        &&& !self.created
        &&& !self.destroyed
        &&& !self.bg_rendered
        &&& self.index == index
        &&& self.output_name is None
        &&& self.output_scale == 1
        &&& self.width is None
        &&& self.height is None
        &&& self.last_width is None
        &&& self.last_height is None
        &&& self.physical_width is None
        &&& self.physical_height is None
        &&& self.dpi is None
        &&& self.subpixel is None
        &&& !self.has_ov_surface
        &&& !self.has_bg_surface
        &&& !self.has_subsurface
        &&& !self.has_lock_surface
        &&& self.buffers@.len() == 0
    }

    /// Whether the surface is sound: one that is destroyed has neither
    /// objects nor buffers, one that is not yet created has no objects,
    /// and an overlay that is placed on the background has both surfaces.
    pub open spec fn wf(self) -> bool {
        &&& self.destroyed ==> self.buffers@.len() == 0
        &&& self.destroyed || !self.created ==> !self.has_ov_surface && !self.has_bg_surface
            && !self.has_subsurface && !self.has_lock_surface
        &&& self.has_subsurface ==> self.has_ov_surface && self.has_bg_surface
    }

    /// Whether the size differs from the one of the last render.
    pub open spec fn size_changed(self) -> bool {
        self.last_width != self.width || self.last_height != self.height
    }

    /// The surface of the output announced as number `index`.
    pub fn new(index: usize) -> (r: NLockSurface)
        ensures
            r.is_new(index),
            r.wf(),
            r.phase() == SurfacePhase::Unconfigured,
    {
        NLockSurface {
            created: false,
            destroyed: false,
            bg_rendered: false,
            index,
            output_name: None,
            output_scale: 1,
            width: None,
            height: None,
            last_width: None,
            last_height: None,
            physical_width: None,
            physical_height: None,
            dpi: None,
            subpixel: None,
            has_ov_surface: false,
            has_bg_surface: false,
            has_subsurface: false,
            has_lock_surface: false,
            buffers: Vec::new(),
        }
    }

    /// Tells where the surface stands in its life.
    pub fn current_phase(&self) -> (r: SurfacePhase)
        ensures
            r == self.phase(),
    {
        if self.destroyed {
            SurfacePhase::Destroyed
        } else if !self.created {
            SurfacePhase::Unconfigured
        } else if self.width.is_none() || self.height.is_none() {
            SurfacePhase::Created
        } else {
            SurfacePhase::Ready
        }
    }

    /// The order of the colour stripes for font rendering.
    pub fn get_cairo_subpixel_order(&self) -> (r: SubpixelOrder)
        ensures
            r == subpixel_order_of(self.subpixel),
    {
        match self.subpixel {
            Some(s) => SubpixelOrder::from_wl_subpixel(s),
            None => SubpixelOrder::Default,
        }
    }

    /// The assigned size, if both sides are set and positive.
    pub fn get_dimensions(&self) -> (r: Result<(u32, u32), DimensionError>)
        ensures
            r == dimensions_of(self.width, self.height),
    {
        let width: u32 = match self.width {
            Some(w) => w,
            None => {
                return Err(DimensionError::WidthNotSet);
            },
        };
        let height: u32 = match self.height {
            Some(h) => h,
            None => {
                return Err(DimensionError::HeightNotSet);
            },
        };
        if width == 0 || height == 0 {
            return Err(DimensionError::Invalid);
        }
        Ok((width, height))
    }

    /// The output's physical size, if both sides are set and positive.
    pub fn get_physical_dimensions(&self) -> (r: Result<(i32, i32), DimensionError>)
        ensures
            r == physical_dimensions_of(self.physical_width, self.physical_height),
    {
        let width: i32 = match self.physical_width {
            Some(w) => w,
            None => {
                return Err(DimensionError::WidthNotSet);
            },
        };
        let height: i32 = match self.physical_height {
            Some(h) => h,
            None => {
                return Err(DimensionError::HeightNotSet);
            },
        };
        if width <= 0 || height <= 0 {
            return Err(DimensionError::Invalid);
        }
        Ok((width, height))
    }

    /// Whether `self` is `old` with nothing changed but the resolution.
    pub open spec fn same_but_dpi(self, old: NLockSurface) -> bool {
        &&& self.created == old.created
        &&& self.destroyed == old.destroyed
        &&& self.bg_rendered == old.bg_rendered
        &&& self.index == old.index
        &&& self.output_name == old.output_name
        &&& self.output_scale == old.output_scale
        &&& self.width == old.width
        &&& self.height == old.height
        &&& self.last_width == old.last_width
        &&& self.last_height == old.last_height
        &&& self.physical_width == old.physical_width
        &&& self.physical_height == old.physical_height
        &&& self.subpixel == old.subpixel
        &&& self.has_ov_surface == old.has_ov_surface
        &&& self.has_bg_surface == old.has_bg_surface
        &&& self.has_subsurface == old.has_subsurface
        &&& self.has_lock_surface == old.has_lock_surface
        &&& self.buffers@ == old.buffers@
    }

    /// Computes the resolution from the assigned and the physical size.
    pub fn calculate_dpi(&mut self)
        ensures
            old(self).wf() ==> final(self).wf(),
            final(self).destroyed == old(self).destroyed,
            final(self).dpi is Some,
            0 < final(self).dpi.unwrap() <= LENGTH_LIMIT,
            final(self).dpi.unwrap() == dpi_of(
                old(self).width,
                old(self).height,
                old(self).physical_width,
                old(self).physical_height,
            ),
            final(self).same_but_dpi(*old(self)),
    {
        let dims = self.get_dimensions();
        let phys = self.get_physical_dimensions();
        let dpi: i64 = match (dims, phys) {
            (Ok((w, h)), Ok((pw, ph))) => {
                proof {
                    lemma_mean_dpi_bounds(w as int, h as int, pw as int, ph as int);
                }
                let across: i128 = (w as i128) * (ph as i128);
                let down: i128 = (h as i128) * (pw as i128);
                let num: i128 = 127_000_000 * (across + down);
                let den: i128 = 10 * ((pw as i128) * (ph as i128));
                let q: i128 = floor_div(num, den);
                if q < 1 {
                    1
                } else if q > LENGTH_LIMIT as i128 {
                    LENGTH_LIMIT
                } else {
                    q as i64
                }
            },
            _ => DEFAULT_DPI,
        };
        self.dpi = Some(dpi);
    }

    /// The renderer for this surface: the resolution once it is computed,
    /// the output's scale factor where it is positive, and the order of
    /// the colour stripes.
    pub fn renderer(&self) -> (r: NLockRenderer)
        ensures
            r.dpi == (match self.dpi {
                Some(d) => Some(
                    if 0 < d <= LENGTH_LIMIT {
                        d
                    } else {
                        DEFAULT_DPI
                    },
                ),
                None => None,
            }),
            r.scale == (if self.output_scale > 0 {
                Some((self.output_scale * FIXED_ONE) as i64)
            } else {
                None
            }),
            r.subpixel_order == Some(subpixel_order_of(self.subpixel)),
    {
        let mut r: NLockRenderer = NLockRenderer::default();
        match self.dpi {
            Some(d) => {
                r.set_dpi(d);
            },
            None => {},
        }
        r.set_scale((self.output_scale as i64) * FIXED_ONE);
        r.set_subpixel_order(self.get_cairo_subpixel_order());
        r
    }

    /// Finds a buffer to draw into: the first that has the assigned size
    /// and is not with the compositor. There is none where the surface has
    /// no valid size.
    pub fn get_buffer_idx(&self) -> (r: Option<usize>)
        ensures
            match r {
                Some(i) => {
                    &&& dimensions_of(self.width, self.height) is Ok
                    &&& is_first_free(
                        self.buffers@,
                        self.width.unwrap() as int,
                        self.height.unwrap() as int,
                        i as int,
                    )
                },
                None => dimensions_of(self.width, self.height) is Ok ==> none_free(
                    self.buffers@,
                    self.width.unwrap() as int,
                    self.height.unwrap() as int,
                ),
            },
    {
        match self.get_dimensions() {
            Ok((w, h)) => {
                if w > 0x7fff_ffff || h > 0x7fff_ffff {
                    None
                } else {
                    find_free(&self.buffers, w as i32, h as i32)
                }
            },
            Err(_) => None,
        }
    }

    /// Chooses where to draw: the first buffer that is free and of the
    /// assigned size, else a new one of that size. A surface that is
    /// destroyed has nowhere to draw.
    pub fn acquire(&self) -> (r: BufferChoice)
        ensures
            match r {
                BufferChoice::Reuse(i) => {
                    &&& !self.destroyed
                    &&& dimensions_of(self.width, self.height) is Ok
                    &&& is_first_free(
                        self.buffers@,
                        self.width.unwrap() as int,
                        self.height.unwrap() as int,
                        i as int,
                    )
                },
                BufferChoice::Allocate { width, height } => {
                    &&& !self.destroyed
                    &&& dimensions_of(self.width, self.height) == Ok::<
                        (u32, u32),
                        DimensionError,
                    >((width, height))
                    &&& crate::buffer::buffer_size_valid(width as int, height as int)
                    &&& none_free(self.buffers@, width as int, height as int)
                },
                BufferChoice::Unavailable => self.destroyed || dimensions_of(
                    self.width,
                    self.height,
                ) is Err || !crate::buffer::buffer_size_valid(
                    self.width.unwrap() as int,
                    self.height.unwrap() as int,
                ),
            },
    {
        if self.destroyed {
            return BufferChoice::Unavailable;
        }
        let (w, h): (u32, u32) = match self.get_dimensions() {
            Ok(d) => d,
            Err(_) => {
                return BufferChoice::Unavailable;
            },
        };
        if w > 0x7fff_ffff || h > 0x7fff_ffff {
            assert(4 * w * h > i32::MAX) by (nonlinear_arith)
                requires
                    1 <= w,
                    1 <= h,
                    w > 0x7fff_ffff || h > 0x7fff_ffff,
            ;
            return BufferChoice::Unavailable;
        }
        match find_free(&self.buffers, w as i32, h as i32) {
            Some(i) => BufferChoice::Reuse(i),
            None => {
                if NLockBuffer::new(w as i32, h as i32).is_none() {
                    BufferChoice::Unavailable
                } else {
                    BufferChoice::Allocate { width: w, height: h }
                }
            },
        }
    }

    /// Tells whether the background can be drawn: its surface must exist.
    pub fn background_target(&self) -> (r: Result<(), SurfaceError>)
        ensures
            r == (if self.has_bg_surface {
                Ok(())
            } else {
                Err(SurfaceError::NoSurface)
            }),
    {
        if self.has_bg_surface {
            Ok(())
        } else {
            Err(SurfaceError::NoSurface)
        }
    }

    /// Tells whether the overlay can be drawn: its surface must exist and
    /// be placed on the background.
    pub fn overlay_target(&self) -> (r: Result<(), SurfaceError>)
        ensures
            r == (if !self.has_ov_surface {
                Err(SurfaceError::NoSurface)
            } else if !self.has_subsurface {
                Err(SurfaceError::NoSubsurface)
            } else {
                Ok(())
            }),
    {
        if !self.has_ov_surface {
            Err(SurfaceError::NoSurface)
        } else if !self.has_subsurface {
            Err(SurfaceError::NoSubsurface)
        } else {
            Ok(())
        }
    }

    /// Takes a newly allocated buffer of the given size into the surface's
    /// list and gives its index. A size that cannot be allocated is
    /// refused and changes nothing, and so is any buffer for a surface
    /// that is destroyed.
    pub fn new_buffer(&mut self, width: u32, height: u32) -> (r: Option<usize>)
        ensures
            old(self).wf() ==> final(self).wf(),
            final(self).destroyed == old(self).destroyed,
            r is Some <==> !old(self).destroyed && crate::buffer::buffer_size_valid(
                width as int,
                height as int,
            ),
            match r {
                Some(i) => {
                    &&& i == old(self).buffers@.len()
                    &&& final(self).buffers@.len() == i + 1
                    &&& final(self).buffers@.subrange(0, i as int) == old(self).buffers@
                    &&& final(self).buffers@[i as int].is_free_for(width as int, height as int)
                    &&& final(self).buffers@[i as int].size == 4 * width * height
                },
                None => final(self).buffers@ == old(self).buffers@,
            },
            final(self).same_but_buffers(*old(self)),
    {
        if self.destroyed || width == 0 || height == 0 {
            return None;
        }
        if width > 0x7fff_ffff || height > 0x7fff_ffff {
            assert(4 * width * height > i32::MAX) by (nonlinear_arith)
                requires
                    1 <= width,
                    1 <= height,
                    width > 0x7fff_ffff || height > 0x7fff_ffff,
            ;
            return None;
        }
        let buf: NLockBuffer = match NLockBuffer::new(width as i32, height as i32) {
            Some(buf) => buf,
            None => {
                return None;
            },
        };
        self.buffers.push(buf);
        Some(self.buffers.len() - 1)
    }

    /// Whether `self` is `old` with nothing changed but the buffers.
    pub open spec fn same_but_buffers(self, old: NLockSurface) -> bool {
        &&& self.created == old.created
        &&& self.destroyed == old.destroyed
        &&& self.bg_rendered == old.bg_rendered
        &&& self.index == old.index
        &&& self.output_name == old.output_name
        &&& self.output_scale == old.output_scale
        &&& self.width == old.width
        &&& self.height == old.height
        &&& self.last_width == old.last_width
        &&& self.last_height == old.last_height
        &&& self.physical_width == old.physical_width
        &&& self.physical_height == old.physical_height
        &&& self.dpi == old.dpi
        &&& self.subpixel == old.subpixel
        &&& self.has_ov_surface == old.has_ov_surface
        &&& self.has_bg_surface == old.has_bg_surface
        &&& self.has_subsurface == old.has_subsurface
        &&& self.has_lock_surface == old.has_lock_surface
    }

    /// What is to be created for the surface of an output that has
    /// described itself: nothing twice, and nothing for a surface that is
    /// destroyed.
    pub open spec fn create_step(self, has_subcompositor: bool) -> CreateStep {
        if self.created || self.destroyed {
            CreateStep::Nothing
        } else if has_subcompositor {
            CreateStep::WithOverlay
        } else {
            CreateStep::WithoutRelation
        }
    }

    /// Whether `self` is what the creation of its objects makes of `old`:
    /// the same where nothing is created; else created, with a
    /// background, an overlay and a lock surface, and with the overlay
    /// placed on the background if there is a subcompositor.
    pub open spec fn is_created_from(self, old: NLockSurface, has_subcompositor: bool) -> bool {
        if old.create_step(has_subcompositor) == CreateStep::Nothing {
            self == old
        } else {
            &&& self.created
            &&& self.has_bg_surface
            &&& self.has_ov_surface
            &&& self.has_subsurface == has_subcompositor
            &&& self.has_lock_surface
            &&& self.same_geometry(old)
        }
    }

    /// Decides what to create once the output has described itself, and
    /// notes that it is created.
    pub fn create_surface(&mut self, has_subcompositor: bool) -> (r: CreateStep)
        ensures
            old(self).wf() ==> final(self).wf(),
            final(self).destroyed == old(self).destroyed,
            r == old(self).create_step(has_subcompositor),
            final(self).is_created_from(*old(self), has_subcompositor),
            r != CreateStep::Nothing ==> final(self).phase() == (if old(self).width is None || old(
                self,
            ).height is None {
                SurfacePhase::Created
            } else {
                SurfacePhase::Ready
            }),
    {
        if self.created || self.destroyed {
            return CreateStep::Nothing;
        }
        self.has_bg_surface = true;
        self.has_ov_surface = true;
        self.has_subsurface = has_subcompositor;
        self.has_lock_surface = true;
        self.created = true;
        if has_subcompositor {
            CreateStep::WithOverlay
        } else {
            CreateStep::WithoutRelation
        }
    }

    /// Whether `self` has what `old` knows of the output, its sizes and
    /// its buffers.
    pub open spec fn same_geometry(self, old: NLockSurface) -> bool {
        &&& self.destroyed == old.destroyed
        &&& self.bg_rendered == old.bg_rendered
        &&& self.index == old.index
        &&& self.output_name == old.output_name
        &&& self.output_scale == old.output_scale
        &&& self.width == old.width
        &&& self.height == old.height
        &&& self.last_width == old.last_width
        &&& self.last_height == old.last_height
        &&& self.physical_width == old.physical_width
        &&& self.physical_height == old.physical_height
        &&& self.dpi == old.dpi
        &&& self.subpixel == old.subpixel
        &&& self.buffers@ == old.buffers@
    }

    /// The plan of the next render: none for a surface that is not ready
    /// or whose size has a zero side; else the overlay at the assigned
    /// size, and the background repainted unless it has been painted at
    /// this size.
    pub open spec fn plan_of(self) -> Option<RenderPlan> {
        if self.phase() == SurfacePhase::Ready && dimensions_of(self.width, self.height) is Ok {
            Some(
                RenderPlan {
                    width: self.width.unwrap(),
                    height: self.height.unwrap(),
                    background: if self.bg_rendered && !self.size_changed() {
                        BackgroundStep::Recommit
                    } else {
                        BackgroundStep::Repaint
                    },
                },
            )
        } else {
            None
        }
    }

    /// Whether `self` is what a render makes of `old`. A surface that is
    /// not ready stays as it is. A ready one remembers the size that it
    /// was to render at, also where the render is abandoned because a side
    /// of the size is zero; nothing else changes then. Where there is a
    /// plan, the resolution is computed if it never was, and a background
    /// of another size counts as not painted.
    pub open spec fn is_render_of(self, old: NLockSurface) -> bool {
        if old.phase() != SurfacePhase::Ready {
            self == old
        } else if old.plan_of() is None {
            self == (NLockSurface { last_width: old.width, last_height: old.height, ..old })
        } else {
            &&& self.bg_rendered == (old.bg_rendered && !old.size_changed())
            &&& self.last_width == old.width
            &&& self.last_height == old.height
            &&& self.dpi == (match old.dpi {
                Some(d) => Some(d),
                None => Some(
                    dpi_of(old.width, old.height, old.physical_width, old.physical_height) as i64,
                ),
            })
            &&& self.same_output(old)
        }
    }

    /// Plans one render, see [`NLockSurface::plan_of`], and prepares the
    /// surface for it, see [`NLockSurface::is_render_of`]. A render that
    /// is not planned, or that fails later for want of a buffer or of a
    /// drawable object, tears nothing down.
    pub fn render(&mut self) -> (r: Option<RenderPlan>)
        ensures
            old(self).wf() ==> final(self).wf(),
            final(self).destroyed == old(self).destroyed,
            r == old(self).plan_of(),
            final(self).is_render_of(*old(self)),
            final(self).phase() == old(self).phase(),
    {
        if self.destroyed || !self.created {
            return None;
        }
        let (width, height): (u32, u32) = match self.get_dimensions() {
            Ok(d) => d,
            Err(DimensionError::Invalid) => {
                self.last_width = self.width;
                self.last_height = self.height;
                return None;
            },
            Err(_) => {
                return None;
            },
        };
        if self.dpi.is_none() {
            self.calculate_dpi();
        }
        let changed: bool = !opt_eq(self.last_width, self.width) || !opt_eq(
            self.last_height,
            self.height,
        );
        if changed {
            self.bg_rendered = false;
        }
        self.last_width = self.width;
        self.last_height = self.height;
        let background: BackgroundStep = if self.bg_rendered {
            BackgroundStep::Recommit
        } else {
            BackgroundStep::Repaint
        };
        Some(RenderPlan { width, height, background })
    }

    /// Whether `self` has what `old` knows of the output, its objects and
    /// its buffers, and the same assigned size.
    pub open spec fn same_output(self, old: NLockSurface) -> bool {
        &&& self.created == old.created
        &&& self.destroyed == old.destroyed
        &&& self.index == old.index
        &&& self.output_name == old.output_name
        &&& self.output_scale == old.output_scale
        &&& self.width == old.width
        &&& self.height == old.height
        &&& self.physical_width == old.physical_width
        &&& self.physical_height == old.physical_height
        &&& self.subpixel == old.subpixel
        &&& self.has_ov_surface == old.has_ov_surface
        &&& self.has_bg_surface == old.has_bg_surface
        &&& self.has_subsurface == old.has_subsurface
        &&& self.has_lock_surface == old.has_lock_surface
        &&& self.buffers@ == old.buffers@
    }

    /// Notes that the background was painted and committed at the
    /// current size.
    pub fn background_rendered(&mut self)
        ensures
            old(self).wf() ==> final(self).wf(),
            final(self).destroyed == old(self).destroyed,
            final(self).bg_rendered,
            final(self).same_output(*old(self)),
            final(self).dpi == old(self).dpi,
            final(self).last_width == old(self).last_width,
            final(self).last_height == old(self).last_height,
    {
        self.bg_rendered = true;
    }

    /// Whether `self` is `old` torn down: destroyed, without objects and
    /// buffers, and otherwise the same.
    pub open spec fn is_destroyed_from(self, old: NLockSurface) -> bool {
        &&& self.destroyed
        &&& self.buffers@.len() == 0
        &&& !self.has_ov_surface
        &&& !self.has_bg_surface
        &&& !self.has_subsurface
        &&& !self.has_lock_surface
        &&& self.created == old.created
        &&& self.bg_rendered == old.bg_rendered
        &&& self.index == old.index
        &&& self.output_name == old.output_name
        &&& self.output_scale == old.output_scale
        &&& self.width == old.width
        &&& self.height == old.height
        &&& self.last_width == old.last_width
        &&& self.last_height == old.last_height
        &&& self.physical_width == old.physical_width
        &&& self.physical_height == old.physical_height
        &&& self.dpi == old.dpi
        &&& self.subpixel == old.subpixel
    }

    /// Tears the surface down: its lock surface and its buffers are to be
    /// destroyed and its output released. Gives the number of buffers that
    /// it held. The surface is destroyed from then on.
    pub fn destroy(&mut self) -> (r: usize)
        ensures
            final(self).wf(),
            r == old(self).buffers@.len(),
            final(self).is_destroyed_from(*old(self)),
            final(self).phase() == SurfacePhase::Destroyed,
    {
        let n: usize = self.buffers.len();
        self.buffers.clear();
        self.has_lock_surface = false;
        self.has_subsurface = false;
        self.has_ov_surface = false;
        self.has_bg_surface = false;
        self.destroyed = true;
        n
    }
}

/// Compares two optional sizes.
fn opt_eq(a: Option<u32>, b: Option<u32>) -> (r: bool)
    ensures
        r == (a == b),
{
    match (a, b) {
        (Some(x), Some(y)) => x == y,
        (None, None) => true,
        _ => false,
    }
}

/// Destroyed is for good: whatever is done to a surface that is destroyed,
/// it stays destroyed, makes no plan, takes no buffer and creates nothing.
pub proof fn lemma_destroyed_is_final(s: NLockSurface, has_subcompositor: bool)
    requires
        s.destroyed,
    ensures
        s.phase() == SurfacePhase::Destroyed,
        s.plan_of() is None,
        s.create_step(has_subcompositor) == CreateStep::Nothing,
        forall|after: NLockSurface| after.is_render_of(s) ==> after == s,
        forall|after: NLockSurface| after.is_created_from(s, has_subcompositor) ==> after == s,
{
}

/// A render leaves a surface in the phase it was in: one that fails in
/// part or in whole destroys nothing, and one that is not destroyed is
/// never destroyed by a render.
pub proof fn lemma_render_keeps_phase(before: NLockSurface, after: NLockSurface)
    requires
        after.is_render_of(before),
    ensures
        after.phase() == before.phase(),
        after.destroyed == before.destroyed,
        after.buffers@ == before.buffers@,
{
}

/// The background is painted once for each size: after a render whose
/// background was painted, the next render at the same size commits the
/// background again without painting it.
pub proof fn lemma_background_painted_once(before: NLockSurface, after: NLockSurface, painted: NLockSurface)
    requires
        before.plan_of() is Some,
        after.is_render_of(before),
        painted == (NLockSurface { bg_rendered: true, ..after }),
    ensures
        painted.plan_of() == Some(
            RenderPlan {
                width: before.width.unwrap(),
                height: before.height.unwrap(),
                background: BackgroundStep::Recommit,
            },
        ),
{
}

impl DimensionError {
    /// The error in words.
    pub fn message(self) -> (r: String)
        ensures
            r@ == (match self {
                DimensionError::WidthNotSet => "width not set"@,
                DimensionError::HeightNotSet => "height not set"@,
                DimensionError::Invalid => "dimensions invalid"@,
            }),
    {
        match self {
            DimensionError::WidthNotSet => String::from_str("width not set"),
            DimensionError::HeightNotSet => String::from_str("height not set"),
            DimensionError::Invalid => String::from_str("dimensions invalid"),
        }
    }
}

impl SurfaceError {
    /// The error in words.
    pub fn message(self) -> (r: String)
        ensures
            r@ == (match self {
                SurfaceError::NoSurface => "wl_surface not set"@,
                SurfaceError::NoSubsurface => "wl_subsurface not set"@,
            }),
    {
        match self {
            SurfaceError::NoSurface => String::from_str("wl_surface not set"),
            SurfaceError::NoSubsurface => String::from_str("wl_subsurface not set"),
        }
    }
}

} // verus!
