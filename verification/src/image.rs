//! Background image handling: scaling policies and pixel conversion.

use vstd::arithmetic::div_mod::lemma_fundamental_div_mod_converse;
use vstd::prelude::*;
use vstd::string::*;
use crate::fixed::{floor_div, lemma_product_within, within, Ratio, DIMENSION_LIMIT};
use crate::util::text_is;

verus! {

/// How a background image is fitted to the buffer.
#[derive(Copy, Clone, Debug, PartialEq, Eq, Structural)]
pub enum BackgroundImageScale {
    /// Scaled in each direction by itself, to fill the buffer exactly.
    Stretch,
    /// Scaled evenly until it covers the buffer, centred, the overhang cut.
    Fill,
    /// Scaled evenly until it just fits inside the buffer, centred.
    Fit,
    /// At its own size, centred.
    Center,
    /// At its own size, repeated from the top left corner.
    Tile,
}

impl BackgroundImageScale {
    /// The name of the scale policy in settings.
    pub open spec fn name_spec(self) -> Seq<char> {
        match self {
            BackgroundImageScale::Stretch => "stretch"@,
            BackgroundImageScale::Fill => "fill"@,
            BackgroundImageScale::Fit => "fit"@,
            BackgroundImageScale::Center => "center"@,
            BackgroundImageScale::Tile => "tile"@,
        }
    }

    /// The scale policy of a name, if it is one.
    pub open spec fn of_name(name: Seq<char>) -> Option<BackgroundImageScale> {
        if name == "stretch"@ {
            Some(BackgroundImageScale::Stretch)
        } else if name == "fill"@ {
            Some(BackgroundImageScale::Fill)
        } else if name == "fit"@ {
            Some(BackgroundImageScale::Fit)
        } else if name == "center"@ {
            Some(BackgroundImageScale::Center)
        } else if name == "tile"@ {
            Some(BackgroundImageScale::Tile)
        } else {
            None
        }
    }

    /// The name of the scale policy in settings.
    pub fn name(self) -> (r: &'static str)
        ensures
            r@ == self.name_spec(),
    {
        match self {
            BackgroundImageScale::Stretch => "stretch",
            BackgroundImageScale::Fill => "fill",
            BackgroundImageScale::Fit => "fit",
            BackgroundImageScale::Center => "center",
            BackgroundImageScale::Tile => "tile",
        }
    }

    /// Reads a scale policy from its name.
    pub fn from_name(name: &str) -> (r: Option<BackgroundImageScale>)
        ensures
            r == BackgroundImageScale::of_name(name@),
    {
        if text_is(name, "stretch") {
            Some(BackgroundImageScale::Stretch)
        } else if text_is(name, "fill") {
            Some(BackgroundImageScale::Fill)
        } else if text_is(name, "fit") {
            Some(BackgroundImageScale::Fit)
        } else if text_is(name, "center") {
            Some(BackgroundImageScale::Center)
        } else if text_is(name, "tile") {
            Some(BackgroundImageScale::Tile)
        } else {
            None
        }
    }
}

/// Every scale policy is read back from its name.
pub proof fn lemma_scale_names_round_trip(scale: BackgroundImageScale)
    ensures
        BackgroundImageScale::of_name(scale.name_spec()) == Some(scale),
{
    reveal_strlit("stretch");
    reveal_strlit("fill");
    reveal_strlit("fit");
    reveal_strlit("center");
    reveal_strlit("tile");
    assert("fill"@.len() == 4 && "fit"@.len() == 3 && "tile"@.len() == 4);
    assert("stretch"@.len() == 7 && "center"@.len() == 6);
    assert("tile"@[0] != "fill"@[0]);
}

/// The rounded quotient `c * a / 255`, the premultiplied value of a colour
/// channel `c` under the alpha `a`.
pub open spec fn premul_spec(c: int, a: int) -> int {
    (2 * (c * a) + 255) / 510
}

/// Premultiplies one colour channel by an alpha value, both in `0..=255`.
pub fn premul(c: u16, a: u16) -> (r: u8)
    requires
        c <= 255,
        a <= 255,
    ensures
        r as int == premul_spec(c as int, a as int),
{
    assert(c * a <= 255 * 255) by (nonlinear_arith)
        requires
            c <= 255,
            a <= 255,
    ;
    let z: u16 = (c * a) + 0x80;
    assert((z >> 8u16) <= 254u16 && ((z + (z >> 8u16)) as u16) >> 8u16 == (2 * (z - 128) + 255)
        / 510 && ((z + (z >> 8u16)) as u16) >> 8u16 <= 255u16) by (bit_vector)
        requires
            128u16 <= z <= 65153u16,
    ;
    let r: u16 = (z + (z >> 8)) >> 8;
    r as u8
}

/// A premultiplied channel is never above its alpha, which is what makes a
/// pixel a valid premultiplied one. Full alpha leaves the channel as it
/// is, no alpha leaves nothing, and a full channel becomes the alpha.
pub proof fn lemma_premul_bounds(c: int, a: int)
    requires
        0 <= c <= 255,
        0 <= a <= 255,
    ensures
        0 <= premul_spec(c, a) <= a,
        premul_spec(c, a) <= c,
        premul_spec(c, 255) == c,
        premul_spec(c, 0) == 0,
        premul_spec(255, a) == a,
{
    assert(0 <= c * a <= 255 * a && c * a <= c * 255) by (nonlinear_arith)
        requires
            0 <= c <= 255,
            0 <= a <= 255,
    ;
}

/// The size of a decoded image in pixels.
#[derive(Copy, Clone, Debug, PartialEq, Eq, Structural)]
pub struct ImageSize {
    pub width: i32,
    pub height: i32,
}

/// Where an image goes on a buffer: the scale of the user space in each
/// direction, and the place of the image's top left corner in that space,
/// in image pixels.
#[derive(Copy, Clone, Debug, PartialEq, Eq, Structural)]
pub struct ImagePlacement {
    pub scale_x: Ratio,
    pub scale_y: Ratio,
    pub left: Ratio,
    pub top: Ratio,
}

/// Whether the buffer is wider, relative to its height, than the image:
/// `bw / bh > iw / ih`.
pub open spec fn buffer_is_wider(bw: int, bh: int, iw: int, ih: int) -> bool {
    bw * ih > iw * bh
}

/// The placement that is scaled evenly by `bh / ih`, so that the image is
/// as high as the buffer, and centred across.
pub open spec fn placed_by_height(bw: int, bh: int, iw: int, ih: int) -> ImagePlacement {
    ImagePlacement {
        scale_x: Ratio { num: bh as i64, den: ih as i64 },
        scale_y: Ratio { num: bh as i64, den: ih as i64 },
        left: Ratio { num: (bw * ih - iw * bh) as i64, den: (2 * bh) as i64 },
        top: Ratio { num: 0, den: 1 },
    }
}

/// The placement that is scaled evenly by `bw / iw`, so that the image is
/// as wide as the buffer, and centred down.
pub open spec fn placed_by_width(bw: int, bh: int, iw: int, ih: int) -> ImagePlacement {
    ImagePlacement {
        scale_x: Ratio { num: bw as i64, den: iw as i64 },
        scale_y: Ratio { num: bw as i64, den: iw as i64 },
        left: Ratio { num: 0, den: 1 },
        top: Ratio { num: (bh * iw - ih * bw) as i64, den: (2 * bw) as i64 },
    }
}

/// The placement of an image of `iw` by `ih` pixels on a buffer of `bw` by
/// `bh` pixels under a scale policy.
///
/// - `Stretch` scales each direction by itself.
/// - `Fit` scales evenly by the smaller of the two factors: by height where
///   the buffer is the wider of the two, else by width.
/// - `Fill` scales evenly by the larger of the two: by width where the
///   buffer is the wider, else by height.
/// - `Center` does not scale; the corner is rounded down to a whole pixel.
/// - `Tile` neither scales nor moves.
pub open spec fn image_placement(mode: BackgroundImageScale, bw: int, bh: int, iw: int, ih: int) -> ImagePlacement {
    let one = Ratio { num: 1, den: 1 };
    let zero = Ratio { num: 0, den: 1 };
    match mode {
        BackgroundImageScale::Stretch => ImagePlacement {
            scale_x: Ratio { num: bw as i64, den: iw as i64 },
            scale_y: Ratio { num: bh as i64, den: ih as i64 },
            left: zero,
            top: zero,
        },
        BackgroundImageScale::Center => ImagePlacement {
            scale_x: one,
            scale_y: one,
            left: Ratio { num: ((bw - iw) / 2) as i64, den: 1 },
            top: Ratio { num: ((bh - ih) / 2) as i64, den: 1 },
        },
        BackgroundImageScale::Tile => ImagePlacement { scale_x: one, scale_y: one, left: zero, top: zero },
        BackgroundImageScale::Fit => if buffer_is_wider(bw, bh, iw, ih) {
            placed_by_height(bw, bh, iw, ih)
        } else {
            placed_by_width(bw, bh, iw, ih)
        },
        BackgroundImageScale::Fill => if buffer_is_wider(bw, bh, iw, ih) {
            placed_by_width(bw, bh, iw, ih)
        } else {
            placed_by_height(bw, bh, iw, ih)
        },
    }
}

/// Whether a width and a height are positive and at most [`DIMENSION_LIMIT`].
pub open spec fn size_valid(width: int, height: int) -> bool {
    0 < width <= DIMENSION_LIMIT && 0 < height <= DIMENSION_LIMIT
}

/// Places an image on a buffer under a scale policy. There is no
/// placement where a side of the buffer or of the image is not positive or
/// is above [`DIMENSION_LIMIT`].
pub fn place_image(mode: BackgroundImageScale, bw: i64, bh: i64, iw: i64, ih: i64) -> (r: Option<
    ImagePlacement,
>)
    ensures
        r == (if size_valid(bw as int, bh as int) && size_valid(iw as int, ih as int) {
            Some(image_placement(mode, bw as int, bh as int, iw as int, ih as int))
        } else {
            None
        }),
        r is Some ==> r.unwrap().scale_x.wf() && r.unwrap().scale_y.wf() && r.unwrap().left.wf()
            && r.unwrap().top.wf(),
{
    if bw <= 0 || bw > DIMENSION_LIMIT || bh <= 0 || bh > DIMENSION_LIMIT || iw <= 0 || iw
        > DIMENSION_LIMIT || ih <= 0 || ih > DIMENSION_LIMIT {
        return None;
    }
    Some(place(mode, bw, bh, iw, ih))
}

/// Places an image of a valid size on a buffer of a valid size.
pub(crate) fn place(mode: BackgroundImageScale, bw: i64, bh: i64, iw: i64, ih: i64) -> (p:
    ImagePlacement)
    requires
        size_valid(bw as int, bh as int),
        size_valid(iw as int, ih as int),
    ensures
        p == image_placement(mode, bw as int, bh as int, iw as int, ih as int),
        p.scale_x.wf() && p.scale_y.wf() && p.left.wf() && p.top.wf(),
{
    proof {
        lemma_product_within(bw as int, ih as int, DIMENSION_LIMIT as int, DIMENSION_LIMIT as int);
        lemma_product_within(iw as int, bh as int, DIMENSION_LIMIT as int, DIMENSION_LIMIT as int);
    }
    let one: Ratio = Ratio { num: 1, den: 1 };
    let zero: Ratio = Ratio { num: 0, den: 1 };
    let wider: bool = bw * ih > iw * bh;
    let by_height: bool = match mode {
        BackgroundImageScale::Fit => wider,
        _ => !wider,
    };
    match mode {
        BackgroundImageScale::Stretch => ImagePlacement {
            scale_x: Ratio { num: bw, den: iw },
            scale_y: Ratio { num: bh, den: ih },
            left: zero,
            top: zero,
        },
        BackgroundImageScale::Center => {
            let left: i128 = floor_div((bw - iw) as i128, 2);
            let top: i128 = floor_div((bh - ih) as i128, 2);
            ImagePlacement {
                scale_x: one,
                scale_y: one,
                left: Ratio { num: left as i64, den: 1 },
                top: Ratio { num: top as i64, den: 1 },
            }
        },
        BackgroundImageScale::Tile => ImagePlacement { scale_x: one, scale_y: one, left: zero, top: zero },
        _ => if by_height {
            ImagePlacement {
                scale_x: Ratio { num: bh, den: ih },
                scale_y: Ratio { num: bh, den: ih },
                left: Ratio { num: bw * ih - iw * bh, den: 2 * bh },
                top: zero,
            }
        } else {
            ImagePlacement {
                scale_x: Ratio { num: bw, den: iw },
                scale_y: Ratio { num: bw, den: iw },
                left: zero,
                top: Ratio { num: bh * iw - ih * bw, den: 2 * bw },
            }
        },
    }
}

/// A stretched image is exactly as wide and as high as the buffer.
pub proof fn lemma_stretch_fills_exactly(bw: int, bh: int, iw: int, ih: int)
    requires
        size_valid(bw, bh),
        size_valid(iw, ih),
    ensures
        ({
            let p = image_placement(BackgroundImageScale::Stretch, bw, bh, iw, ih);
            &&& iw * p.scale_x.num == bw * p.scale_x.den
            &&& ih * p.scale_y.num == bh * p.scale_y.den
            &&& p.left.num == 0 && p.top.num == 0
        }),
{
    assert(iw * bw == bw * iw) by (nonlinear_arith);
    assert(ih * bh == bh * ih) by (nonlinear_arith);
}

/// A fitted image is scaled evenly, is nowhere larger than the buffer, and
/// is as large as the buffer in one direction.
pub proof fn lemma_fit_is_inside(bw: int, bh: int, iw: int, ih: int)
    requires
        size_valid(bw, bh),
        size_valid(iw, ih),
    ensures
        ({
            let p = image_placement(BackgroundImageScale::Fit, bw, bh, iw, ih);
            &&& p.scale_x == p.scale_y
            &&& iw * p.scale_x.num <= bw * p.scale_x.den
            &&& ih * p.scale_x.num <= bh * p.scale_x.den
            &&& (iw * p.scale_x.num == bw * p.scale_x.den || ih * p.scale_x.num == bh
                * p.scale_x.den)
        }),
{
    assert(iw * bw == bw * iw) by (nonlinear_arith);
    assert(ih * bh == bh * ih) by (nonlinear_arith);
}

/// A filling image is scaled evenly, is nowhere smaller than the buffer,
/// and is as large as the buffer in one direction.
pub proof fn lemma_fill_covers(bw: int, bh: int, iw: int, ih: int)
    requires
        size_valid(bw, bh),
        size_valid(iw, ih),
    ensures
        ({
            let p = image_placement(BackgroundImageScale::Fill, bw, bh, iw, ih);
            &&& p.scale_x == p.scale_y
            &&& iw * p.scale_x.num >= bw * p.scale_x.den
            &&& ih * p.scale_x.num >= bh * p.scale_x.den
            &&& (iw * p.scale_x.num == bw * p.scale_x.den || ih * p.scale_x.num == bh
                * p.scale_x.den)
        }),
{
    assert(iw * bw == bw * iw) by (nonlinear_arith);
    assert(ih * bh == bh * ih) by (nonlinear_arith);
}

/// Whether a placement puts the middle of the image on the middle of the
/// buffer: `(left + iw / 2) * scale_x == bw / 2`, and likewise downwards.
pub open spec fn is_centred(p: ImagePlacement, bw: int, bh: int, iw: int, ih: int) -> bool {
    &&& (2 * p.left.num + iw * p.left.den) * p.scale_x.num == bw * p.scale_x.den * p.left.den
    &&& (2 * p.top.num + ih * p.top.den) * p.scale_y.num == bh * p.scale_y.den * p.top.den
}

/// A fitted and a filling image are centred on the buffer.
pub proof fn lemma_even_scaling_is_centred(mode: BackgroundImageScale, bw: int, bh: int, iw: int, ih: int)
    requires
        size_valid(bw, bh),
        size_valid(iw, ih),
        mode == BackgroundImageScale::Fit || mode == BackgroundImageScale::Fill,
    ensures
        is_centred(image_placement(mode, bw, bh, iw, ih), bw, bh, iw, ih),
{
    lemma_product_within(bw, ih, DIMENSION_LIMIT as int, DIMENSION_LIMIT as int);
    lemma_product_within(iw, bh, DIMENSION_LIMIT as int, DIMENSION_LIMIT as int);
    let h = placed_by_height(bw, bh, iw, ih);
    let w = placed_by_width(bw, bh, iw, ih);
    assert(is_centred(h, bw, bh, iw, ih)) by {
        assert((2 * (bw * ih - iw * bh) + iw * (2 * bh)) * bh == bw * ih * (2 * bh))
            by (nonlinear_arith);
        assert((2 * 0 + ih * 1) * bh == bh * ih * 1) by (nonlinear_arith);
    }
    assert(is_centred(w, bw, bh, iw, ih)) by {
        assert((2 * (bh * iw - ih * bw) + ih * (2 * bw)) * bw == bh * iw * (2 * bw))
            by (nonlinear_arith);
        assert((2 * 0 + iw * 1) * bw == bw * iw * 1) by (nonlinear_arith);
    }
}

/// The pixel format of a converted image: 32 bits to the pixel, native
/// byte order, with or without alpha.
#[derive(Copy, Clone, Debug, PartialEq, Eq, Structural)]
pub enum PixelFormat {
    /// The upper eight bits are unused.
    Rgb24,
    /// Alpha in the upper eight bits; the colours are premultiplied.
    ARgb32,
}

/// Why decoded pixels could not be converted.
#[derive(Copy, Clone, Debug, PartialEq, Eq, Structural)]
pub enum ImageError {
    /// There are fewer than three channels.
    InvalidFormat,
    /// The rows do not fit the pixel data, or the result has no valid size.
    Layout,
}

/// How decoded pixels lie in memory, and how the converted ones shall.
#[derive(Copy, Clone, Debug, PartialEq, Eq, Structural)]
pub struct PixelLayout {
    /// Pixels to the row.
    pub width: usize,
    /// Rows.
    pub height: usize,
    /// Bytes from one decoded row to the next.
    pub stride: usize,
    /// Bytes to the decoded pixel: red, green, blue, and alpha if there
    /// are more than three.
    pub chan: usize,
    /// Bytes from one converted row to the next.
    pub cstride: usize,
    /// Whether the machine stores the low byte of a word first.
    pub little_endian: bool,
}

impl PixelLayout {
    /// The format that the pixels are converted to.
    pub open spec fn format(self) -> PixelFormat {
        if self.chan == 3 {
            PixelFormat::Rgb24
        } else {
            PixelFormat::ARgb32
        }
    }

    /// Whether every row lies within `len` bytes of decoded pixels, is
    /// no longer than a converted row, and the converted image has a size.
    pub open spec fn fits(self, len: int) -> bool {
        &&& 4 * self.width <= self.cstride
        &&& self.height * self.cstride <= usize::MAX
        &&& self.chan * self.width <= usize::MAX
        &&& self.height > 0 ==> (self.height - 1) * self.stride + self.chan * self.width <= len
    }
}

/// The four bytes of a converted pixel, in memory order. With alpha the
/// colours are premultiplied.
pub open spec fn converted_pixel(r: u8, g: u8, b: u8, a: u8, alpha: bool, little: bool) -> Seq<u8> {
    if alpha {
        let pr = premul_spec(r as int, a as int) as u8;
        let pg = premul_spec(g as int, a as int) as u8;
        let pb = premul_spec(b as int, a as int) as u8;
        if little {
            seq![pb, pg, pr, a]
        } else {
            seq![a, pr, pg, pb]
        }
    } else {
        if little {
            seq![b, g, r, 0u8]
        } else {
            seq![0u8, r, g, b]
        }
    }
}

/// Byte `j` of row `y` of the converted image: a byte of the converted
/// pixel, or zero in the padding behind the last pixel.
pub open spec fn row_byte(pixels: Seq<u8>, l: PixelLayout, y: int, j: int) -> u8 {
    if j < 4 * l.width {
        let at = y * l.stride + l.chan * (j / 4);
        converted_pixel(
            pixels[at],
            pixels[at + 1],
            pixels[at + 2],
            if l.chan == 3 {
                0
            } else {
                pixels[at + 3]
            },
            l.chan != 3,
            l.little_endian,
        )[j % 4]
    } else {
        0
    }
}

/// The byte at offset `i` of the converted image.
pub open spec fn converted_byte(pixels: Seq<u8>, l: PixelLayout, i: int) -> u8 {
    row_byte(pixels, l, i / (l.cstride as int), i % (l.cstride as int))
}

/// The byte at offset `j` of row `y` is byte `y * cstride + j` of the image.
proof fn lemma_byte_of_row(pixels: Seq<u8>, l: PixelLayout, y: int, j: int)
    requires
        0 <= j < l.cstride,
    ensures
        converted_byte(pixels, l, y * l.cstride + j) == row_byte(pixels, l, y, j),
{
    lemma_fundamental_div_mod_converse(y * l.cstride + j, l.cstride as int, y, j);
}

/// Converts decoded pixels, three or more bytes each, to rows of 32-bit
/// pixels in native byte order, premultiplied where there is alpha.
pub fn convert_pixels(pixels: &[u8], l: PixelLayout) -> (r: Result<Vec<u8>, ImageError>)
    ensures
        l.chan < 3 ==> r == Err::<Vec<u8>, ImageError>(ImageError::InvalidFormat),
        l.chan >= 3 && !l.fits(pixels@.len() as int) ==> r == Err::<Vec<u8>, ImageError>(
            ImageError::Layout,
        ),
        l.chan >= 3 && l.fits(pixels@.len() as int) ==> r is Ok && r.unwrap()@.len() == l.height
            * l.cstride && forall|i: int|
            0 <= i < r.unwrap()@.len() ==> #[trigger] r.unwrap()@[i] == converted_byte(
                pixels@,
                l,
                i,
            ),
{
    if l.chan < 3 {
        return Err(ImageError::InvalidFormat);
    }
    let row_out: usize = match l.width.checked_mul(4) {
        Some(v) => v,
        None => {
            return Err(ImageError::Layout);
        },
    };
    if row_out > l.cstride {
        return Err(ImageError::Layout);
    }
    let total: usize = match l.height.checked_mul(l.cstride) {
        Some(v) => v,
        None => {
            return Err(ImageError::Layout);
        },
    };
    let row_in: usize = match l.chan.checked_mul(l.width) {
        Some(v) => v,
        None => {
            return Err(ImageError::Layout);
        },
    };
    let n: usize = pixels.len();
    if l.height > 0 {
        let last: usize = match (l.height - 1).checked_mul(l.stride) {
            Some(v) => v,
            None => {
                return Err(ImageError::Layout);
            },
        };
        let end: usize = match last.checked_add(row_in) {
            Some(v) => v,
            None => {
                return Err(ImageError::Layout);
            },
        };
        if end > n {
            return Err(ImageError::Layout);
        }
    }
    let alpha: bool = l.chan != 3;
    let mut out: Vec<u8> = Vec::with_capacity(total);
    let mut y: usize = 0;
    while y < l.height
        invariant
            l.chan >= 3,
            l.fits(pixels@.len() as int),
            row_out == 4 * l.width,
            row_in == l.chan * l.width,
            alpha == (l.chan != 3),
            n == pixels@.len(),
            y <= l.height,
            out@.len() == y * l.cstride,
            forall|i: int| 0 <= i < out@.len() ==> #[trigger] out@[i] == converted_byte(pixels@, l, i),
        decreases l.height - y,
    {
        assert(0 <= y * l.stride <= (l.height - 1) * l.stride) by (nonlinear_arith)
            requires
                0 <= y <= l.height - 1,
                0 <= l.stride,
        ;
        assert((y + 1) * l.cstride <= l.height * l.cstride && (y + 1) * l.cstride == y * l.cstride
            + l.cstride) by (nonlinear_arith)
            requires
                y + 1 <= l.height,
        ;
        let goff: usize = y * l.stride;
        let mut x: usize = 0;
        while x < l.width
            invariant
                l.chan >= 3,
                l.fits(pixels@.len() as int),
                row_out == 4 * l.width,
                row_in == l.chan * l.width,
                alpha == (l.chan != 3),
                n == pixels@.len(),
                y < l.height,
                x <= l.width,
                goff == y * l.stride,
                goff + row_in <= n,
                out@.len() == y * l.cstride + 4 * x,
                (y + 1) * l.cstride == y * l.cstride + l.cstride,
                forall|i: int|
                    0 <= i < out@.len() ==> #[trigger] out@[i] == converted_byte(pixels@, l, i),
            decreases l.width - x,
        {
            assert(0 <= l.chan * x && l.chan * x + l.chan <= l.chan * l.width) by (nonlinear_arith)
                requires
                    0 <= x,
                    x + 1 <= l.width,
                    0 <= l.chan,
            ;
            let at: usize = goff + l.chan * x;
            let r: u8 = pixels[at];
            let g: u8 = pixels[at + 1];
            let b: u8 = pixels[at + 2];
            let a: u8 = if alpha {
                pixels[at + 3]
            } else {
                0
            };
            let ghost before = out@;
            if alpha {
                let pr: u8 = premul(r as u16, a as u16);
                let pg: u8 = premul(g as u16, a as u16);
                let pb: u8 = premul(b as u16, a as u16);
                if l.little_endian {
                    out.push(pb);
                    out.push(pg);
                    out.push(pr);
                    out.push(a);
                } else {
                    out.push(a);
                    out.push(pr);
                    out.push(pg);
                    out.push(pb);
                }
            } else {
                if l.little_endian {
                    out.push(b);
                    out.push(g);
                    out.push(r);
                    out.push(0);
                } else {
                    out.push(0);
                    out.push(r);
                    out.push(g);
                    out.push(b);
                }
            }
            proof {
                assert forall|i: int| 0 <= i < out@.len() implies #[trigger] out@[i]
                    == converted_byte(pixels@, l, i) by {
                    if i >= before.len() {
                        let k = i - before.len();
                        lemma_byte_of_row(pixels@, l, y as int, 4 * x + k);
                    }
                }
            }
            x += 1;
        }
        let mut j: usize = row_out;
        while j < l.cstride
            invariant
                row_out == 4 * l.width,
                row_out <= j <= l.cstride,
                out@.len() == y * l.cstride + j,
                forall|i: int|
                    0 <= i < out@.len() ==> #[trigger] out@[i] == converted_byte(pixels@, l, i),
            decreases l.cstride - j,
        {
            proof {
                lemma_byte_of_row(pixels@, l, y as int, j as int);
            }
            out.push(0);
            j += 1;
        }
        y += 1;
    }
    Ok(out)
}

impl ImageError {
    /// The error in words.
    pub fn message(self) -> (r: String)
        ensures
            r@ == (match self {
                ImageError::InvalidFormat => "invalid format"@,
                ImageError::Layout => "the rows do not fit the pixel data"@,
            }),
    {
        match self {
            ImageError::InvalidFormat => String::from_str("invalid format"),
            ImageError::Layout => String::from_str("the rows do not fit the pixel data"),
        }
    }
}

} // verus!
