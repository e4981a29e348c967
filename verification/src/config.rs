//! The resolved configuration: built-in defaults, overlaid by the system
//! file, the user's file and the command line, in that order.
//!
//! Point sizes, pixel lengths and relative sizes are fixed-point numbers in
//! millionths (see [`crate::fixed`]).

use vstd::prelude::*;
use vstd::string::*;
use crate::args::{
    NLockArgs,
    NLockArgsColors,
    NLockArgsFont,
    NLockArgsFrame,
    NLockArgsGeneral,
    NLockArgsImage,
    NLockArgsInput,
};
use crate::image::BackgroundImageScale;
use crate::util::{BackgroundType, FontSlant, FontWeight, Rgba};

verus! {

/// The colours of the lock screen.
#[derive(Copy, Clone, Debug, PartialEq, Eq, Structural)]
pub struct NLockConfigColors {
    pub bg: Rgba,
    pub text: Rgba,
    pub input_bg: Rgba,
    pub input_border: Rgba,
    pub frame_border_idle: Rgba,
    pub frame_border_success: Rgba,
    pub frame_border_fail: Rgba,
}

/// The font of the masked password. The size is in millionths of a point.
#[derive(Clone, Debug)]
pub struct NLockConfigFont {
    pub size: i64,
    pub family: String,
    pub slant: FontSlant,
    pub weight: FontWeight,
}

/// The password box. `width`, `padding_x`, `padding_y` and `radius` are
/// relative, in millionths; `border` is in millionths of a pixel.
#[derive(Clone, Debug)]
pub struct NLockConfigInput {
    pub mask_char: String,
    pub width: i64,
    pub padding_x: i64,
    pub padding_y: i64,
    pub radius: i64,
    pub border: i64,
    pub hide_when_empty: bool,
    pub fit_to_content: bool,
}

/// The frame round the screen, in millionths of a pixel.
#[derive(Copy, Clone, Debug, PartialEq, Eq, Structural)]
pub struct NLockConfigFrame {
    pub border: i64,
    pub radius: i64,
}

/// General switches.
#[derive(Copy, Clone, Debug, PartialEq, Eq, Structural)]
pub struct NLockConfigGeneral {
    pub pwd_allow_empty: bool,
    pub hide_cursor: bool,
    pub bg_type: BackgroundType,
}

/// The background image.
#[derive(Clone, Debug)]
pub struct NLockConfigImage {
    pub path: String,
    pub scale: BackgroundImageScale,
}

/// The whole configuration of one run.
#[derive(Clone, Debug)]
pub struct NLockConfig {
    pub colors: NLockConfigColors,
    pub font: NLockConfigFont,
    pub input: NLockConfigInput,
    pub frame: NLockConfigFrame,
    pub general: NLockConfigGeneral,
    pub image: NLockConfigImage,
}

/// What one configuration file sets. A key that the file leaves out is `None`.
#[derive(Clone, Debug)]
pub struct NLockConfigFile {
    pub colors: NLockArgsColors,
    pub font: NLockArgsFont,
    pub input: NLockArgsInput,
    pub frame: NLockArgsFrame,
    pub general: NLockArgsGeneral,
    pub image: NLockArgsImage,
}

pub open spec fn opaque_black() -> Rgba {
    Rgba { r: 0, g: 0, b: 0, a: 255 }
}

pub open spec fn clear_black() -> Rgba {
    Rgba { r: 0, g: 0, b: 0, a: 0 }
}

pub fn default_bg_color() -> (c: Rgba)
    ensures
        c == opaque_black(),
{
    Rgba::new(0, 0, 0, 255)
}

pub fn default_text_color() -> (c: Rgba)
    ensures
        c == (Rgba { r: 255, g: 255, b: 255, a: 255 }),
{
    Rgba::new(255, 255, 255, 255)
}

pub fn default_input_bg_color() -> (c: Rgba)
    ensures
        c == opaque_black(),
{
    Rgba::new(0, 0, 0, 255)
}

pub fn default_input_border_color() -> (c: Rgba)
    ensures
        c == opaque_black(),
{
    Rgba::new(0, 0, 0, 255)
}

pub fn default_frame_border_idle_color() -> (c: Rgba)
    ensures
        c == clear_black(),
{
    Rgba::new(0, 0, 0, 0)
}

pub fn default_frame_border_success_color() -> (c: Rgba)
    ensures
        c == clear_black(),
{
    Rgba::new(0, 0, 0, 0)
}

pub fn default_frame_border_fail_color() -> (c: Rgba)
    ensures
        c == (Rgba { r: 255, g: 0, b: 0, a: 255 }),
{
    Rgba::new(255, 0, 0, 255)
}

/// 72 points.
pub fn default_font_size() -> (r: i64)
    ensures
        r == 72_000_000,
{
    72_000_000
}

/// The empty family name, which leaves the choice to the font system.
pub fn default_font_family() -> (r: String)
    ensures
        r@ == Seq::<char>::empty(),
{
    String::new()
}

pub fn default_font_slant() -> (r: FontSlant)
    ensures
        r == FontSlant::Normal,
{
    FontSlant::Normal
}

pub fn default_font_weight() -> (r: FontWeight)
    ensures
        r == FontWeight::Normal,
{
    FontWeight::Normal
}

/// One asterisk.
pub fn default_mask_char() -> (r: String)
    ensures
        r@ == seq!['*'],
{
    let r = String::from_str("*");
    proof {
        reveal_strlit("*");
    }
    r
}

/// Half the buffer's width.
pub fn default_input_width() -> (r: i64)
    ensures
        r == 500_000,
{
    500_000
}

/// A twentieth of the buffer's size.
pub fn default_input_padding() -> (r: i64)
    ensures
        r == 50_000,
{
    50_000
}

pub fn default_input_radius() -> (r: i64)
    ensures
        r == 0,
{
    0
}

pub fn default_input_border() -> (r: i64)
    ensures
        r == 0,
{
    0
}

pub fn default_input_hide_when_empty() -> (r: bool)
    ensures
        !r,
{
    false
}

pub fn default_input_fit_to_content() -> (r: bool)
    ensures
        !r,
{
    false
}

/// 25 pixels.
pub fn default_frame_border() -> (r: i64)
    ensures
        r == 25_000_000,
{
    25_000_000
}

pub fn default_frame_radius() -> (r: i64)
    ensures
        r == 0,
{
    0
}

pub fn default_pwd_allow_empty() -> (r: bool)
    ensures
        !r,
{
    false
}

pub fn default_hide_cursor() -> (r: bool)
    ensures
        r,
{
    true
}

pub fn default_bg_mode() -> (r: BackgroundType)
    ensures
        r == BackgroundType::Color,
{
    BackgroundType::Color
}

/// The empty path: no image.
pub fn default_image_path() -> (r: String)
    ensures
        r@ == Seq::<char>::empty(),
{
    String::new()
}

pub fn default_image_scale() -> (r: BackgroundImageScale)
    ensures
        r == BackgroundImageScale::Fill,
{
    BackgroundImageScale::Fill
}

impl NLockConfigColors {
    /// The built-in colours.
    pub open spec fn default_spec() -> NLockConfigColors {
        NLockConfigColors {
            bg: opaque_black(),
            text: Rgba { r: 255, g: 255, b: 255, a: 255 },
            input_bg: opaque_black(),
            input_border: opaque_black(),
            frame_border_idle: clear_black(),
            frame_border_success: clear_black(),
            frame_border_fail: Rgba { r: 255, g: 0, b: 0, a: 255 },
        }
    }
}

impl Default for NLockConfigColors {
    fn default() -> (r: Self)
        ensures
            r == NLockConfigColors::default_spec(),
    {
        NLockConfigColors {
            bg: default_bg_color(),
            text: default_text_color(),
            input_bg: default_input_bg_color(),
            input_border: default_input_border_color(),
            frame_border_idle: default_frame_border_idle_color(),
            frame_border_success: default_frame_border_success_color(),
            frame_border_fail: default_frame_border_fail_color(),
        }
    }
}

impl NLockConfigFont {
    /// Whether this is the built-in font: 72 points, no family, upright,
    /// normal weight.
    pub open spec fn is_default(self) -> bool {
        &&& self.size == 72_000_000
        &&& self.family@ == Seq::<char>::empty()
        &&& self.slant == FontSlant::Normal
        &&& self.weight == FontWeight::Normal
    }
}

impl Default for NLockConfigFont {
    fn default() -> (r: Self)
        ensures
            r.is_default(),
    {
        NLockConfigFont {
            size: default_font_size(),
            family: default_font_family(),
            slant: default_font_slant(),
            weight: default_font_weight(),
        }
    }
}

impl NLockConfigInput {
    /// Whether this is the built-in password box.
    pub open spec fn is_default(self) -> bool {
        &&& self.mask_char@ == seq!['*']
        &&& self.width == 500_000
        &&& self.padding_x == 50_000
        &&& self.padding_y == 50_000
        &&& self.radius == 0
        &&& self.border == 0
        &&& !self.hide_when_empty
        &&& !self.fit_to_content
    }
}

impl Default for NLockConfigInput {
    fn default() -> (r: Self)
        ensures
            r.is_default(),
    {
        NLockConfigInput {
            mask_char: default_mask_char(),
            width: default_input_width(),
            padding_x: default_input_padding(),
            padding_y: default_input_padding(),
            radius: default_input_radius(),
            border: default_input_border(),
            hide_when_empty: default_input_hide_when_empty(),
            fit_to_content: default_input_fit_to_content(),
        }
    }
}

impl Default for NLockConfigFrame {
    fn default() -> (r: Self)
        ensures
            r == (NLockConfigFrame { border: 25_000_000, radius: 0 }),
    {
        NLockConfigFrame { border: default_frame_border(), radius: default_frame_radius() }
    }
}

impl Default for NLockConfigGeneral {
    fn default() -> (r: Self)
        ensures
            r == (NLockConfigGeneral {
                pwd_allow_empty: false,
                hide_cursor: true,
                bg_type: BackgroundType::Color,
            }),
    {
        NLockConfigGeneral {
            pwd_allow_empty: default_pwd_allow_empty(),
            hide_cursor: default_hide_cursor(),
            bg_type: default_bg_mode(),
        }
    }
}

impl NLockConfigImage {
    /// Whether this is the built-in image setting: no path, scaled to cover.
    pub open spec fn is_default(self) -> bool {
        &&& self.path@ == Seq::<char>::empty()
        &&& self.scale == BackgroundImageScale::Fill
    }
}

impl Default for NLockConfigImage {
    fn default() -> (r: Self)
        ensures
            r.is_default(),
    {
        NLockConfigImage { path: default_image_path(), scale: default_image_scale() }
    }
}

impl NLockConfig {
    /// Whether every setting has its built-in value.
    pub open spec fn is_default(self) -> bool {
        &&& self.colors == NLockConfigColors::default_spec()
        &&& self.font.is_default()
        &&& self.input.is_default()
        &&& self.frame == (NLockConfigFrame { border: 25_000_000, radius: 0 })
        &&& self.general == (NLockConfigGeneral {
            pwd_allow_empty: false,
            hide_cursor: true,
            bg_type: BackgroundType::Color,
        })
        &&& self.image.is_default()
    }
}

impl Default for NLockConfig {
    fn default() -> (r: Self)
        ensures
            r.is_default(),
    {
        NLockConfig {
            colors: NLockConfigColors::default(),
            font: NLockConfigFont::default(),
            input: NLockConfigInput::default(),
            frame: NLockConfigFrame::default(),
            general: NLockConfigGeneral::default(),
            image: NLockConfigImage::default(),
        }
    }
}

impl NLockConfigFile {
    /// Whether the file sets nothing.
    pub open spec fn sets_nothing(self) -> bool {
        &&& self.colors == NLockArgsColors::none_spec()
        &&& self.font == NLockArgsFont::none_spec()
        &&& self.input == NLockArgsInput::none_spec()
        &&& self.frame == NLockArgsFrame::none_spec()
        &&& self.general == NLockArgsGeneral::none_spec()
        &&& self.image == NLockArgsImage::none_spec()
    }

    /// A file that sets nothing, which is also what a missing file amounts to.
    pub fn empty() -> (r: NLockConfigFile)
        ensures
            r.sets_nothing(),
    {
        NLockConfigFile {
            colors: NLockArgsColors::none(),
            font: NLockArgsFont::none(),
            input: NLockArgsInput::none(),
            frame: NLockArgsFrame::none(),
            general: NLockArgsGeneral::none(),
            image: NLockArgsImage::none(),
        }
    }
}

/// The value that wins among three optional layers and a default: the first
/// that is set, the higher layer first.
pub open spec fn first_of<T>(high: Option<T>, mid: Option<T>, low: Option<T>, default: T) -> T {
    match high {
        Some(v) => v,
        None => match mid {
            Some(v) => v,
            None => match low {
                Some(v) => v,
                None => default,
            },
        },
    }
}

/// As [`first_of`], for texts.
pub open spec fn first_text(
    high: Option<String>,
    mid: Option<String>,
    low: Option<String>,
    default: Seq<char>,
) -> Seq<char> {
    match high {
        Some(v) => v@,
        None => match mid {
            Some(v) => v@,
            None => match low {
                Some(v) => v@,
                None => default,
            },
        },
    }
}

/// Picks the first value that is set.
fn pick<T>(high: Option<T>, mid: Option<T>, low: Option<T>, default: T) -> (r: T)
    ensures
        r == first_of(high, mid, low, default),
{
    match high {
        Some(v) => v,
        None => match mid {
            Some(v) => v,
            None => match low {
                Some(v) => v,
                None => default,
            },
        },
    }
}

/// Picks the first text that is set.
fn pick_text(high: Option<String>, mid: Option<String>, low: Option<String>, default: String) -> (r:
    String)
    ensures
        r@ == first_text(high, mid, low, default@),
{
    match high {
        Some(v) => v,
        None => match mid {
            Some(v) => v,
            None => match low {
                Some(v) => v,
                None => default,
            },
        },
    }
}

impl NLockConfigColors {
    /// The colours that three layers resolve to.
    pub open spec fn resolved(
        args: NLockArgsColors,
        user: NLockArgsColors,
        system: NLockArgsColors,
    ) -> NLockConfigColors {
        let d = NLockConfigColors::default_spec();
        NLockConfigColors {
            bg: first_of(args.bg, user.bg, system.bg, d.bg),
            text: first_of(args.text, user.text, system.text, d.text),
            input_bg: first_of(args.input_bg, user.input_bg, system.input_bg, d.input_bg),
            input_border: first_of(
                args.input_border,
                user.input_border,
                system.input_border,
                d.input_border,
            ),
            frame_border_idle: first_of(
                args.frame_border_idle,
                user.frame_border_idle,
                system.frame_border_idle,
                d.frame_border_idle,
            ),
            frame_border_success: first_of(
                args.frame_border_success,
                user.frame_border_success,
                system.frame_border_success,
                d.frame_border_success,
            ),
            frame_border_fail: first_of(
                args.frame_border_fail,
                user.frame_border_fail,
                system.frame_border_fail,
                d.frame_border_fail,
            ),
        }
    }

    /// Resolves the colours from the three layers.
    pub fn resolve(args: NLockArgsColors, user: NLockArgsColors, system: NLockArgsColors) -> (r:
        NLockConfigColors)
        ensures
            r == NLockConfigColors::resolved(args, user, system),
    {
        NLockConfigColors {
            bg: pick(args.bg, user.bg, system.bg, default_bg_color()),
            text: pick(args.text, user.text, system.text, default_text_color()),
            input_bg: pick(args.input_bg, user.input_bg, system.input_bg, default_input_bg_color()),
            input_border: pick(
                args.input_border,
                user.input_border,
                system.input_border,
                default_input_border_color(),
            ),
            frame_border_idle: pick(
                args.frame_border_idle,
                user.frame_border_idle,
                system.frame_border_idle,
                default_frame_border_idle_color(),
            ),
            frame_border_success: pick(
                args.frame_border_success,
                user.frame_border_success,
                system.frame_border_success,
                default_frame_border_success_color(),
            ),
            frame_border_fail: pick(
                args.frame_border_fail,
                user.frame_border_fail,
                system.frame_border_fail,
                default_frame_border_fail_color(),
            ),
        }
    }
}

impl NLockConfigFont {
    /// Whether `self` is what the three layers resolve to.
    pub open spec fn resolves(
        self,
        args: NLockArgsFont,
        user: NLockArgsFont,
        system: NLockArgsFont,
    ) -> bool {
        &&& self.size == first_of(args.size, user.size, system.size, 72_000_000i64)
        &&& self.family@ == first_text(
            args.family,
            user.family,
            system.family,
            Seq::<char>::empty(),
        )
        &&& self.slant == first_of(args.slant, user.slant, system.slant, FontSlant::Normal)
        &&& self.weight == first_of(args.weight, user.weight, system.weight, FontWeight::Normal)
    }

    /// Resolves the font from the three layers.
    pub fn resolve(args: NLockArgsFont, user: NLockArgsFont, system: NLockArgsFont) -> (r:
        NLockConfigFont)
        ensures
            r.resolves(args, user, system),
    {
        NLockConfigFont {
            size: pick(args.size, user.size, system.size, default_font_size()),
            family: pick_text(args.family, user.family, system.family, default_font_family()),
            slant: pick(args.slant, user.slant, system.slant, default_font_slant()),
            weight: pick(args.weight, user.weight, system.weight, default_font_weight()),
        }
    }
}

impl NLockConfigInput {
    /// Whether `self` is what the three layers resolve to.
    pub open spec fn resolves(
        self,
        args: NLockArgsInput,
        user: NLockArgsInput,
        system: NLockArgsInput,
    ) -> bool {
        &&& self.mask_char@ == first_text(
            args.mask_char,
            user.mask_char,
            system.mask_char,
            seq!['*'],
        )
        &&& self.width == first_of(args.width, user.width, system.width, 500_000i64)
        &&& self.padding_x == first_of(
            args.padding_x,
            user.padding_x,
            system.padding_x,
            50_000i64,
        )
        &&& self.padding_y == first_of(
            args.padding_y,
            user.padding_y,
            system.padding_y,
            50_000i64,
        )
        &&& self.radius == first_of(args.radius, user.radius, system.radius, 0i64)
        &&& self.border == first_of(args.border, user.border, system.border, 0i64)
        &&& self.hide_when_empty == first_of(
            args.hide_when_empty,
            user.hide_when_empty,
            system.hide_when_empty,
            false,
        )
        &&& self.fit_to_content == first_of(
            args.fit_to_content,
            user.fit_to_content,
            system.fit_to_content,
            false,
        )
    }

    /// Resolves the password box from the three layers.
    pub fn resolve(args: NLockArgsInput, user: NLockArgsInput, system: NLockArgsInput) -> (r:
        NLockConfigInput)
        ensures
            r.resolves(args, user, system),
    {
        NLockConfigInput {
            mask_char: pick_text(
                args.mask_char,
                user.mask_char,
                system.mask_char,
                default_mask_char(),
            ),
            width: pick(args.width, user.width, system.width, default_input_width()),
            padding_x: pick(
                args.padding_x,
                user.padding_x,
                system.padding_x,
                default_input_padding(),
            ),
            padding_y: pick(
                args.padding_y,
                user.padding_y,
                system.padding_y,
                default_input_padding(),
            ),
            radius: pick(args.radius, user.radius, system.radius, default_input_radius()),
            border: pick(args.border, user.border, system.border, default_input_border()),
            hide_when_empty: pick(
                args.hide_when_empty,
                user.hide_when_empty,
                system.hide_when_empty,
                default_input_hide_when_empty(),
            ),
            fit_to_content: pick(
                args.fit_to_content,
                user.fit_to_content,
                system.fit_to_content,
                default_input_fit_to_content(),
            ),
        }
    }
}

impl NLockConfigFrame {
    /// The frame that three layers resolve to.
    pub open spec fn resolved(
        args: NLockArgsFrame,
        user: NLockArgsFrame,
        system: NLockArgsFrame,
    ) -> NLockConfigFrame {
        NLockConfigFrame {
            border: first_of(args.border, user.border, system.border, 25_000_000i64),
            radius: first_of(args.radius, user.radius, system.radius, 0i64),
        }
    }

    /// Resolves the frame from the three layers.
    pub fn resolve(args: NLockArgsFrame, user: NLockArgsFrame, system: NLockArgsFrame) -> (r:
        NLockConfigFrame)
        ensures
            r == NLockConfigFrame::resolved(args, user, system),
    {
        NLockConfigFrame {
            border: pick(args.border, user.border, system.border, default_frame_border()),
            radius: pick(args.radius, user.radius, system.radius, default_frame_radius()),
        }
    }
}

impl NLockConfigGeneral {
    /// The switches that three layers resolve to.
    pub open spec fn resolved(
        args: NLockArgsGeneral,
        user: NLockArgsGeneral,
        system: NLockArgsGeneral,
    ) -> NLockConfigGeneral {
        NLockConfigGeneral {
            pwd_allow_empty: first_of(
                args.pwd_allow_empty,
                user.pwd_allow_empty,
                system.pwd_allow_empty,
                false,
            ),
            hide_cursor: first_of(args.hide_cursor, user.hide_cursor, system.hide_cursor, true),
            bg_type: first_of(args.bg_type, user.bg_type, system.bg_type, BackgroundType::Color),
        }
    }

    /// Resolves the switches from the three layers.
    pub fn resolve(args: NLockArgsGeneral, user: NLockArgsGeneral, system: NLockArgsGeneral) -> (r:
        NLockConfigGeneral)
        ensures
            r == NLockConfigGeneral::resolved(args, user, system),
    {
        NLockConfigGeneral {
            pwd_allow_empty: pick(
                args.pwd_allow_empty,
                user.pwd_allow_empty,
                system.pwd_allow_empty,
                default_pwd_allow_empty(),
            ),
            hide_cursor: pick(
                args.hide_cursor,
                user.hide_cursor,
                system.hide_cursor,
                default_hide_cursor(),
            ),
            bg_type: pick(args.bg_type, user.bg_type, system.bg_type, default_bg_mode()),
        }
    }
}

impl NLockConfigImage {
    /// Whether `self` is what the three layers resolve to.
    pub open spec fn resolves(
        self,
        args: NLockArgsImage,
        user: NLockArgsImage,
        system: NLockArgsImage,
    ) -> bool {
        &&& self.path@ == first_text(args.path, user.path, system.path, Seq::<char>::empty())
        &&& self.scale == first_of(
            args.scale,
            user.scale,
            system.scale,
            BackgroundImageScale::Fill,
        )
    }

    /// Resolves the image settings from the three layers.
    pub fn resolve(args: NLockArgsImage, user: NLockArgsImage, system: NLockArgsImage) -> (r:
        NLockConfigImage)
        ensures
            r.resolves(args, user, system),
    {
        NLockConfigImage {
            path: pick_text(args.path, user.path, system.path, default_image_path()),
            scale: pick(args.scale, user.scale, system.scale, default_image_scale()),
        }
    }
}

impl NLockConfig {
    /// Whether `self` is what the command line, the user's file and the
    /// system file resolve to: for each setting the command line wins over
    /// the user's file, that over the system file, that over the default.
    pub open spec fn resolves(self, args: NLockArgs, user: NLockConfigFile, system: NLockConfigFile) -> bool {
        &&& self.colors == NLockConfigColors::resolved(args.colors, user.colors, system.colors)
        &&& self.font.resolves(args.font, user.font, system.font)
        &&& self.input.resolves(args.input, user.input, system.input)
        &&& self.frame == NLockConfigFrame::resolved(args.frame, user.frame, system.frame)
        &&& self.general == NLockConfigGeneral::resolved(
            args.general,
            user.general,
            system.general,
        )
        &&& self.image.resolves(args.image, user.image, system.image)
    }

    /// Builds the configuration of a run from the command line and the
    /// contents of the two configuration files.
    pub fn load(args: NLockArgs, user: NLockConfigFile, system: NLockConfigFile) -> (r: NLockConfig)
        ensures
            r.resolves(args, user, system),
    {
        NLockConfig {
            colors: NLockConfigColors::resolve(args.colors, user.colors, system.colors),
            font: NLockConfigFont::resolve(args.font, user.font, system.font),
            input: NLockConfigInput::resolve(args.input, user.input, system.input),
            frame: NLockConfigFrame::resolve(args.frame, user.frame, system.frame),
            general: NLockConfigGeneral::resolve(args.general, user.general, system.general),
            image: NLockConfigImage::resolve(args.image, user.image, system.image),
        }
    }
}

/// A setting given on the command line wins, whatever the files say, and
/// one given in the user's file wins over the system file.
pub proof fn lemma_higher_layer_wins<T>(value: T, mid: Option<T>, low: Option<T>, default: T)
    ensures
        first_of(Some(value), mid, low, default) == value,
        first_of(None, Some(value), low, default) == value,
        first_of(None, None, Some(value), default) == value,
        first_of(None::<T>, None, None, default) == default,
{
}

/// A run without files or options has the built-in configuration.
pub proof fn lemma_nothing_set_is_default(
    cfg: NLockConfig,
    args: NLockArgs,
    user: NLockConfigFile,
    system: NLockConfigFile,
)
    requires
        cfg.resolves(args, user, system),
        args.sets_nothing(),
        user.sets_nothing(),
        system.sets_nothing(),
    ensures
        cfg.is_default(),
{
}

} // verus!
