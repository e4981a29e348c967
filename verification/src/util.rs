//! Colours and the small enumerations of the configuration.

use vstd::prelude::*;
use vstd::string::*;

verus! {

/// A colour with straight alpha, eight bits to the channel.
#[derive(Copy, Clone, Debug, PartialEq, Eq, Structural)]
pub struct Rgba {
    pub r: u8,
    pub g: u8,
    pub b: u8,
    pub a: u8,
}

/// Why a string is not a colour.
#[derive(Copy, Clone, Debug, PartialEq, Eq, Structural)]
pub enum RgbaParseError {
    /// The digits are neither six nor eight in number.
    Format,
    /// A character is not a hexadecimal digit.
    Digit,
}

/// The value of a hexadecimal digit, upper or lower case.
pub open spec fn hex_value(b: u8) -> Option<int> {
    if 0x30 <= b <= 0x39 {
        Some(b - 0x30)
    } else if 0x61 <= b <= 0x66 {
        Some(b - 0x61 + 10)
    } else if 0x41 <= b <= 0x46 {
        Some(b - 0x41 + 10)
    } else {
        None
    }
}

/// The byte written by the two hexadecimal digits `hi` and `lo`.
pub open spec fn hex_pair(hi: u8, lo: u8) -> Option<u8> {
    match (hex_value(hi), hex_value(lo)) {
        (Some(h), Some(l)) => Some((16 * h + l) as u8),
        _ => None,
    }
}

/// The text without one leading `#`, if it has one.
pub open spec fn strip_hash(s: Seq<u8>) -> Seq<u8> {
    if s.len() > 0 && s[0] == 0x23 {
        s.subrange(1, s.len() as int)
    } else {
        s
    }
}

/// The channel written at digits `2 * i` and `2 * i + 1` of `digits`.
pub open spec fn channel_at(digits: Seq<u8>, i: int) -> Option<u8> {
    hex_pair(digits[2 * i], digits[2 * i + 1])
}

/// The colour that a string denotes: `RRGGBB` or `RRGGBBAA` in hexadecimal
/// digits of either case, with or without a leading `#`. Without the alpha
/// digits the colour is opaque.
pub open spec fn parse_rgba(s: Seq<u8>) -> Result<Rgba, RgbaParseError> {
    let d = strip_hash(s);
    if d.len() != 6 && d.len() != 8 {
        Err(RgbaParseError::Format)
    } else if channel_at(d, 0) is None || channel_at(d, 1) is None || channel_at(d, 2) is None || (
    d.len() == 8 && channel_at(d, 3) is None) {
        Err(RgbaParseError::Digit)
    } else {
        Ok(
            Rgba {
                r: channel_at(d, 0).unwrap(),
                g: channel_at(d, 1).unwrap(),
                b: channel_at(d, 2).unwrap(),
                a: if d.len() == 8 {
                    channel_at(d, 3).unwrap()
                } else {
                    255
                },
            },
        )
    }
}

/// Reads one hexadecimal digit.
fn hex_digit(b: u8) -> (r: Option<u8>)
    ensures
        r is Some <==> hex_value(b) is Some,
        r is Some ==> r.unwrap() == hex_value(b).unwrap() && r.unwrap() < 16,
{
    if 0x30 <= b && b <= 0x39 {
        Some(b - 0x30)
    } else if 0x61 <= b && b <= 0x66 {
        Some(b - 0x61 + 10)
    } else if 0x41 <= b && b <= 0x46 {
        Some(b - 0x41 + 10)
    } else {
        None
    }
}

/// Reads the channel at digits `off + 2 * i` and `off + 2 * i + 1` of `bytes`.
fn read_channel(bytes: &[u8], off: usize, i: usize) -> (r: Option<u8>)
    requires
        off <= 1,
        i < 4,
        off + 2 * i + 1 < bytes@.len(),
    ensures
        r == channel_at(bytes@.subrange(off as int, bytes@.len() as int), i as int),
{
    let hi: Option<u8> = hex_digit(bytes[off + 2 * i]);
    let lo: Option<u8> = hex_digit(bytes[off + 2 * i + 1]);
    match (hi, lo) {
        (Some(h), Some(l)) => Some(16 * h + l),
        _ => None,
    }
}

impl RgbaParseError {
    /// The error in words.
    pub fn message(self) -> (r: String)
        ensures
            r@ == (match self {
                RgbaParseError::Format => "expected RRGGBBAA or RRGGBB format"@,
                RgbaParseError::Digit => "invalid digit found in string"@,
            }),
    {
        match self {
            RgbaParseError::Format => String::from_str("expected RRGGBBAA or RRGGBB format"),
            RgbaParseError::Digit => String::from_str("invalid digit found in string"),
        }
    }
}

impl Rgba {
    /// A colour from its four channels.
    pub fn new(r: u8, g: u8, b: u8, a: u8) -> (c: Rgba)
        ensures
            c == (Rgba { r, g, b, a }),
    {
        Rgba { r, g, b, a }
    }

    /// Parses `RRGGBB` or `RRGGBBAA`, with or without a leading `#`.
    pub fn from_str(s: &str) -> (r: Result<Rgba, RgbaParseError>)
        ensures
            r == parse_rgba(s.spec_bytes()),
    {
        let bytes: &[u8] = s.as_bytes();
        let off: usize = if bytes.len() > 0 && bytes[0] == 0x23 {
            1
        } else {
            0
        };
        let n: usize = bytes.len() - off;
        if n != 6 && n != 8 {
            return Err(RgbaParseError::Format);
        }
        let r: Option<u8> = read_channel(bytes, off, 0);
        let g: Option<u8> = read_channel(bytes, off, 1);
        let b: Option<u8> = read_channel(bytes, off, 2);
        let a: Option<u8> = if n == 8 {
            read_channel(bytes, off, 3)
        } else {
            Some(255)
        };
        match (r, g, b, a) {
            (Some(r), Some(g), Some(b), Some(a)) => Ok(Rgba { r, g, b, a }),
            _ => Err(RgbaParseError::Digit),
        }
    }
}

impl Default for Rgba {
    /// Opaque black.
    fn default() -> (c: Rgba)
        ensures
            c == (Rgba { r: 0, g: 0, b: 0, a: 255 }),
    {
        Rgba { r: 0, g: 0, b: 0, a: 255 }
    }
}

/// What fills the background surface.
#[derive(Copy, Clone, Debug, PartialEq, Eq, Structural)]
pub enum BackgroundType {
    Color,
    Image,
}

/// The slant of the password font.
#[derive(Copy, Clone, Debug, PartialEq, Eq, Structural)]
pub enum FontSlant {
    Normal,
    Italic,
    Oblique,
}

/// The weight of the password font.
#[derive(Copy, Clone, Debug, PartialEq, Eq, Structural)]
pub enum FontWeight {
    Normal,
    Bold,
}

/// Compares two texts.
pub(crate) fn text_is(text: &str, other: &str) -> (r: bool)
    ensures
        r == (text@ == other@),
{
    let a: String = String::from_str(text);
    let b: String = String::from_str(other);
    a == b
}

impl BackgroundType {
    /// The name of the background type in settings.
    pub open spec fn name_spec(self) -> Seq<char> {
        match self {
            BackgroundType::Color => "color"@,
            BackgroundType::Image => "image"@,
        }
    }

    /// The background type of a name, if it is one.
    pub open spec fn of_name(name: Seq<char>) -> Option<BackgroundType> {
        if name == "color"@ {
            Some(BackgroundType::Color)
        } else if name == "image"@ {
            Some(BackgroundType::Image)
        } else {
            None
        }
    }

    /// The name of the background type in settings.
    pub fn name(self) -> (r: &'static str)
        ensures
            r@ == self.name_spec(),
    {
        match self {
            BackgroundType::Color => "color",
            BackgroundType::Image => "image",
        }
    }

    /// Reads a background type from its name.
    pub fn from_name(name: &str) -> (r: Option<BackgroundType>)
        ensures
            r == BackgroundType::of_name(name@),
    {
        if text_is(name, "color") {
            Some(BackgroundType::Color)
        } else if text_is(name, "image") {
            Some(BackgroundType::Image)
        } else {
            None
        }
    }
}

impl FontSlant {
    /// The name of the slant in settings.
    pub open spec fn name_spec(self) -> Seq<char> {
        match self {
            FontSlant::Normal => "normal"@,
            FontSlant::Italic => "italic"@,
            FontSlant::Oblique => "oblique"@,
        }
    }

    /// The slant of a name, if it is one.
    pub open spec fn of_name(name: Seq<char>) -> Option<FontSlant> {
        if name == "normal"@ {
            Some(FontSlant::Normal)
        } else if name == "italic"@ {
            Some(FontSlant::Italic)
        } else if name == "oblique"@ {
            Some(FontSlant::Oblique)
        } else {
            None
        }
    }

    /// The name of the slant in settings.
    pub fn name(self) -> (r: &'static str)
        ensures
            r@ == self.name_spec(),
    {
        match self {
            FontSlant::Normal => "normal",
            FontSlant::Italic => "italic",
            FontSlant::Oblique => "oblique",
        }
    }

    /// Reads a slant from its name.
    pub fn from_name(name: &str) -> (r: Option<FontSlant>)
        ensures
            r == FontSlant::of_name(name@),
    {
        if text_is(name, "normal") {
            Some(FontSlant::Normal)
        } else if text_is(name, "italic") {
            Some(FontSlant::Italic)
        } else if text_is(name, "oblique") {
            Some(FontSlant::Oblique)
        } else {
            None
        }
    }
}

impl FontWeight {
    /// The name of the weight in settings.
    pub open spec fn name_spec(self) -> Seq<char> {
        match self {
            FontWeight::Normal => "normal"@,
            FontWeight::Bold => "bold"@,
        }
    }

    /// The weight of a name, if it is one.
    pub open spec fn of_name(name: Seq<char>) -> Option<FontWeight> {
        if name == "normal"@ {
            Some(FontWeight::Normal)
        } else if name == "bold"@ {
            Some(FontWeight::Bold)
        } else {
            None
        }
    }

    /// The name of the weight in settings.
    pub fn name(self) -> (r: &'static str)
        ensures
            r@ == self.name_spec(),
    {
        match self {
            FontWeight::Normal => "normal",
            FontWeight::Bold => "bold",
        }
    }

    /// Reads a weight from its name.
    pub fn from_name(name: &str) -> (r: Option<FontWeight>)
        ensures
            r == FontWeight::of_name(name@),
    {
        if text_is(name, "normal") {
            Some(FontWeight::Normal)
        } else if text_is(name, "bold") {
            Some(FontWeight::Bold)
        } else {
            None
        }
    }
}

/// Every background type, slant and weight is read back from its name.
pub proof fn lemma_names_round_trip(bg: BackgroundType, slant: FontSlant, weight: FontWeight)
    ensures
        BackgroundType::of_name(bg.name_spec()) == Some(bg),
        FontSlant::of_name(slant.name_spec()) == Some(slant),
        FontWeight::of_name(weight.name_spec()) == Some(weight),
{
    reveal_strlit("color");
    reveal_strlit("image");
    reveal_strlit("normal");
    reveal_strlit("italic");
    reveal_strlit("oblique");
    reveal_strlit("bold");
    assert("image"@[0] != "color"@[0]);
    assert("italic"@[0] != "normal"@[0]);
}

} // verus!
