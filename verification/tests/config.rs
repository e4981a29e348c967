use nlock::args::{
    LogLevel, NLockArgs, NLockArgsColors, NLockArgsFont, NLockArgsFrame, NLockArgsGeneral,
    NLockArgsImage, NLockArgsInput,
};
use nlock::config::{
    default_bg_mode, default_font_family, default_font_size, default_frame_border,
    default_hide_cursor, default_image_path, default_input_fit_to_content,
    default_input_hide_when_empty, default_input_padding, default_input_width, default_mask_char,
    default_pwd_allow_empty, NLockConfig, NLockConfigFile,
};
use nlock::event::EventError;
use nlock::image::{BackgroundImageScale, ImageError};
use nlock::render::RenderError;
use nlock::seat::SeatError;
use nlock::surface::{DimensionError, SurfaceError};
use nlock::util::{BackgroundType, FontSlant, FontWeight, Rgba};

fn no_args() -> NLockArgs {
    NLockArgs {
        log_level: LogLevel::Info,
        config_file: None,
        colors: NLockArgsColors::none(),
        font: NLockArgsFont::none(),
        input: NLockArgsInput::none(),
        frame: NLockArgsFrame::none(),
        general: NLockArgsGeneral::none(),
        image: NLockArgsImage::none(),
    }
}

#[test]
fn built_in_defaults() {
    let c = NLockConfig::default();
    assert_eq!(c.colors.bg, Rgba::new(0, 0, 0, 255));
    assert_eq!(c.colors.text, Rgba::new(255, 255, 255, 255));
    assert_eq!(c.colors.input_bg, Rgba::new(0, 0, 0, 255));
    assert_eq!(c.colors.input_border, Rgba::new(0, 0, 0, 255));
    assert_eq!(c.colors.frame_border_idle, Rgba::new(0, 0, 0, 0));
    assert_eq!(c.colors.frame_border_success, Rgba::new(0, 0, 0, 0));
    assert_eq!(c.colors.frame_border_fail, Rgba::new(255, 0, 0, 255));
    assert_eq!(c.font.size, 72_000_000);
    assert_eq!(c.font.family, "");
    assert_eq!(c.font.slant, FontSlant::Normal);
    assert_eq!(c.font.weight, FontWeight::Normal);
    assert_eq!(c.input.mask_char, "*");
    assert_eq!(c.input.width, 500_000);
    assert_eq!(c.input.padding_x, 50_000);
    assert_eq!(c.input.padding_y, 50_000);
    assert_eq!(c.input.radius, 0);
    assert_eq!(c.input.border, 0);
    assert!(!c.input.hide_when_empty);
    assert!(!c.input.fit_to_content);
    assert_eq!(c.frame.border, 25_000_000);
    assert_eq!(c.frame.radius, 0);
    assert!(!c.general.pwd_allow_empty);
    assert!(c.general.hide_cursor);
    assert_eq!(c.general.bg_type, BackgroundType::Color);
    assert_eq!(c.image.path, "");
    assert_eq!(c.image.scale, BackgroundImageScale::Fill);
}

#[test]
fn default_functions_give_the_defaults() {
    assert_eq!(default_font_size(), 72_000_000);
    assert_eq!(default_font_family(), "");
    assert_eq!(default_mask_char(), "*");
    assert_eq!(default_input_width(), 500_000);
    assert_eq!(default_input_padding(), 50_000);
    assert!(!default_input_hide_when_empty());
    assert!(!default_input_fit_to_content());
    assert_eq!(default_frame_border(), 25_000_000);
    assert!(!default_pwd_allow_empty());
    assert!(default_hide_cursor());
    assert_eq!(default_bg_mode(), BackgroundType::Color);
    assert_eq!(default_image_path(), "");
}

#[test]
fn nothing_set_resolves_to_the_defaults() {
    let c = NLockConfig::load(no_args(), NLockConfigFile::empty(), NLockConfigFile::empty());
    let d = NLockConfig::default();
    assert_eq!(c.colors, d.colors);
    assert_eq!(c.font.size, d.font.size);
    assert_eq!(c.font.family, d.font.family);
    assert_eq!(c.input.mask_char, d.input.mask_char);
    assert_eq!(c.input.width, d.input.width);
    assert_eq!(c.frame, d.frame);
    assert_eq!(c.general, d.general);
    assert_eq!(c.image.path, d.image.path);
    assert_eq!(c.image.scale, d.image.scale);
}

#[test]
fn command_line_wins_over_user_file_over_system_file() {
    let mut args = no_args();
    let mut user = NLockConfigFile::empty();
    let mut system = NLockConfigFile::empty();
    system.colors.bg = Some(Rgba::new(1, 1, 1, 255));
    system.colors.text = Some(Rgba::new(2, 2, 2, 255));
    system.font.size = Some(10_000_000);
    system.input.mask_char = Some("s".to_string());
    system.general.hide_cursor = Some(false);
    user.colors.text = Some(Rgba::new(3, 3, 3, 255));
    user.colors.input_bg = Some(Rgba::new(4, 4, 4, 255));
    user.input.mask_char = Some("u".to_string());
    user.image.path = Some("/home/me/bg.png".to_string());
    args.colors.input_bg = Some(Rgba::new(5, 5, 5, 255));
    args.font.family = Some("monospace".to_string());
    args.general.bg_type = Some(BackgroundType::Image);
    args.image.scale = Some(BackgroundImageScale::Tile);
    let c = NLockConfig::load(args, user, system);
    assert_eq!(c.colors.bg, Rgba::new(1, 1, 1, 255));
    assert_eq!(c.colors.text, Rgba::new(3, 3, 3, 255));
    assert_eq!(c.colors.input_bg, Rgba::new(5, 5, 5, 255));
    assert_eq!(c.colors.input_border, Rgba::new(0, 0, 0, 255));
    assert_eq!(c.font.size, 10_000_000);
    assert_eq!(c.font.family, "monospace");
    assert_eq!(c.input.mask_char, "u");
    assert!(!c.general.hide_cursor);
    assert_eq!(c.general.bg_type, BackgroundType::Image);
    assert_eq!(c.image.path, "/home/me/bg.png");
    assert_eq!(c.image.scale, BackgroundImageScale::Tile);
    assert_eq!(c.frame.border, 25_000_000);
}

#[test]
fn settings_are_read_from_their_names() {
    for t in [BackgroundType::Color, BackgroundType::Image] {
        assert_eq!(BackgroundType::from_name(t.name()), Some(t));
    }
    for s in [FontSlant::Normal, FontSlant::Italic, FontSlant::Oblique] {
        assert_eq!(FontSlant::from_name(s.name()), Some(s));
    }
    for w in [FontWeight::Normal, FontWeight::Bold] {
        assert_eq!(FontWeight::from_name(w.name()), Some(w));
    }
    for m in [
        BackgroundImageScale::Stretch,
        BackgroundImageScale::Fill,
        BackgroundImageScale::Fit,
        BackgroundImageScale::Center,
        BackgroundImageScale::Tile,
    ] {
        assert_eq!(BackgroundImageScale::from_name(m.name()), Some(m));
    }
    assert_eq!(BackgroundType::from_name("image"), Some(BackgroundType::Image));
    assert_eq!(FontSlant::from_name("oblique"), Some(FontSlant::Oblique));
    assert_eq!(FontWeight::from_name("bold"), Some(FontWeight::Bold));
    assert_eq!(BackgroundImageScale::from_name("tile"), Some(BackgroundImageScale::Tile));
    assert_eq!(BackgroundImageScale::from_name("fit"), Some(BackgroundImageScale::Fit));
    assert_eq!(BackgroundType::from_name("Image"), None);
    assert_eq!(FontSlant::from_name(""), None);
    assert_eq!(FontWeight::from_name("heavy"), None);
    assert_eq!(BackgroundImageScale::from_name("fil"), None);
    assert_eq!(LogLevel::from_name("trace"), Some(LogLevel::Trace));
    assert_eq!(LogLevel::from_name("debug"), Some(LogLevel::Debug));
    assert_eq!(LogLevel::from_name("info"), Some(LogLevel::Info));
    assert_eq!(LogLevel::from_name("warn"), Some(LogLevel::Warn));
    assert_eq!(LogLevel::from_name("error"), Some(LogLevel::Error));
    assert_eq!(LogLevel::from_name("INFO"), None);
    assert_eq!(LogLevel::from_name("warning"), None);
}

#[test]
fn errors_say_what_they_are() {
    assert_eq!(RenderError::Geometry.message(), "invalid width or height");
    assert_eq!(RenderError::MissingImage.message(), "surface in image mode, but no image set");
    assert_eq!(RenderError::Range.message(), "a setting or a measurement is out of range");
    assert_eq!(ImageError::InvalidFormat.message(), "invalid format");
    assert_eq!(ImageError::Layout.message(), "the rows do not fit the pixel data");
    assert_eq!(DimensionError::WidthNotSet.message(), "width not set");
    assert_eq!(DimensionError::HeightNotSet.message(), "height not set");
    assert_eq!(DimensionError::Invalid.message(), "dimensions invalid");
    assert_eq!(SurfaceError::NoSurface.message(), "wl_surface not set");
    assert_eq!(SurfaceError::NoSubsurface.message(), "wl_subsurface not set");
    assert_eq!(SeatError::NoKeymap.message(), "failed to get keymap");
    assert_eq!(SeatError::NoXkbState.message(), "xkb state not set");
    assert_eq!(EventError::InvalidEventType.message(), "invalid event type value");
    assert_eq!(EventError::NoEpoll.message(), "epoll has not been created yet");
    assert_eq!(EventError::Wait(9).message(), "error during epoll");
}
