use nlock::fixed::Ratio;
use nlock::image::{
    convert_pixels, place_image, premul, BackgroundImageScale, ImageError, ImagePlacement,
    PixelLayout,
};

const ZERO: Ratio = Ratio { num: 0, den: 1 };
const ONE: Ratio = Ratio { num: 1, den: 1 };

#[test]
fn premul_exact_values() {
    assert_eq!(premul(255, 255), 255);
    assert_eq!(premul(255, 0), 0);
    assert_eq!(premul(0, 255), 0);
    assert_eq!(premul(128, 128), 64);
    assert_eq!(premul(255, 128), 128);
    assert_eq!(premul(200, 100), 78);
    assert_eq!(premul(1, 127), 0);
    assert_eq!(premul(1, 128), 1);
}

#[test]
fn premul_is_the_rounded_quotient_everywhere() {
    for c in 0u16..=255 {
        for a in 0u16..=255 {
            let exact = ((c as f64) * (a as f64) / 255.0).round() as u8;
            assert_eq!(premul(c, a), exact, "c = {}, a = {}", c, a);
        }
    }
}

#[test]
fn stretch_scales_each_direction_by_itself() {
    let p = place_image(BackgroundImageScale::Stretch, 1920, 1080, 1000, 1000);
    assert_eq!(
        p,
        Some(ImagePlacement {
            scale_x: Ratio { num: 1920, den: 1000 },
            scale_y: Ratio { num: 1080, den: 1000 },
            left: ZERO,
            top: ZERO,
        })
    );
}

#[test]
fn fit_on_a_wider_buffer_scales_by_height() {
    let p = place_image(BackgroundImageScale::Fit, 1920, 1080, 1000, 1000);
    assert_eq!(
        p,
        Some(ImagePlacement {
            scale_x: Ratio { num: 1080, den: 1000 },
            scale_y: Ratio { num: 1080, den: 1000 },
            left: Ratio { num: 840_000, den: 2160 },
            top: ZERO,
        })
    );
}

#[test]
fn fit_on_a_narrower_buffer_scales_by_width() {
    let p = place_image(BackgroundImageScale::Fit, 1080, 1920, 1000, 1000);
    assert_eq!(
        p,
        Some(ImagePlacement {
            scale_x: Ratio { num: 1080, den: 1000 },
            scale_y: Ratio { num: 1080, den: 1000 },
            left: ZERO,
            top: Ratio { num: 840_000, den: 2160 },
        })
    );
}

#[test]
fn fill_on_a_wider_buffer_scales_by_width() {
    let p = place_image(BackgroundImageScale::Fill, 1920, 1080, 1000, 1000);
    assert_eq!(
        p,
        Some(ImagePlacement {
            scale_x: Ratio { num: 1920, den: 1000 },
            scale_y: Ratio { num: 1920, den: 1000 },
            left: ZERO,
            top: Ratio { num: -840_000, den: 3840 },
        })
    );
}

#[test]
fn equal_ratios_count_as_not_wider() {
    let fit = place_image(BackgroundImageScale::Fit, 200, 100, 20, 10).unwrap();
    assert_eq!(fit.scale_x, Ratio { num: 200, den: 20 });
    assert_eq!(fit.top, Ratio { num: 0, den: 400 });
    let fill = place_image(BackgroundImageScale::Fill, 200, 100, 20, 10).unwrap();
    assert_eq!(fill.scale_x, Ratio { num: 100, den: 10 });
    assert_eq!(fill.left, Ratio { num: 0, den: 200 });
}

#[test]
fn center_rounds_the_corner_down() {
    let p = place_image(BackgroundImageScale::Center, 1920, 1080, 1000, 1000).unwrap();
    assert_eq!((p.scale_x, p.scale_y), (ONE, ONE));
    assert_eq!(p.left, Ratio { num: 460, den: 1 });
    assert_eq!(p.top, Ratio { num: 40, den: 1 });
    let q = place_image(BackgroundImageScale::Center, 1920, 1080, 2001, 1001).unwrap();
    assert_eq!(q.left, Ratio { num: -41, den: 1 });
    assert_eq!(q.top, Ratio { num: 39, den: 1 });
}

#[test]
fn tile_neither_scales_nor_moves() {
    let p = place_image(BackgroundImageScale::Tile, 1920, 1080, 64, 64);
    assert_eq!(p, Some(ImagePlacement { scale_x: ONE, scale_y: ONE, left: ZERO, top: ZERO }));
}

#[test]
fn no_placement_without_a_valid_size() {
    assert_eq!(place_image(BackgroundImageScale::Fit, 0, 1080, 10, 10), None);
    assert_eq!(place_image(BackgroundImageScale::Fit, 1920, 1080, 10, 0), None);
    assert_eq!(place_image(BackgroundImageScale::Fit, 1920, 1080, -1, 10), None);
    assert_eq!(place_image(BackgroundImageScale::Fit, 536_870_912, 1080, 10, 10), None);
    assert!(place_image(BackgroundImageScale::Fit, 536_870_911, 536_870_911, 536_870_911, 1).is_some());
}

#[test]
fn fitted_image_is_inside_and_filling_image_covers() {
    let sizes = [(1920i64, 1080i64, 640i64, 480i64), (800, 600, 1600, 300), (333, 777, 129, 511)];
    for (bw, bh, iw, ih) in sizes {
        let fit = place_image(BackgroundImageScale::Fit, bw, bh, iw, ih).unwrap();
        assert!(iw * fit.scale_x.num <= bw * fit.scale_x.den);
        assert!(ih * fit.scale_x.num <= bh * fit.scale_x.den);
        let fill = place_image(BackgroundImageScale::Fill, bw, bh, iw, ih).unwrap();
        assert!(iw * fill.scale_x.num >= bw * fill.scale_x.den);
        assert!(ih * fill.scale_x.num >= bh * fill.scale_x.den);
        for p in [fit, fill] {
            assert_eq!(
                (2 * p.left.num + iw * p.left.den) * p.scale_x.num,
                bw * p.scale_x.den * p.left.den
            );
            assert_eq!(
                (2 * p.top.num + ih * p.top.den) * p.scale_y.num,
                bh * p.scale_y.den * p.top.den
            );
        }
    }
}

fn layout(width: usize, height: usize, stride: usize, chan: usize, cstride: usize, le: bool) -> PixelLayout {
    PixelLayout { width, height, stride, chan, cstride, little_endian: le }
}

#[test]
fn converts_rgb_little_endian() {
    let pixels = [10u8, 20, 30, 40, 50, 60];
    let out = convert_pixels(&pixels, layout(2, 1, 6, 3, 8, true));
    assert_eq!(out, Ok(vec![30, 20, 10, 0, 60, 50, 40, 0]));
}

#[test]
fn converts_rgb_big_endian() {
    let pixels = [10u8, 20, 30, 40, 50, 60];
    let out = convert_pixels(&pixels, layout(2, 1, 6, 3, 8, false));
    assert_eq!(out, Ok(vec![0, 10, 20, 30, 0, 40, 50, 60]));
}

#[test]
fn converts_rgba_premultiplied() {
    let pixels = [255u8, 128, 0, 128];
    assert_eq!(convert_pixels(&pixels, layout(1, 1, 4, 4, 4, true)), Ok(vec![0, 64, 128, 128]));
    assert_eq!(convert_pixels(&pixels, layout(1, 1, 4, 4, 4, false)), Ok(vec![128, 128, 64, 0]));
}

#[test]
fn rows_follow_the_strides_and_padding_is_zero() {
    let pixels = [1u8, 2, 3, 99, 99, 4, 5, 6];
    let out = convert_pixels(&pixels, layout(1, 2, 5, 3, 6, true));
    assert_eq!(out, Ok(vec![3, 2, 1, 0, 0, 0, 6, 5, 4, 0, 0, 0]));
}

#[test]
fn an_image_without_rows_converts_to_nothing() {
    assert_eq!(convert_pixels(&[], layout(4, 0, 16, 4, 16, true)), Ok(vec![]));
}

#[test]
fn fewer_than_three_channels_is_an_invalid_format() {
    assert_eq!(convert_pixels(&[1, 2], layout(1, 1, 2, 2, 4, true)), Err(ImageError::InvalidFormat));
    assert_eq!(convert_pixels(&[], layout(0, 0, 0, 0, 0, true)), Err(ImageError::InvalidFormat));
}

#[test]
fn rows_that_do_not_fit_are_a_layout_error() {
    assert_eq!(convert_pixels(&[1, 2, 3], layout(2, 1, 6, 3, 8, true)), Err(ImageError::Layout));
    assert_eq!(convert_pixels(&[1, 2, 3, 4, 5, 6], layout(2, 1, 6, 3, 7, true)), Err(ImageError::Layout));
    assert_eq!(
        convert_pixels(&[1, 2, 3], layout(1, usize::MAX, 3, 3, 4, true)),
        Err(ImageError::Layout)
    );
}
