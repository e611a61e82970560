use pixel_color::overdraw::blend_channel;
use pixel_color::{ColorFn, ColorFormat, Grey8, Overdraw, Rgb8, Rgba8};

#[test]
fn rgb_over_white_rgb_replaces() {
    let mut dst = Rgb8::new(255, 255, 255);
    Rgb8::new(255, 64, 64).overdraw_on(&mut dst);
    assert_eq!(dst, Rgb8::new(255, 64, 64));
}

#[test]
fn grey_to_rgb_spreads_channel() {
    assert_eq!(Rgb8::from(Grey8::new(200)), Rgb8::new(200, 200, 200));
}

#[test]
fn rgb_to_grey_is_floor_of_mean() {
    assert_eq!(Grey8::from(Rgb8::new(10, 20, 30)), Grey8::new(20));
    assert_eq!(Grey8::from(Rgb8::new(1, 1, 2)), Grey8::new(1));
    assert_eq!(Grey8::from(Rgb8::new(255, 255, 255)), Grey8::new(255));
}

#[test]
fn half_transparent_rgba_over_rgb() {
    let mut dst = Rgb8::new(50, 50, 50);
    Rgba8::new(100, 150, 200, 128).overdraw_on(&mut dst);
    assert_eq!(dst, Rgb8::new(75, 100, 125));
}

#[test]
fn blend_truncates_toward_zero_when_darkening() {
    assert_eq!(blend_channel(0, 100, 128), 50);
    assert_eq!(blend_channel(100, 50, 128), 75);
    assert_eq!(blend_channel(7, 200, 0), 200);
    assert_eq!(blend_channel(7, 200, 255), 7);
}

#[test]
fn rgb_rgba_round_trip() {
    for &(r, g, b) in &[(0u8, 0u8, 0u8), (1, 2, 3), (255, 128, 0), (255, 255, 255)] {
        let c = Rgb8::new(r, g, b);
        let wide = Rgba8::from(c);
        assert_eq!(wide, Rgba8::new(r, g, b, 255));
        assert_eq!(Rgb8::from(wide), c);
    }
}

#[test]
fn conversions_drop_or_add_alpha() {
    assert_eq!(Rgb8::from(Rgba8::new(9, 8, 7, 3)), Rgb8::new(9, 8, 7));
    assert_eq!(Rgba8::from(Grey8::new(42)), Rgba8::new(42, 42, 42, 255));
    assert_eq!(Grey8::from(Rgba8::new(10, 20, 30, 0)), Grey8::new(20));
}

#[test]
fn opaque_overdraw_twice_equals_once() {
    let src = Rgb8::new(12, 34, 56);
    let mut once = Rgba8::new(1, 2, 3, 4);
    src.overdraw_on(&mut once);
    let mut twice = once;
    src.overdraw_on(&mut twice);
    assert_eq!(once, twice);
    assert_eq!(once, Rgba8::new(12, 34, 56, 255));

    let grey = Grey8::new(77);
    let mut g_once = Grey8::new(3);
    grey.overdraw_on(&mut g_once);
    let mut g_twice = g_once;
    grey.overdraw_on(&mut g_twice);
    assert_eq!(g_once, g_twice);
    assert_eq!(g_once, Grey8::new(77));

    let mut rgb = Rgb8::new(200, 100, 0);
    src.overdraw_on(&mut rgb);
    assert_eq!(rgb, src);
    let mut gray_dst = Grey8::new(0);
    src.overdraw_on(&mut gray_dst);
    assert_eq!(gray_dst, Grey8::new(34));
}

#[test]
fn grey_over_each_destination() {
    let src = Grey8::new(90);
    let mut rgb = Rgb8::new(1, 2, 3);
    src.overdraw_on(&mut rgb);
    assert_eq!(rgb, Rgb8::new(90, 90, 90));
    let mut rgba = Rgba8::new(1, 2, 3, 0);
    src.overdraw_on(&mut rgba);
    assert_eq!(rgba, Rgba8::new(90, 90, 90, 255));
}

#[test]
fn transparent_source_leaves_colour() {
    let src = Rgba8::new(200, 10, 99, 0);
    let mut rgb = Rgb8::new(5, 6, 7);
    src.overdraw_on(&mut rgb);
    assert_eq!(rgb, Rgb8::new(5, 6, 7));
    let mut rgba = Rgba8::new(5, 6, 7, 200);
    src.overdraw_on(&mut rgba);
    assert_eq!(rgba, Rgba8::new(5, 6, 7, 0));
}

#[test]
fn opaque_rgba_source_replaces_rgba() {
    let mut rgba = Rgba8::new(5, 6, 7, 20);
    Rgba8::new(200, 10, 99, 255).overdraw_on(&mut rgba);
    assert_eq!(rgba, Rgba8::new(200, 10, 99, 255));
}

#[test]
fn rgba_over_rgba_doubles_alpha_saturating() {
    let mut d = Rgba8::new(0, 0, 0, 0);
    Rgba8::new(0, 0, 0, 100).overdraw_on(&mut d);
    assert_eq!(d.a, 200);
    let mut d = Rgba8::new(0, 0, 0, 0);
    Rgba8::new(0, 0, 0, 127).overdraw_on(&mut d);
    assert_eq!(d.a, 254);
    let mut d = Rgba8::new(0, 0, 0, 255);
    Rgba8::new(0, 0, 0, 128).overdraw_on(&mut d);
    assert_eq!(d.a, 255);
}

#[test]
fn rgba_over_grey_blends_luminance_by_alpha() {
    let mut g = Grey8::new(100);
    Rgba8::new(10, 20, 30, 255).overdraw_on(&mut g);
    assert_eq!(g, Grey8::new(20));
    let mut g = Grey8::new(200);
    Rgba8::new(30, 60, 90, 128).overdraw_on(&mut g);
    assert_eq!(g, Grey8::new(130));
    let mut g = Grey8::new(200);
    Rgba8::new(30, 60, 90, 0).overdraw_on(&mut g);
    assert_eq!(g, Grey8::new(200));
}

#[test]
fn weighed_channels() {
    let c = Rgba8::new(255, 2, 0, 255);
    assert_eq!(c.weighed_r(), 65025);
    assert_eq!(c.weighed_g(), 510);
    assert_eq!(c.weighed_b(), 0);
}

#[test]
fn named_colours() {
    assert_eq!(Rgb8::white(), Rgb8::new(255, 255, 255));
    assert_eq!(Rgb8::black(), Rgb8::new(0, 0, 0));
    assert_eq!(Rgba8::white(), Rgba8::new(255, 255, 255, 255));
    assert_eq!(Rgba8::black(), Rgba8::new(0, 0, 0, 255));
    assert_eq!(Rgba8::transparent(), Rgba8::new(0, 0, 0, 0));
    assert_eq!(Grey8::white(), Grey8::new(255));
    assert_eq!(Grey8::black(), Grey8::new(0));
}

#[test]
fn format_descriptors_and_raw_bytes() {
    assert_eq!(Rgb8::color_format(), ColorFormat::Rgb);
    assert_eq!(Rgba8::color_format(), ColorFormat::Rgba);
    assert_eq!(Grey8::color_format(), ColorFormat::Grayscale);
    assert_eq!(Rgb8::bit_depth(), 8);
    assert_eq!(Rgba8::bit_depth(), 8);
    assert_eq!(Grey8::bit_depth(), 8);
    assert_eq!(Rgb8::byte_length(), 3);
    assert_eq!(Rgba8::byte_length(), 4);
    assert_eq!(Grey8::byte_length(), 1);
    assert_eq!(Rgb8::new(1, 2, 3).to_raw_bytes(), vec![1, 2, 3]);
    assert_eq!(Rgba8::new(1, 2, 3, 4).to_raw_bytes(), vec![1, 2, 3, 4]);
    assert_eq!(Grey8::new(9).to_raw_bytes(), vec![9]);
}
