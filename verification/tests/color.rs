use timg::{rgba_to_rgb, similar, Tint, FmtColor};

#[test]
fn compositor_opaque_gives_foreground() {
    for bg in [[0u8, 0, 0], [255, 255, 255], [12, 200, 99]] {
        assert_eq!(rgba_to_rgb([100, 149, 237, 255], bg), [100, 149, 237]);
        assert_eq!(rgba_to_rgb([0, 255, 1, 255], bg), [0, 255, 1]);
    }
}

#[test]
fn compositor_transparent_gives_background() {
    for fg in [[0u8, 0, 0, 0], [255, 255, 255, 0], [12, 200, 99, 0]] {
        assert_eq!(rgba_to_rgb(fg, [7, 8, 9]), [7, 8, 9]);
        assert_eq!(rgba_to_rgb(fg, [255, 0, 128]), [255, 0, 128]);
    }
}

#[test]
fn compositor_blends_and_drops_fractions() {
    // (100 * 200 + 255 * 55) / 255 = 133.4, (149 * 200 + 255 * 55) / 255 = 171.8,
    // (237 * 200 + 255 * 55) / 255 = 240.8
    assert_eq!(rgba_to_rgb([100, 149, 237, 200], [255; 3]), [133, 171, 240]);
    assert_eq!(rgba_to_rgb([255, 255, 255, 200], [255; 3]), [255; 3]);
    assert_eq!(rgba_to_rgb([1, 0, 0, 5], [103, 0, 0]), [101, 0, 0]);
    assert_eq!(rgba_to_rgb([0, 0, 0, 128], [255, 254, 1]), [127, 126, 0]);
}

#[test]
fn classifier_reflexive() {
    for t in [0u32, 1, 60, 765, u32::MAX] {
        assert!(similar([0, 0, 0], [0, 0, 0], t));
        assert!(similar([13, 200, 255], [13, 200, 255], t));
    }
}

#[test]
fn classifier_tolerance_zero_is_exact_match() {
    assert!(!similar([0, 0, 0], [0, 0, 1], 0));
    assert!(!similar([0, 0, 0], [1, 0, 0], 0));
    assert!(!similar([0, 1, 0], [0, 0, 0], 0));
}

#[test]
fn classifier_monotonic() {
    let a = [10u8, 20, 30];
    let b = [13u8, 18, 35];
    // 3 * 9 + 4 * 4 + 2 * 25 = 93: the distance is 9 and a fraction
    let mut seen = false;
    for t in 0..20u32 {
        let now = similar(a, b, t);
        assert!(now || !seen);
        seen = now;
        assert_eq!(now, t >= 9);
    }
    assert!(similar([0, 0, 0], [255, 255, 255], 765));
    assert!(!similar([0, 0, 0], [255, 255, 255], 764));
    assert!(similar([0, 0, 0], [255, 255, 255], u32::MAX));
}

#[test]
fn color_similarity() {
    assert!(Tint::Unset.similar(&Tint::Unset, 0));
    assert!(!Tint::Unset.similar(&Tint::Rgb([0, 0, 0]), 1000));
    assert!(!Tint::Rgb([0, 0, 0]).similar(&Tint::Unset, 1000));
    assert!(Tint::C256(7).similar(&Tint::C256(7), 0));
    assert!(!Tint::C256(7).similar(&Tint::C256(8), 1000));
    assert!(!Tint::C256(7).similar(&Tint::Rgb([0, 0, 0]), 1000));
    assert!(Tint::Rgb([1, 2, 3]).similar(&Tint::Rgb([1, 2, 4]), 1));
    assert!(!Tint::Rgb([1, 2, 3]).similar(&Tint::Rgb([1, 2, 4]), 0));
}

#[test]
fn fmt_color_examples() {
    assert_eq!(Tint::Unset.fmt_color(), "None");
    assert_eq!(
        Tint::Rgb([0xff, 0x1b, 0x0a]).fmt_color(),
        "\x1b[48;2;255;27;10m#\x1b[49mFF1B0A"
    );
    assert_eq!(Tint::C256(84).fmt_color(), "\x1b[48;5;84mC\x1b[49m084");
    assert_eq!(Tint::C256(7).fmt_color(), "\x1b[48;5;7mC\x1b[49m007");
    assert_eq!(Tint::C256(255).fmt_color(), "\x1b[48;5;255mC\x1b[49m255");
    assert_eq!(Tint::Rgb([0, 0, 0]).fmt_color(), "\x1b[48;2;0;0;0m#\x1b[49m000000");
}
