use ambient_lights::{
    boost_color, boost_palette, boost_saturation, extract_palette, frame_is_blank, palette_size, ExtractError,
    SaturationBoost, SATURATION_MAX,
};

#[test]
fn unit_boost_is_identity() {
    let b = SaturationBoost::new(100, 0);
    for s in 0..=SATURATION_MAX {
        assert_eq!(boost_saturation(s, b), s);
    }
}

#[test]
fn boost_formula_values() {
    let b = SaturationBoost::new(150, 32);
    assert_eq!(boost_saturation(0, b), 32);
    assert_eq!(boost_saturation(20, b), 62);
    assert_eq!(boost_saturation(45, b), 99);
    assert_eq!(boost_saturation(50, b), 100);
    assert_eq!(boost_saturation(21, SaturationBoost::new(150, 0)), 31);
}

#[test]
fn boost_is_clamped() {
    for s in 0..=255u8 {
        assert!(boost_saturation(s, SaturationBoost::new(65535, 32767)) <= SATURATION_MAX);
        assert_eq!(boost_saturation(s, SaturationBoost::new(0, -5)), 0);
    }
    assert_eq!(boost_saturation(255, SaturationBoost::new(100, 0)), 100);
}

#[test]
fn palette_size_bounds() {
    assert_eq!(palette_size(0), 2);
    assert_eq!(palette_size(1), 2);
    assert_eq!(palette_size(3), 3);
    assert_eq!(palette_size(255), 255);
    assert_eq!(palette_size(1000), 255);
}

#[test]
fn boosting_gray_adds_color() {
    let c = boost_color((128, 64, 64), SaturationBoost::new(150, 32));
    assert_ne!(c, (128, 64, 64));
    assert!(c.0 > c.1 && c.0 > c.2);
}

#[test]
fn zero_saturation_boost_gives_gray() {
    let c = boost_color((200, 50, 50), SaturationBoost::new(0, 0));
    assert!(c.0.abs_diff(c.1) <= 1 && c.1.abs_diff(c.2) <= 1);
}

#[test]
fn unit_boost_keeps_color_close() {
    let c = boost_color((200, 50, 50), SaturationBoost::new(100, 0));
    assert!(c.0.abs_diff(200) <= 2 && c.1.abs_diff(50) <= 2 && c.2.abs_diff(50) <= 2);
}

#[test]
fn boost_palette_keeps_order_and_length() {
    let b = SaturationBoost::new(150, 32);
    let colors = vec![(128, 64, 64), (64, 128, 64), (64, 64, 128)];
    let out = boost_palette(&colors, b);
    assert_eq!(out.len(), 3);
    for (i, c) in colors.iter().enumerate() {
        assert_eq!(out[i], boost_color(*c, b));
    }
}

#[test]
fn empty_frame_is_rejected() {
    let b = SaturationBoost::new(150, 32);
    assert_eq!(extract_palette(&vec![], 3, b), Err(ExtractError::EmptyFrame));
    assert_eq!(extract_palette(&vec![10, 20], 3, b), Err(ExtractError::EmptyFrame));
}

#[test]
fn red_frame_gives_reddish_palette() {
    let mut pixels = Vec::new();
    for _ in 0..400 {
        pixels.extend_from_slice(&[200, 30, 30]);
    }
    let palette = extract_palette(&pixels, 1, SaturationBoost::new(100, 0)).unwrap();
    assert!(!palette.is_empty() && palette.len() <= 2);
    assert!(palette[0].0 > palette[0].1 && palette[0].0 > palette[0].2);
}

#[test]
fn two_color_frame_palette_bounded_by_fixtures() {
    let mut pixels = Vec::new();
    for i in 0..600 {
        if i % 2 == 0 {
            pixels.extend_from_slice(&[220, 20, 20]);
        } else {
            pixels.extend_from_slice(&[20, 20, 220]);
        }
    }
    let palette = extract_palette(&pixels, 3, SaturationBoost::new(150, 32)).unwrap();
    assert!(!palette.is_empty() && palette.len() <= 3);
}

#[test]
fn blank_frame_detection() {
    assert!(frame_is_blank(&vec![], 8));
    assert!(frame_is_blank(&vec![0u8; 300], 8));
    assert!(frame_is_blank(&vec![7u8; 300], 8));
    assert!(!frame_is_blank(&vec![8u8; 300], 8));
    assert!(!frame_is_blank(&vec![0, 0, 30], 8));
    assert!(frame_is_blank(&vec![0, 0, 23], 8));
    assert!(!frame_is_blank(&vec![0u8; 3], 0));
}
