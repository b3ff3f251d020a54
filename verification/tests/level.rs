use caesiumclt::get_png_level;

#[test]
fn low_band_selects_level_zero() {
    for quality in 1..39 {
        assert_eq!(get_png_level(quality), 0, "quality {}", quality);
    }
    assert_eq!(get_png_level(39), 0);
}

#[test]
fn top_band_selects_level_six() {
    for quality in 80..=89 {
        assert_eq!(get_png_level(quality), 6, "quality {}", quality);
    }
}

#[test]
fn quality_74_selects_level_five() {
    assert_eq!(get_png_level(74), 5);
}

#[test]
fn band_edges_select_their_levels() {
    assert_eq!(get_png_level(40), 1);
    assert_eq!(get_png_level(49), 1);
    assert_eq!(get_png_level(50), 2);
    assert_eq!(get_png_level(59), 2);
    assert_eq!(get_png_level(60), 3);
    assert_eq!(get_png_level(69), 3);
    assert_eq!(get_png_level(70), 5);
    assert_eq!(get_png_level(79), 5);
    assert_eq!(get_png_level(80), 6);
    assert_eq!(get_png_level(89), 6);
}

#[test]
fn out_of_band_qualities_select_level_zero() {
    assert_eq!(get_png_level(0), 0);
    assert_eq!(get_png_level(90), 0);
    assert_eq!(get_png_level(-5), 0);
    assert_eq!(get_png_level(100), 0);
    assert_eq!(get_png_level(i32::MAX), 0);
    assert_eq!(get_png_level(i32::MIN), 0);
}

#[test]
fn level_four_is_never_selected() {
    for quality in -300..=300 {
        let level = get_png_level(quality);
        assert_ne!(level, 4, "quality {}", quality);
        assert!(matches!(level, 0 | 1 | 2 | 3 | 5 | 6), "quality {}", quality);
    }
}
