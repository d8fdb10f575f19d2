use alvr_bravr::statistics::{series_color, series_color_from_hash, MIN_CHANNEL};

#[test]
fn color_channels_from_hash() {
    assert_eq!(series_color_from_hash(0x00c8_96fa), (200, 150, 250));
    assert_eq!(series_color_from_hash(0), (100, 100, 100));
    assert_eq!(series_color_from_hash(0xffff_ffff_ff63_0a64), (100, 100, 100));
    assert_eq!(series_color_from_hash(0x0065_6465), (101, 100, 101));
}

#[test]
fn series_colors_are_bright_and_stable() {
    for name in ["tx mcs", "rx mcs", "airtime", ""] {
        let c = series_color(name);
        assert!(c.0 >= MIN_CHANNEL && c.1 >= MIN_CHANNEL && c.2 >= MIN_CHANNEL);
        assert_eq!(c, series_color(name));
    }
}

#[test]
fn series_color_uses_the_fxhash_of_the_name() {
    let h = fxhash::hash64("airtime".as_bytes());
    assert_eq!(series_color("airtime"), series_color_from_hash(h));
}
