use mandelbrot::palette::{ColorTable, HUES};
use mandelbrot::pixel::Pixel;

#[test]
fn hue_wraps_at_360() {
    let table = ColorTable::new();
    assert_eq!(table.lookup(0), table.lookup(360));
    assert_eq!(table.lookup(0), Pixel::new(255, 0, 0));
}

#[test]
fn every_index_wraps() {
    let table = ColorTable::new();
    for index in 0..HUES {
        assert_eq!(table.lookup(index), table.lookup(index + 360));
        assert_eq!(table.lookup(index), table.lookup(index + 720));
    }
    assert_eq!(table.lookup(361), table.lookup(1));
    assert_eq!(table.lookup(usize::MAX), table.lookup(usize::MAX % 360));
}

#[test]
fn sector_boundaries_are_pure_colors() {
    let table = ColorTable::new();
    assert_eq!(table.lookup(0), Pixel::new(255, 0, 0));
    assert_eq!(table.lookup(60), Pixel::new(255, 255, 0));
    assert_eq!(table.lookup(120), Pixel::new(0, 255, 0));
    assert_eq!(table.lookup(180), Pixel::new(0, 255, 255));
    assert_eq!(table.lookup(240), Pixel::new(0, 0, 255));
    assert_eq!(table.lookup(300), Pixel::new(255, 0, 255));
}

#[test]
fn sector_middles_are_half_way() {
    let table = ColorTable::new();
    // 30 / 60 * 255 = 127.5, which rounds up.
    assert_eq!(table.lookup(30), Pixel::new(255, 128, 0));
    assert_eq!(table.lookup(90), Pixel::new(128, 255, 0));
    assert_eq!(table.lookup(150), Pixel::new(0, 255, 128));
    assert_eq!(table.lookup(210), Pixel::new(0, 128, 255));
    assert_eq!(table.lookup(270), Pixel::new(128, 0, 255));
    assert_eq!(table.lookup(330), Pixel::new(255, 0, 128));
}

#[test]
fn secondary_channel_is_rounded_to_nearest() {
    let table = ColorTable::new();
    // 1 / 60 * 255 = 4.25
    assert_eq!(table.lookup(1), Pixel::new(255, 4, 0));
    // 2 / 60 * 255 = 8.5
    assert_eq!(table.lookup(2), Pixel::new(255, 9, 0));
    // 3 / 60 * 255 = 12.75
    assert_eq!(table.lookup(3), Pixel::new(255, 13, 0));
    // 59 / 60 * 255 = 250.75
    assert_eq!(table.lookup(59), Pixel::new(255, 251, 0));
    assert_eq!(table.lookup(61), Pixel::new(251, 255, 0));
    assert_eq!(table.lookup(277), Pixel::new(157, 0, 255));
    assert_eq!(table.lookup(359), Pixel::new(255, 0, 4));
}

#[test]
fn every_entry_is_fully_saturated() {
    let table = ColorTable::new();
    for hue in 0..HUES {
        let p = table.lookup(hue);
        assert!(p.r == 255 || p.g == 255 || p.b == 255, "hue {}", hue);
        assert!(p.r == 0 || p.g == 0 || p.b == 0, "hue {}", hue);
    }
}

#[test]
fn two_tables_are_alike() {
    let a = ColorTable::new();
    let b = ColorTable::new();
    for hue in 0..HUES {
        assert_eq!(a.lookup(hue), b.lookup(hue));
    }
}
