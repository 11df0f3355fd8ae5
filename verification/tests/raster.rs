use mobula::config::Config;
use mobula::raster::{pixel_at, pixel_count, pixel_index, plane_row};

fn grid(width: u32, height: u32) -> Config {
    Config { width, height, depth: 8, samples: 8 }
}

#[test]
fn pixel_count_is_width_times_height() {
    assert_eq!(pixel_count(&Config::default()), 120_000);
    assert_eq!(pixel_count(&grid(0, 7)), 0);
    assert_eq!(pixel_count(&grid(3, 5)), 15);
    assert_eq!(pixel_count(&grid(u32::MAX, u32::MAX)), 18_446_744_065_119_617_025);
}

#[test]
fn pixel_index_is_row_major_from_the_top() {
    let c = grid(4, 3);
    assert_eq!(pixel_index(&c, 0, 0), 0);
    assert_eq!(pixel_index(&c, 3, 0), 3);
    assert_eq!(pixel_index(&c, 0, 1), 4);
    assert_eq!(pixel_index(&c, 2, 1), 6);
    assert_eq!(pixel_index(&c, 3, 2), 11);
    assert_eq!(pixel_index(&grid(u32::MAX, 1), u32::MAX, u32::MAX), 18_446_744_069_414_584_320);
}

#[test]
fn pixel_at_splits_an_index_into_column_and_row() {
    let c = grid(4, 3);
    assert_eq!(pixel_at(&c, 0), (0, 0));
    assert_eq!(pixel_at(&c, 3), (3, 0));
    assert_eq!(pixel_at(&c, 4), (0, 1));
    assert_eq!(pixel_at(&c, 6), (2, 1));
    assert_eq!(pixel_at(&c, 11), (3, 2));
    assert_eq!(pixel_at(&Config::default(), 119_999), (399, 299));
    assert_eq!(pixel_at(&Config::default(), 401), (1, 1));
}

#[test]
fn pixel_at_and_pixel_index_undo_each_other() {
    let c = grid(7, 5);
    for index in 0..pixel_count(&c) {
        let (x, y) = pixel_at(&c, index);
        assert!(x < 7 && y < 5);
        assert_eq!(pixel_index(&c, x, y), index);
    }
    for y in 0..5 {
        for x in 0..7 {
            assert_eq!(pixel_at(&c, pixel_index(&c, x, y)), (x, y));
        }
    }
}

#[test]
fn plane_row_counts_rows_from_the_bottom() {
    let c = grid(4, 3);
    assert_eq!(plane_row(&c, 0), 3);
    assert_eq!(plane_row(&c, 1), 2);
    assert_eq!(plane_row(&c, 2), 1);
    assert_eq!(plane_row(&c, 3), 0);
    assert_eq!(plane_row(&Config::default(), 0), 300);
}
