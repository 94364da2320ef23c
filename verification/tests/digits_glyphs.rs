use tray_indicator::digits::digit_of;
use tray_indicator::digits::digit_sequence;
use tray_indicator::glyphs::glyph_pixel;

#[test]
fn digit_sequence_of_small_value() {
    assert_eq!(digit_sequence(42), vec![0, 0, 4, 2]);
    assert_eq!(digit_sequence(7), vec![0, 0, 0, 7]);
    assert_eq!(digit_sequence(0), vec![0, 0, 0, 0]);
    assert_eq!(digit_sequence(9999), vec![9, 9, 9, 9]);
}

#[test]
fn digit_sequence_truncates_to_four_digits() {
    // values of five or more digits keep only their last four
    assert_eq!(digit_sequence(12345), digit_sequence(2345));
    assert_eq!(digit_sequence(12345), vec![2, 3, 4, 5]);
    assert_eq!(digit_sequence(10000), vec![0, 0, 0, 0]);
    assert_eq!(digit_sequence(u32::MAX), vec![7, 2, 9, 5]); // 4294967295 % 10000
}

#[test]
fn digit_of_matches_sequence() {
    for v in [0u32, 7, 42, 999, 1000, 9999, 10000, 123456] {
        let seq = digit_sequence(v);
        for i in 0..4 {
            assert_eq!(seq[i], digit_of(v, i));
        }
    }
}

fn glyph_row_string(d: u8, row: u8) -> String {
    let mut s = String::new();
    for col in 0..5 {
        s.push(if glyph_pixel(d, row, col) { '1' } else { '0' });
    }
    s
}

#[test]
fn glyph_shapes() {
    // digit 0: a ring
    assert_eq!(glyph_row_string(0, 0), "01110");
    assert_eq!(glyph_row_string(0, 1), "10001");
    assert_eq!(glyph_row_string(0, 6), "01110");
    // digit 1: hook, stem, base
    assert_eq!(glyph_row_string(1, 0), "00100");
    assert_eq!(glyph_row_string(1, 1), "01100");
    assert_eq!(glyph_row_string(1, 6), "01110");
    // digit 4: crossbar on row 4
    assert_eq!(glyph_row_string(4, 4), "11111");
    assert_eq!(glyph_row_string(4, 6), "00010");
    // digit 7: full top row, stem below
    assert_eq!(glyph_row_string(7, 0), "11111");
    assert_eq!(glyph_row_string(7, 6), "00100");
    // digit 8: two stacked rings pinched in the middle
    assert_eq!(glyph_row_string(8, 3), "01110");
}

#[test]
fn every_glyph_has_pixels_in_every_row_except_gaps() {
    // each of the ten glyphs shows at least one pixel in each of its 7 rows
    for d in 0..10u8 {
        for row in 0..7u8 {
            let mut any = false;
            for col in 0..5u8 {
                any = any || glyph_pixel(d, row, col);
            }
            assert!(any, "digit {} row {} is empty", d, row);
        }
    }
}
