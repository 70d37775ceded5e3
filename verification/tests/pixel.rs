use paintboard::pixel::{check_color, color_to_hex, hex_to_bin, hex_to_color, parse_color, Pixel};

#[test]
fn color_to_hex_writes_upper_case_digits() {
    assert_eq!(color_to_hex((255, 0, 16)), "#FF0010");
    assert_eq!(color_to_hex((0, 0, 0)), "#000000");
    assert_eq!(color_to_hex((240, 240, 240)), "#F0F0F0");
    assert_eq!(color_to_hex((171, 205, 239)), "#ABCDEF");
    assert_eq!(color_to_hex((1, 35, 69)), "#012345");
    assert_eq!(color_to_hex((103, 137, 154)), "#67899A");
}

#[test]
fn hex_to_bin_reads_either_case() {
    assert_eq!(hex_to_bin("#ff0010"), [255, 0, 16]);
    assert_eq!(hex_to_bin("#FF0010"), [255, 0, 16]);
    assert_eq!(hex_to_bin("#ABCDEF"), [171, 205, 239]);
    assert_eq!(hex_to_bin("#abcdef"), [171, 205, 239]);
    assert_eq!(hex_to_bin("#AbCdEf"), [171, 205, 239]);
    assert_eq!(hex_to_bin("#000000"), [0, 0, 0]);
    assert_eq!(hex_to_bin("#f0f0f0"), [240, 240, 240]);
}

#[test]
fn first_character_is_not_part_of_the_colour() {
    assert_eq!(hex_to_bin("xff0010"), [255, 0, 16]);
    assert_eq!(hex_to_bin("0ABCDEF"), [171, 205, 239]);
    assert_eq!(hex_to_bin(" 000000"), [0, 0, 0]);
    assert_eq!(hex_to_color("?f0f0f0"), (240, 240, 240));
    assert_eq!(hex_to_color("\u{e9}012345"), (1, 35, 69));
    assert_eq!(parse_color("xff0010"), None);
    assert!(!check_color("xff0010"));
}

#[test]
fn hex_to_color_agrees_with_hex_to_bin() {
    assert_eq!(hex_to_color("#012345"), (1, 35, 69));
    assert_eq!(hex_to_color("#67899a"), (103, 137, 154));
    assert_eq!(hex_to_color("#ffffff"), (255, 255, 255));
}

#[test]
fn writing_then_reading_gives_the_colour_back() {
    for v in 0..=255u8 {
        let colors = [(v, 0, 0), (0, v, 0), (0, 0, v), (v, v, v), (v, 255 - v, v / 2)];
        for c in colors {
            let hex = color_to_hex(c);
            assert!(check_color(&hex), "{hex}");
            assert_eq!(hex_to_color(&hex), c);
            assert_eq!(hex_to_bin(&hex), [c.0, c.1, c.2]);
            assert_eq!(parse_color(&hex), Some(c));
        }
    }
}

#[test]
fn check_color_accepts_only_the_form() {
    assert!(check_color("#ffffff"));
    assert!(check_color("#FFFFFF"));
    assert!(check_color("#09afAF"));
    assert!(!check_color(""));
    assert!(!check_color("#"));
    assert!(!check_color("ffffff"));
    assert!(!check_color("#fffff"));
    assert!(!check_color("#fffffff"));
    assert!(!check_color("#gggggg"));
    assert!(!check_color("0ffffff"));
    assert!(!check_color("#ffff f"));
    assert!(!check_color("#+f0000"));
    assert!(!check_color("#12345\u{e9}"));
    assert!(!check_color("#\u{e9}\u{e9}\u{e9}\u{e9}\u{e9}\u{e9}"));
}

#[test]
fn parse_color_gives_nothing_for_other_text() {
    assert_eq!(parse_color("#FF0000"), Some((255, 0, 0)));
    assert_eq!(parse_color("#ff0000"), Some((255, 0, 0)));
    assert_eq!(parse_color("red"), None);
    assert_eq!(parse_color("#FF00"), None);
    assert_eq!(parse_color("#FF0000 "), None);
    assert_eq!(parse_color("#GG0000"), None);
}

#[test]
fn pixel_record_is_little_endian() {
    let p = Pixel { x: 5, y: 10, color: (255, 0, 0) };
    assert_eq!(p.to_bytes(), [5, 0, 10, 0, 255, 0, 0]);
    let q = Pixel { x: 999, y: 599, color: (1, 2, 3) };
    assert_eq!(q.to_bytes(), [0xe7, 0x03, 0x57, 0x02, 1, 2, 3]);
    let r = Pixel { x: 65535, y: 256, color: (0, 0, 0) };
    assert_eq!(r.to_bytes(), [255, 255, 0, 1, 0, 0, 0]);
}

#[test]
fn pixel_converts_into_its_record() {
    let p = Pixel { x: 258, y: 3, color: (9, 8, 7) };
    let bytes: [u8; 7] = (&p).into();
    assert_eq!(bytes, [2, 1, 3, 0, 9, 8, 7]);
    assert_eq!(<[u8; 7]>::from(&p), p.to_bytes());
}
