use desktop_caster::frame::{
    checked_frame_len, convert_rows, copy_frame, saturating_frame_len, Alpha,
};
use desktop_caster::text::{decimal_string, join, join_four};

#[test]
fn decimal_text_is_what_the_standard_formatting_gives() {
    for n in [0u64, 7, 9, 10, 99, 100, 1_234_567_890, u64::MAX] {
        assert_eq!(decimal_string(n), format!("{n}"));
    }
}

#[test]
fn text_is_joined_in_order() {
    assert_eq!(join("a", "bc"), "abc");
    assert_eq!(join_four("a", "b", "", "d"), "abd");
}

#[test]
fn frame_sizes() {
    assert_eq!(checked_frame_len(1920, 1080), Some(8_294_400));
    assert_eq!(checked_frame_len(0, 5), Some(0));
    assert_eq!(saturating_frame_len(3, 2), 24);
    assert_eq!(checked_frame_len(u32::MAX, u32::MAX), None);
    assert_eq!(saturating_frame_len(u32::MAX, u32::MAX), usize::MAX);
}

#[test]
fn padded_lines_are_converted_without_their_padding() {
    // Two lines of one pixel, three bytes of padding after the first.
    let src = [1, 2, 3, 4, 77, 77, 77, 5, 6, 7, 8];
    let mut dst = [0u8; 8];
    convert_rows(&src, 7, &mut dst, 1, 2, Alpha::Opaque);
    assert_eq!(dst, [3, 2, 1, 255, 7, 6, 5, 255]);
    convert_rows(&src, 7, &mut dst, 1, 2, Alpha::Keep);
    assert_eq!(dst, [3, 2, 1, 4, 7, 6, 5, 8]);
}

#[test]
fn padding_does_not_change_the_frame() {
    let tight = [1, 2, 3, 4, 5, 6, 7, 8];
    let padded = [1, 2, 3, 4, 200, 201, 5, 6, 7, 8, 202, 203];
    let mut from_tight = [0u8; 8];
    let mut from_padded = [9u8; 8];
    convert_rows(&tight, 4, &mut from_tight, 1, 2, Alpha::Opaque);
    convert_rows(&padded, 6, &mut from_padded, 1, 2, Alpha::Opaque);
    assert_eq!(from_tight, from_padded);
}

#[test]
fn converting_twice_gives_the_picture_back() {
    let src: Vec<u8> = (0..48).collect();
    let mut once = vec![0u8; 48];
    let mut twice = vec![0u8; 48];
    convert_rows(&src, 16, &mut once, 4, 3, Alpha::Keep);
    convert_rows(&once, 16, &mut twice, 4, 3, Alpha::Keep);
    assert_eq!(twice, src);
    assert_ne!(once, src);
}

#[test]
fn words_are_converted_as_bytes() {
    // The usual masks on a little-endian word.
    for bgra in [0u32, 0x1234_5678, 0xff00_ff00, 0x00ff_00ff, u32::MAX, 0x8040_2010] {
        let rgba =
            (bgra & 0xff00_ff00) | ((bgra & 0x00ff_0000) >> 16) | ((bgra & 0x0000_00ff) << 16);
        let mut dst = [0u8; 4];
        convert_rows(&bgra.to_le_bytes(), 4, &mut dst, 1, 1, Alpha::Keep);
        assert_eq!(u32::from_le_bytes(dst), rgba);
    }
}

#[test]
fn empty_pictures_are_converted() {
    let mut dst: [u8; 0] = [];
    convert_rows(&[], 0, &mut dst, 0, 0, Alpha::Opaque);
    convert_rows(&[], 16, &mut dst, 0, 3, Alpha::Opaque);
    convert_rows(&[], 16, &mut dst, 3, 0, Alpha::Opaque);
}

#[test]
fn frames_are_copied_whole() {
    let mut dst = [0u8; 4];
    copy_frame(&[4, 3, 2, 1], &mut dst);
    assert_eq!(dst, [4, 3, 2, 1]);
}
