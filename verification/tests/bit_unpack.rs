use gba2k::bios::BitUnPack;
use gba2k::bios::BitUnpackInfo;
use gba2k::bios::BitUnpackOffset;

fn info(len: u16, src_bits: u8, dest_bits: u8, offset: BitUnpackOffset) -> BitUnpackInfo {
    BitUnpackInfo { src_len_bytes: len, src_elem_bits: src_bits, dest_elem_bits: dest_bits, offset }
}

#[test]
fn offset_fields_pack_into_their_bits() {
    assert_eq!(BitUnpackOffset::new().to_u32(), 0);
    assert_eq!(BitUnpackOffset::new().with_delta(5).to_u32(), 5);
    assert_eq!(BitUnpackOffset::new().with_delta(0x7FFF_FFFF).delta(), 0x7FFF_FFFF);
    assert_eq!(BitUnpackOffset::new().with_offset_zeroes(true).to_u32(), 0x8000_0000);
    let o = BitUnpackOffset::from_u32(0x8000_0007);
    assert_eq!(o.delta(), 7);
    assert!(o.offset_zeroes());
    assert!(!BitUnpackOffset::from_u32(7).offset_zeroes());
}

#[test]
fn two_bit_elements_unpack_low_to_high() {
    // 0b10_01_00_11: elements 3, 0, 1, 2 from the low bits up.
    let src = vec![0b10_01_00_11u8];
    let out = BitUnPack(&src, &info(1, 2, 8, BitUnpackOffset::new()));
    assert_eq!(out, vec![0x0201_0003]);
}

#[test]
fn delta_is_added_to_nonzero_elements_only() {
    let src = vec![0b10_01_00_11u8];
    let offset = BitUnpackOffset::new().with_delta(5);
    let out = BitUnPack(&src, &info(1, 2, 8, offset));
    // 3+5, 0 stays, 1+5, 2+5.
    assert_eq!(out, vec![0x0706_0008]);
}

#[test]
fn offset_zeroes_extends_the_delta_to_zero_elements() {
    let src = vec![0b10_01_00_11u8];
    let offset = BitUnpackOffset::new().with_delta(5).with_offset_zeroes(true);
    let out = BitUnPack(&src, &info(1, 2, 8, offset));
    // 3+5, 0+5, 1+5, 2+5.
    assert_eq!(out, vec![0x0706_0508]);
}

#[test]
fn a_partial_output_word_is_not_emitted() {
    // Three byte-wide elements fill only 24 of 32 output bits.
    let src = vec![1u8, 2, 3];
    let out = BitUnPack(&src, &info(3, 8, 8, BitUnpackOffset::new()));
    assert_eq!(out, Vec::<u32>::new());
}

#[test]
fn one_bit_identity_unpack() {
    let src = vec![0xFFu8, 0x00, 0xFF, 0x00];
    let out = BitUnPack(&src, &info(4, 1, 1, BitUnpackOffset::new()));
    assert_eq!(out, vec![0x00FF_00FF]);
}

#[test]
fn bytes_can_widen_to_whole_words() {
    let src = vec![9u8, 10];
    let out = BitUnPack(&src, &info(2, 8, 32, BitUnpackOffset::new()));
    assert_eq!(out, vec![9, 10]);
}

#[test]
fn bytes_can_widen_to_halfwords() {
    let src = vec![1u8, 2, 3, 4];
    let out = BitUnPack(&src, &info(4, 8, 16, BitUnpackOffset::new()));
    assert_eq!(out, vec![0x0002_0001, 0x0004_0003]);
}

#[test]
fn four_bit_elements_with_palette_style_offset() {
    // Palette shifting: every element moved into palbank 2 (offset 32).
    let src = vec![0x21u8, 0x43];
    let offset = BitUnpackOffset::new().with_delta(32);
    let out = BitUnPack(&src, &info(2, 4, 8, offset));
    assert_eq!(out, vec![(36 << 24) | (35 << 16) | (34 << 8) | 33]);
}

#[test]
fn empty_source_produces_no_output() {
    let src: Vec<u8> = vec![];
    let out = BitUnPack(&src, &info(0, 8, 8, BitUnpackOffset::new()));
    assert_eq!(out, Vec::<u32>::new());
}
