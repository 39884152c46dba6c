use wolf_asm::layout::{
    Imm, InstrLayout, Layout, Offset, Reg, L1, L10, L11, L2, L3, L4, L5, L6, L7, L8, L9,
};

const ARGUMENTS_SECTION_SIZE: u8 = 52; // bits

#[test]
fn fits_within_arguments_section() {
    assert!(L1::used_arguments_bits() <= ARGUMENTS_SECTION_SIZE);
    assert!(L2::used_arguments_bits() <= ARGUMENTS_SECTION_SIZE);
    assert!(L3::used_arguments_bits() <= ARGUMENTS_SECTION_SIZE);
    assert!(L4::used_arguments_bits() <= ARGUMENTS_SECTION_SIZE);
    assert!(L5::used_arguments_bits() <= ARGUMENTS_SECTION_SIZE);
    assert!(L6::used_arguments_bits() <= ARGUMENTS_SECTION_SIZE);
    assert!(L7::used_arguments_bits() <= ARGUMENTS_SECTION_SIZE);
    assert!(L8::used_arguments_bits() <= ARGUMENTS_SECTION_SIZE);
    assert!(L9::used_arguments_bits() <= ARGUMENTS_SECTION_SIZE);
    assert!(L10::used_arguments_bits() <= ARGUMENTS_SECTION_SIZE);
    assert!(L11::used_arguments_bits() <= ARGUMENTS_SECTION_SIZE);
}

#[test]
fn encoded_instr() {
    let base_opcode = 32;
    let layout = Layout::L5(L5(
        Reg { value: 61 },
        Offset { value: -3392 },
        Imm { bits: 30, value: 0x3f3f7ac9 },
    ));
    let expected =
        0b_00000010_0100_1111_01_111100_10110000_00_111111_00111111_01111010_11001001_u64;
    assert_eq!(layout.to_binary(base_opcode), expected);
    assert_eq!(expected, 0x024F_7CB0_3F3F_7AC9);
}

#[test]
fn layout_round_trips() {
    // Each layout encodes and decodes back to itself, sign extension
    // included.
    let cases: Vec<(u16, Layout)> = vec![
        (0, Layout::L1(L1(Reg { value: 5 }, Reg { value: 63 }))),
        (12, Layout::L2(L2(Reg { value: 1 }, Imm { bits: 46, value: -1 }))),
        (24, Layout::L3(L3(Imm { bits: 46, value: 0x1fff_ffff_ffff }, Reg { value: 0 }))),
        (
            36,
            Layout::L4(L4(Reg { value: 7 }, Reg { value: 8 }, Offset { value: i16::MIN })),
        ),
        (
            48,
            Layout::L5(L5(
                Reg { value: 61 },
                Offset { value: -3392 },
                Imm { bits: 30, value: -0x2000_0000 },
            )),
        ),
        (
            60,
            Layout::L6(L6(Imm { bits: 26, value: -33 }, Imm { bits: 26, value: 0x1ff_ffff })),
        ),
        (
            72,
            Layout::L7(L7(Reg { value: 1 }, Reg { value: 2 }, Reg { value: 3 })),
        ),
        (
            84,
            Layout::L8(L8(Reg { value: 9 }, Reg { value: 10 }, Imm { bits: 40, value: -42 })),
        ),
        (96, Layout::L9(L9(Reg { value: 62 }))),
        (108, Layout::L10(L10(Imm { bits: 52, value: -0x8_0000_0000_0000 }))),
        (120, Layout::L11(L11(Reg { value: 11 }, Offset { value: 32767 }))),
    ];
    for (base, layout) in cases {
        let il = InstrLayout { base_opcode: base, layout: layout.clone() };
        let word = il.to_binary();
        let opcode = (word >> 52) as u16;
        assert_eq!(opcode, base + layout.opcode_offset());
        let decoded = Layout::from_binary(word, layout.opcode_offset());
        assert_eq!(decoded, Some(layout));
    }
}

#[test]
fn bad_offset_is_rejected() {
    assert_eq!(Layout::from_binary(0, 11), None);
    assert_eq!(Layout::from_binary(u64::MAX, 400), None);
}
