//! End-to-end tests of the decoder through its public interface.

use chip8_disasm::disasm::disassembler::Disassembler;
use chip8_disasm::disasm::init::init_disasm;

fn decode(bytes: Vec<u8>) -> String {
    let mut d = Disassembler::new(bytes, "listing.txt");
    d.disasm();
    d.text().to_string()
}

#[test]
fn empty_buffer_yields_empty_output() {
    assert_eq!(decode(vec![]), "");
}

#[test]
fn unmatched_opcode_yields_no_line() {
    assert_eq!(decode(vec![0xFF, 0xFF]), "");
}

#[test]
fn cls_and_jmp_example() {
    assert_eq!(decode(vec![0x00, 0xE0, 0x1F, 0xFF]), "CLS\nJMP 4095\n");
}

#[test]
fn ld_ld_add_example() {
    assert_eq!(
        decode(vec![0x60, 0x0A, 0x61, 0x0B, 0x81, 0x04]),
        "LD V0 10\nLD V1 11\nADD V1 V0\n"
    );
}

#[test]
fn drw_example() {
    assert_eq!(decode(vec![0xD1, 0x2F]), "DRW V1 V2 15\n");
}

#[test]
fn decoding_twice_is_deterministic() {
    let bytes: Vec<u8> = vec![0x00, 0xE0, 0x1F, 0xFF, 0x81, 0x04, 0xFF, 0xFF];
    let first = decode(bytes.clone());
    let second = decode(bytes);
    assert_eq!(first, second);
}

#[test]
fn odd_length_decodes_complete_pairs_and_flags_tail() {
    let mut d = Disassembler::new(vec![0x00, 0xE0, 0x12], "listing.txt");
    d.disasm();
    assert_eq!(d.text(), "CLS\n");
    assert!(d.truncated());
}

#[test]
fn even_length_leaves_no_tail() {
    let mut d = Disassembler::new(vec![0x00, 0xE0], "listing.txt");
    d.disasm();
    assert_eq!(d.text(), "CLS\n");
    assert!(!d.truncated());
}

#[test]
fn single_byte_decodes_nothing_and_flags_tail() {
    let mut d = Disassembler::new(vec![0x00], "listing.txt");
    d.disasm();
    assert_eq!(d.text(), "");
    assert!(d.truncated());
}

#[test]
fn unmatched_windows_are_skipped_in_order() {
    assert_eq!(
        decode(vec![0x00, 0xE0, 0xFF, 0xFF, 0x00, 0xEE]),
        "CLS\nRET\n"
    );
}

#[test]
fn near_miss_rows_are_unmatched() {
    // 5xy0 requires a trailing 0; 8xy8 is no row; 00E1, E09F, F001 match nothing.
    assert_eq!(decode(vec![0x51, 0x21]), "");
    assert_eq!(decode(vec![0x8F, 0x08]), "");
    assert_eq!(decode(vec![0x00, 0xE1]), "");
    assert_eq!(decode(vec![0xE0, 0x9F]), "");
    assert_eq!(decode(vec![0xF0, 0x01]), "");
}

#[test]
fn every_table_row_renders_its_exact_line() {
    let bytes: Vec<u8> = vec![
        0x00, 0xE0, // CLS
        0x00, 0xEE, // RET
        0x11, 0x23, // JMP 291
        0x24, 0x56, // CALL 1110
        0x3A, 0x7F, // SE V10 127
        0x4B, 0x00, // SNE V11 0
        0x5C, 0xD0, // SE V12 V13
        0x6E, 0xFF, // LD V14 255
        0x78, 0x01, // ADD V8 1
        0x81, 0x20, // LD V1 V2
        0x83, 0x41, // OR V3 V4
        0x85, 0x62, // AND V5 V6
        0x87, 0x83, // XOR V7 V8
        0x89, 0xA4, // ADD V9 V10
        0x8B, 0xC5, // SUB V11 V12
        0x8D, 0x06, // SHR V13
        0x8E, 0xF7, // SUBN V14 V15
        0x8F, 0x0E, // SHL V15
        0x9A, 0xB0, // SNE V10 V11
        0xA2, 0x00, // LD I 512
        0xB3, 0x00, // JMP V0 768
        0xC6, 0x42, // RND V6 66
        0xD7, 0x5A, // DRW V7 V5 10
        0xE0, 0x9E, // SKP V0
        0xE1, 0xA1, // SKNP V1
        0xF2, 0x07, // LD V2 DT
        0xF3, 0x0A, // LD V3 K
        0xF4, 0x15, // LD DT V4
        0xF5, 0x18, // LD ST V5
        0xF6, 0x1E, // ADD I V6
        0xF7, 0x29, // LD F V7
        0xF8, 0x33, // LD B V8
        0xF9, 0x55, // LD [I] V9
        0xFA, 0x65, // LD V10 [I]
    ];
    let expected = "CLS\n\
                    RET\n\
                    JMP 291\n\
                    CALL 1110\n\
                    SE V10 127\n\
                    SNE V11 0\n\
                    SE V12 V13\n\
                    LD V14 255\n\
                    ADD V8 1\n\
                    LD V1 V2\n\
                    OR V3 V4\n\
                    AND V5 V6\n\
                    XOR V7 V8\n\
                    ADD V9 V10\n\
                    SUB V11 V12\n\
                    SHR V13\n\
                    SUBN V14 V15\n\
                    SHL V15\n\
                    SNE V10 V11\n\
                    LD I 512\n\
                    JMP V0 768\n\
                    RND V6 66\n\
                    DRW V7 V5 10\n\
                    SKP V0\n\
                    SKNP V1\n\
                    LD V2 DT\n\
                    LD V3 K\n\
                    LD DT V4\n\
                    LD ST V5\n\
                    ADD I V6\n\
                    LD F V7\n\
                    LD B V8\n\
                    LD [I] V9\n\
                    LD V10 [I]\n";
    assert_eq!(decode(bytes), expected);
}

#[test]
fn init_disasm_builds_a_fresh_decoder() {
    let mut d = init_disasm(vec![0x00, 0xE0], "out/listing.txt");
    assert_eq!(d.output_path(), "out/listing.txt");
    assert_eq!(d.text(), "");
    d.disasm();
    assert_eq!(d.text(), "CLS\n");
}

#[test]
fn disasm_on_exhausted_decoder_appends_nothing() {
    let mut d = Disassembler::new(vec![0x00, 0xE0], "listing.txt");
    d.disasm();
    d.disasm();
    assert_eq!(d.text(), "CLS\n");
}

#[test]
fn address_and_register_bounds_render_in_decimal() {
    // Smallest and largest 12-bit addresses, register 15, byte 0 and 255.
    assert_eq!(
        decode(vec![0x10, 0x00, 0x1F, 0xFF, 0x6F, 0x00, 0x6F, 0xFF]),
        "JMP 0\nJMP 4095\nLD V15 0\nLD V15 255\n"
    );
}
