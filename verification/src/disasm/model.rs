//! Mathematical model of the decoder.
//!
//! An opcode is the big-endian 16-bit word formed from two consecutive
//! bytes. Its four nibbles classify it against a fixed table; each table
//! row has a spec function giving the exact text of its rendered line,
//! and `line_of` is the total map from opcode to rendered line (empty
//! for an opcode no row matches). `disasm_from` folds `line_of` over
//! every complete two-byte window of a buffer.

use vstd::prelude::*;

verus! {

/// The character that renders a single decimal digit.
pub open spec fn digit_char(d: nat) -> char {
    if d == 0 {
        '0'
    } else if d == 1 {
        '1'
    } else if d == 2 {
        '2'
    } else if d == 3 {
        '3'
    } else if d == 4 {
        '4'
    } else if d == 5 {
        '5'
    } else if d == 6 {
        '6'
    } else if d == 7 {
        '7'
    } else if d == 8 {
        '8'
    } else {
        '9'
    }
}

/// Decimal rendering of a natural number, most significant digit first,
/// with no leading zeros (a lone `0` for zero).
pub open spec fn dec_str_spec(n: nat) -> Seq<char>
    decreases n,
{
    if n < 10 {
        seq![digit_char(n)]
    } else {
        dec_str_spec(n / 10).push(digit_char(n % 10))
    }
}

/// The big-endian opcode word at offset `pc`: high byte first.
pub open spec fn opcode_at(bytes: Seq<u8>, pc: int) -> u16 {
    (bytes[pc] * 256 + bytes[pc + 1]) as u16
}

/// Nibble 1: bits 15-12 of the opcode.
pub open spec fn nib1(op: u16) -> nat {
    op as nat / 0x1000
}

/// Nibble 2: bits 11-8 of the opcode (the `x` register index).
pub open spec fn nib2(op: u16) -> nat {
    (op as nat / 0x100) % 16
}

/// Nibble 3: bits 7-4 of the opcode (the `y` register index).
pub open spec fn nib3(op: u16) -> nat {
    (op as nat / 16) % 16
}

/// Nibble 4: bits 3-0 of the opcode.
pub open spec fn nib4(op: u16) -> nat {
    op as nat % 16
}

/// The 12-bit address literal: bits 11-0 of the opcode.
pub open spec fn addr_of(op: u16) -> nat {
    op as nat % 0x1000
}

/// The 8-bit immediate literal: bits 7-0 of the opcode.
pub open spec fn byte_of(op: u16) -> nat {
    op as nat % 256
}

pub open spec fn line_cls() -> Seq<char> {
    "CLS"@ + "\n"@
}

pub open spec fn line_ret() -> Seq<char> {
    "RET"@ + "\n"@
}

pub open spec fn line_jmp(nnn: nat) -> Seq<char> {
    "JMP "@ + dec_str_spec(nnn) + "\n"@
}

pub open spec fn line_call(nnn: nat) -> Seq<char> {
    "CALL "@ + dec_str_spec(nnn) + "\n"@
}

pub open spec fn line_se_v_byte(x: nat, kk: nat) -> Seq<char> {
    "SE V"@ + dec_str_spec(x) + " "@ + dec_str_spec(kk) + "\n"@
}

pub open spec fn line_sne_v_byte(x: nat, kk: nat) -> Seq<char> {
    "SNE V"@ + dec_str_spec(x) + " "@ + dec_str_spec(kk) + "\n"@
}

pub open spec fn line_se_v_v(x: nat, y: nat) -> Seq<char> {
    "SE V"@ + dec_str_spec(x) + " V"@ + dec_str_spec(y) + "\n"@
}

pub open spec fn line_ld_v_byte(x: nat, kk: nat) -> Seq<char> {
    "LD V"@ + dec_str_spec(x) + " "@ + dec_str_spec(kk) + "\n"@
}

pub open spec fn line_add_v_byte(x: nat, kk: nat) -> Seq<char> {
    "ADD V"@ + dec_str_spec(x) + " "@ + dec_str_spec(kk) + "\n"@
}

pub open spec fn line_ld_v_v(x: nat, y: nat) -> Seq<char> {
    "LD V"@ + dec_str_spec(x) + " V"@ + dec_str_spec(y) + "\n"@
}

pub open spec fn line_or_v_v(x: nat, y: nat) -> Seq<char> {
    "OR V"@ + dec_str_spec(x) + " V"@ + dec_str_spec(y) + "\n"@
}

pub open spec fn line_and_v_v(x: nat, y: nat) -> Seq<char> {
    "AND V"@ + dec_str_spec(x) + " V"@ + dec_str_spec(y) + "\n"@
}

pub open spec fn line_xor_v_v(x: nat, y: nat) -> Seq<char> {
    "XOR V"@ + dec_str_spec(x) + " V"@ + dec_str_spec(y) + "\n"@
}

pub open spec fn line_add_v_v(x: nat, y: nat) -> Seq<char> {
    "ADD V"@ + dec_str_spec(x) + " V"@ + dec_str_spec(y) + "\n"@
}

pub open spec fn line_sub_v_v(x: nat, y: nat) -> Seq<char> {
    "SUB V"@ + dec_str_spec(x) + " V"@ + dec_str_spec(y) + "\n"@
}

pub open spec fn line_shr_v(x: nat) -> Seq<char> {
    "SHR V"@ + dec_str_spec(x) + "\n"@
}

pub open spec fn line_subn_v_v(x: nat, y: nat) -> Seq<char> {
    "SUBN V"@ + dec_str_spec(x) + " V"@ + dec_str_spec(y) + "\n"@
}

pub open spec fn line_shl_v(x: nat) -> Seq<char> {
    "SHL V"@ + dec_str_spec(x) + "\n"@
}

pub open spec fn line_sne_v_v(x: nat, y: nat) -> Seq<char> {
    "SNE V"@ + dec_str_spec(x) + " V"@ + dec_str_spec(y) + "\n"@
}

pub open spec fn line_ld_i(nnn: nat) -> Seq<char> {
    "LD I "@ + dec_str_spec(nnn) + "\n"@
}

pub open spec fn line_jmp_v0(nnn: nat) -> Seq<char> {
    "JMP V0 "@ + dec_str_spec(nnn) + "\n"@
}

pub open spec fn line_rnd_v_byte(x: nat, kk: nat) -> Seq<char> {
    "RND V"@ + dec_str_spec(x) + " "@ + dec_str_spec(kk) + "\n"@
}

pub open spec fn line_drw(x: nat, y: nat, n: nat) -> Seq<char> {
    "DRW V"@ + dec_str_spec(x) + " V"@ + dec_str_spec(y) + " "@ + dec_str_spec(n) + "\n"@
}

pub open spec fn line_skp_v(x: nat) -> Seq<char> {
    "SKP V"@ + dec_str_spec(x) + "\n"@
}

pub open spec fn line_sknp_v(x: nat) -> Seq<char> {
    "SKNP V"@ + dec_str_spec(x) + "\n"@
}

pub open spec fn line_ld_v_dt(x: nat) -> Seq<char> {
    "LD V"@ + dec_str_spec(x) + " DT"@ + "\n"@
}

pub open spec fn line_ld_v_k(x: nat) -> Seq<char> {
    "LD V"@ + dec_str_spec(x) + " K"@ + "\n"@
}

pub open spec fn line_ld_dt_v(x: nat) -> Seq<char> {
    "LD DT V"@ + dec_str_spec(x) + "\n"@
}

pub open spec fn line_ld_st_v(x: nat) -> Seq<char> {
    "LD ST V"@ + dec_str_spec(x) + "\n"@
}

pub open spec fn line_add_i_v(x: nat) -> Seq<char> {
    "ADD I V"@ + dec_str_spec(x) + "\n"@
}

pub open spec fn line_ld_f_v(x: nat) -> Seq<char> {
    "LD F V"@ + dec_str_spec(x) + "\n"@
}

pub open spec fn line_ld_b_v(x: nat) -> Seq<char> {
    "LD B V"@ + dec_str_spec(x) + "\n"@
}

pub open spec fn line_ld_mem_v(x: nat) -> Seq<char> {
    "LD [I] V"@ + dec_str_spec(x) + "\n"@
}

pub open spec fn line_ld_v_mem(x: nat) -> Seq<char> {
    "LD V"@ + dec_str_spec(x) + " [I]"@ + "\n"@
}

/// The decode table: the rendered line for one opcode, or the empty
/// sequence when no row of the table matches its nibble pattern.
pub open spec fn line_of(op: u16) -> Seq<char> {
    let x = nib2(op);
    let y = nib3(op);
    let n = nib4(op);
    let nnn = addr_of(op);
    let kk = byte_of(op);
    if nib1(op) == 0x0 && x == 0x0 && y == 0xE && n == 0x0 {
        line_cls()
    } else if nib1(op) == 0x0 && x == 0x0 && y == 0xE && n == 0xE {
        line_ret()
    } else if nib1(op) == 0x1 {
        line_jmp(nnn)
    } else if nib1(op) == 0x2 {
        line_call(nnn)
    } else if nib1(op) == 0x3 {
        line_se_v_byte(x, kk)
    } else if nib1(op) == 0x4 {
        line_sne_v_byte(x, kk)
    } else if nib1(op) == 0x5 && n == 0x0 {
        line_se_v_v(x, y)
    } else if nib1(op) == 0x6 {
        line_ld_v_byte(x, kk)
    } else if nib1(op) == 0x7 {
        line_add_v_byte(x, kk)
    } else if nib1(op) == 0x8 && n == 0x0 {
        line_ld_v_v(x, y)
    } else if nib1(op) == 0x8 && n == 0x1 {
        line_or_v_v(x, y)
    } else if nib1(op) == 0x8 && n == 0x2 {
        line_and_v_v(x, y)
    } else if nib1(op) == 0x8 && n == 0x3 {
        line_xor_v_v(x, y)
    } else if nib1(op) == 0x8 && n == 0x4 {
        line_add_v_v(x, y)
    } else if nib1(op) == 0x8 && n == 0x5 {
        line_sub_v_v(x, y)
    } else if nib1(op) == 0x8 && n == 0x6 {
        line_shr_v(x)
    } else if nib1(op) == 0x8 && n == 0x7 {
        line_subn_v_v(x, y)
    } else if nib1(op) == 0x8 && n == 0xE {
        line_shl_v(x)
    } else if nib1(op) == 0x9 && n == 0x0 {
        line_sne_v_v(x, y)
    } else if nib1(op) == 0xA {
        line_ld_i(nnn)
    } else if nib1(op) == 0xB {
        line_jmp_v0(nnn)
    } else if nib1(op) == 0xC {
        line_rnd_v_byte(x, kk)
    } else if nib1(op) == 0xD {
        line_drw(x, y, n)
    } else if nib1(op) == 0xE && y == 0x9 && n == 0xE {
        line_skp_v(x)
    } else if nib1(op) == 0xE && y == 0xA && n == 0x1 {
        line_sknp_v(x)
    } else if nib1(op) == 0xF && y == 0x0 && n == 0x7 {
        line_ld_v_dt(x)
    } else if nib1(op) == 0xF && y == 0x0 && n == 0xA {
        line_ld_v_k(x)
    } else if nib1(op) == 0xF && y == 0x1 && n == 0x5 {
        line_ld_dt_v(x)
    } else if nib1(op) == 0xF && y == 0x1 && n == 0x8 {
        line_ld_st_v(x)
    } else if nib1(op) == 0xF && y == 0x1 && n == 0xE {
        line_add_i_v(x)
    } else if nib1(op) == 0xF && y == 0x2 && n == 0x9 {
        line_ld_f_v(x)
    } else if nib1(op) == 0xF && y == 0x3 && n == 0x3 {
        line_ld_b_v(x)
    } else if nib1(op) == 0xF && y == 0x5 && n == 0x5 {
        line_ld_mem_v(x)
    } else if nib1(op) == 0xF && y == 0x6 && n == 0x5 {
        line_ld_v_mem(x)
    } else {
        Seq::<char>::empty()
    }
}

/// The listing produced by decoding every complete two-byte window of
/// `bytes` from offset `pc` on: the concatenation, in increasing
/// program-counter order, of the rendered line of each window. A
/// trailing lone byte is never read.
pub open spec fn disasm_from(bytes: Seq<u8>, pc: int) -> Seq<char>
    decreases bytes.len() - pc
        when 0 <= pc
{
    if pc + 2 <= bytes.len() {
        line_of(opcode_at(bytes, pc)) + disasm_from(bytes, pc + 2)
    } else {
        Seq::<char>::empty()
    }
}

/// The full listing for a buffer, decoded from its start.
pub open spec fn disasm_spec(bytes: Seq<u8>) -> Seq<char> {
    disasm_from(bytes, 0)
}

} // verus!
