//! The decode driver. `Disassembler` owns the program buffer, the
//! destination path, the program counter, and the accumulated listing;
//! `disasm` walks the buffer two bytes at a time and appends the
//! rendered line of every opcode a table row matches. Writing the
//! listing out is the surrounding program's job.

use vstd::prelude::*;
use vstd::string::StringExecFns;

use crate::disasm::model::addr_of;
use crate::disasm::model::byte_of;
use crate::disasm::model::dec_str_spec;
use crate::disasm::model::disasm_from;
use crate::disasm::model::line_add_i_v;
use crate::disasm::model::line_add_v_byte;
use crate::disasm::model::line_add_v_v;
use crate::disasm::model::line_and_v_v;
use crate::disasm::model::line_call;
use crate::disasm::model::line_cls;
use crate::disasm::model::line_drw;
use crate::disasm::model::line_jmp;
use crate::disasm::model::line_jmp_v0;
use crate::disasm::model::line_ld_b_v;
use crate::disasm::model::line_ld_dt_v;
use crate::disasm::model::line_ld_f_v;
use crate::disasm::model::line_ld_i;
use crate::disasm::model::line_ld_mem_v;
use crate::disasm::model::line_ld_st_v;
use crate::disasm::model::line_ld_v_byte;
use crate::disasm::model::line_ld_v_dt;
use crate::disasm::model::line_ld_v_k;
use crate::disasm::model::line_ld_v_mem;
use crate::disasm::model::line_ld_v_v;
use crate::disasm::model::line_of;
use crate::disasm::model::line_or_v_v;
use crate::disasm::model::line_ret;
use crate::disasm::model::line_rnd_v_byte;
use crate::disasm::model::line_se_v_byte;
use crate::disasm::model::line_se_v_v;
use crate::disasm::model::line_shl_v;
use crate::disasm::model::line_shr_v;
use crate::disasm::model::line_sknp_v;
use crate::disasm::model::line_skp_v;
use crate::disasm::model::line_sne_v_byte;
use crate::disasm::model::line_sne_v_v;
use crate::disasm::model::line_sub_v_v;
use crate::disasm::model::line_subn_v_v;
use crate::disasm::model::line_xor_v_v;
use crate::disasm::model::opcode_at;
use crate::disasm::render::dec_str;

verus! {

pub struct Disassembler {
    bytes: Vec<u8>,
    output: String,
    pc: usize,
    disassembled: String,
}

/// Everything but the accumulated listing is unchanged.
spec fn frame(pre: Disassembler, post: Disassembler) -> bool {
    &&& post.bytes == pre.bytes
    &&& post.output == pre.output
    &&& post.pc == pre.pc
}

impl Disassembler {
    /// The program buffer being decoded.
    pub closed spec fn spec_bytes(&self) -> Seq<u8> {
        self.bytes@
    }

    /// The destination path handed in at construction.
    pub closed spec fn spec_output(&self) -> Seq<char> {
        self.output@
    }

    /// The byte offset of the next window to decode.
    pub closed spec fn spec_pc(&self) -> nat {
        self.pc as nat
    }

    /// The listing accumulated so far.
    pub closed spec fn spec_text(&self) -> Seq<char> {
        self.disassembled@
    }

    /// The program counter never points past the end of the buffer.
    pub open spec fn wf(&self) -> bool {
        self.spec_pc() <= self.spec_bytes().len()
    }

    pub fn new(bytes: Vec<u8>, output: &str) -> (d: Self)
        ensures
            d.spec_bytes() == bytes@,
            d.spec_output() == output@,
            d.spec_pc() == 0,
            d.spec_text() == Seq::<char>::empty(),
            d.wf(),
    {
        Disassembler {
            bytes,
            output: String::from_str(output),
            pc: 0,
            disassembled: String::new(),
        }
    }

    /// The big-endian opcode word at the current program counter.
    fn get_opcode(&self) -> (op: u16)
        requires
            self.spec_pc() + 2 <= self.spec_bytes().len(),
        ensures
            op == opcode_at(self.spec_bytes(), self.spec_pc() as int),
    {
        let len: usize = self.bytes.len();
        proof {
            assert(self.pc + 1 < len);
        }
        (self.bytes[self.pc] as u16) * 256 + (self.bytes[self.pc + 1] as u16)
    }

    /// Decode every complete two-byte window from the current program
    /// counter to the end of the buffer, appending one rendered line
    /// per matched opcode to the accumulated listing. A trailing lone
    /// byte is left unread and unconsumed.
    pub fn disasm(&mut self)
        requires
            old(self).wf(),
        ensures
            final(self).spec_text() == old(self).spec_text() + disasm_from(
                old(self).spec_bytes(),
                old(self).spec_pc() as int,
            ),
            final(self).spec_bytes() == old(self).spec_bytes(),
            final(self).spec_output() == old(self).spec_output(),
            final(self).wf(),
            final(self).spec_bytes().len() - final(self).spec_pc() < 2,
            old(self).spec_pc() <= final(self).spec_pc(),
            (final(self).spec_pc() - old(self).spec_pc()) % 2 == 0,
    {
        let ghost bytes0: Seq<u8> = self.bytes@;
        let ghost out0: Seq<char> = self.output@;
        let ghost text0: Seq<char> = self.disassembled@;
        let ghost pc0: int = self.pc as int;

        while self.bytes.len() - self.pc >= 2
            invariant
                self.bytes@ == bytes0,
                self.output@ == out0,
                self.pc <= self.bytes@.len(),
                text0 + disasm_from(bytes0, pc0) == self.disassembled@ + disasm_from(
                    bytes0,
                    self.pc as int,
                ),
                pc0 <= self.pc as int,
                (self.pc as int - pc0) % 2 == 0,
            decreases self.bytes@.len() - self.pc,
        {
            let ghost dis_pre: Seq<char> = self.disassembled@;
            let ghost pcg: int = self.pc as int;

            let opcode: u16 = self.get_opcode();

            let n1: u16 = opcode / 0x1000;
            let n2: u16 = (opcode / 0x100) % 16;
            let n3: u16 = (opcode / 16) % 16;
            let n4: u16 = opcode % 16;

            let nnn: usize = (opcode % 0x1000) as usize;
            let kk: u8 = (opcode % 256) as u8;
            let x: usize = n2 as usize;
            let y: usize = n3 as usize;
            let n: usize = n4 as usize;

            match (n1, n2, n3, n4) {
                (0x00, 0x00, 0x0e, 0x00) => self.op00e0(),
                (0x00, 0x00, 0x0e, 0x0e) => self.op00ee(),
                (0x01, _, _, _) => self.op1nnn(nnn),
                (0x02, _, _, _) => self.op2nnn(nnn),
                (0x03, _, _, _) => self.op3xkk(x, kk),
                (0x04, _, _, _) => self.op4xkk(x, kk),
                (0x05, _, _, 0x00) => self.op5xy0(x, y),
                (0x06, _, _, _) => self.op6xkk(x, kk),
                (0x07, _, _, _) => self.op7xkk(x, kk),
                (0x08, _, _, 0x00) => self.op8xy0(x, y),
                (0x08, _, _, 0x01) => self.op8xy1(x, y),
                (0x08, _, _, 0x02) => self.op8xy2(x, y),
                (0x08, _, _, 0x03) => self.op8xy3(x, y),
                (0x08, _, _, 0x04) => self.op8xy4(x, y),
                (0x08, _, _, 0x05) => self.op8xy5(x, y),
                (0x08, _, _, 0x06) => self.op8x06(x),
                (0x08, _, _, 0x07) => self.op8xy7(x, y),
                (0x08, _, _, 0x0e) => self.op8x0e(x),
                (0x09, _, _, 0x00) => self.op9xy0(x, y),
                (0x0a, _, _, _) => self.opannn(nnn),
                (0x0b, _, _, _) => self.opbnnn(nnn),
                (0x0c, _, _, _) => self.opcxkk(x, kk),
                (0x0d, _, _, _) => self.opdxyn(x, y, n),
                (0x0e, _, 0x09, 0x0e) => self.opex9e(x),
                (0x0e, _, 0x0a, 0x01) => self.opexa1(x),
                (0x0f, _, 0x00, 0x07) => self.opfx07(x),
                (0x0f, _, 0x00, 0x0a) => self.opfx0a(x),
                (0x0f, _, 0x01, 0x05) => self.opfx15(x),
                (0x0f, _, 0x01, 0x08) => self.opfx18(x),
                (0x0f, _, 0x01, 0x0e) => self.opfx1e(x),
                (0x0f, _, 0x02, 0x09) => self.opfx29(x),
                (0x0f, _, 0x03, 0x03) => self.opfx33(x),
                (0x0f, _, 0x05, 0x05) => self.opfx55(x),
                (0x0f, _, 0x06, 0x05) => self.opfx65(x),
                _ => (),
            }

            proof {
                assert(self.disassembled@ == dis_pre + line_of(opcode_at(bytes0, pcg)));
                assert((dis_pre + line_of(opcode_at(bytes0, pcg))) + disasm_from(bytes0, pcg + 2)
                    =~= dis_pre + (line_of(opcode_at(bytes0, pcg)) + disasm_from(bytes0, pcg + 2)));
            }

            self.pc = self.pc + 2;
        }

        proof {
            assert(disasm_from(bytes0, self.pc as int) =~= Seq::<char>::empty());
            assert(self.disassembled@ + Seq::<char>::empty() =~= self.disassembled@);
            assert(text0 + disasm_from(bytes0, pc0) =~= self.disassembled@);
        }
    }

    fn op00e0(&mut self)
        ensures
            final(self).disassembled@ == old(self).disassembled@ + line_cls(),
            frame(*old(self), *final(self)),
    {
        self.push_part("CLS");
        self.push_part("\n");
    }

    fn op00ee(&mut self)
        ensures
            final(self).disassembled@ == old(self).disassembled@ + line_ret(),
            frame(*old(self), *final(self)),
    {
        self.push_part("RET");
        self.push_part("\n");
    }

    fn op1nnn(&mut self, nnn: usize)
        requires
            nnn < 0x1000,
        ensures
            final(self).disassembled@ == old(self).disassembled@ + line_jmp(nnn as nat),
            frame(*old(self), *final(self)),
    {
        self.push_part("JMP ");
        self.push_dec(nnn as u16);
        self.push_part("\n");
    }

    fn op2nnn(&mut self, nnn: usize)
        requires
            nnn < 0x1000,
        ensures
            final(self).disassembled@ == old(self).disassembled@ + line_call(nnn as nat),
            frame(*old(self), *final(self)),
    {
        self.push_part("CALL ");
        self.push_dec(nnn as u16);
        self.push_part("\n");
    }

    fn op3xkk(&mut self, x: usize, kk: u8)
        requires
            x < 16,
        ensures
            final(self).disassembled@ == old(self).disassembled@ + line_se_v_byte(
                x as nat,
                kk as nat,
            ),
            frame(*old(self), *final(self)),
    {
        self.push_part("SE V");
        self.push_dec(x as u16);
        self.push_part(" ");
        self.push_dec(kk as u16);
        self.push_part("\n");
    }

    fn op4xkk(&mut self, x: usize, kk: u8)
        requires
            x < 16,
        ensures
            final(self).disassembled@ == old(self).disassembled@ + line_sne_v_byte(
                x as nat,
                kk as nat,
            ),
            frame(*old(self), *final(self)),
    {
        self.push_part("SNE V");
        self.push_dec(x as u16);
        self.push_part(" ");
        self.push_dec(kk as u16);
        self.push_part("\n");
    }

    fn op5xy0(&mut self, x: usize, y: usize)
        requires
            x < 16,
            y < 16,
        ensures
            final(self).disassembled@ == old(self).disassembled@ + line_se_v_v(x as nat, y as nat),
            frame(*old(self), *final(self)),
    {
        self.push_part("SE V");
        self.push_dec(x as u16);
        self.push_part(" V");
        self.push_dec(y as u16);
        self.push_part("\n");
    }

    fn op6xkk(&mut self, x: usize, kk: u8)
        requires
            x < 16,
        ensures
            final(self).disassembled@ == old(self).disassembled@ + line_ld_v_byte(
                x as nat,
                kk as nat,
            ),
            frame(*old(self), *final(self)),
    {
        self.push_part("LD V");
        self.push_dec(x as u16);
        self.push_part(" ");
        self.push_dec(kk as u16);
        self.push_part("\n");
    }

    fn op7xkk(&mut self, x: usize, kk: u8)
        requires
            x < 16,
        ensures
            final(self).disassembled@ == old(self).disassembled@ + line_add_v_byte(
                x as nat,
                kk as nat,
            ),
            frame(*old(self), *final(self)),
    {
        self.push_part("ADD V");
        self.push_dec(x as u16);
        self.push_part(" ");
        self.push_dec(kk as u16);
        self.push_part("\n");
    }

    fn op8xy0(&mut self, x: usize, y: usize)
        requires
            x < 16,
            y < 16,
        ensures
            final(self).disassembled@ == old(self).disassembled@ + line_ld_v_v(x as nat, y as nat),
            frame(*old(self), *final(self)),
    {
        self.push_part("LD V");
        self.push_dec(x as u16);
        self.push_part(" V");
        self.push_dec(y as u16);
        self.push_part("\n");
    }

    fn op8xy1(&mut self, x: usize, y: usize)
        requires
            x < 16,
            y < 16,
        ensures
            final(self).disassembled@ == old(self).disassembled@ + line_or_v_v(x as nat, y as nat),
            frame(*old(self), *final(self)),
    {
        self.push_part("OR V");
        self.push_dec(x as u16);
        self.push_part(" V");
        self.push_dec(y as u16);
        self.push_part("\n");
    }

    fn op8xy2(&mut self, x: usize, y: usize)
        requires
            x < 16,
            y < 16,
        ensures
            final(self).disassembled@ == old(self).disassembled@ + line_and_v_v(x as nat, y as nat),
            frame(*old(self), *final(self)),
    {
        self.push_part("AND V");
        self.push_dec(x as u16);
        self.push_part(" V");
        self.push_dec(y as u16);
        self.push_part("\n");
    }

    fn op8xy3(&mut self, x: usize, y: usize)
        requires
            x < 16,
            y < 16,
        ensures
            final(self).disassembled@ == old(self).disassembled@ + line_xor_v_v(x as nat, y as nat),
            frame(*old(self), *final(self)),
    {
        self.push_part("XOR V");
        self.push_dec(x as u16);
        self.push_part(" V");
        self.push_dec(y as u16);
        self.push_part("\n");
    }

    fn op8xy4(&mut self, x: usize, y: usize)
        requires
            x < 16,
            y < 16,
        ensures
            final(self).disassembled@ == old(self).disassembled@ + line_add_v_v(x as nat, y as nat),
            frame(*old(self), *final(self)),
    {
        self.push_part("ADD V");
        self.push_dec(x as u16);
        self.push_part(" V");
        self.push_dec(y as u16);
        self.push_part("\n");
    }

    fn op8xy5(&mut self, x: usize, y: usize)
        requires
            x < 16,
            y < 16,
        ensures
            final(self).disassembled@ == old(self).disassembled@ + line_sub_v_v(x as nat, y as nat),
            frame(*old(self), *final(self)),
    {
        self.push_part("SUB V");
        self.push_dec(x as u16);
        self.push_part(" V");
        self.push_dec(y as u16);
        self.push_part("\n");
    }

    fn op8x06(&mut self, x: usize)
        requires
            x < 16,
        ensures
            final(self).disassembled@ == old(self).disassembled@ + line_shr_v(x as nat),
            frame(*old(self), *final(self)),
    {
        self.push_part("SHR V");
        self.push_dec(x as u16);
        self.push_part("\n");
    }

    fn op8xy7(&mut self, x: usize, y: usize)
        requires
            x < 16,
            y < 16,
        ensures
            final(self).disassembled@ == old(self).disassembled@ + line_subn_v_v(
                x as nat,
                y as nat,
            ),
            frame(*old(self), *final(self)),
    {
        self.push_part("SUBN V");
        self.push_dec(x as u16);
        self.push_part(" V");
        self.push_dec(y as u16);
        self.push_part("\n");
    }

    fn op8x0e(&mut self, x: usize)
        requires
            x < 16,
        ensures
            final(self).disassembled@ == old(self).disassembled@ + line_shl_v(x as nat),
            frame(*old(self), *final(self)),
    {
        self.push_part("SHL V");
        self.push_dec(x as u16);
        self.push_part("\n");
    }

    fn op9xy0(&mut self, x: usize, y: usize)
        requires
            x < 16,
            y < 16,
        ensures
            final(self).disassembled@ == old(self).disassembled@ + line_sne_v_v(x as nat, y as nat),
            frame(*old(self), *final(self)),
    {
        self.push_part("SNE V");
        self.push_dec(x as u16);
        self.push_part(" V");
        self.push_dec(y as u16);
        self.push_part("\n");
    }

    fn opannn(&mut self, nnn: usize)
        requires
            nnn < 0x1000,
        ensures
            final(self).disassembled@ == old(self).disassembled@ + line_ld_i(nnn as nat),
            frame(*old(self), *final(self)),
    {
        self.push_part("LD I ");
        self.push_dec(nnn as u16);
        self.push_part("\n");
    }

    fn opbnnn(&mut self, nnn: usize)
        requires
            nnn < 0x1000,
        ensures
            final(self).disassembled@ == old(self).disassembled@ + line_jmp_v0(nnn as nat),
            frame(*old(self), *final(self)),
    {
        self.push_part("JMP V0 ");
        self.push_dec(nnn as u16);
        self.push_part("\n");
    }

    fn opcxkk(&mut self, x: usize, kk: u8)
        requires
            x < 16,
        ensures
            final(self).disassembled@ == old(self).disassembled@ + line_rnd_v_byte(
                x as nat,
                kk as nat,
            ),
            frame(*old(self), *final(self)),
    {
        self.push_part("RND V");
        self.push_dec(x as u16);
        self.push_part(" ");
        self.push_dec(kk as u16);
        self.push_part("\n");
    }

    fn opdxyn(&mut self, x: usize, y: usize, n: usize)
        requires
            x < 16,
            y < 16,
            n < 16,
        ensures
            final(self).disassembled@ == old(self).disassembled@ + line_drw(
                x as nat,
                y as nat,
                n as nat,
            ),
            frame(*old(self), *final(self)),
    {
        self.push_part("DRW V");
        self.push_dec(x as u16);
        self.push_part(" V");
        self.push_dec(y as u16);
        self.push_part(" ");
        self.push_dec(n as u16);
        self.push_part("\n");
    }

    fn opex9e(&mut self, x: usize)
        requires
            x < 16,
        ensures
            final(self).disassembled@ == old(self).disassembled@ + line_skp_v(x as nat),
            frame(*old(self), *final(self)),
    {
        self.push_part("SKP V");
        self.push_dec(x as u16);
        self.push_part("\n");
    }

    fn opexa1(&mut self, x: usize)
        requires
            x < 16,
        ensures
            final(self).disassembled@ == old(self).disassembled@ + line_sknp_v(x as nat),
            frame(*old(self), *final(self)),
    {
        self.push_part("SKNP V");
        self.push_dec(x as u16);
        self.push_part("\n");
    }

    fn opfx07(&mut self, x: usize)
        requires
            x < 16,
        ensures
            final(self).disassembled@ == old(self).disassembled@ + line_ld_v_dt(x as nat),
            frame(*old(self), *final(self)),
    {
        self.push_part("LD V");
        self.push_dec(x as u16);
        self.push_part(" DT");
        self.push_part("\n");
    }

    fn opfx0a(&mut self, x: usize)
        requires
            x < 16,
        ensures
            final(self).disassembled@ == old(self).disassembled@ + line_ld_v_k(x as nat),
            frame(*old(self), *final(self)),
    {
        self.push_part("LD V");
        self.push_dec(x as u16);
        self.push_part(" K");
        self.push_part("\n");
    }

    fn opfx15(&mut self, x: usize)
        requires
            x < 16,
        ensures
            final(self).disassembled@ == old(self).disassembled@ + line_ld_dt_v(x as nat),
            frame(*old(self), *final(self)),
    {
        self.push_part("LD DT V");
        self.push_dec(x as u16);
        self.push_part("\n");
    }

    fn opfx18(&mut self, x: usize)
        requires
            x < 16,
        ensures
            final(self).disassembled@ == old(self).disassembled@ + line_ld_st_v(x as nat),
            frame(*old(self), *final(self)),
    {
        self.push_part("LD ST V");
        self.push_dec(x as u16);
        self.push_part("\n");
    }

    fn opfx1e(&mut self, x: usize)
        requires
            x < 16,
        ensures
            final(self).disassembled@ == old(self).disassembled@ + line_add_i_v(x as nat),
            frame(*old(self), *final(self)),
    {
        self.push_part("ADD I V");
        self.push_dec(x as u16);
        self.push_part("\n");
    }

    fn opfx29(&mut self, x: usize)
        requires
            x < 16,
        ensures
            final(self).disassembled@ == old(self).disassembled@ + line_ld_f_v(x as nat),
            frame(*old(self), *final(self)),
    {
        self.push_part("LD F V");
        self.push_dec(x as u16);
        self.push_part("\n");
    }

    fn opfx33(&mut self, x: usize)
        requires
            x < 16,
        ensures
            final(self).disassembled@ == old(self).disassembled@ + line_ld_b_v(x as nat),
            frame(*old(self), *final(self)),
    {
        self.push_part("LD B V");
        self.push_dec(x as u16);
        self.push_part("\n");
    }

    fn opfx55(&mut self, x: usize)
        requires
            x < 16,
        ensures
            final(self).disassembled@ == old(self).disassembled@ + line_ld_mem_v(x as nat),
            frame(*old(self), *final(self)),
    {
        self.push_part("LD [I] V");
        self.push_dec(x as u16);
        self.push_part("\n");
    }

    fn opfx65(&mut self, x: usize)
        requires
            x < 16,
        ensures
            final(self).disassembled@ == old(self).disassembled@ + line_ld_v_mem(x as nat),
            frame(*old(self), *final(self)),
    {
        self.push_part("LD V");
        self.push_dec(x as u16);
        self.push_part(" [I]");
        self.push_part("\n");
    }

    /// The listing accumulated so far, as text.
    pub fn text(&self) -> (r: &str)
        ensures
            r@ == self.spec_text(),
    {
        self.disassembled.as_str()
    }

    /// The destination path handed in at construction.
    pub fn output_path(&self) -> (r: &str)
        ensures
            r@ == self.spec_output(),
    {
        self.output.as_str()
    }

    /// Whether a lone trailing byte remains before the end of the
    /// buffer: too short for an opcode, so never decoded.
    pub fn truncated(&self) -> (b: bool)
        ensures
            b == (self.spec_pc() < self.spec_bytes().len()),
    {
        self.pc < self.bytes.len()
    }

    /// Append a fixed fragment to the listing.
    fn push_part(&mut self, s: &str)
        ensures
            final(self).disassembled@ == old(self).disassembled@ + s@,
            frame(*old(self), *final(self)),
    {
        self.disassembled.append(s);
    }

    /// Append the decimal rendering of an operand to the listing.
    fn push_dec(&mut self, n: u16)
        ensures
            final(self).disassembled@ == old(self).disassembled@ + dec_str_spec(n as nat),
            frame(*old(self), *final(self)),
    {
        let s: String = dec_str(n);
        self.disassembled.append(s.as_str());
    }
}

} // verus!
