//! Convenience constructor for the decoder.

use vstd::prelude::*;

use crate::disasm::disassembler::Disassembler;

verus! {

pub fn init_disasm(bytes: Vec<u8>, output: &str) -> (d: Disassembler)
    ensures
        d.spec_bytes() == bytes@,
        d.spec_output() == output@,
        d.spec_pc() == 0,
        d.spec_text() == Seq::<char>::empty(),
        d.wf(),
{
    Disassembler::new(bytes, output)
}

} // verus!
