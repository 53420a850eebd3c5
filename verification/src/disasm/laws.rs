//! Global properties of the decoder, proved over the model: one
//! newline-terminated line per matched window, order preservation,
//! determinism, and the shape of a table row's rendering.

use vstd::prelude::*;
use vstd::seq_lib::*;

use crate::disasm::model::addr_of;
use crate::disasm::model::byte_of;
use crate::disasm::model::dec_str_spec;
use crate::disasm::model::digit_char;
use crate::disasm::model::disasm_from;
use crate::disasm::model::disasm_spec;
use crate::disasm::model::line_add_i_v;
use crate::disasm::model::line_add_v_byte;
use crate::disasm::model::line_add_v_v;
use crate::disasm::model::line_and_v_v;
use crate::disasm::model::line_call;
use crate::disasm::model::line_cls;
use crate::disasm::model::line_drw;
use crate::disasm::model::line_jmp;
use crate::disasm::model::line_jmp_v0;
use crate::disasm::model::line_ld_b_v;
use crate::disasm::model::line_ld_dt_v;
use crate::disasm::model::line_ld_f_v;
use crate::disasm::model::line_ld_i;
use crate::disasm::model::line_ld_mem_v;
use crate::disasm::model::line_ld_st_v;
use crate::disasm::model::line_ld_v_byte;
use crate::disasm::model::line_ld_v_dt;
use crate::disasm::model::line_ld_v_k;
use crate::disasm::model::line_ld_v_mem;
use crate::disasm::model::line_ld_v_v;
use crate::disasm::model::line_of;
use crate::disasm::model::line_or_v_v;
use crate::disasm::model::line_ret;
use crate::disasm::model::line_rnd_v_byte;
use crate::disasm::model::line_se_v_byte;
use crate::disasm::model::line_se_v_v;
use crate::disasm::model::line_shl_v;
use crate::disasm::model::line_shr_v;
use crate::disasm::model::line_sknp_v;
use crate::disasm::model::line_skp_v;
use crate::disasm::model::line_sne_v_byte;
use crate::disasm::model::line_sne_v_v;
use crate::disasm::model::line_sub_v_v;
use crate::disasm::model::line_subn_v_v;
use crate::disasm::model::line_xor_v_v;
use crate::disasm::model::nib1;
use crate::disasm::model::nib2;
use crate::disasm::model::nib3;
use crate::disasm::model::nib4;
use crate::disasm::model::opcode_at;

verus! {

/// How many newline characters a piece of text holds. Every rendered
/// instruction line ends in exactly one newline, so this is the number
/// of lines in a listing.
pub open spec fn count_nl(s: Seq<char>) -> nat
    decreases s.len(),
{
    if s.len() == 0 {
        0
    } else {
        (if s[0] == '\n' {
            1nat
        } else {
            0nat
        }) + count_nl(s.drop_first())
    }
}

/// No character of `s` is a newline.
pub open spec fn nl_free(s: Seq<char>) -> bool {
    forall|i: int| 0 <= i < s.len() ==> s[i] != '\n'
}

/// How many two-byte windows of `bytes`, from offset `pc` on, hold an
/// opcode that some table row matches.
pub open spec fn matched_from(bytes: Seq<u8>, pc: int) -> nat
    decreases bytes.len() - pc
        when 0 <= pc
{
    if pc + 2 <= bytes.len() {
        (if line_of(opcode_at(bytes, pc)) == Seq::<char>::empty() {
            0nat
        } else {
            1nat
        }) + matched_from(bytes, pc + 2)
    } else {
        0
    }
}

/// The lines of the listing, one per complete two-byte window, in
/// increasing program-counter order.
pub open spec fn lines_from(bytes: Seq<u8>, pc: int) -> Seq<Seq<char>>
    decreases bytes.len() - pc
        when 0 <= pc
{
    if pc + 2 <= bytes.len() {
        seq![line_of(opcode_at(bytes, pc))] + lines_from(bytes, pc + 2)
    } else {
        Seq::<Seq<char>>::empty()
    }
}

proof fn lemma_count_nl_add(a: Seq<char>, b: Seq<char>)
    ensures
        count_nl(a + b) == count_nl(a) + count_nl(b),
    decreases a.len(),
{
    if a.len() == 0 {
        assert(a + b =~= b);
    } else {
        assert((a + b).drop_first() =~= a.drop_first() + b);
        assert((a + b)[0] == a[0]);
        lemma_count_nl_add(a.drop_first(), b);
    }
}

proof fn lemma_nl_free_count(s: Seq<char>)
    requires
        nl_free(s),
    ensures
        count_nl(s) == 0,
    decreases s.len(),
{
    if s.len() > 0 {
        assert forall|i: int| 0 <= i < s.drop_first().len() implies s.drop_first()[i] != '\n' by {
            assert(s.drop_first()[i] == s[i + 1]);
        }
        lemma_nl_free_count(s.drop_first());
    }
}

proof fn lemma_nl_free_add(a: Seq<char>, b: Seq<char>)
    requires
        nl_free(a),
        nl_free(b),
    ensures
        nl_free(a + b),
{
    assert forall|i: int| 0 <= i < (a + b).len() implies (a + b)[i] != '\n' by {
        if i < a.len() {
            assert((a + b)[i] == a[i]);
        } else {
            assert((a + b)[i] == b[i - a.len()]);
        }
    }
}

/// Decimal renderings hold digits only, never a newline.
proof fn lemma_dec_nl_free(n: nat)
    ensures
        nl_free(dec_str_spec(n)),
    decreases n,
{
    if n < 10 {
        assert(digit_char(n) != '\n');
    } else {
        lemma_dec_nl_free(n / 10);
        assert forall|i: int| 0 <= i < dec_str_spec(n).len() implies dec_str_spec(n)[i] != '\n' by {
            if i < dec_str_spec(n / 10).len() {
                assert(dec_str_spec(n)[i] == dec_str_spec(n / 10)[i]);
            } else {
                assert(dec_str_spec(n)[i] == digit_char(n % 10));
            }
        }
    }
}

proof fn lemma_count_nl_newline()
    ensures
        count_nl("\n"@) == 1,
{
    reveal_strlit("\n");
    assert("\n"@.drop_first().len() == 0);
    assert(count_nl("\n"@.drop_first()) == 0);
}

/// A newline-free body followed by one newline is one line.
proof fn lemma_body_line(a: Seq<char>)
    requires
        nl_free(a),
    ensures
        count_nl(a + "\n"@) == 1,
        (a + "\n"@).len() > 0,
{
    reveal_strlit("\n");
    lemma_count_nl_add(a, "\n"@);
    lemma_nl_free_count(a);
    lemma_count_nl_newline();
}

proof fn lemma_shape1(m: Seq<char>, a: nat)
    requires
        nl_free(m),
    ensures
        count_nl((m + dec_str_spec(a)) + "\n"@) == 1,
        ((m + dec_str_spec(a)) + "\n"@).len() > 0,
{
    lemma_dec_nl_free(a);
    lemma_nl_free_add(m, dec_str_spec(a));
    lemma_body_line(m + dec_str_spec(a));
}

proof fn lemma_shape2(m1: Seq<char>, a: nat, m2: Seq<char>, b: nat)
    requires
        nl_free(m1),
        nl_free(m2),
    ensures
        count_nl((((m1 + dec_str_spec(a)) + m2) + dec_str_spec(b)) + "\n"@) == 1,
        ((((m1 + dec_str_spec(a)) + m2) + dec_str_spec(b)) + "\n"@).len() > 0,
{
    lemma_dec_nl_free(a);
    lemma_dec_nl_free(b);
    lemma_nl_free_add(m1, dec_str_spec(a));
    lemma_nl_free_add(m1 + dec_str_spec(a), m2);
    lemma_nl_free_add((m1 + dec_str_spec(a)) + m2, dec_str_spec(b));
    lemma_body_line(((m1 + dec_str_spec(a)) + m2) + dec_str_spec(b));
}

proof fn lemma_shape2_tail(m1: Seq<char>, a: nat, m2: Seq<char>)
    requires
        nl_free(m1),
        nl_free(m2),
    ensures
        count_nl(((m1 + dec_str_spec(a)) + m2) + "\n"@) == 1,
        (((m1 + dec_str_spec(a)) + m2) + "\n"@).len() > 0,
{
    lemma_dec_nl_free(a);
    lemma_nl_free_add(m1, dec_str_spec(a));
    lemma_nl_free_add(m1 + dec_str_spec(a), m2);
    lemma_body_line((m1 + dec_str_spec(a)) + m2);
}

proof fn lemma_shape3(m1: Seq<char>, a: nat, m2: Seq<char>, b: nat, m3: Seq<char>, c: nat)
    requires
        nl_free(m1),
        nl_free(m2),
        nl_free(m3),
    ensures
        count_nl(
            (((((m1 + dec_str_spec(a)) + m2) + dec_str_spec(b)) + m3) + dec_str_spec(c)) + "\n"@,
        ) == 1,
        ((((((m1 + dec_str_spec(a)) + m2) + dec_str_spec(b)) + m3) + dec_str_spec(c))
            + "\n"@).len() > 0,
{
    lemma_dec_nl_free(a);
    lemma_dec_nl_free(b);
    lemma_dec_nl_free(c);
    lemma_nl_free_add(m1, dec_str_spec(a));
    lemma_nl_free_add(m1 + dec_str_spec(a), m2);
    lemma_nl_free_add((m1 + dec_str_spec(a)) + m2, dec_str_spec(b));
    lemma_nl_free_add(((m1 + dec_str_spec(a)) + m2) + dec_str_spec(b), m3);
    lemma_nl_free_add((((m1 + dec_str_spec(a)) + m2) + dec_str_spec(b)) + m3, dec_str_spec(c));
    lemma_body_line((((m1 + dec_str_spec(a)) + m2) + dec_str_spec(b)) + m3 + dec_str_spec(c));
}

/// The rendered line of a matched opcode holds exactly one newline; an
/// unmatched opcode renders nothing.
pub proof fn lemma_line_nl(op: u16)
    ensures
        count_nl(line_of(op)) == (if line_of(op) == Seq::<char>::empty() {
            0nat
        } else {
            1nat
        }),
        line_of(op) != Seq::<char>::empty() ==> line_of(op).len() > 0,
{
    let x = nib2(op);
    let y = nib3(op);
    let n = nib4(op);
    let nnn = addr_of(op);
    let kk = byte_of(op);
    if nib1(op) == 0x0 && x == 0x0 && y == 0xE && n == 0x0 {
        reveal_strlit("CLS");
        assert(nl_free("CLS"@));
        lemma_body_line("CLS"@);
    } else if nib1(op) == 0x0 && x == 0x0 && y == 0xE && n == 0xE {
        reveal_strlit("RET");
        assert(nl_free("RET"@));
        lemma_body_line("RET"@);
    } else if nib1(op) == 0x1 {
        reveal_strlit("JMP ");
        assert(nl_free("JMP "@));
        lemma_shape1("JMP "@, nnn);
    } else if nib1(op) == 0x2 {
        reveal_strlit("CALL ");
        assert(nl_free("CALL "@));
        lemma_shape1("CALL "@, nnn);
    } else if nib1(op) == 0x3 {
        reveal_strlit("SE V");
        reveal_strlit(" ");
        assert(nl_free("SE V"@) && nl_free(" "@));
        lemma_shape2("SE V"@, x, " "@, kk);
    } else if nib1(op) == 0x4 {
        reveal_strlit("SNE V");
        reveal_strlit(" ");
        assert(nl_free("SNE V"@) && nl_free(" "@));
        lemma_shape2("SNE V"@, x, " "@, kk);
    } else if nib1(op) == 0x5 && n == 0x0 {
        reveal_strlit("SE V");
        reveal_strlit(" V");
        assert(nl_free("SE V"@) && nl_free(" V"@));
        lemma_shape2("SE V"@, x, " V"@, y);
    } else if nib1(op) == 0x6 {
        reveal_strlit("LD V");
        reveal_strlit(" ");
        assert(nl_free("LD V"@) && nl_free(" "@));
        lemma_shape2("LD V"@, x, " "@, kk);
    } else if nib1(op) == 0x7 {
        reveal_strlit("ADD V");
        reveal_strlit(" ");
        assert(nl_free("ADD V"@) && nl_free(" "@));
        lemma_shape2("ADD V"@, x, " "@, kk);
    } else if nib1(op) == 0x8 && n == 0x0 {
        reveal_strlit("LD V");
        reveal_strlit(" V");
        assert(nl_free("LD V"@) && nl_free(" V"@));
        lemma_shape2("LD V"@, x, " V"@, y);
    } else if nib1(op) == 0x8 && n == 0x1 {
        reveal_strlit("OR V");
        reveal_strlit(" V");
        assert(nl_free("OR V"@) && nl_free(" V"@));
        lemma_shape2("OR V"@, x, " V"@, y);
    } else if nib1(op) == 0x8 && n == 0x2 {
        reveal_strlit("AND V");
        reveal_strlit(" V");
        assert(nl_free("AND V"@) && nl_free(" V"@));
        lemma_shape2("AND V"@, x, " V"@, y);
    } else if nib1(op) == 0x8 && n == 0x3 {
        reveal_strlit("XOR V");
        reveal_strlit(" V");
        assert(nl_free("XOR V"@) && nl_free(" V"@));
        lemma_shape2("XOR V"@, x, " V"@, y);
    } else if nib1(op) == 0x8 && n == 0x4 {
        reveal_strlit("ADD V");
        reveal_strlit(" V");
        assert(nl_free("ADD V"@) && nl_free(" V"@));
        lemma_shape2("ADD V"@, x, " V"@, y);
    } else if nib1(op) == 0x8 && n == 0x5 {
        reveal_strlit("SUB V");
        reveal_strlit(" V");
        assert(nl_free("SUB V"@) && nl_free(" V"@));
        lemma_shape2("SUB V"@, x, " V"@, y);
    } else if nib1(op) == 0x8 && n == 0x6 {
        reveal_strlit("SHR V");
        assert(nl_free("SHR V"@));
        lemma_shape1("SHR V"@, x);
    } else if nib1(op) == 0x8 && n == 0x7 {
        reveal_strlit("SUBN V");
        reveal_strlit(" V");
        assert(nl_free("SUBN V"@) && nl_free(" V"@));
        lemma_shape2("SUBN V"@, x, " V"@, y);
    } else if nib1(op) == 0x8 && n == 0xE {
        reveal_strlit("SHL V");
        assert(nl_free("SHL V"@));
        lemma_shape1("SHL V"@, x);
    } else if nib1(op) == 0x9 && n == 0x0 {
        reveal_strlit("SNE V");
        reveal_strlit(" V");
        assert(nl_free("SNE V"@) && nl_free(" V"@));
        lemma_shape2("SNE V"@, x, " V"@, y);
    } else if nib1(op) == 0xA {
        reveal_strlit("LD I ");
        assert(nl_free("LD I "@));
        lemma_shape1("LD I "@, nnn);
    } else if nib1(op) == 0xB {
        reveal_strlit("JMP V0 ");
        assert(nl_free("JMP V0 "@));
        lemma_shape1("JMP V0 "@, nnn);
    } else if nib1(op) == 0xC {
        reveal_strlit("RND V");
        reveal_strlit(" ");
        assert(nl_free("RND V"@) && nl_free(" "@));
        lemma_shape2("RND V"@, x, " "@, kk);
    } else if nib1(op) == 0xD {
        reveal_strlit("DRW V");
        reveal_strlit(" V");
        reveal_strlit(" ");
        assert(nl_free("DRW V"@) && nl_free(" V"@) && nl_free(" "@));
        lemma_shape3("DRW V"@, x, " V"@, y, " "@, n);
    } else if nib1(op) == 0xE && y == 0x9 && n == 0xE {
        reveal_strlit("SKP V");
        assert(nl_free("SKP V"@));
        lemma_shape1("SKP V"@, x);
    } else if nib1(op) == 0xE && y == 0xA && n == 0x1 {
        reveal_strlit("SKNP V");
        assert(nl_free("SKNP V"@));
        lemma_shape1("SKNP V"@, x);
    } else if nib1(op) == 0xF && y == 0x0 && n == 0x7 {
        reveal_strlit("LD V");
        reveal_strlit(" DT");
        assert(nl_free("LD V"@) && nl_free(" DT"@));
        lemma_shape2_tail("LD V"@, x, " DT"@);
    } else if nib1(op) == 0xF && y == 0x0 && n == 0xA {
        reveal_strlit("LD V");
        reveal_strlit(" K");
        assert(nl_free("LD V"@) && nl_free(" K"@));
        lemma_shape2_tail("LD V"@, x, " K"@);
    } else if nib1(op) == 0xF && y == 0x1 && n == 0x5 {
        reveal_strlit("LD DT V");
        assert(nl_free("LD DT V"@));
        lemma_shape1("LD DT V"@, x);
    } else if nib1(op) == 0xF && y == 0x1 && n == 0x8 {
        reveal_strlit("LD ST V");
        assert(nl_free("LD ST V"@));
        lemma_shape1("LD ST V"@, x);
    } else if nib1(op) == 0xF && y == 0x1 && n == 0xE {
        reveal_strlit("ADD I V");
        assert(nl_free("ADD I V"@));
        lemma_shape1("ADD I V"@, x);
    } else if nib1(op) == 0xF && y == 0x2 && n == 0x9 {
        reveal_strlit("LD F V");
        assert(nl_free("LD F V"@));
        lemma_shape1("LD F V"@, x);
    } else if nib1(op) == 0xF && y == 0x3 && n == 0x3 {
        reveal_strlit("LD B V");
        assert(nl_free("LD B V"@));
        lemma_shape1("LD B V"@, x);
    } else if nib1(op) == 0xF && y == 0x5 && n == 0x5 {
        reveal_strlit("LD [I] V");
        assert(nl_free("LD [I] V"@));
        lemma_shape1("LD [I] V"@, x);
    } else if nib1(op) == 0xF && y == 0x6 && n == 0x5 {
        reveal_strlit("LD V");
        reveal_strlit(" [I]");
        assert(nl_free("LD V"@) && nl_free(" [I]"@));
        lemma_shape2_tail("LD V"@, x, " [I]"@);
    } else {
        assert(line_of(op) == Seq::<char>::empty());
    }
}

/// Law: the listing holds exactly one newline-terminated line per
/// two-byte window whose opcode a table row matches; unmatched windows
/// contribute no line.
pub proof fn lemma_line_count(bytes: Seq<u8>, pc: int)
    requires
        0 <= pc,
    ensures
        count_nl(disasm_from(bytes, pc)) == matched_from(bytes, pc),
    decreases bytes.len() - pc,
{
    if pc + 2 <= bytes.len() {
        let op = opcode_at(bytes, pc);
        lemma_line_nl(op);
        lemma_count_nl_add(line_of(op), disasm_from(bytes, pc + 2));
        lemma_line_count(bytes, pc + 2);
    }
}

/// Law: order preservation. The listing is the concatenation, in
/// strictly increasing program-counter order, of the rendered line of
/// each complete two-byte window: line `k` of the window sequence is
/// the rendering of the opcode at offset `pc + 2 * k`.
pub proof fn lemma_order(bytes: Seq<u8>, pc: int)
    requires
        0 <= pc <= bytes.len(),
    ensures
        disasm_from(bytes, pc) == lines_from(bytes, pc).flatten(),
        lines_from(bytes, pc).len() == (bytes.len() - pc) / 2,
        forall|k: int|
            0 <= k < lines_from(bytes, pc).len() ==> lines_from(bytes, pc)[k] == line_of(
                opcode_at(bytes, pc + 2 * k),
            ),
    decreases bytes.len() - pc,
{
    let lines = lines_from(bytes, pc);
    if pc + 2 <= bytes.len() {
        lemma_order(bytes, pc + 2);
        let rest = lines_from(bytes, pc + 2);
        assert(lines.drop_first() =~= rest);
        assert(lines.first() == line_of(opcode_at(bytes, pc)));
        assert(lines.flatten() == lines.first() + lines.drop_first().flatten());
        assert forall|k: int| 0 <= k < lines.len() implies lines[k] == line_of(
            opcode_at(bytes, pc + 2 * k),
        ) by {
            if k > 0 {
                assert(lines[k] == rest[k - 1]);
                assert(rest[k - 1] == line_of(opcode_at(bytes, (pc + 2) + 2 * (k - 1))));
            }
        }
    } else {
        assert(lines.flatten() =~= Seq::<char>::empty());
    }
}

/// Law: decoding is deterministic — the listing is a function of the
/// buffer's bytes alone, so equal buffers decode to equal listings.
pub proof fn lemma_deterministic(b1: Seq<u8>, b2: Seq<u8>)
    requires
        b1 == b2,
    ensures
        disasm_spec(b1) == disasm_spec(b2),
{
}

/// Law: the shape of a table row's rendering, shown for the row whose
/// first nibble is 8 and last nibble is 4. Every such opcode renders as
/// `ADD Vx Vy` with x and y the two middle nibbles, decimal 0-15.
pub proof fn lemma_row_add_v_v(op: u16)
    requires
        nib1(op) == 0x8,
        nib4(op) == 0x4,
    ensures
        line_of(op) == line_add_v_v(nib2(op), nib3(op)),
        nib2(op) < 16,
        nib3(op) < 16,
{
}

/// Law: every opcode that matches a table row renders exactly that
/// row's line, with its operands substituted from the opcode's fields;
/// register indices are the middle nibbles, decimal 0-15.
pub proof fn lemma_table_rows(op: u16)
    ensures
        nib2(op) < 16,
        nib3(op) < 16,
        nib4(op) < 16,
        nib1(op) == 0x0 && nib2(op) == 0x0 && nib3(op) == 0xE && nib4(op) == 0x0 ==> line_of(op)
            == line_cls(),
        nib1(op) == 0x0 && nib2(op) == 0x0 && nib3(op) == 0xE && nib4(op) == 0xE ==> line_of(op)
            == line_ret(),
        nib1(op) == 0x1 ==> line_of(op) == line_jmp(
            addr_of(op),
        ),
        nib1(op) == 0x2 ==> line_of(op) == line_call(
            addr_of(op),
        ),
        nib1(op) == 0x3 ==> line_of(op) == line_se_v_byte(
            nib2(op),
            byte_of(op),
        ),
        nib1(op) == 0x4 ==> line_of(op) == line_sne_v_byte(
            nib2(op),
            byte_of(op),
        ),
        nib1(op) == 0x5 && nib4(op) == 0x0 ==> line_of(op) == line_se_v_v(
            nib2(op),
            nib3(op),
        ),
        nib1(op) == 0x6 ==> line_of(op) == line_ld_v_byte(
            nib2(op),
            byte_of(op),
        ),
        nib1(op) == 0x7 ==> line_of(op) == line_add_v_byte(
            nib2(op),
            byte_of(op),
        ),
        nib1(op) == 0x8 && nib4(op) == 0x0 ==> line_of(op) == line_ld_v_v(
            nib2(op),
            nib3(op),
        ),
        nib1(op) == 0x8 && nib4(op) == 0x1 ==> line_of(op) == line_or_v_v(
            nib2(op),
            nib3(op),
        ),
        nib1(op) == 0x8 && nib4(op) == 0x2 ==> line_of(op) == line_and_v_v(
            nib2(op),
            nib3(op),
        ),
        nib1(op) == 0x8 && nib4(op) == 0x3 ==> line_of(op) == line_xor_v_v(
            nib2(op),
            nib3(op),
        ),
        nib1(op) == 0x8 && nib4(op) == 0x4 ==> line_of(op) == line_add_v_v(nib2(op), nib3(op)),
        nib1(op) == 0x8 && nib4(op) == 0x5 ==> line_of(op) == line_sub_v_v(
            nib2(op),
            nib3(op),
        ),
        nib1(op) == 0x8 && nib4(op) == 0x6 ==> line_of(op) == line_shr_v(
            nib2(op),
        ),
        nib1(op) == 0x8 && nib4(op) == 0x7 ==> line_of(op) == line_subn_v_v(
            nib2(op),
            nib3(op),
        ),
        nib1(op) == 0x8 && nib4(op) == 0xE ==> line_of(op) == line_shl_v(
            nib2(op),
        ),
        nib1(op) == 0x9 && nib4(op) == 0x0 ==> line_of(op) == line_sne_v_v(
            nib2(op),
            nib3(op),
        ),
        nib1(op) == 0xA ==> line_of(op) == line_ld_i(
            addr_of(op),
        ),
        nib1(op) == 0xB ==> line_of(op) == line_jmp_v0(
            addr_of(op),
        ),
        nib1(op) == 0xC ==> line_of(op) == line_rnd_v_byte(
            nib2(op),
            byte_of(op),
        ),
        nib1(op) == 0xD ==> line_of(op) == line_drw(
            nib2(op),
            nib3(op),
            nib4(op),
        ),
        nib1(op) == 0xE && nib3(op) == 0x9 && nib4(op) == 0xE ==> line_of(op)
            == line_skp_v(nib2(op)),
        nib1(op) == 0xE && nib3(op) == 0xA && nib4(op) == 0x1 ==> line_of(op)
            == line_sknp_v(nib2(op)),
        nib1(op) == 0xF && nib3(op) == 0x0 && nib4(op) == 0x7 ==> line_of(op)
            == line_ld_v_dt(nib2(op)),
        nib1(op) == 0xF && nib3(op) == 0x0 && nib4(op) == 0xA ==> line_of(op)
            == line_ld_v_k(nib2(op)),
        nib1(op) == 0xF && nib3(op) == 0x1 && nib4(op) == 0x5 ==> line_of(op)
            == line_ld_dt_v(nib2(op)),
        nib1(op) == 0xF && nib3(op) == 0x1 && nib4(op) == 0x8 ==> line_of(op)
            == line_ld_st_v(nib2(op)),
        nib1(op) == 0xF && nib3(op) == 0x1 && nib4(op) == 0xE ==> line_of(op)
            == line_add_i_v(nib2(op)),
        nib1(op) == 0xF && nib3(op) == 0x2 && nib4(op) == 0x9 ==> line_of(op)
            == line_ld_f_v(nib2(op)),
        nib1(op) == 0xF && nib3(op) == 0x3 && nib4(op) == 0x3 ==> line_of(op)
            == line_ld_b_v(nib2(op)),
        nib1(op) == 0xF && nib3(op) == 0x5 && nib4(op) == 0x5 ==> line_of(op)
            == line_ld_mem_v(nib2(op)),
        nib1(op) == 0xF && nib3(op) == 0x6 && nib4(op) == 0x5 ==> line_of(op)
            == line_ld_v_mem(nib2(op)),
{
}

} // verus!
