//! The disassembler: a stateless mapping from an instruction word to the
//! text of its mnemonic.
//!
//! Register operands are written as `V` and the register's index in decimal,
//! addresses in upper-case hexadecimal behind `0x`, and byte and nibble
//! operands in decimal.

use vstd::prelude::*;
use vstd::string::StringExecFns;
use crate::opcode::{decode, decoded, x_of, Instruction};
use crate::text::{
    decimal_text, hex_text, lemma_numerals_nonempty, push_decimal, push_hex, push_text,
};

verus! {

/// `head`, the number `a` in decimal, then `tail`.
pub open spec fn with_one(head: Seq<char>, a: nat, tail: Seq<char>) -> Seq<char> {
    head + decimal_text(a) + tail
}

/// `head`, the number `a` in decimal, `sep`, the number `b` in decimal, then
/// `tail`.
pub open spec fn with_two(head: Seq<char>, a: nat, sep: Seq<char>, b: nat, tail: Seq<char>) -> Seq<
    char,
> {
    head + decimal_text(a) + sep + decimal_text(b) + tail
}

/// `head`, the address `nnn` in hexadecimal, then `tail`.
pub open spec fn with_address(head: Seq<char>, nnn: nat, tail: Seq<char>) -> Seq<char> {
    head + hex_text(nnn) + tail
}

/// The mnemonic text of a decoded instruction.
pub open spec fn instruction_text(instruction: Instruction) -> Seq<char> {
    match instruction {
        Instruction::Sys { nnn } => ""@,
        Instruction::Cls => "CLS"@,
        Instruction::Ret => "RET"@,
        Instruction::Jp { nnn } => with_address("JP 0x"@, nnn as nat, ""@),
        Instruction::Call { nnn } => with_address("CALL 0x"@, nnn as nat, ""@),
        Instruction::SeByte { x, kk } => with_two("SE V"@, x as nat, " "@, kk as nat, ""@),
        Instruction::SneByte { x, kk } => with_two("SNE V"@, x as nat, " "@, kk as nat, ""@),
        Instruction::SeReg { x, y } => with_two("SE V"@, x as nat, " V"@, y as nat, ""@),
        Instruction::LdByte { x, kk } => with_two("LD V"@, x as nat, " "@, kk as nat, ""@),
        Instruction::AddByte { x, kk } => with_two("ADD V"@, x as nat, " "@, kk as nat, ""@),
        Instruction::LdReg { x, y } => with_two("LD V"@, x as nat, " V"@, y as nat, ""@),
        Instruction::Or { x, y } => with_two("OR V"@, x as nat, " V"@, y as nat, ""@),
        Instruction::And { x, y } => with_two("AND V"@, x as nat, " V"@, y as nat, ""@),
        Instruction::Xor { x, y } => with_two("XOR V"@, x as nat, " V"@, y as nat, ""@),
        Instruction::AddReg { x, y } => with_two("ADD V"@, x as nat, " V"@, y as nat, ""@),
        Instruction::Sub { x, y } => with_two("SUB V"@, x as nat, " V"@, y as nat, ""@),
        Instruction::Shr { x, y } => with_two("SHR V"@, x as nat, " {, V"@, y as nat, "}"@),
        Instruction::Subn { x, y } => with_two("SUBN V"@, x as nat, " V"@, y as nat, " "@),
        Instruction::Shl { x, y } => with_two("SHL V"@, x as nat, " V"@, y as nat, " "@),
        Instruction::SneReg { x, y } => with_two("SNE V"@, x as nat, " V"@, y as nat, " "@),
        Instruction::LdI { nnn } => with_address("LD I 0x"@, nnn as nat, " "@),
        Instruction::JpV0 { nnn } => with_address("JP V0, 0x"@, nnn as nat, " "@),
        Instruction::Rnd { x, kk } => with_two("RND V"@, x as nat, ", "@, kk as nat, " "@),
        Instruction::Drw { x, y, n } => with_two("DRW V"@, x as nat, " V"@, y as nat, " "@)
            + with_one(""@, n as nat, " "@),
        Instruction::Skp { x } => with_one("SKP V"@, x as nat, " "@),
        Instruction::Sknp { x } => with_one("SKNP V"@, x as nat, ""@),
        Instruction::LdVxDt { x } => with_one("LD V"@, x as nat, ", DT"@),
        Instruction::LdVxKey { x } => with_one("LD V"@, x as nat, " K"@),
        Instruction::LdDtVx { x } => with_one("LD DT V"@, x as nat, ""@),
        Instruction::LdStVx { x } => with_one("LD ST V"@, x as nat, ""@),
        Instruction::AddI { x } => with_one("ADD I V"@, x as nat, ""@),
        Instruction::LdFont { x } => with_one("LD F V"@, x as nat, ""@),
        Instruction::LdBcd { x } => with_one("LD B V"@, x as nat, ""@),
        Instruction::StoreRegs { x } => with_one("LD [I] V"@, x as nat, ""@),
        Instruction::LoadRegs { x } => with_one("LD V"@, x as nat, ", [I]"@),
    }
}

/// The placeholder shown for an instruction word that encodes nothing: three
/// question marks and the word in hexadecimal.
pub open spec fn placeholder_text(opcode: u16) -> Seq<char> {
    "??? "@ + hex_text(opcode as nat)
}

/// The text the disassembler shows for an instruction word.
pub open spec fn mnemonic(opcode: u16) -> Seq<char> {
    match decoded(opcode) {
        Some(instruction) => instruction_text(instruction),
        None => placeholder_text(opcode),
    }
}

/// Whether an instruction word is a legacy machine-routine call: a word of
/// family `0` other than `00E0` and `00EE`.
pub open spec fn is_legacy_call(opcode: u16) -> bool {
    opcode < 0x1000 && opcode != 0x00E0 && opcode != 0x00EE
}

/// The disassembler shows nothing exactly for the legacy machine-routine
/// calls; the two other words of family `0` show as `CLS` and `RET`.
pub proof fn lemma_empty_exactly_for_legacy_calls(opcode: u16)
    ensures
        mnemonic(opcode).len() == 0 <==> is_legacy_call(opcode),
        is_legacy_call(opcode) <==> decoded(opcode) == Some(
            Instruction::Sys { nnn: opcode },
        ),
        opcode == 0x00E0 ==> mnemonic(opcode) == "CLS"@,
        opcode == 0x00EE ==> mnemonic(opcode) == "RET"@,
{
    reveal_strlit("");
    reveal_strlit("CLS");
    reveal_strlit("RET");
    match decoded(opcode) {
        Some(instruction) => {
            match instruction {
                Instruction::Jp { nnn } | Instruction::Call { nnn } | Instruction::LdI { nnn }
                | Instruction::JpV0 { nnn } => {
                    lemma_numerals_nonempty(nnn as nat);
                },
                Instruction::Sys { nnn } => {},
                Instruction::Cls => {},
                Instruction::Ret => {},
                _ => {
                    lemma_numerals_nonempty(x_of(opcode) as nat);
                },
            }
        },
        None => {
            lemma_numerals_nonempty(opcode as nat);
        },
    }
}

fn render_one(head: &str, a: u8, tail: &str) -> (s: String)
    ensures
        s@ == with_one(head@, a as nat, tail@),
{
    let mut s = String::from_str(head);
    push_decimal(&mut s, a as u16);
    push_text(&mut s, tail);
    s
}

fn render_two(head: &str, a: u8, sep: &str, b: u8, tail: &str) -> (s: String)
    ensures
        s@ == with_two(head@, a as nat, sep@, b as nat, tail@),
{
    let mut s = String::from_str(head);
    push_decimal(&mut s, a as u16);
    push_text(&mut s, sep);
    push_decimal(&mut s, b as u16);
    push_text(&mut s, tail);
    s
}

fn render_address(head: &str, nnn: u16, tail: &str) -> (s: String)
    ensures
        s@ == with_address(head@, nnn as nat, tail@),
{
    let mut s = String::from_str(head);
    push_hex(&mut s, nnn);
    push_text(&mut s, tail);
    s
}

/// Renders a decoded instruction as its mnemonic text.
pub fn render(instruction: Instruction) -> (s: String)
    ensures
        s@ == instruction_text(instruction),
{
    match instruction {
        Instruction::Sys { nnn } => String::from_str(""),
        Instruction::Cls => String::from_str("CLS"),
        Instruction::Ret => String::from_str("RET"),
        Instruction::Jp { nnn } => render_address("JP 0x", nnn, ""),
        Instruction::Call { nnn } => render_address("CALL 0x", nnn, ""),
        Instruction::SeByte { x, kk } => render_two("SE V", x, " ", kk, ""),
        Instruction::SneByte { x, kk } => render_two("SNE V", x, " ", kk, ""),
        Instruction::SeReg { x, y } => render_two("SE V", x, " V", y, ""),
        Instruction::LdByte { x, kk } => render_two("LD V", x, " ", kk, ""),
        Instruction::AddByte { x, kk } => render_two("ADD V", x, " ", kk, ""),
        Instruction::LdReg { x, y } => render_two("LD V", x, " V", y, ""),
        Instruction::Or { x, y } => render_two("OR V", x, " V", y, ""),
        Instruction::And { x, y } => render_two("AND V", x, " V", y, ""),
        Instruction::Xor { x, y } => render_two("XOR V", x, " V", y, ""),
        Instruction::AddReg { x, y } => render_two("ADD V", x, " V", y, ""),
        Instruction::Sub { x, y } => render_two("SUB V", x, " V", y, ""),
        Instruction::Shr { x, y } => render_two("SHR V", x, " {, V", y, "}"),
        Instruction::Subn { x, y } => render_two("SUBN V", x, " V", y, " "),
        Instruction::Shl { x, y } => render_two("SHL V", x, " V", y, " "),
        Instruction::SneReg { x, y } => render_two("SNE V", x, " V", y, " "),
        Instruction::LdI { nnn } => render_address("LD I 0x", nnn, " "),
        Instruction::JpV0 { nnn } => render_address("JP V0, 0x", nnn, " "),
        Instruction::Rnd { x, kk } => render_two("RND V", x, ", ", kk, " "),
        Instruction::Drw { x, y, n } => {
            let mut s = render_two("DRW V", x, " V", y, " ");
            let rows = render_one("", n, " ");
            push_text(&mut s, rows.as_str());
            s
        },
        Instruction::Skp { x } => render_one("SKP V", x, " "),
        Instruction::Sknp { x } => render_one("SKNP V", x, ""),
        Instruction::LdVxDt { x } => render_one("LD V", x, ", DT"),
        Instruction::LdVxKey { x } => render_one("LD V", x, " K"),
        Instruction::LdDtVx { x } => render_one("LD DT V", x, ""),
        Instruction::LdStVx { x } => render_one("LD ST V", x, ""),
        Instruction::AddI { x } => render_one("ADD I V", x, ""),
        Instruction::LdFont { x } => render_one("LD F V", x, ""),
        Instruction::LdBcd { x } => render_one("LD B V", x, ""),
        Instruction::StoreRegs { x } => render_one("LD [I] V", x, ""),
        Instruction::LoadRegs { x } => render_one("LD V", x, ", [I]"),
    }
}

/// Disassembles one instruction word. Never fails: a word that encodes no
/// instruction gives a placeholder that holds the word in hexadecimal, and a
/// legacy machine-routine call gives the empty text.
pub fn disassemble(opcode: u16) -> (s: String)
    ensures
        s@ == mnemonic(opcode),
        s@.len() == 0 <==> is_legacy_call(opcode),
{
    proof {
        lemma_empty_exactly_for_legacy_calls(opcode);
    }
    match decode(opcode) {
        Some(instruction) => render(instruction),
        None => {
            let mut s = String::from_str("??? ");
            push_hex(&mut s, opcode);
            s
        },
    }
}

} // verus!
