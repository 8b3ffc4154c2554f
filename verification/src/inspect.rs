//! Text views of the machine for a debugging panel: the instructions ahead
//! of the program counter, the registers, and a status line. The pieces are
//! joined with the HTML tags the panel shows them in.

use vstd::prelude::*;
use crate::cpu::Cpu;
use crate::disassembler::{disassemble, mnemonic};
use crate::machine::Machine;
use crate::text::{decimal_text, hex_text, push_decimal, push_hex, push_text};

verus! {

/// The address at which the listing ends: fifty bytes after the program
/// counter, or the end of memory if that comes first.
pub open spec fn listing_end(pc: u16) -> int {
    if pc + 50 >= 4096 {
        4096
    } else {
        pc + 50
    }
}

/// The number of instructions in the listing: one for every second address
/// from the program counter up to the listing's end.
pub open spec fn listing_count(pc: u16) -> int {
    if pc >= listing_end(pc) {
        0
    } else {
        (listing_end(pc) - pc + 1) / 2
    }
}

/// One line of the listing: the address in hexadecimal and the mnemonic of
/// the instruction word there.
pub open spec fn listing_item(machine: Machine, address: int) -> Seq<char> {
    "<li>0x"@ + hex_text(address as nat) + " - "@ + mnemonic(machine.word_at(address)) + "</li>"@
}

/// The first `count` lines of the listing.
pub open spec fn listing_lines(machine: Machine, count: int) -> Seq<char>
    decreases count,
{
    if count <= 0 {
        Seq::empty()
    } else {
        listing_lines(machine, count - 1) + listing_item(
            machine,
            machine.pc as int + 2 * (count - 1),
        )
    }
}

/// The listing of the instructions ahead of the program counter.
pub open spec fn listing_text(machine: Machine) -> Seq<char> {
    listing_lines(machine, listing_count(machine.pc))
}

/// One line of the register view.
pub open spec fn register_item(v: Seq<u8>, k: int) -> Seq<char> {
    "v"@ + decimal_text(k as nat) + ": "@ + decimal_text(v[k] as nat) + "<br />"@
}

/// The lines of the first `count` registers.
pub open spec fn register_lines(v: Seq<u8>, count: int) -> Seq<char>
    decreases count,
{
    if count <= 0 {
        Seq::empty()
    } else {
        register_lines(v, count - 1) + register_item(v, count - 1)
    }
}

/// The register view: the sixteen general registers and the index
/// register, in decimal.
pub open spec fn registers_text(machine: Machine) -> Seq<char> {
    register_lines(machine.v, 16) + "I: "@ + decimal_text(machine.i as nat)
}

/// The status line: the program counter in decimal and in hexadecimal, and
/// the delay timer.
pub open spec fn status_text(machine: Machine) -> Seq<char> {
    "PC: "@ + decimal_text(machine.pc as nat) + " - 0x"@ + hex_text(machine.pc as nat)
        + " <br />DT: "@ + decimal_text(machine.dt as nat)
}

/// Lists the instructions from the program counter on, one for every
/// second address, up to fifty bytes ahead or the end of memory.
pub fn memory_listing(cpu: &Cpu) -> (s: String)
    ensures
        s@ == listing_text(cpu@),
{
    let start: u32 = cpu.pc as u32;
    let end: u32 = if start + 50 >= 4096 {
        4096
    } else {
        start + 50
    };
    let mut s = String::new();
    let mut address: u32 = start;
    let ghost mut count: int = 0;
    while address < end
        invariant
            start == cpu.pc,
            end == listing_end(cpu.pc),
            address == start + 2 * count,
            0 <= count <= listing_count(cpu.pc),
            address >= end ==> count == listing_count(cpu.pc),
            s@ == listing_lines(cpu@, count),
        decreases end + 2 - address,
    {
        let text = disassemble(cpu.word_at(address as u16));
        push_text(&mut s, "<li>0x");
        push_hex(&mut s, address as u16);
        push_text(&mut s, " - ");
        push_text(&mut s, text.as_str());
        push_text(&mut s, "</li>");
        proof {
            count = count + 1;
            assert(s@ =~= listing_lines(cpu@, count - 1) + listing_item(
                cpu@,
                cpu.pc as int + 2 * (count - 1),
            ));
        }
        address += 2;
    }
    s
}

/// Lists the sixteen general registers and the index register.
pub fn register_listing(cpu: &Cpu) -> (s: String)
    ensures
        s@ == registers_text(cpu@),
{
    let mut s = String::new();
    let mut k: usize = 0;
    while k < 16
        invariant
            k <= 16,
            s@ == register_lines(cpu@.v, k as int),
        decreases 16 - k,
    {
        push_text(&mut s, "v");
        push_decimal(&mut s, k as u16);
        push_text(&mut s, ": ");
        push_decimal(&mut s, cpu.v[k] as u16);
        push_text(&mut s, "<br />");
        assert(s@ =~= register_lines(cpu@.v, k as int) + register_item(cpu@.v, k as int));
        k += 1;
    }
    push_text(&mut s, "I: ");
    push_decimal(&mut s, cpu.i);
    s
}

/// The status line: program counter and delay timer.
pub fn status_line(cpu: &Cpu) -> (s: String)
    ensures
        s@ == status_text(cpu@),
{
    let mut s = String::new();
    push_text(&mut s, "PC: ");
    push_decimal(&mut s, cpu.pc);
    push_text(&mut s, " - 0x");
    push_hex(&mut s, cpu.pc);
    push_text(&mut s, " <br />DT: ");
    push_decimal(&mut s, cpu.dt as u16);
    assert(s@ =~= status_text(cpu@));
    s
}

} // verus!
