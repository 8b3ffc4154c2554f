//! Laws of the machine: what follows from the instruction semantics for
//! every state, proved once and for all.

use vstd::prelude::*;
use crate::cpu::Cpu;
use crate::disassembler::{
    is_legacy_call, lemma_empty_exactly_for_legacy_calls, mnemonic, placeholder_text,
};
use crate::error::EngineError;
use crate::machine::{bcd_digits, cell, initial_machine, next_pc, Machine, Sprite};
use crate::opcode::{decoded, Instruction};
use crate::transfer::lemma_offset_of_cell;

verus! {

/// A state the engine works on stands for a machine of the right shape, so
/// every law below holds of it.
pub proof fn lemma_view_well_formed(cpu: Cpu)
    requires
        cpu.well_formed(),
    ensures
        cpu@.well_formed(),
{
}

/// A freshly reset machine has the shape every machine state has.
pub proof fn lemma_initial_machine_well_formed()
    ensures
        initial_machine().well_formed(),
{
}

/// Loading any program that fits into a freshly reset machine leaves the
/// program counter at the load address `0x200`, with the program's bytes in
/// memory from there on; a program that does not fit is refused.
pub proof fn lemma_loaded_program_starts_at_0x200(bytes: Seq<u8>)
    ensures
        bytes.len() <= 4096 - 0x200 ==> {
            &&& initial_machine().with_program(bytes) is Ok
            &&& initial_machine().with_program(bytes)->Ok_0.pc == 0x200
            &&& initial_machine().with_program(bytes)->Ok_0.well_formed()
            &&& forall|k: int|
                0 <= k < bytes.len() ==> initial_machine().with_program(
                    bytes,
                )->Ok_0.memory[0x200 + k] == bytes[k]
        },
        bytes.len() > 4096 - 0x200 ==> initial_machine().with_program(bytes) == Err::<
            Machine,
            EngineError,
        >(EngineError::ProgramTooLarge),
{
}

/// Executing an instruction keeps the machine's shape: the stack never
/// holds more than sixteen addresses and display cells stay 0 or 1.
pub proof fn lemma_executed_well_formed(machine: Machine, instruction: Instruction, random: u8)
    requires
        machine.well_formed(),
        instruction.well_formed(),
    ensures
        machine.executed(instruction, random) is Ok ==> machine.executed(
            instruction,
            random,
        )->Ok_0.well_formed(),
{
}

/// An instruction that does not transfer control keeps an even program
/// counter even: it moves it by two or by four.
pub proof fn lemma_sequential_keeps_pc_even(machine: Machine, instruction: Instruction, random: u8)
    requires
        machine.well_formed(),
        instruction.well_formed(),
        machine.pc % 2 == 0,
        !(instruction is Jp),
        !(instruction is JpV0),
        !(instruction is Call),
        !(instruction is Ret),
    ensures
        machine.executed(instruction, random) is Ok,
        machine.executed(instruction, random)->Ok_0.pc % 2 == 0,
{
}

/// A call followed by a return comes back to the instruction after the
/// call: the call continues at its target with the return address on top of
/// the stack, and the return restores the stack and everything else.
pub proof fn lemma_call_then_ret(machine: Machine, nnn: u16, random: u8)
    requires
        machine.well_formed(),
        machine.stack.len() < 16,
    ensures
        machine.executed(Instruction::Call { nnn }, random) is Ok,
        ({
            let called = machine.executed(Instruction::Call { nnn }, random)->Ok_0;
            &&& called.pc == nnn
            &&& called.stack == machine.stack.push(next_pc(machine.pc, 2))
            &&& called.executed(Instruction::Ret, random) == Ok::<Machine, EngineError>(
                Machine { pc: next_pc(machine.pc, 2), ..machine },
            )
        }),
{
    let called = machine.executed(Instruction::Call { nnn }, random)->Ok_0;
    assert(called.stack.drop_last() =~= machine.stack);
}

/// The machine after calling each of `targets` in turn, innermost last, or
/// the first failure on the way.
pub open spec fn after_calls(machine: Machine, targets: Seq<u16>) -> Result<Machine, EngineError>
    decreases targets.len(),
{
    if targets.len() == 0 {
        Ok(machine)
    } else {
        match after_calls(machine, targets.drop_last()) {
            Ok(inner) => inner.executed(Instruction::Call { nnn: targets.last() }, 0),
            Err(error) => Err(error),
        }
    }
}

/// Nested calls succeed exactly as long as the stack has room: the calls
/// succeed if they bring the stack to at most sixteen addresses, each
/// adding one, and fail with a stack overflow otherwise.
pub proof fn lemma_nested_calls(machine: Machine, targets: Seq<u16>)
    requires
        machine.well_formed(),
    ensures
        machine.stack.len() + targets.len() <= 16 ==> {
            &&& after_calls(machine, targets) is Ok
            &&& after_calls(machine, targets)->Ok_0.stack.len() == machine.stack.len()
                + targets.len()
            &&& after_calls(machine, targets)->Ok_0.well_formed()
        },
        machine.stack.len() + targets.len() > 16 ==> after_calls(machine, targets) == Err::<
            Machine,
            EngineError,
        >(EngineError::StackOverflow),
    decreases targets.len(),
{
    if targets.len() > 0 {
        lemma_nested_calls(machine, targets.drop_last());
    }
}

/// A return on an empty stack fails with a stack underflow, and on no
/// other stack.
pub proof fn lemma_ret_needs_a_call(machine: Machine, random: u8)
    ensures
        machine.executed(Instruction::Ret, random) == Err::<Machine, EngineError>(
            EngineError::StackUnderflow,
        ) <==> machine.stack.len() == 0,
{
}

/// Whether drawing the sprite turns on a cell that was dark.
pub open spec fn lights_a_cell(sprite: Sprite, display: Seq<u8>) -> bool {
    exists|p: int| 0 <= p < 2048 && display[p] == 0 && #[trigger] sprite.pixel(p) == 1
}

/// Whether two sprites have a lit pixel over the same display cell.
pub open spec fn overlap(a: Sprite, b: Sprite) -> bool {
    exists|p: int| 0 <= p < 2048 && a.pixel(p) == 1 && #[trigger] b.pixel(p) == 1
}

/// Whether every cell of the display is dark.
pub open spec fn is_blank(display: Seq<u8>) -> bool {
    display.len() == 2048 && forall|p: int| 0 <= p < 2048 ==> #[trigger] display[p] == 0
}

/// Whether the display has 2048 cells that are each 0 or 1.
pub open spec fn is_bitmap(display: Seq<u8>) -> bool {
    display.len() == 2048 && forall|p: int| 0 <= p < 2048 ==> #[trigger] display[p] <= 1
}

/// Drawing the same sprite twice at the same place restores the display.
/// The second draw reports a collision exactly if the first one turned a
/// cell on, which every sprite with a lit pixel does on cells that were
/// dark.
pub proof fn lemma_draw_twice_restores(sprite: Sprite, display: Seq<u8>)
    requires
        is_bitmap(display),
    ensures
        sprite.drawn_on(sprite.drawn_on(display)) == display,
        sprite.collides_with(sprite.drawn_on(display)) <==> lights_a_cell(sprite, display),
{
    let once = sprite.drawn_on(display);
    let twice = sprite.drawn_on(once);
    assert forall|p: int| 0 <= p < 2048 implies twice[p] == display[p] by {
        assert(display[p] <= 1);
        assert(0 <= sprite.pixel(p) <= 1);
    }
    assert(twice =~= display);
    if sprite.collides_with(once) {
        let p = choose|p: int| 0 <= p < 2048 && once[p] != 0 && #[trigger] sprite.pixel(p) == 1;
        assert(display[p] <= 1);
        assert(display[p] == 0);
    }
    if lights_a_cell(sprite, display) {
        let p = choose|p: int|
            0 <= p < 2048 && display[p] == 0 && #[trigger] sprite.pixel(p) == 1;
        assert(once[p] != 0);
    }
}

/// On a blank display no sprite collides, and a second sprite drawn after
/// a first collides exactly if the two overlap: two disjoint sprites never
/// report a collision.
pub proof fn lemma_disjoint_sprites_do_not_collide(a: Sprite, b: Sprite, display: Seq<u8>)
    requires
        is_blank(display),
    ensures
        !a.collides_with(display),
        b.collides_with(a.drawn_on(display)) <==> overlap(a, b),
{
    let once = a.drawn_on(display);
    if a.collides_with(display) {
        let p = choose|p: int|
            0 <= p < 2048 && display[p] != 0 && #[trigger] a.pixel(p) == 1;
        assert(display[p] == 0);
    }
    if b.collides_with(once) {
        let p = choose|p: int| 0 <= p < 2048 && once[p] != 0 && #[trigger] b.pixel(p) == 1;
        assert(display[p] == 0);
        assert(0 <= a.pixel(p) <= 1);
        assert(a.pixel(p) == 1);
    }
    if overlap(a, b) {
        let p = choose|p: int| 0 <= p < 2048 && a.pixel(p) == 1 && #[trigger] b.pixel(p) == 1;
        assert(display[p] == 0);
        assert(once[p] != 0);
    }
}

/// Executing the same draw instruction twice restores the display, as long
/// as neither coordinate comes from the flag register, which the first draw
/// overwrites. The second draw sets the flag register to the collision flag
/// 1 exactly if the first one turned a cell on.
pub proof fn lemma_draw_instruction_twice(machine: Machine, x: u8, y: u8, n: u8, random: u8)
    requires
        machine.well_formed(),
        x < 15,
        y < 15,
        n < 16,
    ensures
        machine.executed(Instruction::Drw { x, y, n }, random) is Ok,
        ({
            let draw = Instruction::Drw { x, y, n };
            let once = machine.executed(draw, random)->Ok_0;
            &&& once.executed(draw, random) is Ok
            &&& once.executed(draw, random)->Ok_0.display == machine.display
            &&& once.executed(draw, random)->Ok_0.v[15] == (if lights_a_cell(
                machine.sprite(x as int, y as int, n as int),
                machine.display,
            ) {
                1u8
            } else {
                0u8
            })
        }),
{
    let draw = Instruction::Drw { x, y, n };
    let once = machine.executed(draw, random)->Ok_0;
    let sprite = machine.sprite(x as int, y as int, n as int);
    assert(once.sprite(x as int, y as int, n as int) == sprite);
    lemma_draw_twice_restores(sprite, machine.display);
}

/// The three decimal digits of a byte are digits, and hundreds, tens and
/// ones put together give the byte back.
pub proof fn lemma_bcd_reconstructs(value: u8)
    ensures
        bcd_digits(value).len() == 3,
        bcd_digits(value)[0] < 10,
        bcd_digits(value)[1] < 10,
        bcd_digits(value)[2] < 10,
        100 * bcd_digits(value)[0] + 10 * bcd_digits(value)[1] + bcd_digits(value)[2] == value,
{
}

/// After the decimal-digits instruction, the three memory cells at `I`,
/// `I+1` and `I+2` hold digits from which the register's value is
/// reconstructed, for every value the register can hold.
pub proof fn lemma_bcd_in_memory(machine: Machine, x: u8, random: u8)
    requires
        machine.well_formed(),
        x < 16,
    ensures
        machine.executed(Instruction::LdBcd { x }, random) is Ok,
        ({
            let after = machine.executed(Instruction::LdBcd { x }, random)->Ok_0;
            let i = machine.i as int;
            &&& after.memory[cell(i)] < 10
            &&& after.memory[cell(i + 1)] < 10
            &&& after.memory[cell(i + 2)] < 10
            &&& 100 * after.memory[cell(i)] + 10 * after.memory[cell(i + 1)] + after.memory[cell(
                i + 2,
            )] == machine.v[x as int]
        }),
{
}

/// Storing `V0..=Vx` to memory and loading them back gives every register
/// the value it had, whatever stood in the registers in between.
pub proof fn lemma_store_then_load(
    machine: Machine,
    x: u8,
    between: Seq<u8>,
    random: u8,
)
    requires
        machine.well_formed(),
        x < 16,
        between.len() == 16,
        forall|k: int| x < k < 16 ==> between[k] == machine.v[k],
    ensures
        machine.executed(Instruction::StoreRegs { x }, random) is Ok,
        ({
            let stored = machine.executed(Instruction::StoreRegs { x }, random)->Ok_0;
            let clobbered = Machine { v: between, ..stored };
            &&& clobbered.executed(Instruction::LoadRegs { x }, random) is Ok
            &&& clobbered.executed(Instruction::LoadRegs { x }, random)->Ok_0.v == machine.v
        }),
{
    let stored = machine.executed(Instruction::StoreRegs { x }, random)->Ok_0;
    let clobbered = Machine { v: between, ..stored };
    let back = clobbered.executed(Instruction::LoadRegs { x }, random)->Ok_0;
    assert forall|k: int| 0 <= k < 16 implies back.v[k] == machine.v[k] by {
        if k <= x {
            lemma_offset_of_cell(machine.i, k);
            assert(stored.memory[cell(machine.i as int + k)] == machine.v[k]);
        }
    }
    assert(back.v =~= machine.v);
}

/// The font instruction points `I` at the glyph of the digit in `Vx`: five
/// bytes per glyph from address 0, so the glyph of every hexadecimal digit
/// lies inside the font.
pub proof fn lemma_font_address(machine: Machine, x: u8, random: u8)
    requires
        machine.well_formed(),
        x < 16,
    ensures
        machine.executed(Instruction::LdFont { x }, random) is Ok,
        machine.executed(Instruction::LdFont { x }, random)->Ok_0.i == 5 * machine.v[x as int],
        machine.v[x as int] < 16 ==> machine.executed(Instruction::LdFont { x }, random)->Ok_0.i
            + 5 <= 80,
{
}

/// A step on a legacy machine-routine call does nothing but move to the
/// next instruction: it is never an error, whatever its low byte is.
pub proof fn lemma_legacy_call_is_no_op(machine: Machine, random: u8)
    requires
        is_legacy_call(machine.fetched()),
    ensures
        machine.stepped(random) == Ok::<Machine, EngineError>(machine.advanced()),
        mnemonic(machine.fetched()).len() == 0,
{
    lemma_empty_exactly_for_legacy_calls(machine.fetched());
}

/// The engine and the disassembler classify alike: a step fails with an
/// unknown opcode exactly for the instruction words that the disassembler
/// shows as a placeholder because they decode to nothing, and the error
/// carries the fetched word.
pub proof fn lemma_unknown_opcode_agrees(machine: Machine, random: u8)
    ensures
        decoded(machine.fetched()) is None <==> machine.stepped(random) == Err::<
            Machine,
            EngineError,
        >(EngineError::UnknownOpcode(machine.fetched())),
        decoded(machine.fetched()) is None ==> mnemonic(machine.fetched()) == placeholder_text(
            machine.fetched(),
        ),
        forall|code: u16|
            machine.stepped(random) == Err::<Machine, EngineError>(
                EngineError::UnknownOpcode(code),
            ) ==> code == machine.fetched(),
{
}

} // verus!
