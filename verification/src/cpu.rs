//! The execution engine: the machine state and the operations a driver
//! performs on it.

use vstd::prelude::*;
use crate::error::EngineError;
use crate::machine::{
    first_key_down, font_glyphs, initial_machine, key_down, loaded, next_pc, stored, Machine,
};
use crate::opcode::{compose, decode, Instruction};
use crate::sprite::draw_sprite;
use crate::transfer::{decimal_digits, load_block, store_block};

verus! {

/// The state of the machine. A driver owns one, resets it with
/// [`Cpu::initialize`], loads a program and then steps it.
pub struct Cpu {
    /// The 4096 memory cells.
    pub memory: [u8; 4096],
    /// Address of the next instruction.
    pub pc: u16,
    /// The sixteen general registers `V0..VF`.
    pub v: [u8; 16],
    /// The index register `I`.
    pub i: u16,
    /// The call stack; only its first `sp` entries are live.
    pub stack: [u16; 16],
    /// Number of return addresses on the call stack.
    pub sp: usize,
    /// The 2048 display cells, row by row, each 0 or 1.
    pub display: [u8; 2048],
    /// The delay timer; the driver counts it down.
    pub dt: u8,
    /// The sound timer; the driver counts it down.
    pub st: u8,
    /// The sixteen key-down flags; the driver sets them.
    pub keys: [bool; 16],
}

/// What [`Cpu::get_registers`] hands out: a copy of the register state.
#[derive(Clone, Copy, Debug, PartialEq, Eq)]
pub struct Registers {
    /// The sixteen general registers `V0..VF`.
    pub v: [u8; 16],
    /// The index register `I`.
    pub i: u16,
    /// Address of the next instruction.
    pub pc: u16,
    /// The delay timer.
    pub dt: u8,
}

impl View for Cpu {
    type V = Machine;

    /// The machine this state stands for. The stack of the model holds the
    /// live return addresses only.
    open spec fn view(&self) -> Machine {
        Machine {
            memory: self.memory@,
            pc: self.pc,
            v: self.v@,
            i: self.i,
            stack: self.stack@.take(self.sp as int),
            display: self.display@,
            dt: self.dt,
            st: self.st,
            keys: self.keys@,
        }
    }
}

/// The built-in font as a table.
fn font_table() -> (table: [u8; 80])
    ensures
        table@ == font_glyphs(),
{
    let table: [u8; 80] = [
        0xF0, 0x90, 0x90, 0x90, 0xF0,
        0x20, 0x60, 0x20, 0x20, 0x70,
        0xF0, 0x10, 0xF0, 0x80, 0xF0,
        0xF0, 0x10, 0xF0, 0x10, 0xF0,
        0x90, 0x90, 0xF0, 0x10, 0x10,
        0xF0, 0x80, 0xF0, 0x10, 0xF0,
        0xF0, 0x80, 0xF0, 0x90, 0xF0,
        0xF0, 0x10, 0x20, 0x40, 0x40,
        0xF0, 0x90, 0xF0, 0x90, 0xF0,
        0xF0, 0x90, 0xF0, 0x10, 0xF0,
        0xF0, 0x90, 0xF0, 0x90, 0x90,
        0xE0, 0x90, 0xE0, 0x90, 0xE0,
        0xF0, 0x80, 0x80, 0x80, 0xF0,
        0xE0, 0x90, 0x90, 0x90, 0xE0,
        0xF0, 0x80, 0xF0, 0x80, 0xF0,
        0xF0, 0x80, 0xF0, 0x80, 0x80,
    ];
    assert(table@ =~= font_glyphs());
    table
}

/// Whether an operation that was to have the `expected` outcome did what
/// it should: on success the state stands for the expected machine, on
/// failure the expected error is returned and the state is untouched.
pub open spec fn outcome_is(
    before: Cpu,
    after: Cpu,
    r: Result<(), EngineError>,
    expected: Result<Machine, EngineError>,
) -> bool {
    match expected {
        Ok(machine) => r is Ok && after@ == machine,
        Err(error) => r == Err::<(), EngineError>(error) && after == before,
    }
}

/// `a - b` modulo 256, and 1 if no borrow was needed, else 0.
fn difference_of(a: u8, b: u8) -> (r: (u8, u8))
    ensures
        r.0 as int == (a - b) % 256,
        r.1 == (if a >= b {
            1u8
        } else {
            0u8
        }),
{
    if a >= b {
        (a - b, 1)
    } else {
        ((256 - (b as u16 - a as u16)) as u8, 0)
    }
}

impl Cpu {
    /// What holds of every state the engine works on: the stack pointer is
    /// at most 16 and every display cell is 0 or 1.
    pub open spec fn well_formed(&self) -> bool {
        &&& self.sp <= 16
        &&& forall|p: int| 0 <= p < 2048 ==> #[trigger] self.display[p] <= 1
    }

    /// A machine in its reset state.
    pub fn new() -> (cpu: Cpu)
        ensures
            cpu.well_formed(),
            cpu@ == initial_machine(),
    {
        let mut cpu = Cpu {
            memory: [0u8; 4096],
            pc: 0x200,
            v: [0u8; 16],
            i: 0,
            stack: [0u16; 16],
            sp: 0,
            display: [0u8; 2048],
            dt: 0,
            st: 0,
            keys: [false; 16],
        };
        cpu.initialize();
        cpu
    }

    /// Resets the machine: installs the font at the bottom of memory and
    /// zeroes everything else, empties the stack, clears the display,
    /// stops the timers, releases the keys and points the program counter
    /// at the load address. Whatever the state was before is gone.
    pub fn initialize(&mut self)
        ensures
            final(self).well_formed(),
            final(self)@ == initial_machine(),
    {
        let font = font_table();
        self.memory = [0u8; 4096];
        let mut a: usize = 0;
        while a < 80
            invariant
                a <= 80,
                font@ == font_glyphs(),
                forall|b: int| 0 <= b < a ==> self.memory[b] == font_glyphs()[b],
                forall|b: int| a <= b < 4096 ==> self.memory[b] == 0,
            decreases 80 - a,
        {
            self.memory[a] = font[a];
            a += 1;
        }
        self.pc = 0x200;
        self.v = [0u8; 16];
        self.i = 0;
        self.stack = [0u16; 16];
        self.sp = 0;
        self.display = [0u8; 2048];
        self.dt = 0;
        self.st = 0;
        self.keys = [false; 16];
        proof {
            let m = initial_machine();
            assert(self@.memory =~= m.memory);
            assert(self@.v =~= m.v);
            assert(self@.stack =~= m.stack);
            assert(self@.display =~= m.display);
            assert(self@.keys =~= m.keys);
        }
    }

    /// Copies a program into memory from address `0x200` on. A program of
    /// more than `4096 - 0x200` bytes is refused and nothing is written;
    /// otherwise every byte of it is written and nothing else changes, the
    /// program counter included.
    pub fn load_program(&mut self, bytes: &[u8]) -> (r: Result<(), EngineError>)
        ensures
            outcome_is(*old(self), *final(self), r, old(self)@.with_program(bytes@)),
            r is Err <==> bytes@.len() > 4096 - 0x200,
            old(self).well_formed() ==> final(self).well_formed(),
    {
        let n = bytes.len();
        if n > 4096 - 0x200 {
            return Err(EngineError::ProgramTooLarge);
        }
        let mut k: usize = 0;
        while k < n
            invariant
                k <= n,
                n == bytes@.len(),
                n <= 4096 - 0x200,
                forall|a: int| 0x200 <= a < 0x200 + k ==> self.memory[a] == bytes@[a - 0x200],
                forall|a: int|
                    0 <= a < 4096 && !(0x200 <= a < 0x200 + k) ==> self.memory[a] == old(
                        self,
                    ).memory[a],
                self.pc == old(self).pc,
                self.v == old(self).v,
                self.i == old(self).i,
                self.stack == old(self).stack,
                self.sp == old(self).sp,
                self.display == old(self).display,
                self.dt == old(self).dt,
                self.st == old(self).st,
                self.keys == old(self).keys,
            decreases n - k,
        {
            self.memory[0x200 + k] = bytes[k];
            k += 1;
        }
        proof {
            let m = old(self)@.with_program(bytes@)->Ok_0;
            assert(self@.memory =~= m.memory);
        }
        Ok(())
    }

    /// Records that key `index` went down or came up.
    pub fn set_key(&mut self, index: usize, pressed: bool)
        requires
            index < 16,
        ensures
            final(self)@ == (Machine {
                keys: old(self)@.keys.update(index as int, pressed),
                ..old(self)@
            }),
            old(self).well_formed() ==> final(self).well_formed(),
    {
        self.keys[index] = pressed;
    }

    /// Whether key `index` is down.
    pub fn get_key(&self, index: usize) -> (pressed: bool)
        requires
            index < 16,
        ensures
            pressed == self@.keys[index as int],
    {
        self.keys[index]
    }

    /// The display: 2048 cells, row by row, each 0 or 1.
    pub fn get_display(&self) -> (display: &[u8; 2048])
        ensures
            display@ == self@.display,
    {
        &self.display
    }

    /// A copy of the registers: `V0..VF`, `I`, the program counter and the
    /// delay timer.
    pub fn get_registers(&self) -> (registers: Registers)
        ensures
            registers.v@ == self@.v,
            registers.i == self@.i,
            registers.pc == self@.pc,
            registers.dt == self@.dt,
    {
        Registers { v: self.v, i: self.i, pc: self.pc, dt: self.dt }
    }

    /// Moves the program counter to the next instruction, or past it if
    /// `skip` holds.
    fn proceed(&mut self, skip: bool)
        requires
            old(self).well_formed(),
        ensures
            final(self).well_formed(),
            final(self)@ == old(self)@.skipped_if(skip),
            !skip ==> final(self)@ == old(self)@.advanced(),
    {
        let by: u32 = if skip {
            4
        } else {
            2
        };
        self.pc = ((self.pc as u32 + by) % 65536) as u16;
    }

    /// Continues at `target`.
    fn jump(&mut self, target: u16)
        requires
            old(self).well_formed(),
        ensures
            final(self).well_formed(),
            final(self)@ == (Machine { pc: target, ..old(self)@ }),
    {
        self.pc = target;
    }

    /// Sets register `x` and moves on.
    fn assign(&mut self, x: u8, value: u8)
        requires
            old(self).well_formed(),
            x < 16,
        ensures
            final(self).well_formed(),
            final(self)@ == old(self)@.with_register(x as int, value).advanced(),
    {
        self.v[x as usize] = value;
        self.proceed(false);
    }

    /// Sets register `x`, then the flag register, and moves on.
    fn assign_with_flag(&mut self, x: u8, value: u8, flag: u8)
        requires
            old(self).well_formed(),
            x < 16,
        ensures
            final(self).well_formed(),
            final(self)@ == old(self)@.with_result(x as int, value, flag).advanced(),
    {
        self.v[x as usize] = value;
        self.v[15] = flag;
        self.proceed(false);
    }

    /// Sets the index register and moves on.
    fn point_at(&mut self, address: u16)
        requires
            old(self).well_formed(),
        ensures
            final(self).well_formed(),
            final(self)@ == (Machine { i: address, ..old(self)@ }).advanced(),
    {
        self.i = address;
        self.proceed(false);
    }

    /// Clears the display and moves on.
    fn clear(&mut self)
        requires
            old(self).well_formed(),
        ensures
            final(self).well_formed(),
            final(self)@ == (Machine {
                display: Seq::new(2048, |p: int| 0u8),
                ..old(self)@
            }).advanced(),
    {
        self.display = [0u8; 2048];
        self.proceed(false);
        assert(self@.display =~= Seq::new(2048, |p: int| 0u8));
    }

    /// Pushes the address of the next instruction and continues at `nnn`,
    /// unless the stack is full.
    fn call(&mut self, nnn: u16) -> (r: Result<(), EngineError>)
        requires
            old(self).well_formed(),
        ensures
            final(self).well_formed(),
            outcome_is(
                *old(self),
                *final(self),
                r,
                old(self)@.executed(Instruction::Call { nnn }, 0),
            ),
    {
        if self.sp >= 16 {
            return Err(EngineError::StackOverflow);
        }
        self.stack[self.sp] = ((self.pc as u32 + 2) % 65536) as u16;
        self.sp = self.sp + 1;
        self.pc = nnn;
        assert(self@.stack =~= old(self)@.stack.push(next_pc(old(self).pc, 2)));
        Ok(())
    }

    /// Pops the innermost return address and continues there, unless the
    /// stack is empty.
    fn ret(&mut self) -> (r: Result<(), EngineError>)
        requires
            old(self).well_formed(),
        ensures
            final(self).well_formed(),
            outcome_is(*old(self), *final(self), r, old(self)@.executed(Instruction::Ret, 0)),
    {
        if self.sp == 0 {
            return Err(EngineError::StackUnderflow);
        }
        self.sp = self.sp - 1;
        self.pc = self.stack[self.sp];
        assert(self@.stack =~= old(self)@.stack.drop_last());
        Ok(())
    }

    /// Draws the sprite of `n` rows at `I` to (`Vx`, `Vy`), sets the flag
    /// register to the collision flag and moves on.
    fn draw(&mut self, x: u8, y: u8, n: u8)
        requires
            old(self).well_formed(),
            x < 16,
            y < 16,
            n < 16,
        ensures
            final(self).well_formed(),
            Ok::<Machine, EngineError>(final(self)@) == old(self)@.executed(
                Instruction::Drw { x, y, n },
                0,
            ),
    {
        let x0 = (self.v[x as usize] % 64) as usize;
        let y0 = (self.v[y as usize] % 32) as usize;
        let collision = draw_sprite(&mut self.display, &self.memory, self.i, x0, y0, n as usize);
        self.v[15] = if collision {
            1
        } else {
            0
        };
        self.proceed(false);
    }

    /// Puts the lowest key that is down into register `x` and moves on, or
    /// does nothing at all while no key is down.
    fn wait_for_key(&mut self, x: u8)
        requires
            old(self).well_formed(),
            x < 16,
        ensures
            final(self).well_formed(),
            Ok::<Machine, EngineError>(final(self)@) == old(self)@.executed(
                Instruction::LdVxKey { x },
                0,
            ),
    {
        let key = self.lowest_key_down();
        if key < 16 {
            self.assign(x, key);
        }
    }

    /// Stores `values[0..=last]` to memory at `I` and moves on.
    fn store(&mut self, values: &[u8], last: usize)
        requires
            old(self).well_formed(),
            last < values@.len(),
            last < 16,
        ensures
            final(self).well_formed(),
            final(self)@ == (Machine {
                memory: stored(old(self)@.memory, old(self)@.i, values@, last as int),
                ..old(self)@
            }).advanced(),
    {
        store_block(&mut self.memory, self.i, values, last);
        self.proceed(false);
    }

    /// Loads `V0..=V[last]` from memory at `I` and moves on.
    fn load(&mut self, last: usize)
        requires
            old(self).well_formed(),
            last < 16,
        ensures
            final(self).well_formed(),
            final(self)@ == (Machine {
                v: loaded(old(self)@.v, old(self)@.memory, old(self)@.i, last as int),
                ..old(self)@
            }).advanced(),
    {
        load_block(&mut self.v, &self.memory, self.i, last);
        self.proceed(false);
    }

    /// Sets the delay timer and moves on.
    fn set_delay(&mut self, value: u8)
        requires
            old(self).well_formed(),
        ensures
            final(self).well_formed(),
            final(self)@ == (Machine { dt: value, ..old(self)@ }).advanced(),
    {
        self.dt = value;
        self.proceed(false);
    }

    /// Sets the sound timer and moves on.
    fn set_sound(&mut self, value: u8)
        requires
            old(self).well_formed(),
        ensures
            final(self).well_formed(),
            final(self)@ == (Machine { st: value, ..old(self)@ }).advanced(),
    {
        self.st = value;
        self.proceed(false);
    }

    /// The lowest key that is down, or 16 if none is.
    fn lowest_key_down(&self) -> (key: u8)
        ensures
            key as int == first_key_down(self@.keys, 0),
            key <= 16,
    {
        let mut k: usize = 0;
        while k < 16
            invariant
                k <= 16,
                first_key_down(self@.keys, 0) == first_key_down(self@.keys, k as int),
            decreases 16 - k,
        {
            if self.keys[k] {
                return k as u8;
            }
            k += 1;
        }
        16
    }

    /// Whether key `k` is down; numbers from 16 on name no key.
    fn is_key_down(&self, k: u8) -> (down: bool)
        ensures
            down == key_down(self@.keys, k as int),
    {
        k < 16 && self.keys[k as usize]
    }

    /// Executes one decoded instruction. `random` is the byte the random
    /// instruction draws; no other instruction looks at it. On failure the
    /// state is exactly what it was.
    pub fn execute(&mut self, instruction: Instruction, random: u8) -> (r: Result<
        (),
        EngineError,
    >)
        requires
            old(self).well_formed(),
            instruction.well_formed(),
        ensures
            final(self).well_formed(),
            outcome_is(*old(self), *final(self), r, old(self)@.executed(instruction, random)),
    {
        match instruction {
            Instruction::Sys { nnn } => self.proceed(false),
            Instruction::Cls => self.clear(),
            Instruction::Ret => {
                return self.ret();
            },
            Instruction::Jp { nnn } => self.jump(nnn),
            Instruction::Call { nnn } => {
                return self.call(nnn);
            },
            Instruction::SeByte { x, kk } => self.proceed(self.v[x as usize] == kk),
            Instruction::SneByte { x, kk } => self.proceed(self.v[x as usize] != kk),
            Instruction::SeReg { x, y } => self.proceed(self.v[x as usize] == self.v[y as usize]),
            Instruction::SneReg { x, y } => self.proceed(self.v[x as usize] != self.v[y as usize]),
            Instruction::LdByte { x, kk } => self.assign(x, kk),
            Instruction::AddByte { x, kk } => {
                let sum: u16 = self.v[x as usize] as u16 + kk as u16;
                self.assign(x, (sum % 256) as u8)
            },
            Instruction::LdReg { x, y } => self.assign(x, self.v[y as usize]),
            Instruction::Or { x, y } => self.assign(x, self.v[x as usize] | self.v[y as usize]),
            Instruction::And { x, y } => self.assign(x, self.v[x as usize] & self.v[y as usize]),
            Instruction::Xor { x, y } => self.assign(x, self.v[x as usize] ^ self.v[y as usize]),
            Instruction::AddReg { x, y } => {
                let sum: u16 = self.v[x as usize] as u16 + self.v[y as usize] as u16;
                let carry: u8 = if sum > 255 {
                    1
                } else {
                    0
                };
                self.assign_with_flag(x, (sum % 256) as u8, carry)
            },
            Instruction::Sub { x, y } => {
                let (difference, flag) = difference_of(self.v[x as usize], self.v[y as usize]);
                self.assign_with_flag(x, difference, flag)
            },
            Instruction::Subn { x, y } => {
                let (difference, flag) = difference_of(self.v[y as usize], self.v[x as usize]);
                self.assign_with_flag(x, difference, flag)
            },
            Instruction::Shr { x, y } => {
                let vx = self.v[x as usize];
                self.assign_with_flag(x, vx / 2, vx % 2)
            },
            Instruction::Shl { x, y } => {
                let vx = self.v[x as usize];
                self.assign_with_flag(x, ((vx as u16 * 2) % 256) as u8, vx / 128)
            },
            Instruction::LdI { nnn } => self.point_at(nnn),
            Instruction::JpV0 { nnn } => self.jump(nnn + self.v[0] as u16),
            Instruction::Rnd { x, kk } => self.assign(x, random & kk),
            Instruction::Drw { x, y, n } => self.draw(x, y, n),
            Instruction::Skp { x } => {
                let down = self.is_key_down(self.v[x as usize]);
                self.proceed(down)
            },
            Instruction::Sknp { x } => {
                let down = self.is_key_down(self.v[x as usize]);
                self.proceed(!down)
            },
            Instruction::LdVxDt { x } => self.assign(x, self.dt),
            Instruction::LdVxKey { x } => self.wait_for_key(x),
            Instruction::LdDtVx { x } => self.set_delay(self.v[x as usize]),
            Instruction::LdStVx { x } => self.set_sound(self.v[x as usize]),
            Instruction::AddI { x } => self.point_at(
                ((self.i as u32 + self.v[x as usize] as u32) % 65536) as u16,
            ),
            Instruction::LdFont { x } => self.point_at(5 * (self.v[x as usize] as u16)),
            Instruction::LdBcd { x } => {
                let digits = decimal_digits(self.v[x as usize]);
                self.store(digits.as_slice(), 2)
            },
            Instruction::StoreRegs { x } => {
                let values = self.v;
                self.store(values.as_slice(), x as usize)
            },
            Instruction::LoadRegs { x } => self.load(x as usize),
        }
        Ok(())
    }

    /// Counts both timers down by one; a timer at zero stays there. The
    /// driver calls this sixty times a second, however many instructions it
    /// steps in between.
    pub fn tick_timers(&mut self)
        ensures
            final(self)@ == (Machine {
                dt: if old(self)@.dt > 0 {
                    (old(self)@.dt - 1) as u8
                } else {
                    0
                },
                st: if old(self)@.st > 0 {
                    (old(self)@.st - 1) as u8
                } else {
                    0
                },
                ..old(self)@
            }),
            old(self).well_formed() ==> final(self).well_formed(),
    {
        if self.dt > 0 {
            self.dt = self.dt - 1;
        }
        if self.st > 0 {
            self.st = self.st - 1;
        }
    }

    /// The instruction word at an address: the byte there and the one after
    /// it, high byte first. Addresses wrap around the end of memory.
    pub fn word_at(&self, address: u16) -> (opcode: u16)
        ensures
            opcode == self@.word_at(address as int),
    {
        let at = address as usize;
        compose(self.memory[at % 4096], self.memory[(at + 1) % 4096])
    }

    /// Whether the state has the shape the engine works on. A driver that
    /// writes to the fields itself can ask before it steps.
    pub fn is_well_formed(&self) -> (ok: bool)
        ensures
            ok == self.well_formed(),
    {
        if self.sp > 16 {
            return false;
        }
        let mut p: usize = 0;
        while p < 2048
            invariant
                p <= 2048,
                forall|q: int| 0 <= q < p ==> #[trigger] self.display[q] <= 1,
            decreases 2048 - p,
        {
            if self.display[p] > 1 {
                return false;
            }
            p += 1;
        }
        true
    }

    /// Runs one fetch-decode-execute cycle: reads the instruction word at
    /// the program counter, high byte first, classifies it and executes it.
    /// `random` is the byte the random instruction draws. A word that
    /// encodes no instruction is reported with the state left as it was.
    pub fn step(&mut self, random: u8) -> (r: Result<(), EngineError>)
        requires
            old(self).well_formed(),
        ensures
            final(self).well_formed(),
            outcome_is(*old(self), *final(self), r, old(self)@.stepped(random)),
    {
        let opcode = self.word_at(self.pc);
        match decode(opcode) {
            Some(instruction) => self.execute(instruction, random),
            None => Err(EngineError::UnknownOpcode(opcode)),
        }
    }
}

} // verus!
