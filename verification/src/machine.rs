//! The mathematical model of the machine and of what each instruction does
//! to it. Everything here is ghost code: the engine's contracts are stated
//! over these functions.

use vstd::prelude::*;
use crate::error::EngineError;
use crate::opcode::{decoded, word_of, Instruction};

verus! {

/// The machine as a mathematical value.
pub struct Machine {
    /// The 4096 memory cells.
    pub memory: Seq<u8>,
    /// Address of the next instruction.
    pub pc: u16,
    /// The sixteen general registers `V0..VF`.
    pub v: Seq<u8>,
    /// The index register `I`.
    pub i: u16,
    /// The return addresses of the calls in progress, innermost last.
    pub stack: Seq<u16>,
    /// The 2048 display cells, row by row, each 0 or 1.
    pub display: Seq<u8>,
    /// The delay timer.
    pub dt: u8,
    /// The sound timer.
    pub st: u8,
    /// The sixteen key-down flags.
    pub keys: Seq<bool>,
}

/// The built-in font: for each hexadecimal digit five rows of a 4-pixel-wide
/// glyph, held in the high nibble of each byte.
pub open spec fn font_glyphs() -> Seq<u8> {
    seq![
        0xF0u8, 0x90u8, 0x90u8, 0x90u8, 0xF0u8,
        0x20u8, 0x60u8, 0x20u8, 0x20u8, 0x70u8,
        0xF0u8, 0x10u8, 0xF0u8, 0x80u8, 0xF0u8,
        0xF0u8, 0x10u8, 0xF0u8, 0x10u8, 0xF0u8,
        0x90u8, 0x90u8, 0xF0u8, 0x10u8, 0x10u8,
        0xF0u8, 0x80u8, 0xF0u8, 0x10u8, 0xF0u8,
        0xF0u8, 0x80u8, 0xF0u8, 0x90u8, 0xF0u8,
        0xF0u8, 0x10u8, 0x20u8, 0x40u8, 0x40u8,
        0xF0u8, 0x90u8, 0xF0u8, 0x90u8, 0xF0u8,
        0xF0u8, 0x90u8, 0xF0u8, 0x10u8, 0xF0u8,
        0xF0u8, 0x90u8, 0xF0u8, 0x90u8, 0x90u8,
        0xE0u8, 0x90u8, 0xE0u8, 0x90u8, 0xE0u8,
        0xF0u8, 0x80u8, 0x80u8, 0x80u8, 0xF0u8,
        0xE0u8, 0x90u8, 0x90u8, 0x90u8, 0xE0u8,
        0xF0u8, 0x80u8, 0xF0u8, 0x80u8, 0xF0u8,
        0xF0u8, 0x80u8, 0xF0u8, 0x80u8, 0x80u8,
    ]
}

/// Memory right after a reset: the font at the bottom, zero above it.
pub open spec fn initial_memory() -> Seq<u8> {
    Seq::new(
        4096,
        |a: int|
            if 0 <= a < 80 {
                font_glyphs()[a]
            } else {
                0u8
            },
    )
}

/// The machine right after a reset.
pub open spec fn initial_machine() -> Machine {
    Machine {
        memory: initial_memory(),
        pc: 0x200,
        v: Seq::new(16, |k: int| 0u8),
        i: 0,
        stack: Seq::empty(),
        display: Seq::new(2048, |p: int| 0u8),
        dt: 0,
        st: 0,
        keys: Seq::new(16, |k: int| false),
    }
}

/// The address `by` bytes after `pc`, wrapping at 16 bits.
pub open spec fn next_pc(pc: u16, by: int) -> u16 {
    ((pc as int + by) % 65536) as u16
}

/// The memory cell an address refers to. Memory has 4096 cells and
/// addresses wrap around its end.
pub open spec fn cell(address: int) -> int {
    address % 4096
}

/// Whether key `k` is down. There are sixteen keys; any other number names
/// no key and is never down.
pub open spec fn key_down(keys: Seq<bool>, k: int) -> bool {
    0 <= k < 16 && keys[k]
}

/// The lowest key at or above `from` that is down, or 16 if there is none.
pub open spec fn first_key_down(keys: Seq<bool>, from: int) -> int
    decreases 16 - from,
{
    if from >= 16 {
        16
    } else if from >= 0 && keys[from] {
        from
    } else {
        first_key_down(keys, from + 1)
    }
}

/// The weight of sprite column `c` within a sprite byte: column 0 is the
/// leftmost pixel and the most significant bit.
pub open spec fn column_weight(c: int) -> int {
    if c == 0 {
        128
    } else if c == 1 {
        64
    } else if c == 2 {
        32
    } else if c == 3 {
        16
    } else if c == 4 {
        8
    } else if c == 5 {
        4
    } else if c == 6 {
        2
    } else {
        1
    }
}

/// The pixel (0 or 1) that a sprite byte holds in column `c`.
pub open spec fn sprite_bit(byte: u8, c: int) -> int {
    (byte as int / column_weight(c)) % 2
}

/// A sprite placed on the display: `rows` bytes read from memory at `i`,
/// with its top-left pixel at column `x0`, row `y0`.
pub struct Sprite {
    /// The memory the sprite's bytes are read from.
    pub memory: Seq<u8>,
    /// Address of the sprite's first row.
    pub i: u16,
    /// Number of rows, at most 15.
    pub rows: int,
    /// Display column of the sprite's left edge, `0..64`.
    pub x0: int,
    /// Display row of the sprite's top edge, `0..32`.
    pub y0: int,
}

impl Sprite {
    /// The sprite row that passes through display row `p / 64`, counted
    /// downwards from the sprite's top edge around the display.
    pub open spec fn row_at(self, p: int) -> int {
        (p / 64 - self.y0 + 32) % 32
    }

    /// The sprite column that passes through display column `p % 64`,
    /// counted rightwards from the sprite's left edge around the display.
    pub open spec fn column_at(self, p: int) -> int {
        (p % 64 - self.x0 + 64) % 64
    }

    /// Whether display cell `p` lies under the sprite's rectangle.
    pub open spec fn covers(self, p: int) -> bool {
        self.row_at(p) < self.rows && self.column_at(p) < 8
    }

    /// The sprite's pixel over display cell `p`: 1 where the sprite is lit,
    /// 0 where it is not or does not reach.
    pub open spec fn pixel(self, p: int) -> int {
        if self.covers(p) {
            sprite_bit(self.memory[cell(self.i as int + self.row_at(p))], self.column_at(p))
        } else {
            0
        }
    }

    /// The display after the sprite has been XORed onto it.
    pub open spec fn drawn_on(self, display: Seq<u8>) -> Seq<u8> {
        Seq::new(2048, |p: int| ((display[p] as int + self.pixel(p)) % 2) as u8)
    }

    /// Whether drawing the sprite turns off a pixel that was lit.
    pub open spec fn collides_with(self, display: Seq<u8>) -> bool {
        exists|p: int| 0 <= p < 2048 && display[p] != 0 && #[trigger] self.pixel(p) == 1
    }
}

/// How far memory cell `a` lies above address `i`, going around the end of
/// memory.
pub open spec fn offset_from(a: int, i: u16) -> int {
    (a - i as int % 4096 + 4096) % 4096
}

/// Memory after the bytes `values[0..=last]` have been stored from address
/// `i` on; addresses wrap around the end of memory.
pub open spec fn stored(memory: Seq<u8>, i: u16, values: Seq<u8>, last: int) -> Seq<u8> {
    Seq::new(
        4096,
        |a: int|
            if offset_from(a, i) <= last {
                values[offset_from(a, i)]
            } else {
                memory[a]
            },
    )
}

/// Registers after `V0..=V[last]` have been loaded from memory at address
/// `i` on; addresses wrap around the end of memory.
pub open spec fn loaded(v: Seq<u8>, memory: Seq<u8>, i: u16, last: int) -> Seq<u8> {
    Seq::new(
        16,
        |k: int|
            if k <= last {
                memory[cell(i as int + k)]
            } else {
                v[k]
            },
    )
}

/// The three decimal digits of a byte, hundreds first.
pub open spec fn bcd_digits(value: u8) -> Seq<u8> {
    seq![(value / 100) as u8, ((value / 10) % 10) as u8, (value % 10) as u8]
}

impl Machine {
    /// The shape every machine state has: sizes of the memory, of the
    /// register file, of the display and of the key pad, at most sixteen
    /// calls in progress, and display cells that are 0 or 1.
    pub open spec fn well_formed(self) -> bool {
        &&& self.memory.len() == 4096
        &&& self.v.len() == 16
        &&& self.stack.len() <= 16
        &&& self.display.len() == 2048
        &&& self.keys.len() == 16
        &&& forall|p: int| 0 <= p < 2048 ==> #[trigger] self.display[p] <= 1
    }

    /// The machine with the program counter moved to the next instruction.
    pub open spec fn advanced(self) -> Machine {
        Machine { pc: next_pc(self.pc, 2), ..self }
    }

    /// The machine with the program counter moved past the next
    /// instruction if `skip` holds, and to it otherwise.
    pub open spec fn skipped_if(self, skip: bool) -> Machine {
        Machine {
            pc: next_pc(
                self.pc,
                if skip {
                    4
                } else {
                    2
                },
            ),
            ..self
        }
    }

    /// The machine with register `x` set to `value`.
    pub open spec fn with_register(self, x: int, value: u8) -> Machine {
        Machine { v: self.v.update(x, value), ..self }
    }

    /// The machine with register `x` set to `value` and then the flag
    /// register `VF` set to `flag`. The flag is written last, so it wins
    /// where `x` is `VF` itself.
    pub open spec fn with_result(self, x: int, value: u8, flag: u8) -> Machine {
        self.with_register(x, value).with_register(15, flag)
    }

    /// The instruction word at an address: two consecutive bytes, high
    /// byte first.
    pub open spec fn word_at(self, address: int) -> u16 {
        word_of(self.memory[cell(address)], self.memory[cell(address + 1)])
    }

    /// The instruction word at the program counter.
    pub open spec fn fetched(self) -> u16 {
        self.word_at(self.pc as int)
    }

    /// The sprite that a draw instruction with operands `x`, `y`, `n`
    /// places on the display.
    pub open spec fn sprite(self, x: int, y: int, n: int) -> Sprite {
        Sprite {
            memory: self.memory,
            i: self.i,
            rows: n,
            x0: self.v[x] as int % 64,
            y0: self.v[y] as int % 32,
        }
    }

    /// The outcome of executing one instruction: the next machine, or the
    /// failure that left the machine untouched. `random` is the byte that
    /// the random instruction draws.
    pub open spec fn executed(self, instruction: Instruction, random: u8) -> Result<
        Machine,
        EngineError,
    > {
        let v = self.v;
        match instruction {
            Instruction::Sys { nnn } => Ok(self.advanced()),
            Instruction::Cls => Ok(
                Machine { display: Seq::new(2048, |p: int| 0u8), ..self }.advanced(),
            ),
            Instruction::Ret => if self.stack.len() == 0 {
                Err(EngineError::StackUnderflow)
            } else {
                Ok(Machine { pc: self.stack.last(), stack: self.stack.drop_last(), ..self })
            },
            Instruction::Jp { nnn } => Ok(Machine { pc: nnn, ..self }),
            Instruction::Call { nnn } => if self.stack.len() >= 16 {
                Err(EngineError::StackOverflow)
            } else {
                Ok(Machine { pc: nnn, stack: self.stack.push(next_pc(self.pc, 2)), ..self })
            },
            Instruction::SeByte { x, kk } => Ok(self.skipped_if(v[x as int] == kk)),
            Instruction::SneByte { x, kk } => Ok(self.skipped_if(v[x as int] != kk)),
            Instruction::SeReg { x, y } => Ok(self.skipped_if(v[x as int] == v[y as int])),
            Instruction::SneReg { x, y } => Ok(self.skipped_if(v[x as int] != v[y as int])),
            Instruction::LdByte { x, kk } => Ok(self.with_register(x as int, kk).advanced()),
            Instruction::AddByte { x, kk } => Ok(
                self.with_register(x as int, ((v[x as int] + kk) % 256) as u8).advanced(),
            ),
            Instruction::LdReg { x, y } => Ok(
                self.with_register(x as int, v[y as int]).advanced(),
            ),
            Instruction::Or { x, y } => Ok(
                self.with_register(x as int, v[x as int] | v[y as int]).advanced(),
            ),
            Instruction::And { x, y } => Ok(
                self.with_register(x as int, v[x as int] & v[y as int]).advanced(),
            ),
            Instruction::Xor { x, y } => Ok(
                self.with_register(x as int, v[x as int] ^ v[y as int]).advanced(),
            ),
            Instruction::AddReg { x, y } => {
                let sum = v[x as int] + v[y as int];
                Ok(
                    self.with_result(
                        x as int,
                        (sum % 256) as u8,
                        if sum > 255 {
                            1
                        } else {
                            0
                        },
                    ).advanced(),
                )
            },
            Instruction::Sub { x, y } => Ok(
                self.with_result(
                    x as int,
                    ((v[x as int] - v[y as int]) % 256) as u8,
                    if v[x as int] >= v[y as int] {
                        1
                    } else {
                        0
                    },
                ).advanced(),
            ),
            Instruction::Subn { x, y } => Ok(
                self.with_result(
                    x as int,
                    ((v[y as int] - v[x as int]) % 256) as u8,
                    if v[y as int] >= v[x as int] {
                        1
                    } else {
                        0
                    },
                ).advanced(),
            ),
            Instruction::Shr { x, y } => Ok(
                self.with_result(
                    x as int,
                    (v[x as int] / 2) as u8,
                    (v[x as int] % 2) as u8,
                ).advanced(),
            ),
            Instruction::Shl { x, y } => Ok(
                self.with_result(
                    x as int,
                    ((v[x as int] * 2) % 256) as u8,
                    (v[x as int] / 128) as u8,
                ).advanced(),
            ),
            Instruction::LdI { nnn } => Ok(Machine { i: nnn, ..self }.advanced()),
            Instruction::JpV0 { nnn } => Ok(Machine { pc: (nnn + v[0]) as u16, ..self }),
            Instruction::Rnd { x, kk } => Ok(
                self.with_register(x as int, random & kk).advanced(),
            ),
            Instruction::Drw { x, y, n } => {
                let sprite = self.sprite(x as int, y as int, n as int);
                Ok(
                    Machine { display: sprite.drawn_on(self.display), ..self }.with_register(
                        15,
                        if sprite.collides_with(self.display) {
                            1
                        } else {
                            0
                        },
                    ).advanced(),
                )
            },
            Instruction::Skp { x } => Ok(self.skipped_if(key_down(self.keys, v[x as int] as int))),
            Instruction::Sknp { x } => Ok(
                self.skipped_if(!key_down(self.keys, v[x as int] as int)),
            ),
            Instruction::LdVxDt { x } => Ok(self.with_register(x as int, self.dt).advanced()),
            Instruction::LdVxKey { x } => {
                let key = first_key_down(self.keys, 0);
                if key < 16 {
                    Ok(self.with_register(x as int, key as u8).advanced())
                } else {
                    Ok(self)
                }
            },
            Instruction::LdDtVx { x } => Ok(Machine { dt: v[x as int], ..self }.advanced()),
            Instruction::LdStVx { x } => Ok(Machine { st: v[x as int], ..self }.advanced()),
            Instruction::AddI { x } => Ok(
                Machine { i: ((self.i + v[x as int]) % 65536) as u16, ..self }.advanced(),
            ),
            Instruction::LdFont { x } => Ok(
                Machine { i: (5 * v[x as int]) as u16, ..self }.advanced(),
            ),
            Instruction::LdBcd { x } => Ok(
                Machine {
                    memory: stored(self.memory, self.i, bcd_digits(v[x as int]), 2),
                    ..self
                }.advanced(),
            ),
            Instruction::StoreRegs { x } => Ok(
                Machine { memory: stored(self.memory, self.i, v, x as int), ..self }.advanced(),
            ),
            Instruction::LoadRegs { x } => Ok(
                Machine { v: loaded(v, self.memory, self.i, x as int), ..self }.advanced(),
            ),
        }
    }

    /// The outcome of one fetch-decode-execute cycle.
    pub open spec fn stepped(self, random: u8) -> Result<Machine, EngineError> {
        match decoded(self.fetched()) {
            Some(instruction) => self.executed(instruction, random),
            None => Err(EngineError::UnknownOpcode(self.fetched())),
        }
    }

    /// The outcome of loading a program: the bytes stand in memory from
    /// address `0x200` on and nothing else has changed, or the program is
    /// too large and nothing has changed at all.
    pub open spec fn with_program(self, bytes: Seq<u8>) -> Result<Machine, EngineError> {
        if bytes.len() > 4096 - 0x200 {
            Err(EngineError::ProgramTooLarge)
        } else {
            Ok(
                Machine {
                    memory: Seq::new(
                        4096,
                        |a: int|
                            if 0x200 <= a < 0x200 + bytes.len() {
                                bytes[a - 0x200]
                            } else {
                                self.memory[a]
                            },
                    ),
                    ..self
                },
            )
        }
    }
}

} // verus!
