//! The 16-bit instruction encoding: operand fields and the classification
//! of an instruction word into a closed set of instructions.
//!
//! Both the execution engine and the disassembler go through [`decode`], so
//! the two can never disagree on what an instruction word means.

use vstd::prelude::*;

verus! {

/// One decoded instruction. Register operands are indices `0..16`, `kk` is an
/// immediate byte, `nnn` a 12-bit address and `n` a 4-bit row count.
#[derive(Clone, Copy, Debug, PartialEq, Eq, Structural)]
pub enum Instruction {
    /// `0nnn` other than `00E0` and `00EE`: legacy call of a machine
    /// routine; executes as a no-op.
    Sys { nnn: u16 },
    /// `00E0`: clear the display.
    Cls,
    /// `00EE`: return from a subroutine.
    Ret,
    /// `1nnn`: jump to `nnn`.
    Jp { nnn: u16 },
    /// `2nnn`: call the subroutine at `nnn`.
    Call { nnn: u16 },
    /// `3xkk`: skip the next instruction if `Vx == kk`.
    SeByte { x: u8, kk: u8 },
    /// `4xkk`: skip the next instruction if `Vx != kk`.
    SneByte { x: u8, kk: u8 },
    /// `5xy_`: skip the next instruction if `Vx == Vy`.
    SeReg { x: u8, y: u8 },
    /// `6xkk`: `Vx = kk`.
    LdByte { x: u8, kk: u8 },
    /// `7xkk`: `Vx = Vx + kk` modulo 256, flag untouched.
    AddByte { x: u8, kk: u8 },
    /// `8xy0`: `Vx = Vy`.
    LdReg { x: u8, y: u8 },
    /// `8xy1`: `Vx = Vx | Vy`.
    Or { x: u8, y: u8 },
    /// `8xy2`: `Vx = Vx & Vy`.
    And { x: u8, y: u8 },
    /// `8xy3`: `Vx = Vx ^ Vy`.
    Xor { x: u8, y: u8 },
    /// `8xy4`: `Vx = Vx + Vy` modulo 256, `VF` = carry.
    AddReg { x: u8, y: u8 },
    /// `8xy5`: `Vx = Vx - Vy` modulo 256, `VF` = no borrow.
    Sub { x: u8, y: u8 },
    /// `8xy6`: `Vx = Vx >> 1`, `VF` = the bit shifted out.
    Shr { x: u8, y: u8 },
    /// `8xy7`: `Vx = Vy - Vx` modulo 256, `VF` = no borrow.
    Subn { x: u8, y: u8 },
    /// `8xyE`: `Vx = Vx << 1` modulo 256, `VF` = the bit shifted out.
    Shl { x: u8, y: u8 },
    /// `9xy_`: skip the next instruction if `Vx != Vy`.
    SneReg { x: u8, y: u8 },
    /// `Annn`: `I = nnn`.
    LdI { nnn: u16 },
    /// `Bnnn`: jump to `nnn + V0`.
    JpV0 { nnn: u16 },
    /// `Cxkk`: `Vx = random byte & kk`.
    Rnd { x: u8, kk: u8 },
    /// `Dxyn`: draw an `n`-row sprite from memory at `I` to `(Vx, Vy)`.
    Drw { x: u8, y: u8, n: u8 },
    /// `Ex9E`: skip the next instruction if key `Vx` is down.
    Skp { x: u8 },
    /// `ExA1`: skip the next instruction if key `Vx` is up.
    Sknp { x: u8 },
    /// `Fx07`: `Vx = delay timer`.
    LdVxDt { x: u8 },
    /// `Fx0A`: wait for a key, then `Vx = its index`.
    LdVxKey { x: u8 },
    /// `Fx15`: `delay timer = Vx`.
    LdDtVx { x: u8 },
    /// `Fx18`: `sound timer = Vx`.
    LdStVx { x: u8 },
    /// `Fx1E`: `I = I + Vx` modulo 65536.
    AddI { x: u8 },
    /// `Fx29`: `I` = address of the glyph of digit `Vx`.
    LdFont { x: u8 },
    /// `Fx33`: store the three decimal digits of `Vx` at `I`, `I+1`, `I+2`.
    LdBcd { x: u8 },
    /// `Fx55`: store `V0..=Vx` to memory at `I`.
    StoreRegs { x: u8 },
    /// `Fx65`: load `V0..=Vx` from memory at `I`.
    LoadRegs { x: u8 },
}

/// The highest nibble of an instruction word: its family.
pub open spec fn family_of(opcode: u16) -> int {
    opcode as int / 4096
}

/// The 12-bit address operand `nnn`.
pub open spec fn nnn_of(opcode: u16) -> int {
    opcode as int % 4096
}

/// The register operand `x`, bits 8..12.
pub open spec fn x_of(opcode: u16) -> int {
    (opcode as int / 256) % 16
}

/// The register operand `y`, bits 4..8.
pub open spec fn y_of(opcode: u16) -> int {
    (opcode as int / 16) % 16
}

/// The lowest nibble `n`.
pub open spec fn n_of(opcode: u16) -> int {
    opcode as int % 16
}

/// The low byte `kk`.
pub open spec fn kk_of(opcode: u16) -> int {
    opcode as int % 256
}

impl Instruction {
    /// Every operand lies in the range its field of the encoding can hold.
    pub open spec fn well_formed(self) -> bool {
        match self {
            Instruction::Sys { nnn } => nnn < 4096,
            Instruction::Cls => true,
            Instruction::Ret => true,
            Instruction::Jp { nnn } => nnn < 4096,
            Instruction::Call { nnn } => nnn < 4096,
            Instruction::SeByte { x, kk } => x < 16,
            Instruction::SneByte { x, kk } => x < 16,
            Instruction::SeReg { x, y } => x < 16 && y < 16,
            Instruction::LdByte { x, kk } => x < 16,
            Instruction::AddByte { x, kk } => x < 16,
            Instruction::LdReg { x, y } => x < 16 && y < 16,
            Instruction::Or { x, y } => x < 16 && y < 16,
            Instruction::And { x, y } => x < 16 && y < 16,
            Instruction::Xor { x, y } => x < 16 && y < 16,
            Instruction::AddReg { x, y } => x < 16 && y < 16,
            Instruction::Sub { x, y } => x < 16 && y < 16,
            Instruction::Shr { x, y } => x < 16 && y < 16,
            Instruction::Subn { x, y } => x < 16 && y < 16,
            Instruction::Shl { x, y } => x < 16 && y < 16,
            Instruction::SneReg { x, y } => x < 16 && y < 16,
            Instruction::LdI { nnn } => nnn < 4096,
            Instruction::JpV0 { nnn } => nnn < 4096,
            Instruction::Rnd { x, kk } => x < 16,
            Instruction::Drw { x, y, n } => x < 16 && y < 16 && n < 16,
            Instruction::Skp { x } => x < 16,
            Instruction::Sknp { x } => x < 16,
            Instruction::LdVxDt { x } => x < 16,
            Instruction::LdVxKey { x } => x < 16,
            Instruction::LdDtVx { x } => x < 16,
            Instruction::LdStVx { x } => x < 16,
            Instruction::AddI { x } => x < 16,
            Instruction::LdFont { x } => x < 16,
            Instruction::LdBcd { x } => x < 16,
            Instruction::StoreRegs { x } => x < 16,
            Instruction::LoadRegs { x } => x < 16,
        }
    }

    /// Whether every operand lies in the range its field of the encoding
    /// can hold. Instructions that come out of [`decode`] always do.
    pub fn is_well_formed(&self) -> (ok: bool)
        ensures
            ok == self.well_formed(),
    {
        match *self {
            Instruction::Cls | Instruction::Ret => true,
            Instruction::Sys { nnn }
            | Instruction::Jp { nnn }
            | Instruction::Call { nnn }
            | Instruction::LdI { nnn }
            | Instruction::JpV0 { nnn } => nnn < 4096,
            Instruction::SeByte { x, kk }
            | Instruction::SneByte { x, kk }
            | Instruction::LdByte { x, kk }
            | Instruction::AddByte { x, kk }
            | Instruction::Rnd { x, kk } => x < 16,
            Instruction::SeReg { x, y }
            | Instruction::LdReg { x, y }
            | Instruction::Or { x, y }
            | Instruction::And { x, y }
            | Instruction::Xor { x, y }
            | Instruction::AddReg { x, y }
            | Instruction::Sub { x, y }
            | Instruction::Shr { x, y }
            | Instruction::Subn { x, y }
            | Instruction::Shl { x, y }
            | Instruction::SneReg { x, y } => x < 16 && y < 16,
            Instruction::Drw { x, y, n } => x < 16 && y < 16 && n < 16,
            Instruction::Skp { x }
            | Instruction::Sknp { x }
            | Instruction::LdVxDt { x }
            | Instruction::LdVxKey { x }
            | Instruction::LdDtVx { x }
            | Instruction::LdStVx { x }
            | Instruction::AddI { x }
            | Instruction::LdFont { x }
            | Instruction::LdBcd { x }
            | Instruction::StoreRegs { x }
            | Instruction::LoadRegs { x } => x < 16,
        }
    }
}

/// The classification table for family `0`: the word `00E0` clears the
/// display, the word `00EE` returns, and every other word of the family is
/// the ignored legacy call.
pub open spec fn classify_system(opcode: u16) -> Option<Instruction> {
    if opcode == 0x00E0 {
        Some(Instruction::Cls)
    } else if opcode == 0x00EE {
        Some(Instruction::Ret)
    } else {
        Some(Instruction::Sys { nnn: nnn_of(opcode) as u16 })
    }
}

/// The classification table for family `8`: register-to-register arithmetic,
/// selected by the lowest nibble.
pub open spec fn classify_arithmetic(opcode: u16) -> Option<Instruction> {
    let x = x_of(opcode) as u8;
    let y = y_of(opcode) as u8;
    let n = n_of(opcode);
    if n == 0 {
        Some(Instruction::LdReg { x, y })
    } else if n == 1 {
        Some(Instruction::Or { x, y })
    } else if n == 2 {
        Some(Instruction::And { x, y })
    } else if n == 3 {
        Some(Instruction::Xor { x, y })
    } else if n == 4 {
        Some(Instruction::AddReg { x, y })
    } else if n == 5 {
        Some(Instruction::Sub { x, y })
    } else if n == 6 {
        Some(Instruction::Shr { x, y })
    } else if n == 7 {
        Some(Instruction::Subn { x, y })
    } else if n == 0xE {
        Some(Instruction::Shl { x, y })
    } else {
        None
    }
}

/// The classification table for family `E`: the two key-test skips.
pub open spec fn classify_key(opcode: u16) -> Option<Instruction> {
    let x = x_of(opcode) as u8;
    let kk = kk_of(opcode);
    if kk == 0x9E {
        Some(Instruction::Skp { x })
    } else if kk == 0xA1 {
        Some(Instruction::Sknp { x })
    } else {
        None
    }
}

/// The classification table for family `F`: timers, key wait, index
/// register and memory block instructions, selected by the low byte.
pub open spec fn classify_misc(opcode: u16) -> Option<Instruction> {
    let x = x_of(opcode) as u8;
    let kk = kk_of(opcode);
    if kk == 0x07 {
        Some(Instruction::LdVxDt { x })
    } else if kk == 0x0A {
        Some(Instruction::LdVxKey { x })
    } else if kk == 0x15 {
        Some(Instruction::LdDtVx { x })
    } else if kk == 0x18 {
        Some(Instruction::LdStVx { x })
    } else if kk == 0x1E {
        Some(Instruction::AddI { x })
    } else if kk == 0x29 {
        Some(Instruction::LdFont { x })
    } else if kk == 0x33 {
        Some(Instruction::LdBcd { x })
    } else if kk == 0x55 {
        Some(Instruction::StoreRegs { x })
    } else if kk == 0x65 {
        Some(Instruction::LoadRegs { x })
    } else {
        None
    }
}

/// The instruction an instruction word encodes, or `None` where the word
/// matches no instruction. The family (highest nibble) is looked at first;
/// families `0`, `8`, `E` and `F` are split further by a low nibble or byte.
pub open spec fn decoded(opcode: u16) -> Option<Instruction> {
    let family = family_of(opcode);
    let nnn = nnn_of(opcode) as u16;
    let x = x_of(opcode) as u8;
    let y = y_of(opcode) as u8;
    let kk = kk_of(opcode) as u8;
    let n = n_of(opcode) as u8;
    if family == 0x0 {
        classify_system(opcode)
    } else if family == 0x1 {
        Some(Instruction::Jp { nnn })
    } else if family == 0x2 {
        Some(Instruction::Call { nnn })
    } else if family == 0x3 {
        Some(Instruction::SeByte { x, kk })
    } else if family == 0x4 {
        Some(Instruction::SneByte { x, kk })
    } else if family == 0x5 {
        Some(Instruction::SeReg { x, y })
    } else if family == 0x6 {
        Some(Instruction::LdByte { x, kk })
    } else if family == 0x7 {
        Some(Instruction::AddByte { x, kk })
    } else if family == 0x8 {
        classify_arithmetic(opcode)
    } else if family == 0x9 {
        Some(Instruction::SneReg { x, y })
    } else if family == 0xA {
        Some(Instruction::LdI { nnn })
    } else if family == 0xB {
        Some(Instruction::JpV0 { nnn })
    } else if family == 0xC {
        Some(Instruction::Rnd { x, kk })
    } else if family == 0xD {
        Some(Instruction::Drw { x, y, n })
    } else if family == 0xE {
        classify_key(opcode)
    } else {
        classify_misc(opcode)
    }
}

/// Big-endian composition of two bytes into an instruction word.
pub open spec fn word_of(high: u8, low: u8) -> u16 {
    (high as int * 256 + low as int) as u16
}

/// Composes two consecutive program bytes, high byte first, into an
/// instruction word.
pub fn compose(high: u8, low: u8) -> (opcode: u16)
    ensures
        opcode == word_of(high, low),
        opcode as int == high as int * 256 + low as int,
{
    (high as u16) * 256 + (low as u16)
}

fn decode_system(opcode: u16) -> (r: Option<Instruction>)
    requires
        family_of(opcode) == 0x0,
    ensures
        r == classify_system(opcode),
{
    if opcode == 0x00E0 {
        Some(Instruction::Cls)
    } else if opcode == 0x00EE {
        Some(Instruction::Ret)
    } else {
        Some(Instruction::Sys { nnn: opcode % 4096 })
    }
}

fn decode_arithmetic(opcode: u16) -> (r: Option<Instruction>)
    ensures
        r == classify_arithmetic(opcode),
{
    let x: u8 = ((opcode / 256) % 16) as u8;
    let y: u8 = ((opcode / 16) % 16) as u8;
    let n: u16 = opcode % 16;
    if n == 0 {
        Some(Instruction::LdReg { x, y })
    } else if n == 1 {
        Some(Instruction::Or { x, y })
    } else if n == 2 {
        Some(Instruction::And { x, y })
    } else if n == 3 {
        Some(Instruction::Xor { x, y })
    } else if n == 4 {
        Some(Instruction::AddReg { x, y })
    } else if n == 5 {
        Some(Instruction::Sub { x, y })
    } else if n == 6 {
        Some(Instruction::Shr { x, y })
    } else if n == 7 {
        Some(Instruction::Subn { x, y })
    } else if n == 0xE {
        Some(Instruction::Shl { x, y })
    } else {
        None
    }
}

fn decode_key(opcode: u16) -> (r: Option<Instruction>)
    ensures
        r == classify_key(opcode),
{
    let x: u8 = ((opcode / 256) % 16) as u8;
    let kk: u16 = opcode % 256;
    if kk == 0x9E {
        Some(Instruction::Skp { x })
    } else if kk == 0xA1 {
        Some(Instruction::Sknp { x })
    } else {
        None
    }
}

fn decode_misc(opcode: u16) -> (r: Option<Instruction>)
    ensures
        r == classify_misc(opcode),
{
    let x: u8 = ((opcode / 256) % 16) as u8;
    let kk: u16 = opcode % 256;
    if kk == 0x07 {
        Some(Instruction::LdVxDt { x })
    } else if kk == 0x0A {
        Some(Instruction::LdVxKey { x })
    } else if kk == 0x15 {
        Some(Instruction::LdDtVx { x })
    } else if kk == 0x18 {
        Some(Instruction::LdStVx { x })
    } else if kk == 0x1E {
        Some(Instruction::AddI { x })
    } else if kk == 0x29 {
        Some(Instruction::LdFont { x })
    } else if kk == 0x33 {
        Some(Instruction::LdBcd { x })
    } else if kk == 0x55 {
        Some(Instruction::StoreRegs { x })
    } else if kk == 0x65 {
        Some(Instruction::LoadRegs { x })
    } else {
        None
    }
}

/// Classifies an instruction word. Returns `None` exactly for the words
/// that encode no instruction: an unused low nibble in family `8`, or an
/// unused low byte in families `E` and `F`.
pub fn decode(opcode: u16) -> (r: Option<Instruction>)
    ensures
        r == decoded(opcode),
        r is Some ==> r->0.well_formed(),
{
    let family: u16 = opcode / 4096;
    let nnn: u16 = opcode % 4096;
    let x: u8 = ((opcode / 256) % 16) as u8;
    let y: u8 = ((opcode / 16) % 16) as u8;
    let kk: u8 = (opcode % 256) as u8;
    let n: u8 = (opcode % 16) as u8;
    if family == 0x0 {
        decode_system(opcode)
    } else if family == 0x1 {
        Some(Instruction::Jp { nnn })
    } else if family == 0x2 {
        Some(Instruction::Call { nnn })
    } else if family == 0x3 {
        Some(Instruction::SeByte { x, kk })
    } else if family == 0x4 {
        Some(Instruction::SneByte { x, kk })
    } else if family == 0x5 {
        Some(Instruction::SeReg { x, y })
    } else if family == 0x6 {
        Some(Instruction::LdByte { x, kk })
    } else if family == 0x7 {
        Some(Instruction::AddByte { x, kk })
    } else if family == 0x8 {
        decode_arithmetic(opcode)
    } else if family == 0x9 {
        Some(Instruction::SneReg { x, y })
    } else if family == 0xA {
        Some(Instruction::LdI { nnn })
    } else if family == 0xB {
        Some(Instruction::JpV0 { nnn })
    } else if family == 0xC {
        Some(Instruction::Rnd { x, kk })
    } else if family == 0xD {
        Some(Instruction::Drw { x, y, n })
    } else if family == 0xE {
        decode_key(opcode)
    } else {
        decode_misc(opcode)
    }
}

/// Every decoded instruction has its operands in range.
pub proof fn lemma_decoded_well_formed(opcode: u16)
    ensures
        decoded(opcode) is Some ==> decoded(opcode)->0.well_formed(),
{
}

/// An instruction word fails to decode only in families `8`, `E` and `F`:
/// every word of the other thirteen families, the legacy family `0`
/// included, is an instruction.
pub proof fn lemma_unknown_families(opcode: u16)
    ensures
        decoded(opcode) is None ==> (family_of(opcode) == 0x8 || family_of(opcode) == 0xE
            || family_of(opcode) == 0xF),
        family_of(opcode) == 0x0 ==> decoded(opcode) is Some,
{
}

} // verus!
