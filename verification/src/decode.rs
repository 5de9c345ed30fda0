//! Instruction decoding: from a 16-bit opcode to a tagged instruction.
use vstd::prelude::*;

verus! {

/// One decoded instruction with its operand fields.
///
/// `x` and `y` name registers, `n` is a 4-bit count, `byte` an 8-bit
/// immediate and `addr` a 12-bit address.
#[derive(Clone, Copy, Debug, PartialEq, Eq, Structural)]
pub enum Instruction {
    /// `0000`: do nothing.
    Nop,
    /// `0xCn` (any `x`): scroll the display down by `n` pixel rows.
    ScrollDown { n: u8 },
    /// `00E0`: clear the display.
    Cls,
    /// `00EE`: return from a subroutine.
    Ret,
    /// `00FB`: scroll the display right by four pixels.
    ScrollRight,
    /// `00FC`: scroll the display left by four pixels.
    ScrollLeft,
    /// `00FD`: halt by executing this instruction forever.
    Exit,
    /// `00FE`: leave extended mode.
    Low,
    /// `00FF`: enter extended mode.
    High,
    /// `1nnn`: jump to `addr`.
    Jp { addr: u16 },
    /// `2nnn`: call the subroutine at `addr`.
    Call { addr: u16 },
    /// `3xkk`: skip the next instruction if `Vx == byte`.
    SeByte { x: usize, byte: u8 },
    /// `4xkk`: skip the next instruction if `Vx != byte`.
    SneByte { x: usize, byte: u8 },
    /// `5xy0`: skip the next instruction if `Vx == Vy`.
    SeReg { x: usize, y: usize },
    /// `6xkk`: `Vx = byte`.
    LdByte { x: usize, byte: u8 },
    /// `7xkk`: `Vx = Vx + byte`, wrapping, flag untouched.
    AddByte { x: usize, byte: u8 },
    /// `8xy0`: `Vx = Vy`.
    LdReg { x: usize, y: usize },
    /// `8xy1`: `Vx = Vx | Vy`.
    Or { x: usize, y: usize },
    /// `8xy2`: `Vx = Vx & Vy`.
    And { x: usize, y: usize },
    /// `8xy3`: `Vx = Vx ^ Vy`.
    Xor { x: usize, y: usize },
    /// `8xy4`: `Vx = Vx + Vy`, wrapping, `VF` = carry.
    AddReg { x: usize, y: usize },
    /// `8xy5`: `Vx = Vx - Vy`, wrapping, `VF` = no borrow.
    Sub { x: usize, y: usize },
    /// `8xy6`: `Vx = Vx >> 1`, `VF` = the bit shifted out.
    Shr { x: usize },
    /// `8xy7`: `Vx = Vy - Vx`, wrapping, `VF` = no borrow.
    Subn { x: usize, y: usize },
    /// `8xyE`: `Vx = Vx << 1`, `VF` = the bit shifted out.
    Shl { x: usize },
    /// `9xy0`: skip the next instruction if `Vx != Vy`.
    SneReg { x: usize, y: usize },
    /// `Annn`: `I = addr`.
    LdI { addr: u16 },
    /// `Bnnn`: jump to `addr + V0`.
    JpV0 { addr: u16 },
    /// `Cxkk`: `Vx = random & byte`.
    Rnd { x: usize, byte: u8 },
    /// `Dxyn`: draw a sprite at `(Vx, Vy)`.
    Drw { x: usize, y: usize, n: u8 },
    /// `Ex9E`: skip the next instruction if key `Vx` is down.
    Skp { x: usize },
    /// `ExA1`: skip the next instruction if key `Vx` is up.
    Sknp { x: usize },
    /// `Fx07`: `Vx = delay timer`.
    LdVxDt { x: usize },
    /// `Fx0A`: wait for a key and store its index in `Vx`.
    LdKey { x: usize },
    /// `Fx15`: `delay timer = Vx`.
    LdDtVx { x: usize },
    /// `Fx18`: `sound timer = Vx`.
    LdStVx { x: usize },
    /// `Fx1E`: `I = I + Vx`.
    AddI { x: usize },
    /// `Fx29`: `I` = address of the small glyph for `Vx`.
    LdSmallGlyph { x: usize },
    /// `Fx30`: `I` = address of the large glyph for `Vx`.
    LdLargeGlyph { x: usize },
    /// `Fx33`: store the decimal digits of `Vx` at `I`, `I+1`, `I+2`.
    LdBcd { x: usize },
    /// `Fx55`: store `V0..=Vx` at `I`.
    Store { x: usize },
    /// `Fx65`: load `V0..=Vx` from `I`.
    Load { x: usize },
    /// Anything else: no effect.
    Unknown { opcode: u16 },
}

impl Instruction {
    /// Every operand fits the width of its opcode field.
    pub open spec fn wf(self) -> bool {
        match self {
            Instruction::ScrollDown { n } => n < 16,
            Instruction::Jp { addr } | Instruction::Call { addr } | Instruction::LdI { addr }
            | Instruction::JpV0 { addr } => addr < 0x1000,
            Instruction::SeByte { x, .. } | Instruction::SneByte { x, .. }
            | Instruction::LdByte { x, .. } | Instruction::AddByte { x, .. }
            | Instruction::Rnd { x, .. } | Instruction::Shr { x } | Instruction::Shl { x }
            | Instruction::Skp { x } | Instruction::Sknp { x } | Instruction::LdVxDt { x }
            | Instruction::LdKey { x } | Instruction::LdDtVx { x } | Instruction::LdStVx { x }
            | Instruction::AddI { x } | Instruction::LdSmallGlyph { x }
            | Instruction::LdLargeGlyph { x } | Instruction::LdBcd { x }
            | Instruction::Store { x } | Instruction::Load { x } => x < 16,
            Instruction::SeReg { x, y } | Instruction::LdReg { x, y } | Instruction::Or { x, y }
            | Instruction::And { x, y } | Instruction::Xor { x, y }
            | Instruction::AddReg { x, y } | Instruction::Sub { x, y }
            | Instruction::Subn { x, y } | Instruction::SneReg { x, y } => x < 16 && y < 16,
            Instruction::Drw { x, y, n } => x < 16 && y < 16 && n < 16,
            _ => true,
        }
    }
}

/// Bits 8..12 of an opcode: the first register operand.
pub open spec fn field_x(opcode: u16) -> usize {
    ((opcode / 0x100) % 0x10) as usize
}

/// Bits 4..8 of an opcode: the second register operand.
pub open spec fn field_y(opcode: u16) -> usize {
    ((opcode / 0x10) % 0x10) as usize
}

/// Bits 0..4 of an opcode.
pub open spec fn field_n(opcode: u16) -> u8 {
    (opcode % 0x10) as u8
}

/// Bits 0..8 of an opcode.
pub open spec fn field_byte(opcode: u16) -> u8 {
    (opcode % 0x100) as u8
}

/// Bits 0..12 of an opcode.
pub open spec fn field_addr(opcode: u16) -> u16 {
    opcode % 0x1000
}

/// The instruction of the group whose top nibble is `0`.
pub open spec fn decode_system(opcode: u16) -> Instruction {
    if field_y(opcode) == 0xC {
        Instruction::ScrollDown { n: field_n(opcode) }
    } else if opcode == 0x0000 {
        Instruction::Nop
    } else if opcode == 0x00E0 {
        Instruction::Cls
    } else if opcode == 0x00EE {
        Instruction::Ret
    } else if opcode == 0x00FB {
        Instruction::ScrollRight
    } else if opcode == 0x00FC {
        Instruction::ScrollLeft
    } else if opcode == 0x00FD {
        Instruction::Exit
    } else if opcode == 0x00FE {
        Instruction::Low
    } else if opcode == 0x00FF {
        Instruction::High
    } else {
        Instruction::Unknown { opcode }
    }
}

/// The instruction of the group whose top nibble is `8`.
pub open spec fn decode_alu(opcode: u16) -> Instruction {
    let x = field_x(opcode);
    let y = field_y(opcode);
    let n = field_n(opcode);
    if n == 0x0 {
        Instruction::LdReg { x, y }
    } else if n == 0x1 {
        Instruction::Or { x, y }
    } else if n == 0x2 {
        Instruction::And { x, y }
    } else if n == 0x3 {
        Instruction::Xor { x, y }
    } else if n == 0x4 {
        Instruction::AddReg { x, y }
    } else if n == 0x5 {
        Instruction::Sub { x, y }
    } else if n == 0x6 {
        Instruction::Shr { x }
    } else if n == 0x7 {
        Instruction::Subn { x, y }
    } else if n == 0xE {
        Instruction::Shl { x }
    } else {
        Instruction::Unknown { opcode }
    }
}

/// The instruction of the group whose top nibble is `F`.
pub open spec fn decode_misc(opcode: u16) -> Instruction {
    let x = field_x(opcode);
    let byte = field_byte(opcode);
    if byte == 0x07 {
        Instruction::LdVxDt { x }
    } else if byte == 0x0A {
        Instruction::LdKey { x }
    } else if byte == 0x15 {
        Instruction::LdDtVx { x }
    } else if byte == 0x18 {
        Instruction::LdStVx { x }
    } else if byte == 0x1E {
        Instruction::AddI { x }
    } else if byte == 0x29 {
        Instruction::LdSmallGlyph { x }
    } else if byte == 0x30 {
        Instruction::LdLargeGlyph { x }
    } else if byte == 0x33 {
        Instruction::LdBcd { x }
    } else if byte == 0x55 {
        Instruction::Store { x }
    } else if byte == 0x65 {
        Instruction::Load { x }
    } else {
        Instruction::Unknown { opcode }
    }
}

/// The instruction that an opcode stands for.
///
/// The top nibble selects the group; within a group the low nibble or the
/// low byte selects the instruction.
pub open spec fn decode_spec(opcode: u16) -> Instruction {
    let top = opcode / 0x1000;
    let x = field_x(opcode);
    let y = field_y(opcode);
    let n = field_n(opcode);
    let byte = field_byte(opcode);
    let addr = field_addr(opcode);
    if top == 0x0 {
        decode_system(opcode)
    } else if top == 0x1 {
        Instruction::Jp { addr }
    } else if top == 0x2 {
        Instruction::Call { addr }
    } else if top == 0x3 {
        Instruction::SeByte { x, byte }
    } else if top == 0x4 {
        Instruction::SneByte { x, byte }
    } else if top == 0x5 {
        if n == 0 {
            Instruction::SeReg { x, y }
        } else {
            Instruction::Unknown { opcode }
        }
    } else if top == 0x6 {
        Instruction::LdByte { x, byte }
    } else if top == 0x7 {
        Instruction::AddByte { x, byte }
    } else if top == 0x8 {
        decode_alu(opcode)
    } else if top == 0x9 {
        if n == 0 {
            Instruction::SneReg { x, y }
        } else {
            Instruction::Unknown { opcode }
        }
    } else if top == 0xA {
        Instruction::LdI { addr }
    } else if top == 0xB {
        Instruction::JpV0 { addr }
    } else if top == 0xC {
        Instruction::Rnd { x, byte }
    } else if top == 0xD {
        Instruction::Drw { x, y, n }
    } else if top == 0xE {
        if byte == 0x9E {
            Instruction::Skp { x }
        } else if byte == 0xA1 {
            Instruction::Sknp { x }
        } else {
            Instruction::Unknown { opcode }
        }
    } else {
        decode_misc(opcode)
    }
}

/// Masking and shifting an opcode yields its fields.
proof fn lemma_fields(opcode: u16)
    ensures
        (opcode & 0x0F00) >> 8 == (opcode / 0x100) % 0x10,
        (opcode & 0x00F0) >> 4 == (opcode / 0x10) % 0x10,
        opcode & 0x000F == opcode % 0x10,
        opcode & 0x00FF == opcode % 0x100,
        opcode & 0x0FFF == opcode % 0x1000,
        opcode & 0xF000 == (opcode / 0x1000) * 0x1000,
        opcode & 0x00F0 == ((opcode / 0x10) % 0x10) * 0x10,
        opcode & 0xF00F == (opcode / 0x1000) * 0x1000 + opcode % 0x10,
        opcode & 0xF0FF == (opcode / 0x1000) * 0x1000 + opcode % 0x100,
{
    assert((opcode & 0x0F00) >> 8 == (opcode / 0x100) % 0x10) by (bit_vector);
    assert((opcode & 0x00F0) >> 4 == (opcode / 0x10) % 0x10) by (bit_vector);
    assert(opcode & 0x000F == opcode % 0x10) by (bit_vector);
    assert(opcode & 0x00FF == opcode % 0x100) by (bit_vector);
    assert(opcode & 0x0FFF == opcode % 0x1000) by (bit_vector);
    assert(opcode & 0xF000 == (opcode / 0x1000) * 0x1000) by (bit_vector);
    assert(opcode & 0x00F0 == ((opcode / 0x10) % 0x10) * 0x10) by (bit_vector);
    assert(opcode & 0xF00F == (opcode / 0x1000) * 0x1000 + opcode % 0x10) by (bit_vector);
    assert(opcode & 0xF0FF == (opcode / 0x1000) * 0x1000 + opcode % 0x100) by (bit_vector);
}

/// Decodes an opcode.
pub fn decode(opcode: u16) -> (ins: Instruction)
    ensures
        ins == decode_spec(opcode),
        ins.wf(),
{
    proof {
        lemma_fields(opcode);
    }
    let x = ((opcode & 0x0F00) >> 8) as usize;
    let y = ((opcode & 0x00F0) >> 4) as usize;
    let byte = (opcode & 0x00FF) as u8;
    let addr = opcode & 0x0FFF;
    let n = (opcode & 0x000F) as u8;
    match opcode & 0xF000 {
        0x0000 => {
            if opcode & 0x00F0 == 0x00C0 {
                Instruction::ScrollDown { n }
            } else {
                match opcode {
                    0x0000 => Instruction::Nop,
                    0x00E0 => Instruction::Cls,
                    0x00EE => Instruction::Ret,
                    0x00FB => Instruction::ScrollRight,
                    0x00FC => Instruction::ScrollLeft,
                    0x00FD => Instruction::Exit,
                    0x00FE => Instruction::Low,
                    0x00FF => Instruction::High,
                    _ => Instruction::Unknown { opcode },
                }
            }
        },
        0x1000 => Instruction::Jp { addr },
        0x2000 => Instruction::Call { addr },
        0x3000 => Instruction::SeByte { x, byte },
        0x4000 => Instruction::SneByte { x, byte },
        0x5000 => {
            if opcode & 0xF00F == 0x5000 {
                Instruction::SeReg { x, y }
            } else {
                Instruction::Unknown { opcode }
            }
        },
        0x6000 => Instruction::LdByte { x, byte },
        0x7000 => Instruction::AddByte { x, byte },
        0x8000 => {
            match opcode & 0xF00F {
                0x8000 => Instruction::LdReg { x, y },
                0x8001 => Instruction::Or { x, y },
                0x8002 => Instruction::And { x, y },
                0x8003 => Instruction::Xor { x, y },
                0x8004 => Instruction::AddReg { x, y },
                0x8005 => Instruction::Sub { x, y },
                0x8006 => Instruction::Shr { x },
                0x8007 => Instruction::Subn { x, y },
                0x800E => Instruction::Shl { x },
                _ => Instruction::Unknown { opcode },
            }
        },
        0x9000 => {
            if opcode & 0xF00F == 0x9000 {
                Instruction::SneReg { x, y }
            } else {
                Instruction::Unknown { opcode }
            }
        },
        0xA000 => Instruction::LdI { addr },
        0xB000 => Instruction::JpV0 { addr },
        0xC000 => Instruction::Rnd { x, byte },
        0xD000 => Instruction::Drw { x, y, n },
        0xE000 => {
            match opcode & 0xF0FF {
                0xE09E => Instruction::Skp { x },
                0xE0A1 => Instruction::Sknp { x },
                _ => Instruction::Unknown { opcode },
            }
        },
        0xF000 => {
            match opcode & 0xF0FF {
                0xF007 => Instruction::LdVxDt { x },
                0xF00A => Instruction::LdKey { x },
                0xF015 => Instruction::LdDtVx { x },
                0xF018 => Instruction::LdStVx { x },
                0xF01E => Instruction::AddI { x },
                0xF029 => Instruction::LdSmallGlyph { x },
                0xF030 => Instruction::LdLargeGlyph { x },
                0xF033 => Instruction::LdBcd { x },
                0xF055 => Instruction::Store { x },
                0xF065 => Instruction::Load { x },
                _ => Instruction::Unknown { opcode },
            }
        },
        _ => Instruction::Unknown { opcode },
    }
}

} // verus!
