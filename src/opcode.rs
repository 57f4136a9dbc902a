//! Decoding of 16-bit instruction words.
use vstd::prelude::*;

verus! {

/// The encoding of the debugging sentinel `BRK`. In classical CHIP-8 this
/// word is `SYS 0`, which interpreters ignore.
pub const BRK_WORD: u16 = 0x0000;

/// A decoded instruction. Addresses are 12 bits, register indices and
/// nibbles 4 bits, immediates 8 bits.
#[derive(Debug, Clone, Copy, PartialEq, Eq, Structural)]
pub enum Opcode {
    /// Sentinel that pauses the machine for a debugger.
    BRK,
    /// 0x0nnn: jump to a machine code routine at nnn (ignored).
    SYS(u16),
    /// 0x00E0: clear the display.
    CLS,
    /// 0x00EE: return from a subroutine.
    RET,
    /// 0x1nnn: jump to location nnn.
    JP(u16),
    /// 0x2nnn: call the subroutine at nnn.
    CALL(u16),
    /// 0x3xkk: skip the next instruction if Vx == kk.
    SEVxByte(u8, u8),
    /// 0x4xkk: skip the next instruction if Vx != kk.
    SNEVxByte(u8, u8),
    /// 0x5xy0: skip the next instruction if Vx == Vy.
    SEVxVy(u8, u8),
    /// 0x6xkk: Vx = kk.
    LDVxByte(u8, u8),
    /// 0x7xkk: Vx = Vx + kk, without touching VF.
    ADDVxByte(u8, u8),
    /// 0x8xy0: Vx = Vy.
    LDVxVy(u8, u8),
    /// 0x8xy1: Vx = Vx | Vy.
    ORVxVy(u8, u8),
    /// 0x8xy2: Vx = Vx & Vy.
    ANDVxVy(u8, u8),
    /// 0x8xy3: Vx = Vx ^ Vy.
    XORVxVy(u8, u8),
    /// 0x8xy4: Vx = Vx + Vy, VF = carry.
    ADDVxVy(u8, u8),
    /// 0x8xy5: Vx = Vx - Vy, VF = not borrow.
    SUBVxVy(u8, u8),
    /// 0x8xy6: Vx = Vx >> 1, VF = the bit shifted out (Vy is ignored).
    SHRVx(u8),
    /// 0x8xy7: Vx = Vy - Vx, VF = not borrow.
    SUBNVxVy(u8, u8),
    /// 0x8xyE: Vx = Vx << 1, VF = the bit shifted out (Vy is ignored).
    SHLVx(u8),
    /// 0x9xy0: skip the next instruction if Vx != Vy.
    SNEVxVy(u8, u8),
    /// 0xAnnn: I = nnn.
    LDIAddr(u16),
    /// 0xBnnn: jump to nnn + V0.
    JPV0Addr(u16),
    /// 0xCxkk: Vx = random byte & kk.
    RNDVxByte(u8, u8),
    /// 0xDxyn: draw the n-byte sprite at I at (Vx, Vy), VF = collision.
    DRWVxVyNibble(u8, u8, u8),
    /// 0xEx9E: skip the next instruction if key Vx is down.
    SKPVx(u8),
    /// 0xExA1: skip the next instruction if key Vx is up.
    SKNPVx(u8),
    /// 0xFx07: Vx = delay timer.
    LDVxDT(u8),
    /// 0xFx0A: wait for a key press and store its value in Vx.
    LDVxK(u8),
    /// 0xFx15: delay timer = Vx.
    LDDTVx(u8),
    /// 0xFx18: sound timer = Vx.
    LDSTVx(u8),
    /// 0xFx1E: I = I + Vx.
    ADDIVx(u8),
    /// 0xFx29: I = address of the font glyph for digit Vx.
    LDFVx(u8),
    /// 0xFx33: store the decimal digits of Vx at I, I+1, I+2.
    LDBVx(u8),
    /// 0xFx55: store V0..=Vx in memory from I.
    LDIVx(u8),
    /// 0xFx65: load V0..=Vx from memory from I.
    LDVxI(u8),
}

/// Why a word could not be decoded.
#[derive(Debug, Clone, Copy, PartialEq, Eq, Structural)]
pub enum DecodeError {
    /// The word is not a CHIP-8 instruction.
    Invalid(u16),
}

/// The top nibble of a word: the instruction group.
pub open spec fn group_of(w: u16) -> u16 {
    w >> 12u16
}

/// The `x` field (bits 8..12).
pub open spec fn x_of(w: u16) -> u8 {
    ((w >> 8u16) & 0xFu16) as u8
}

/// The `y` field (bits 4..8).
pub open spec fn y_of(w: u16) -> u8 {
    ((w >> 4u16) & 0xFu16) as u8
}

/// The low nibble `n`.
pub open spec fn n_of(w: u16) -> u8 {
    (w & 0xFu16) as u8
}

/// The low byte `kk`.
pub open spec fn kk_of(w: u16) -> u8 {
    (w & 0xFFu16) as u8
}

/// The low twelve bits `nnn`.
pub open spec fn nnn_of(w: u16) -> u16 {
    w & 0x0FFFu16
}

/// The instruction that a word encodes, if any.
pub open spec fn decode(w: u16) -> Result<Opcode, DecodeError> {
    let g = group_of(w);
    let x = x_of(w);
    let y = y_of(w);
    let kk = kk_of(w);
    let nnn = nnn_of(w);
    if g == 0x0 {
        if w == BRK_WORD {
            Ok(Opcode::BRK)
        } else if w == 0x00E0 {
            Ok(Opcode::CLS)
        } else if w == 0x00EE {
            Ok(Opcode::RET)
        } else {
            Ok(Opcode::SYS(nnn))
        }
    } else if g == 0x1 {
        Ok(Opcode::JP(nnn))
    } else if g == 0x2 {
        Ok(Opcode::CALL(nnn))
    } else if g == 0x3 {
        Ok(Opcode::SEVxByte(x, kk))
    } else if g == 0x4 {
        Ok(Opcode::SNEVxByte(x, kk))
    } else if g == 0x5 {
        Ok(Opcode::SEVxVy(x, y))
    } else if g == 0x6 {
        Ok(Opcode::LDVxByte(x, kk))
    } else if g == 0x7 {
        Ok(Opcode::ADDVxByte(x, kk))
    } else if g == 0x8 {
        let n = n_of(w);
        if n == 0x0 {
            Ok(Opcode::LDVxVy(x, y))
        } else if n == 0x1 {
            Ok(Opcode::ORVxVy(x, y))
        } else if n == 0x2 {
            Ok(Opcode::ANDVxVy(x, y))
        } else if n == 0x3 {
            Ok(Opcode::XORVxVy(x, y))
        } else if n == 0x4 {
            Ok(Opcode::ADDVxVy(x, y))
        } else if n == 0x5 {
            Ok(Opcode::SUBVxVy(x, y))
        } else if n == 0x6 {
            Ok(Opcode::SHRVx(x))
        } else if n == 0x7 {
            Ok(Opcode::SUBNVxVy(x, y))
        } else if n == 0xE {
            Ok(Opcode::SHLVx(x))
        } else {
            Err(DecodeError::Invalid(w))
        }
    } else if g == 0x9 {
        Ok(Opcode::SNEVxVy(x, y))
    } else if g == 0xA {
        Ok(Opcode::LDIAddr(nnn))
    } else if g == 0xB {
        Ok(Opcode::JPV0Addr(nnn))
    } else if g == 0xC {
        Ok(Opcode::RNDVxByte(x, kk))
    } else if g == 0xD {
        Ok(Opcode::DRWVxVyNibble(x, y, n_of(w)))
    } else if g == 0xE {
        if kk == 0x9E {
            Ok(Opcode::SKPVx(x))
        } else if kk == 0xA1 {
            Ok(Opcode::SKNPVx(x))
        } else {
            Err(DecodeError::Invalid(w))
        }
    } else {
        if kk == 0x07 {
            Ok(Opcode::LDVxDT(x))
        } else if kk == 0x0A {
            Ok(Opcode::LDVxK(x))
        } else if kk == 0x15 {
            Ok(Opcode::LDDTVx(x))
        } else if kk == 0x18 {
            Ok(Opcode::LDSTVx(x))
        } else if kk == 0x1E {
            Ok(Opcode::ADDIVx(x))
        } else if kk == 0x29 {
            Ok(Opcode::LDFVx(x))
        } else if kk == 0x33 {
            Ok(Opcode::LDBVx(x))
        } else if kk == 0x55 {
            Ok(Opcode::LDIVx(x))
        } else if kk == 0x65 {
            Ok(Opcode::LDVxI(x))
        } else {
            Err(DecodeError::Invalid(w))
        }
    }
}

impl Opcode {
    /// Decodes a 16-bit instruction word.
    pub fn new(instruction: u16) -> (r: Result<Self, DecodeError>)
        ensures
            r == decode(instruction),
    {
        let w = instruction;
        let g: u16 = w >> 12u16;
        let x: u8 = ((w >> 8u16) & 0xFu16) as u8;
        let y: u8 = ((w >> 4u16) & 0xFu16) as u8;
        let n: u8 = (w & 0xFu16) as u8;
        let kk: u8 = (w & 0xFFu16) as u8;
        let nnn: u16 = w & 0x0FFFu16;
        if g == 0x0 {
            if w == BRK_WORD {
                Ok(Opcode::BRK)
            } else if w == 0x00E0 {
                Ok(Opcode::CLS)
            } else if w == 0x00EE {
                Ok(Opcode::RET)
            } else {
                Ok(Opcode::SYS(nnn))
            }
        } else if g == 0x1 {
            Ok(Opcode::JP(nnn))
        } else if g == 0x2 {
            Ok(Opcode::CALL(nnn))
        } else if g == 0x3 {
            Ok(Opcode::SEVxByte(x, kk))
        } else if g == 0x4 {
            Ok(Opcode::SNEVxByte(x, kk))
        } else if g == 0x5 {
            Ok(Opcode::SEVxVy(x, y))
        } else if g == 0x6 {
            Ok(Opcode::LDVxByte(x, kk))
        } else if g == 0x7 {
            Ok(Opcode::ADDVxByte(x, kk))
        } else if g == 0x8 {
            match n {
                0x0 => Ok(Opcode::LDVxVy(x, y)),
                0x1 => Ok(Opcode::ORVxVy(x, y)),
                0x2 => Ok(Opcode::ANDVxVy(x, y)),
                0x3 => Ok(Opcode::XORVxVy(x, y)),
                0x4 => Ok(Opcode::ADDVxVy(x, y)),
                0x5 => Ok(Opcode::SUBVxVy(x, y)),
                0x6 => Ok(Opcode::SHRVx(x)),
                0x7 => Ok(Opcode::SUBNVxVy(x, y)),
                0xE => Ok(Opcode::SHLVx(x)),
                _ => Err(DecodeError::Invalid(w)),
            }
        } else if g == 0x9 {
            Ok(Opcode::SNEVxVy(x, y))
        } else if g == 0xA {
            Ok(Opcode::LDIAddr(nnn))
        } else if g == 0xB {
            Ok(Opcode::JPV0Addr(nnn))
        } else if g == 0xC {
            Ok(Opcode::RNDVxByte(x, kk))
        } else if g == 0xD {
            Ok(Opcode::DRWVxVyNibble(x, y, n))
        } else if g == 0xE {
            match kk {
                0x9E => Ok(Opcode::SKPVx(x)),
                0xA1 => Ok(Opcode::SKNPVx(x)),
                _ => Err(DecodeError::Invalid(w)),
            }
        } else {
            match kk {
                0x07 => Ok(Opcode::LDVxDT(x)),
                0x0A => Ok(Opcode::LDVxK(x)),
                0x15 => Ok(Opcode::LDDTVx(x)),
                0x18 => Ok(Opcode::LDSTVx(x)),
                0x1E => Ok(Opcode::ADDIVx(x)),
                0x29 => Ok(Opcode::LDFVx(x)),
                0x33 => Ok(Opcode::LDBVx(x)),
                0x55 => Ok(Opcode::LDIVx(x)),
                0x65 => Ok(Opcode::LDVxI(x)),
                _ => Err(DecodeError::Invalid(w)),
            }
        }
    }

    /// Whether executing this instruction consults the keypad.
    pub fn reads_keyboard(&self) -> (r: bool)
        ensures
            r <==> (self is SKPVx || self is SKNPVx || self is LDVxK),
    {
        match self {
            Opcode::SKPVx(_) | Opcode::SKNPVx(_) | Opcode::LDVxK(_) => true,
            _ => false,
        }
    }
}

} // verus!
