//! What each instruction does, stated over the plain-valued state
//! [`Chip8View`]. Every function yields the state after the instruction and
//! either the amount PC moves on by or the error; a failing instruction
//! leaves the state as it was.
use vstd::prelude::*;
use crate::chip8::{
    bad_register, done, fail, glyph_addr, with_flag_and_reg, with_reg, Chip8View, ExecError,
    MEMORY_LENGTH_NBYTES, STACK_SIZE_N_ADDRS,
};
use crate::timers::Timers;
use crate::display::{draw_sprite_spec, CHIP8_HEIGHT_BEFORE_SF, CHIP8_WIDTH_BEFORE_SF};
use crate::keyboard::{holds_key, nibble_of_char, KeyError};
use crate::opcode::Opcode;

verus! {

/// The outcome of one instruction: the next state and the PC delta or error.
pub type Outcome = (Chip8View, Result<usize, ExecError>);

/// RET: pop a return address into PC.
pub open spec fn ret_spec(s: Chip8View) -> Outcome {
    if s.sp == 0 {
        fail(s, ExecError::StackUnderflow)
    } else if s.stack[s.sp - 1] >= MEMORY_LENGTH_NBYTES {
        fail(s, ExecError::AddressOutOfRange)
    } else {
        done(Chip8View { sp: (s.sp - 1) as u8, pc: s.stack[s.sp - 1], ..s }, 0)
    }
}

/// JP nnn: PC = nnn.
pub open spec fn jp_spec(s: Chip8View, addr: u16) -> Outcome {
    if addr >= MEMORY_LENGTH_NBYTES {
        fail(s, ExecError::AddressOutOfRange)
    } else {
        done(Chip8View { pc: addr, ..s }, 0)
    }
}

/// CALL nnn: push the address of the next instruction, then PC = nnn.
pub open spec fn call_spec(s: Chip8View, addr: u16) -> Outcome {
    if s.sp >= STACK_SIZE_N_ADDRS {
        fail(s, ExecError::StackOverflow)
    } else if addr >= MEMORY_LENGTH_NBYTES {
        fail(s, ExecError::AddressOutOfRange)
    } else {
        done(
            Chip8View {
                stack: s.stack.update(s.sp as int, (s.pc + 2) as u16),
                sp: (s.sp + 1) as u8,
                pc: addr,
                ..s
            },
            0,
        )
    }
}

/// The PC delta of a conditional skip.
pub open spec fn skip_if(c: bool) -> usize {
    if c {
        4
    } else {
        2
    }
}

/// SE Vx, kk and SNE Vx, kk: skip when `Vx == kk` is `equal`.
pub open spec fn skip_byte_spec(s: Chip8View, x: u8, byte: u8, equal: bool) -> Outcome {
    if x >= 16 {
        fail(s, ExecError::NoSuchRegister(x))
    } else {
        done(s, skip_if((s.regs[x as int] == byte) == equal))
    }
}

/// SE Vx, Vy and SNE Vx, Vy: skip when `Vx == Vy` is `equal`.
pub open spec fn skip_reg_spec(s: Chip8View, x: u8, y: u8, equal: bool) -> Outcome {
    if x >= 16 || y >= 16 {
        fail(s, bad_register(x, y))
    } else {
        done(s, skip_if((s.regs[x as int] == s.regs[y as int]) == equal))
    }
}

/// LD Vx, kk.
pub open spec fn ldvxbyte_spec(s: Chip8View, x: u8, byte: u8) -> Outcome {
    if x >= 16 {
        fail(s, ExecError::NoSuchRegister(x))
    } else {
        done(with_reg(s, x, byte), 2)
    }
}

/// ADD Vx, kk: modulo 256, VF untouched.
pub open spec fn addvxbyte_spec(s: Chip8View, x: u8, byte: u8) -> Outcome {
    if x >= 16 {
        fail(s, ExecError::NoSuchRegister(x))
    } else {
        done(with_reg(s, x, ((s.regs[x as int] + byte) % 256) as u8), 2)
    }
}

/// The register-to-register operations of group 0x8.
#[derive(PartialEq, Eq, Structural)]
pub enum AluOp {
    Ld,
    Or,
    And,
    Xor,
}

/// LD, OR, AND and XOR Vx, Vy: Vx = f(Vx, Vy); VF untouched.
pub open spec fn logic_spec(s: Chip8View, x: u8, y: u8, op: AluOp) -> Outcome {
    if x >= 16 || y >= 16 {
        fail(s, bad_register(x, y))
    } else {
        let a = s.regs[x as int];
        let b = s.regs[y as int];
        let v = match op {
            AluOp::Ld => b,
            AluOp::Or => a | b,
            AluOp::And => a & b,
            AluOp::Xor => a ^ b,
        };
        done(with_reg(s, x, v), 2)
    }
}

/// ADD Vx, Vy: VF = carry, then Vx = the sum modulo 256.
pub open spec fn addvxvy_spec(s: Chip8View, x: u8, y: u8) -> Outcome {
    if x >= 16 || y >= 16 {
        fail(s, bad_register(x, y))
    } else {
        let t = s.regs[x as int] + s.regs[y as int];
        done(with_flag_and_reg(s, x, (t % 256) as u8, if t > 255 { 1 } else { 0 }), 2)
    }
}

/// SUB Vx, Vy: VF = (Vx > Vy), then Vx = Vx - Vy modulo 256.
pub open spec fn subvxvy_spec(s: Chip8View, x: u8, y: u8) -> Outcome {
    if x >= 16 || y >= 16 {
        fail(s, bad_register(x, y))
    } else {
        let a = s.regs[x as int];
        let b = s.regs[y as int];
        done(with_flag_and_reg(s, x, ((a - b + 256) % 256) as u8, if a > b { 1 } else { 0 }), 2)
    }
}

/// SUBN Vx, Vy: VF = (Vy > Vx), then Vx = Vy - Vx modulo 256.
pub open spec fn subnvxvy_spec(s: Chip8View, x: u8, y: u8) -> Outcome {
    if x >= 16 || y >= 16 {
        fail(s, bad_register(x, y))
    } else {
        let a = s.regs[x as int];
        let b = s.regs[y as int];
        done(with_flag_and_reg(s, x, ((b - a + 256) % 256) as u8, if b > a { 1 } else { 0 }), 2)
    }
}

/// SHR Vx: VF = the low bit, then Vx = Vx / 2.
pub open spec fn shrvx_spec(s: Chip8View, x: u8) -> Outcome {
    if x >= 16 {
        fail(s, ExecError::NoSuchRegister(x))
    } else {
        let a = s.regs[x as int];
        done(with_flag_and_reg(s, x, a / 2, a % 2), 2)
    }
}

/// SHL Vx: VF = the high bit, then Vx = 2 Vx modulo 256.
pub open spec fn shlvx_spec(s: Chip8View, x: u8) -> Outcome {
    if x >= 16 {
        fail(s, ExecError::NoSuchRegister(x))
    } else {
        let a = s.regs[x as int];
        done(with_flag_and_reg(s, x, ((2 * a) % 256) as u8, a / 128), 2)
    }
}

/// LD I, nnn.
pub open spec fn ldiaddr_spec(s: Chip8View, addr: u16) -> Outcome {
    if addr >= MEMORY_LENGTH_NBYTES {
        fail(s, ExecError::AddressOutOfRange)
    } else {
        done(Chip8View { index: addr, ..s }, 2)
    }
}

/// JP V0, nnn: PC = nnn + V0.
pub open spec fn jpv0addr_spec(s: Chip8View, addr: u16) -> Outcome {
    if addr + s.regs[0] >= MEMORY_LENGTH_NBYTES {
        fail(s, ExecError::AddressOutOfRange)
    } else {
        done(Chip8View { pc: (addr + s.regs[0]) as u16, ..s }, 0)
    }
}

/// RND Vx, kk with `random` as the drawn byte: Vx = random & kk.
pub open spec fn rndvxbyte_spec(s: Chip8View, x: u8, byte: u8, random: u8) -> Outcome {
    if x >= 16 {
        fail(s, ExecError::NoSuchRegister(x))
    } else {
        done(with_reg(s, x, random & byte), 2)
    }
}

/// DRW Vx, Vy, n: XOR-draw the n bytes at I at (Vx, Vy); VF = collision.
pub open spec fn drw_spec(s: Chip8View, x: u8, y: u8, n: u8) -> Outcome {
    if x >= 16 || y >= 16 {
        fail(s, bad_register(x, y))
    } else if s.index + n > MEMORY_LENGTH_NBYTES {
        fail(s, ExecError::AddressOutOfRange)
    } else {
        let drawn = draw_sprite_spec(
            s.screen,
            CHIP8_WIDTH_BEFORE_SF as int,
            CHIP8_HEIGHT_BEFORE_SF as int,
            s.regs[x as int] as int,
            s.regs[y as int] as int,
            s.memory.subrange(s.index as int, s.index + n),
        );
        done(
            Chip8View {
                screen: drawn.0,
                regs: s.regs.update(15, if drawn.1 { 1u8 } else { 0u8 }),
                ..s
            },
            2,
        )
    }
}

/// SKP Vx (`down`) and SKNP Vx (`!down`): skip when the key Vx being down
/// in `keys` is `down`.
pub open spec fn skip_key_spec(s: Chip8View, x: u8, keys: Seq<char>, down: bool) -> Outcome {
    if x >= 16 {
        fail(s, ExecError::NoSuchRegister(x))
    } else {
        done(s, skip_if(holds_key(keys, s.regs[x as int]) == down))
    }
}

/// LD Vx, DT.
pub open spec fn ldvxdt_spec(s: Chip8View, x: u8) -> Outcome {
    ldvxbyte_spec(s, x, s.timers.delay)
}

/// LD Vx, K with `keys` as what was typed: Vx = the last key's value.
pub open spec fn ldvxk_spec(s: Chip8View, x: u8, keys: Seq<char>) -> Outcome {
    if x >= 16 {
        fail(s, ExecError::NoSuchRegister(x))
    } else if keys.len() == 0 {
        fail(s, ExecError::Key(KeyError::NoInput))
    } else {
        match nibble_of_char(keys.last()) {
            Some(k) => done(with_reg(s, x, k), 2),
            None => fail(s, ExecError::Key(KeyError::UnmappedKey)),
        }
    }
}

/// LD DT, Vx.
pub open spec fn lddtvx_spec(s: Chip8View, x: u8) -> Outcome {
    if x >= 16 {
        fail(s, ExecError::NoSuchRegister(x))
    } else {
        done(Chip8View { timers: Timers { delay: s.regs[x as int], ..s.timers }, ..s }, 2)
    }
}

/// LD ST, Vx.
pub open spec fn ldstvx_spec(s: Chip8View, x: u8) -> Outcome {
    if x >= 16 {
        fail(s, ExecError::NoSuchRegister(x))
    } else {
        done(Chip8View { timers: Timers { sound: s.regs[x as int], ..s.timers }, ..s }, 2)
    }
}

/// ADD I, Vx.
pub open spec fn addivx_spec(s: Chip8View, x: u8) -> Outcome {
    if x >= 16 {
        fail(s, ExecError::NoSuchRegister(x))
    } else if s.index + s.regs[x as int] >= MEMORY_LENGTH_NBYTES {
        fail(s, ExecError::AddressOutOfRange)
    } else {
        done(Chip8View { index: (s.index + s.regs[x as int]) as u16, ..s }, 2)
    }
}

/// LD F, Vx: I = the glyph of the low nibble of Vx.
pub open spec fn ldfvx_spec(s: Chip8View, x: u8) -> Outcome {
    if x >= 16 {
        fail(s, ExecError::NoSuchRegister(x))
    } else {
        done(Chip8View { index: glyph_addr(s.regs[x as int] as int % 16) as u16, ..s }, 2)
    }
}

/// LD B, Vx: the hundreds, tens and ones of Vx at I, I+1, I+2.
pub open spec fn ldbvx_spec(s: Chip8View, x: u8) -> Outcome {
    if x >= 16 {
        fail(s, ExecError::NoSuchRegister(x))
    } else if s.index + 3 > MEMORY_LENGTH_NBYTES {
        fail(s, ExecError::AddressOutOfRange)
    } else {
        let v = s.regs[x as int];
        let i = s.index as int;
        done(
            Chip8View {
                memory: s.memory.update(i, v / 100).update(i + 1, (v / 10) % 10).update(
                    i + 2,
                    v % 10,
                ),
                ..s
            },
            2,
        )
    }
}

/// LD [I], Vx: V0..=Vx into memory from I.
pub open spec fn ldivx_spec(s: Chip8View, x: u8) -> Outcome {
    if x >= 16 {
        fail(s, ExecError::NoSuchRegister(x))
    } else if s.index + x + 1 > MEMORY_LENGTH_NBYTES {
        fail(s, ExecError::AddressOutOfRange)
    } else {
        done(
            Chip8View {
                memory: Seq::new(
                    s.memory.len(),
                    |a: int|
                        if s.index <= a <= s.index + x {
                            s.regs[a - s.index]
                        } else {
                            s.memory[a]
                        },
                ),
                ..s
            },
            2,
        )
    }
}

/// LD Vx, [I]: V0..=Vx from memory from I.
pub open spec fn ldvxi_spec(s: Chip8View, x: u8) -> Outcome {
    if x >= 16 {
        fail(s, ExecError::NoSuchRegister(x))
    } else if s.index + x + 1 > MEMORY_LENGTH_NBYTES {
        fail(s, ExecError::AddressOutOfRange)
    } else {
        done(
            Chip8View {
                regs: Seq::new(
                    16,
                    |j: int|
                        if j <= x {
                            s.memory[s.index + j]
                        } else {
                            s.regs[j]
                        },
                ),
                ..s
            },
            2,
        )
    }
}

/// One instruction, with `keys` as what the keypad reports for it and
/// `random` as the byte that RND draws.
pub open spec fn exec_spec(s: Chip8View, op: Opcode, keys: Seq<char>, random: u8) -> Outcome {
    match op {
        Opcode::BRK => done(s, 2),
        Opcode::SYS(_) => done(s, 2),
        Opcode::CLS => done(
            Chip8View { screen: Seq::new(s.screen.len(), |i: int| false), ..s },
            2,
        ),
        Opcode::RET => ret_spec(s),
        Opcode::JP(a) => jp_spec(s, a),
        Opcode::CALL(a) => call_spec(s, a),
        Opcode::SEVxByte(x, kk) => skip_byte_spec(s, x, kk, true),
        Opcode::SNEVxByte(x, kk) => skip_byte_spec(s, x, kk, false),
        Opcode::SEVxVy(x, y) => skip_reg_spec(s, x, y, true),
        Opcode::LDVxByte(x, kk) => ldvxbyte_spec(s, x, kk),
        Opcode::ADDVxByte(x, kk) => addvxbyte_spec(s, x, kk),
        Opcode::LDVxVy(x, y) => logic_spec(s, x, y, AluOp::Ld),
        Opcode::ORVxVy(x, y) => logic_spec(s, x, y, AluOp::Or),
        Opcode::ANDVxVy(x, y) => logic_spec(s, x, y, AluOp::And),
        Opcode::XORVxVy(x, y) => logic_spec(s, x, y, AluOp::Xor),
        Opcode::ADDVxVy(x, y) => addvxvy_spec(s, x, y),
        Opcode::SUBVxVy(x, y) => subvxvy_spec(s, x, y),
        Opcode::SHRVx(x) => shrvx_spec(s, x),
        Opcode::SUBNVxVy(x, y) => subnvxvy_spec(s, x, y),
        Opcode::SHLVx(x) => shlvx_spec(s, x),
        Opcode::SNEVxVy(x, y) => skip_reg_spec(s, x, y, false),
        Opcode::LDIAddr(a) => ldiaddr_spec(s, a),
        Opcode::JPV0Addr(a) => jpv0addr_spec(s, a),
        Opcode::RNDVxByte(x, kk) => rndvxbyte_spec(s, x, kk, random),
        Opcode::DRWVxVyNibble(x, y, n) => drw_spec(s, x, y, n),
        Opcode::SKPVx(x) => skip_key_spec(s, x, keys, true),
        Opcode::SKNPVx(x) => skip_key_spec(s, x, keys, false),
        Opcode::LDVxDT(x) => ldvxdt_spec(s, x),
        Opcode::LDVxK(x) => ldvxk_spec(s, x, keys),
        Opcode::LDDTVx(x) => lddtvx_spec(s, x),
        Opcode::LDSTVx(x) => ldstvx_spec(s, x),
        Opcode::ADDIVx(x) => addivx_spec(s, x),
        Opcode::LDFVx(x) => ldfvx_spec(s, x),
        Opcode::LDBVx(x) => ldbvx_spec(s, x),
        Opcode::LDIVx(x) => ldivx_spec(s, x),
        Opcode::LDVxI(x) => ldvxi_spec(s, x),
    }
}

/// PC moved on by `delta`, unless that leaves memory.
pub open spec fn advance_spec(s: Chip8View, delta: usize) -> (Chip8View, Result<(), ExecError>) {
    if s.pc + delta >= MEMORY_LENGTH_NBYTES {
        (s, Err(ExecError::AddressOutOfRange))
    } else {
        (Chip8View { pc: (s.pc + delta) as u16, ..s }, Ok(()))
    }
}

/// One instruction followed by moving PC on.
pub open spec fn step_spec(s: Chip8View, op: Opcode, keys: Seq<char>, random: u8) -> (
    Chip8View,
    Result<(), ExecError>,
) {
    let (s1, r) = exec_spec(s, op, keys, random);
    match r {
        Err(e) => (s1, Err(e)),
        Ok(delta) => advance_spec(s1, delta),
    }
}

} // verus!
