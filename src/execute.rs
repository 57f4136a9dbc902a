//! Executing instructions: one method per instruction, each proved to do
//! what its counterpart in [`crate::semantics`] states.
use vstd::prelude::*;
use crate::chip8::{
    bad_register, Chip8, Chip8View, ExecError, Fault, GLYPH_NBYTES, HEX_SPRITE_ZERO_ADDR,
    MEMORY_LENGTH_NBYTES, STACK_SIZE_N_ADDRS,
};
use crate::display::Sprite;
use crate::keyboard::{is_key_down, pressed_key};
use crate::opcode::{decode, Opcode};
use crate::semantics::{
    addivx_spec, addvxbyte_spec, addvxvy_spec, advance_spec, call_spec, drw_spec, exec_spec,
    jp_spec, jpv0addr_spec, ldbvx_spec, lddtvx_spec, ldfvx_spec, ldiaddr_spec, ldivx_spec,
    ldstvx_spec, ldvxbyte_spec, ldvxdt_spec, ldvxi_spec, ldvxk_spec, logic_spec, ret_spec,
    rndvxbyte_spec, shlvx_spec, shrvx_spec, skip_byte_spec, skip_key_spec, skip_reg_spec,
    step_spec, subnvxvy_spec, subvxvy_spec, AluOp,
};

verus! {

/// Relies on `rand::random::<u8>`, which draws a byte from the thread-local
/// generator; nothing is assumed of its value.
#[verifier::external_body]
fn random_byte() -> (r: u8) {
    rand::random::<u8>()
}

impl Chip8 {
    /// The value of register `v`.
    pub fn get_register(&self, v: u8) -> (r: Result<u8, ExecError>)
        ensures
            v < 16 ==> r == Ok::<u8, ExecError>(self@.regs[v as int]),
            v >= 16 ==> r == Err::<u8, ExecError>(ExecError::NoSuchRegister(v)),
    {
        if v >= 16 {
            Err(ExecError::NoSuchRegister(v))
        } else {
            Ok(self.registers.get(v))
        }
    }

    /// SYS nnn: ignored.
    pub fn execute_sys(&mut self, _addr: u16) -> (r: Result<usize, ExecError>)
        requires
            old(self).wf(),
        ensures
            final(self).wf(),
            (final(self)@, r) == exec_spec(old(self)@, Opcode::SYS(_addr), Seq::empty(), 0),
    {
        Ok(2)
    }

    /// CLS: turns every pixel off.
    pub fn execute_cls(&mut self) -> (r: Result<usize, ExecError>)
        requires
            old(self).wf(),
        ensures
            final(self).wf(),
            (final(self)@, r) == exec_spec(old(self)@, Opcode::CLS, Seq::empty(), 0),
    {
        self.display.clear();
        assert(self@ =~= exec_spec(old(self)@, Opcode::CLS, Seq::empty(), 0).0);
        Ok(2)
    }

    /// RET: returns from a subroutine.
    pub fn execute_ret(&mut self) -> (r: Result<usize, ExecError>)
        requires
            old(self).wf(),
        ensures
            final(self).wf(),
            (final(self)@, r) == ret_spec(old(self)@),
    {
        if self.sp == 0 {
            return Err(ExecError::StackUnderflow);
        }
        let target = self.stack[(self.sp - 1) as usize];
        if target as usize >= MEMORY_LENGTH_NBYTES {
            return Err(ExecError::AddressOutOfRange);
        }
        self.sp = self.sp - 1;
        self.pc = target;
        Ok(0)
    }

    /// JP nnn.
    pub fn execute_jp(&mut self, addr: u16) -> (r: Result<usize, ExecError>)
        requires
            old(self).wf(),
        ensures
            final(self).wf(),
            (final(self)@, r) == jp_spec(old(self)@, addr),
    {
        if addr as usize >= MEMORY_LENGTH_NBYTES {
            return Err(ExecError::AddressOutOfRange);
        }
        self.pc = addr;
        Ok(0)
    }

    /// CALL nnn.
    pub fn execute_call(&mut self, addr: u16) -> (r: Result<usize, ExecError>)
        requires
            old(self).wf(),
        ensures
            final(self).wf(),
            (final(self)@, r) == call_spec(old(self)@, addr),
    {
        if self.sp as usize >= STACK_SIZE_N_ADDRS {
            return Err(ExecError::StackOverflow);
        }
        if addr as usize >= MEMORY_LENGTH_NBYTES {
            return Err(ExecError::AddressOutOfRange);
        }
        self.stack.set(self.sp as usize, self.pc + 2);
        self.sp = self.sp + 1;
        self.pc = addr;
        Ok(0)
    }

    /// SE Vx, kk.
    pub fn execute_sevxbyte(&mut self, x: u8, byte: u8) -> (r: Result<usize, ExecError>)
        requires
            old(self).wf(),
        ensures
            final(self).wf(),
            (final(self)@, r) == skip_byte_spec(old(self)@, x, byte, true),
    {
        let vx = self.get_register(x)?;
        if vx == byte {
            Ok(4)
        } else {
            Ok(2)
        }
    }

    /// SNE Vx, kk.
    pub fn execute_snevxbyte(&mut self, x: u8, byte: u8) -> (r: Result<usize, ExecError>)
        requires
            old(self).wf(),
        ensures
            final(self).wf(),
            (final(self)@, r) == skip_byte_spec(old(self)@, x, byte, false),
    {
        let vx = self.get_register(x)?;
        if vx != byte {
            Ok(4)
        } else {
            Ok(2)
        }
    }

    /// Both registers, or the error for the first that does not exist.
    fn register_pair(&self, x: u8, y: u8) -> (r: Result<(u8, u8), ExecError>)
        ensures
            x < 16 && y < 16 ==> r == Ok::<(u8, u8), ExecError>(
                (self@.regs[x as int], self@.regs[y as int]),
            ),
            !(x < 16 && y < 16) ==> r == Err::<(u8, u8), ExecError>(bad_register(x, y)),
    {
        if x >= 16 {
            return Err(ExecError::NoSuchRegister(x));
        }
        if y >= 16 {
            return Err(ExecError::NoSuchRegister(y));
        }
        Ok((self.registers.get(x), self.registers.get(y)))
    }

    /// SE Vx, Vy.
    pub fn execute_sevxvy(&mut self, x: u8, y: u8) -> (r: Result<usize, ExecError>)
        requires
            old(self).wf(),
        ensures
            final(self).wf(),
            (final(self)@, r) == skip_reg_spec(old(self)@, x, y, true),
    {
        let (vx, vy) = self.register_pair(x, y)?;
        if vx == vy {
            Ok(4)
        } else {
            Ok(2)
        }
    }

    /// SNE Vx, Vy.
    pub fn execute_snevxvy(&mut self, x: u8, y: u8) -> (r: Result<usize, ExecError>)
        requires
            old(self).wf(),
        ensures
            final(self).wf(),
            (final(self)@, r) == skip_reg_spec(old(self)@, x, y, false),
    {
        let (vx, vy) = self.register_pair(x, y)?;
        if vx != vy {
            Ok(4)
        } else {
            Ok(2)
        }
    }

    /// LD Vx, kk.
    pub fn execute_ldvxbyte(&mut self, x: u8, byte: u8) -> (r: Result<usize, ExecError>)
        requires
            old(self).wf(),
        ensures
            final(self).wf(),
            (final(self)@, r) == ldvxbyte_spec(old(self)@, x, byte),
    {
        if x >= 16 {
            return Err(ExecError::NoSuchRegister(x));
        }
        self.registers.set(x, byte);
        Ok(2)
    }

    /// ADD Vx, kk.
    pub fn execute_addvxbyte(&mut self, x: u8, byte: u8) -> (r: Result<usize, ExecError>)
        requires
            old(self).wf(),
        ensures
            final(self).wf(),
            (final(self)@, r) == addvxbyte_spec(old(self)@, x, byte),
    {
        if x >= 16 {
            return Err(ExecError::NoSuchRegister(x));
        }
        let vx = self.registers.get(x);
        self.registers.set(x, ((vx as u16 + byte as u16) % 256) as u8);
        Ok(2)
    }

    /// LD Vx, Vy.
    pub fn execute_ldvxvy(&mut self, x: u8, y: u8) -> (r: Result<usize, ExecError>)
        requires
            old(self).wf(),
        ensures
            final(self).wf(),
            (final(self)@, r) == logic_spec(old(self)@, x, y, AluOp::Ld),
    {
        let (_vx, vy) = self.register_pair(x, y)?;
        self.registers.set(x, vy);
        Ok(2)
    }

    /// OR Vx, Vy.
    pub fn execute_orvxvy(&mut self, x: u8, y: u8) -> (r: Result<usize, ExecError>)
        requires
            old(self).wf(),
        ensures
            final(self).wf(),
            (final(self)@, r) == logic_spec(old(self)@, x, y, AluOp::Or),
    {
        let (vx, vy) = self.register_pair(x, y)?;
        self.registers.set(x, vx | vy);
        Ok(2)
    }

    /// AND Vx, Vy.
    pub fn execute_andvxvy(&mut self, x: u8, y: u8) -> (r: Result<usize, ExecError>)
        requires
            old(self).wf(),
        ensures
            final(self).wf(),
            (final(self)@, r) == logic_spec(old(self)@, x, y, AluOp::And),
    {
        let (vx, vy) = self.register_pair(x, y)?;
        self.registers.set(x, vx & vy);
        Ok(2)
    }

    /// XOR Vx, Vy.
    pub fn execute_xorvxvy(&mut self, x: u8, y: u8) -> (r: Result<usize, ExecError>)
        requires
            old(self).wf(),
        ensures
            final(self).wf(),
            (final(self)@, r) == logic_spec(old(self)@, x, y, AluOp::Xor),
    {
        let (vx, vy) = self.register_pair(x, y)?;
        self.registers.set(x, vx ^ vy);
        Ok(2)
    }

    /// ADD Vx, Vy: VF = carry.
    pub fn execute_addvxvy(&mut self, x: u8, y: u8) -> (r: Result<usize, ExecError>)
        requires
            old(self).wf(),
        ensures
            final(self).wf(),
            (final(self)@, r) == addvxvy_spec(old(self)@, x, y),
    {
        let (vx, vy) = self.register_pair(x, y)?;
        let tmp: u16 = vx as u16 + vy as u16;
        self.registers.set(15, if tmp > 0xFF { 1 } else { 0 });
        self.registers.set(x, (tmp % 256) as u8);
        Ok(2)
    }

    /// SUB Vx, Vy: VF = not borrow.
    pub fn execute_subvxvy(&mut self, x: u8, y: u8) -> (r: Result<usize, ExecError>)
        requires
            old(self).wf(),
        ensures
            final(self).wf(),
            (final(self)@, r) == subvxvy_spec(old(self)@, x, y),
    {
        let (vx, vy) = self.register_pair(x, y)?;
        self.registers.set(15, if vx > vy { 1 } else { 0 });
        self.registers.set(x, vx.wrapping_sub(vy));
        Ok(2)
    }

    /// SHR Vx: VF = the bit shifted out.
    pub fn execute_shrvx(&mut self, x: u8) -> (r: Result<usize, ExecError>)
        requires
            old(self).wf(),
        ensures
            final(self).wf(),
            (final(self)@, r) == shrvx_spec(old(self)@, x),
    {
        let vx = self.get_register(x)?;
        self.registers.set(15, vx % 2);
        self.registers.set(x, vx / 2);
        Ok(2)
    }

    /// SUBN Vx, Vy: VF = not borrow.
    pub fn execute_subnvxvy(&mut self, x: u8, y: u8) -> (r: Result<usize, ExecError>)
        requires
            old(self).wf(),
        ensures
            final(self).wf(),
            (final(self)@, r) == subnvxvy_spec(old(self)@, x, y),
    {
        let (vx, vy) = self.register_pair(x, y)?;
        self.registers.set(15, if vy > vx { 1 } else { 0 });
        self.registers.set(x, vy.wrapping_sub(vx));
        Ok(2)
    }

    /// SHL Vx: VF = the bit shifted out.
    pub fn execute_shlvx(&mut self, x: u8) -> (r: Result<usize, ExecError>)
        requires
            old(self).wf(),
        ensures
            final(self).wf(),
            (final(self)@, r) == shlvx_spec(old(self)@, x),
    {
        let vx = self.get_register(x)?;
        self.registers.set(15, vx / 128);
        self.registers.set(x, ((vx as u16 * 2) % 256) as u8);
        Ok(2)
    }

    /// LD I, nnn.
    pub fn execute_ldiaddr(&mut self, addr: u16) -> (r: Result<usize, ExecError>)
        requires
            old(self).wf(),
        ensures
            final(self).wf(),
            (final(self)@, r) == ldiaddr_spec(old(self)@, addr),
    {
        if addr as usize >= MEMORY_LENGTH_NBYTES {
            return Err(ExecError::AddressOutOfRange);
        }
        self.index = addr;
        Ok(2)
    }

    /// JP V0, nnn.
    pub fn execute_jpv0addr(&mut self, addr: u16) -> (r: Result<usize, ExecError>)
        requires
            old(self).wf(),
        ensures
            final(self).wf(),
            (final(self)@, r) == jpv0addr_spec(old(self)@, addr),
    {
        let target: usize = addr as usize + self.registers.v0 as usize;
        if target >= MEMORY_LENGTH_NBYTES {
            return Err(ExecError::AddressOutOfRange);
        }
        self.pc = target as u16;
        Ok(0)
    }

    /// RND Vx, kk with a byte drawn from the thread's random generator.
    pub fn execute_rndvxbyte(&mut self, x: u8, byte: u8) -> (r: Result<usize, ExecError>)
        requires
            old(self).wf(),
        ensures
            final(self).wf(),
            exists|random: u8| (final(self)@, r) == rndvxbyte_spec(old(self)@, x, byte, random),
    {
        let random = random_byte();
        self.execute_rndvxbyte_with(x, byte, random)
    }

    /// RND Vx, kk with `random` as the drawn byte.
    pub fn execute_rndvxbyte_with(&mut self, x: u8, byte: u8, random: u8) -> (r: Result<
        usize,
        ExecError,
    >)
        requires
            old(self).wf(),
        ensures
            final(self).wf(),
            (final(self)@, r) == rndvxbyte_spec(old(self)@, x, byte, random),
    {
        if x >= 16 {
            return Err(ExecError::NoSuchRegister(x));
        }
        self.registers.set(x, random & byte);
        Ok(2)
    }
    /// DRW Vx, Vy, n: draws the n bytes at I at (Vx, Vy); VF = collision.
    pub fn execute_drwvxvynibble(&mut self, x: u8, y: u8, byte: u8) -> (r: Result<usize, ExecError>)
        requires
            old(self).wf(),
        ensures
            final(self).wf(),
            (final(self)@, r) == drw_spec(old(self)@, x, y, byte),
    {
        let (vx, vy) = self.register_pair(x, y)?;
        let start = self.index as usize;
        if start + byte as usize > MEMORY_LENGTH_NBYTES {
            return Err(ExecError::AddressOutOfRange);
        }
        let mut combined_sprite: Vec<u8> = Vec::new();
        let mut i: usize = 0;
        while i < byte as usize
            invariant
                self.wf(),
                start == self.index,
                start + byte <= MEMORY_LENGTH_NBYTES,
                i <= byte,
                combined_sprite@ == self@.memory.subrange(start as int, start + i),
            decreases byte - i,
        {
            combined_sprite.push(self.memory[start + i]);
            i += 1;
            assert(combined_sprite@ =~= self@.memory.subrange(start as int, start + i));
        }
        let pixsprite = Sprite::new(&combined_sprite, vx as u32, vy as u32);
        let collision = self.display.add_sprite(&pixsprite);
        self.registers.set(15, if collision { 1 } else { 0 });
        assert(self@ =~= drw_spec(old(self)@, x, y, byte).0);
        Ok(2)
    }

    /// SKP Vx: skips when the key Vx is among the keystrokes `keys`.
    pub fn execute_skpvx(&mut self, x: u8, keys: &str) -> (r: Result<usize, ExecError>)
        requires
            old(self).wf(),
        ensures
            final(self).wf(),
            (final(self)@, r) == skip_key_spec(old(self)@, x, keys@, true),
    {
        let vx = self.get_register(x)?;
        if is_key_down(keys, vx) {
            Ok(4)
        } else {
            Ok(2)
        }
    }

    /// SKNP Vx: skips when the key Vx is not among the keystrokes `keys`.
    pub fn execute_sknpvx(&mut self, x: u8, keys: &str) -> (r: Result<usize, ExecError>)
        requires
            old(self).wf(),
        ensures
            final(self).wf(),
            (final(self)@, r) == skip_key_spec(old(self)@, x, keys@, false),
    {
        let vx = self.get_register(x)?;
        if is_key_down(keys, vx) {
            Ok(2)
        } else {
            Ok(4)
        }
    }

    /// LD Vx, DT.
    pub fn execute_ldvxdt(&mut self, x: u8) -> (r: Result<usize, ExecError>)
        requires
            old(self).wf(),
        ensures
            final(self).wf(),
            (final(self)@, r) == ldvxdt_spec(old(self)@, x),
    {
        let delay = self.timers.get_delay();
        self.execute_ldvxbyte(x, delay)
    }

    /// LD Vx, K: stores the value of the last of the keystrokes `keys`.
    pub fn execute_ldvxk(&mut self, x: u8, keys: &str) -> (r: Result<usize, ExecError>)
        requires
            old(self).wf(),
        ensures
            final(self).wf(),
            (final(self)@, r) == ldvxk_spec(old(self)@, x, keys@),
    {
        if x >= 16 {
            return Err(ExecError::NoSuchRegister(x));
        }
        match pressed_key(keys) {
            Ok(k) => {
                self.registers.set(x, k);
                Ok(2)
            },
            Err(e) => Err(ExecError::Key(e)),
        }
    }

    /// LD DT, Vx.
    pub fn execute_lddtvx(&mut self, x: u8) -> (r: Result<usize, ExecError>)
        requires
            old(self).wf(),
        ensures
            final(self).wf(),
            (final(self)@, r) == lddtvx_spec(old(self)@, x),
    {
        let vx = self.get_register(x)?;
        self.timers.set_delay(vx);
        Ok(2)
    }

    /// LD ST, Vx.
    pub fn execute_ldstvx(&mut self, x: u8) -> (r: Result<usize, ExecError>)
        requires
            old(self).wf(),
        ensures
            final(self).wf(),
            (final(self)@, r) == ldstvx_spec(old(self)@, x),
    {
        let vx = self.get_register(x)?;
        self.timers.set_sound(vx);
        Ok(2)
    }

    /// ADD I, Vx.
    pub fn execute_addivx(&mut self, x: u8) -> (r: Result<usize, ExecError>)
        requires
            old(self).wf(),
        ensures
            final(self).wf(),
            (final(self)@, r) == addivx_spec(old(self)@, x),
    {
        let vx = self.get_register(x)?;
        if self.index as usize + vx as usize >= MEMORY_LENGTH_NBYTES {
            return Err(ExecError::AddressOutOfRange);
        }
        self.index = self.index + vx as u16;
        Ok(2)
    }

    /// LD F, Vx: I = the glyph of the low nibble of Vx.
    pub fn execute_ldfvx(&mut self, x: u8) -> (r: Result<usize, ExecError>)
        requires
            old(self).wf(),
        ensures
            final(self).wf(),
            (final(self)@, r) == ldfvx_spec(old(self)@, x),
    {
        let vx = self.get_register(x)?;
        let digit: u16 = (vx % 16) as u16;
        assert(GLYPH_NBYTES * digit <= 75) by (nonlinear_arith)
            requires digit < 16, GLYPH_NBYTES == 5;
        self.index = HEX_SPRITE_ZERO_ADDR + GLYPH_NBYTES * digit;
        Ok(2)
    }

    /// LD B, Vx: the decimal digits of Vx at I, I+1, I+2.
    pub fn execute_ldbvx(&mut self, x: u8) -> (r: Result<usize, ExecError>)
        requires
            old(self).wf(),
        ensures
            final(self).wf(),
            (final(self)@, r) == ldbvx_spec(old(self)@, x),
    {
        let vx = self.get_register(x)?;
        let i = self.index as usize;
        if i + 3 > MEMORY_LENGTH_NBYTES {
            return Err(ExecError::AddressOutOfRange);
        }
        self.memory.set(i, vx / 100);
        self.memory.set(i + 1, (vx / 10) % 10);
        self.memory.set(i + 2, vx % 10);
        Ok(2)
    }

    /// LD [I], Vx: V0..=Vx into memory from I.
    pub fn execute_ldivx(&mut self, regx_index: u8) -> (r: Result<usize, ExecError>)
        requires
            old(self).wf(),
        ensures
            final(self).wf(),
            (final(self)@, r) == ldivx_spec(old(self)@, regx_index),
    {
        if regx_index >= 16 {
            return Err(ExecError::NoSuchRegister(regx_index));
        }
        let start = self.index as usize;
        if start + regx_index as usize + 1 > MEMORY_LENGTH_NBYTES {
            return Err(ExecError::AddressOutOfRange);
        }
        let ghost s0 = self@;
        let mut idx: u8 = 0;
        while idx <= regx_index
            invariant
                self.wf(),
                regx_index < 16,
                idx <= regx_index + 1,
                start == s0.index,
                start + regx_index + 1 <= MEMORY_LENGTH_NBYTES,
                self@ == (Chip8View { memory: self@.memory, ..s0 }),
                self@.memory == Seq::new(
                    s0.memory.len(),
                    |a: int|
                        if start <= a < start + idx {
                            s0.regs[a - start]
                        } else {
                            s0.memory[a]
                        },
                ),
            decreases regx_index + 1 - idx,
        {
            let v = self.registers.get(idx);
            self.memory.set(start + idx as usize, v);
            idx += 1;
            assert(self@.memory =~= Seq::new(
                s0.memory.len(),
                |a: int|
                    if start <= a < start + idx {
                        s0.regs[a - start]
                    } else {
                        s0.memory[a]
                    },
            ));
        }
        assert(self@ =~= ldivx_spec(s0, regx_index).0);
        Ok(2)
    }

    /// LD Vx, [I]: V0..=Vx from memory from I.
    pub fn execute_ldvxi(&mut self, regx_index: u8) -> (r: Result<usize, ExecError>)
        requires
            old(self).wf(),
        ensures
            final(self).wf(),
            (final(self)@, r) == ldvxi_spec(old(self)@, regx_index),
    {
        if regx_index >= 16 {
            return Err(ExecError::NoSuchRegister(regx_index));
        }
        let start = self.index as usize;
        if start + regx_index as usize + 1 > MEMORY_LENGTH_NBYTES {
            return Err(ExecError::AddressOutOfRange);
        }
        let ghost s0 = self@;
        let mut idx: u8 = 0;
        while idx <= regx_index
            invariant
                self.wf(),
                regx_index < 16,
                idx <= regx_index + 1,
                start == s0.index,
                start + regx_index + 1 <= MEMORY_LENGTH_NBYTES,
                self@ == (Chip8View { regs: self@.regs, ..s0 }),
                self@.regs == Seq::new(
                    16,
                    |j: int|
                        if j < idx {
                            s0.memory[start + j]
                        } else {
                            s0.regs[j]
                        },
                ),
            decreases regx_index + 1 - idx,
        {
            let tmp = self.memory[start + idx as usize];
            self.registers.set(idx, tmp);
            idx += 1;
            assert(self@.regs =~= Seq::new(
                16,
                |j: int|
                    if j < idx {
                        s0.memory[start + j]
                    } else {
                        s0.regs[j]
                    },
            ));
        }
        assert(self@ =~= ldvxi_spec(s0, regx_index).0);
        Ok(2)
    }

    /// Executes one instruction, with `keys` as the keystrokes the keypad
    /// reports for it and `random` as the byte that RND draws, and returns
    /// how far PC moves on.
    pub fn execute_with(&mut self, op: Opcode, keys: &str, random: u8) -> (r: Result<usize, ExecError>)
        requires
            old(self).wf(),
        ensures
            final(self).wf(),
            (final(self)@, r) == exec_spec(old(self)@, op, keys@, random),
    {
        match op {
            Opcode::BRK => Ok(2),
            Opcode::SYS(addr) => self.execute_sys(addr),
            Opcode::CLS => self.execute_cls(),
            Opcode::RET => self.execute_ret(),
            Opcode::JP(addr) => self.execute_jp(addr),
            Opcode::CALL(addr) => self.execute_call(addr),
            Opcode::SEVxByte(x, kk) => self.execute_sevxbyte(x, kk),
            Opcode::SNEVxByte(x, kk) => self.execute_snevxbyte(x, kk),
            Opcode::SEVxVy(x, y) => self.execute_sevxvy(x, y),
            Opcode::LDVxByte(x, kk) => self.execute_ldvxbyte(x, kk),
            Opcode::ADDVxByte(x, kk) => self.execute_addvxbyte(x, kk),
            Opcode::LDVxVy(x, y) => self.execute_ldvxvy(x, y),
            Opcode::ORVxVy(x, y) => self.execute_orvxvy(x, y),
            Opcode::ANDVxVy(x, y) => self.execute_andvxvy(x, y),
            Opcode::XORVxVy(x, y) => self.execute_xorvxvy(x, y),
            Opcode::ADDVxVy(x, y) => self.execute_addvxvy(x, y),
            Opcode::SUBVxVy(x, y) => self.execute_subvxvy(x, y),
            Opcode::SHRVx(x) => self.execute_shrvx(x),
            Opcode::SUBNVxVy(x, y) => self.execute_subnvxvy(x, y),
            Opcode::SHLVx(x) => self.execute_shlvx(x),
            Opcode::SNEVxVy(x, y) => self.execute_snevxvy(x, y),
            Opcode::LDIAddr(addr) => self.execute_ldiaddr(addr),
            Opcode::JPV0Addr(addr) => self.execute_jpv0addr(addr),
            Opcode::RNDVxByte(x, kk) => self.execute_rndvxbyte_with(x, kk, random),
            Opcode::DRWVxVyNibble(x, y, n) => self.execute_drwvxvynibble(x, y, n),
            Opcode::SKPVx(x) => self.execute_skpvx(x, keys),
            Opcode::SKNPVx(x) => self.execute_sknpvx(x, keys),
            Opcode::LDVxDT(x) => self.execute_ldvxdt(x),
            Opcode::LDVxK(x) => self.execute_ldvxk(x, keys),
            Opcode::LDDTVx(x) => self.execute_lddtvx(x),
            Opcode::LDSTVx(x) => self.execute_ldstvx(x),
            Opcode::ADDIVx(x) => self.execute_addivx(x),
            Opcode::LDFVx(x) => self.execute_ldfvx(x),
            Opcode::LDBVx(x) => self.execute_ldbvx(x),
            Opcode::LDIVx(x) => self.execute_ldivx(x),
            Opcode::LDVxI(x) => self.execute_ldvxi(x),
        }
    }

    /// Executes one instruction, with `keys` as the keystrokes the keypad
    /// reports for it; RND draws its byte from the thread's generator.
    pub fn execute(&mut self, op: Opcode, keys: &str) -> (r: Result<usize, ExecError>)
        requires
            old(self).wf(),
        ensures
            final(self).wf(),
            exists|random: u8| (final(self)@, r) == exec_spec(old(self)@, op, keys@, random),
            !(op is RNDVxByte) ==> (final(self)@, r) == exec_spec(old(self)@, op, keys@, 0),
    {
        let random = if let Opcode::RNDVxByte(_, _) = op { random_byte() } else { 0 };
        self.execute_with(op, keys, random)
    }

    /// Moves PC on by `delta`.
    pub fn advance(&mut self, delta: usize) -> (r: Result<(), ExecError>)
        requires
            old(self).wf(),
        ensures
            final(self).wf(),
            (final(self)@, r) == advance_spec(old(self)@, delta),
    {
        if delta >= MEMORY_LENGTH_NBYTES || self.pc as usize + delta >= MEMORY_LENGTH_NBYTES {
            return Err(ExecError::AddressOutOfRange);
        }
        self.pc = self.pc + delta as u16;
        Ok(())
    }

    /// Executes one instruction and moves PC on, with `random` as the byte
    /// that RND draws.
    pub fn step_with(&mut self, op: Opcode, keys: &str, random: u8) -> (r: Result<(), ExecError>)
        requires
            old(self).wf(),
        ensures
            final(self).wf(),
            (final(self)@, r) == step_spec(old(self)@, op, keys@, random),
    {
        let delta = self.execute_with(op, keys, random)?;
        self.advance(delta)
    }

    /// Executes one instruction and moves PC on; RND draws its byte from the
    /// thread's generator.
    pub fn step(&mut self, op: Opcode, keys: &str) -> (r: Result<(), ExecError>)
        requires
            old(self).wf(),
        ensures
            final(self).wf(),
            exists|random: u8| (final(self)@, r) == step_spec(old(self)@, op, keys@, random),
            !(op is RNDVxByte) ==> (final(self)@, r) == step_spec(old(self)@, op, keys@, 0),
    {
        let random = if let Opcode::RNDVxByte(_, _) = op { random_byte() } else { 0 };
        self.step_with(op, keys, random)
    }

    /// The big-endian instruction word at PC.
    pub fn fetch(&self) -> (r: Result<u16, ExecError>)
        requires
            self.wf(),
        ensures
            self@.pc + 1 < MEMORY_LENGTH_NBYTES ==> r == Ok::<u16, ExecError>(
                (self@.memory[self@.pc as int] * 256 + self@.memory[self@.pc + 1]) as u16,
            ),
            self@.pc + 1 >= MEMORY_LENGTH_NBYTES ==> r == Err::<u16, ExecError>(
                ExecError::AddressOutOfRange,
            ),
    {
        let pc = self.pc as usize;
        if pc + 1 >= MEMORY_LENGTH_NBYTES {
            return Err(ExecError::AddressOutOfRange);
        }
        let msb = self.memory[pc];
        let lsb = self.memory[pc + 1];
        Ok(msb as u16 * 256 + lsb as u16)
    }

    /// The instruction at PC.
    pub fn next_opcode(&self) -> (r: Result<Opcode, Fault>)
        requires
            self.wf(),
        ensures
            self@.pc + 1 >= MEMORY_LENGTH_NBYTES ==> r == Err::<Opcode, Fault>(
                Fault::Exec(ExecError::AddressOutOfRange),
            ),
            self@.pc + 1 < MEMORY_LENGTH_NBYTES ==> r == (match decode(
                (self@.memory[self@.pc as int] * 256 + self@.memory[self@.pc + 1]) as u16,
            ) {
                Ok(op) => Ok::<Opcode, Fault>(op),
                Err(e) => Err(Fault::Decode(e)),
            }),
    {
        match self.fetch() {
            Err(e) => Err(Fault::Exec(e)),
            Ok(word) => match Opcode::new(word) {
                Ok(op) => Ok(op),
                Err(e) => Err(Fault::Decode(e)),
            },
        }
    }
}

} // verus!
