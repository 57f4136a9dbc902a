//! The sixteen general registers V0..VF.
use vstd::prelude::*;

verus! {

/// A CHIP-8 register holds one byte.
pub type Register = u8;

/// The number of general registers.
pub const NUM_REGISTERS: usize = 16;

/// All the general registers of the machine. VF doubles as the flag register.
#[derive(Debug, Clone, Copy, PartialEq, Eq, Structural)]
pub struct RegisterArray {
    pub v0: Register,
    pub v1: Register,
    pub v2: Register,
    pub v3: Register,
    pub v4: Register,
    pub v5: Register,
    pub v6: Register,
    pub v7: Register,
    pub v8: Register,
    pub v9: Register,
    pub va: Register,
    pub vb: Register,
    pub vc: Register,
    pub vd: Register,
    pub ve: Register,
    /// The flag register: carry, not-borrow, shifted-out bit, collision.
    pub vf: Register,
}

impl View for RegisterArray {
    type V = Seq<u8>;

    /// The registers in index order, V0 first.
    open spec fn view(&self) -> Seq<u8> {
        seq![
            self.v0, self.v1, self.v2, self.v3, self.v4, self.v5, self.v6, self.v7,
            self.v8, self.v9, self.va, self.vb, self.vc, self.vd, self.ve, self.vf,
        ]
    }
}

impl RegisterArray {
    /// All registers set to zero.
    pub fn new() -> (r: Self)
        ensures
            r@ == Seq::new(16, |i: int| 0u8),
    {
        let r = RegisterArray {
            v0: 0u8,
            v1: 0u8,
            v2: 0u8,
            v3: 0u8,
            v4: 0u8,
            v5: 0u8,
            v6: 0u8,
            v7: 0u8,
            v8: 0u8,
            v9: 0u8,
            va: 0u8,
            vb: 0u8,
            vc: 0u8,
            vd: 0u8,
            ve: 0u8,
            vf: 0u8,
        };
        assert(r@ =~= Seq::new(16, |i: int| 0u8));
        r
    }

    /// The number of registers.
    pub fn len(&self) -> (r: usize)
        ensures
            r == NUM_REGISTERS,
            r == self@.len(),
    {
        NUM_REGISTERS
    }

    /// The value of register `i`.
    pub fn get(&self, i: u8) -> (r: Register)
        requires
            i < NUM_REGISTERS,
        ensures
            r == self@[i as int],
    {
        match i {
            0 => self.v0,
            1 => self.v1,
            2 => self.v2,
            3 => self.v3,
            4 => self.v4,
            5 => self.v5,
            6 => self.v6,
            7 => self.v7,
            8 => self.v8,
            9 => self.v9,
            10 => self.va,
            11 => self.vb,
            12 => self.vc,
            13 => self.vd,
            14 => self.ve,
            _ => self.vf,
        }
    }

    /// Writes `v` into register `i`, leaving the others as they were.
    pub fn set(&mut self, i: u8, v: Register)
        requires
            i < NUM_REGISTERS,
        ensures
            final(self)@ == old(self)@.update(i as int, v),
    {
        match i {
            0 => self.v0 = v,
            1 => self.v1 = v,
            2 => self.v2 = v,
            3 => self.v3 = v,
            4 => self.v4 = v,
            5 => self.v5 = v,
            6 => self.v6 = v,
            7 => self.v7 = v,
            8 => self.v8 = v,
            9 => self.v9 = v,
            10 => self.va = v,
            11 => self.vb = v,
            12 => self.vc = v,
            13 => self.vd = v,
            14 => self.ve = v,
            _ => self.vf = v,
        }
        assert(self@ =~= old(self)@.update(i as int, v));
    }
}

} // verus!
