//! The machine itself: its state, the semantics of every instruction, and
//! the debugger's view of it.
use vstd::prelude::*;
use crate::debugiface::{EmulatorCommand, EmulatorResponse};
use crate::display::{PixelGrid, CHIP8_HEIGHT_BEFORE_SF, CHIP8_WIDTH_BEFORE_SF};
use crate::keyboard::KeyError;
use crate::opcode::DecodeError;
use crate::register::RegisterArray;
use crate::timers::{tick_spec, Timers, NANOS_PER_SECOND};

verus! {

/// The length of memory in bytes.
pub const MEMORY_LENGTH_NBYTES: usize = 4096;
/// Where a program is loaded.
pub const PROGRAM_START_BYTE_ADDR: u16 = 0x0200;
/// The largest program that fits in memory.
pub const MAX_PROGRAM_SIZE_NBYTES: usize = 3584;
/// The number of return addresses the stack holds.
pub const STACK_SIZE_N_ADDRS: usize = 16;
/// The number of pixels on the display.
pub const SCREEN_NPIXELS: usize = 8192;
/// Instructions per second until a debugger sets another rate.
pub const DEFAULT_CLOCK_RATE_HZ: u64 = 500;
/// The number of bytes in one font glyph.
pub const GLYPH_NBYTES: u16 = 5;

/// Where the glyph for hexadecimal digit 0 starts; the sixteen glyphs follow
/// each other.
pub const HEX_SPRITE_ZERO_ADDR: u16 = 0x0050;
pub const HEX_SPRITE_ONE_ADDR: u16 = 0x0055;
pub const HEX_SPRITE_TWO_ADDR: u16 = 0x005A;
pub const HEX_SPRITE_THREE_ADDR: u16 = 0x005F;
pub const HEX_SPRITE_FOUR_ADDR: u16 = 0x0064;
pub const HEX_SPRITE_FIVE_ADDR: u16 = 0x0069;
pub const HEX_SPRITE_SIX_ADDR: u16 = 0x006E;
pub const HEX_SPRITE_SEVEN_ADDR: u16 = 0x0073;
pub const HEX_SPRITE_EIGHT_ADDR: u16 = 0x0078;
pub const HEX_SPRITE_NINE_ADDR: u16 = 0x007D;
pub const HEX_SPRITE_A_ADDR: u16 = 0x0082;
pub const HEX_SPRITE_B_ADDR: u16 = 0x0087;
pub const HEX_SPRITE_C_ADDR: u16 = 0x008C;
pub const HEX_SPRITE_D_ADDR: u16 = 0x0091;
pub const HEX_SPRITE_E_ADDR: u16 = 0x0096;
pub const HEX_SPRITE_F_ADDR: u16 = 0x009B;

/// The built-in glyphs for the hexadecimal digits, five rows each.
pub open spec fn font() -> Seq<u8> {
    seq![
        0xF0u8, 0x90, 0x90, 0x90, 0xF0, 0x20, 0x60, 0x20, 0x20, 0x70,
        0xF0, 0x10, 0xF0, 0x80, 0xF0, 0xF0, 0x10, 0xF0, 0x10, 0xF0,
        0x90, 0x90, 0xF0, 0x10, 0x10, 0xF0, 0x80, 0xF0, 0x10, 0xF0,
        0xF0, 0x80, 0xF0, 0x90, 0xF0, 0xF0, 0x10, 0x20, 0x40, 0x40,
        0xF0, 0x90, 0xF0, 0x90, 0xF0, 0xF0, 0x90, 0xF0, 0x10, 0xF0,
        0xF0, 0x90, 0xF0, 0x90, 0x90, 0xE0, 0x90, 0xE0, 0x90, 0xE0,
        0xF0, 0x80, 0x80, 0x80, 0xF0, 0xE0, 0x90, 0x90, 0x90, 0xE0,
        0xF0, 0x80, 0xF0, 0x80, 0xF0, 0xF0, 0x80, 0xF0, 0x80, 0x80,
    ]
}

/// Memory as the machine starts: the font at its place, zero elsewhere.
pub open spec fn initial_memory() -> Seq<u8> {
    Seq::new(
        MEMORY_LENGTH_NBYTES as nat,
        |i: int|
            if HEX_SPRITE_ZERO_ADDR <= i < HEX_SPRITE_ZERO_ADDR + 80 {
                font()[i - HEX_SPRITE_ZERO_ADDR]
            } else {
                0u8
            },
    )
}

/// The glyph address of hexadecimal digit `d`.
pub open spec fn glyph_addr(d: int) -> int {
    HEX_SPRITE_ZERO_ADDR + GLYPH_NBYTES * d
}

/// A failed instruction or memory access.
#[derive(Debug, Clone, Copy, PartialEq, Eq, Structural)]
pub enum ExecError {
    /// The register index is above 15.
    NoSuchRegister(u8),
    /// A call with sixteen calls pending.
    StackOverflow,
    /// A return with no call pending.
    StackUnderflow,
    /// An address, or the end of a span of bytes, lies beyond memory.
    AddressOutOfRange,
    /// The key that was typed is not on the keypad.
    Key(KeyError),
}

/// Why the machine stopped in a cycle.
#[derive(Debug, Clone, Copy, PartialEq, Eq, Structural)]
pub enum Fault {
    /// The word at PC is not an instruction.
    Decode(DecodeError),
    /// The instruction failed.
    Exec(ExecError),
}

/// Why a program could not be loaded.
#[derive(Debug, Clone, Copy, PartialEq, Eq, Structural)]
pub enum LoadError {
    /// The program has this many bytes, more than fit after 0x200.
    TooLarge(usize),
}

/// The state of the machine as plain values.
#[verifier::ext_equal]
pub struct Chip8View {
    pub memory: Seq<u8>,
    pub regs: Seq<u8>,
    pub pc: u16,
    pub index: u16,
    pub sp: u8,
    pub stack: Seq<u16>,
    pub timers: Timers,
    pub screen: Seq<bool>,
    pub should_exit: bool,
    pub clock_rate_hz: u64,
}

impl Chip8View {
    /// The ranges that every reachable state keeps to.
    pub open spec fn wf(&self) -> bool {
        &&& self.memory.len() == MEMORY_LENGTH_NBYTES
        &&& self.regs.len() == 16
        &&& self.stack.len() == STACK_SIZE_N_ADDRS
        &&& self.sp <= STACK_SIZE_N_ADDRS
        &&& self.pc < MEMORY_LENGTH_NBYTES
        &&& self.index < MEMORY_LENGTH_NBYTES
        &&& self.screen.len() == SCREEN_NPIXELS
        &&& self.timers.wf()
    }
}

/// The CHIP-8 machine.
pub struct Chip8 {
    /// Set when a debugger asked the machine to stop.
    pub debug_should_exit: bool,
    /// Register I, mostly used to hold memory addresses.
    pub index: u16,
    /// 0x000..0x200 is reserved for the interpreter and holds the font;
    /// programs are loaded from 0x200.
    pub memory: Vec<u8>,
    /// The program counter.
    pub pc: u16,
    /// V0..VF.
    pub registers: RegisterArray,
    /// The number of pending calls; the next free slot of `stack`.
    pub sp: u8,
    /// The return addresses, apart from main memory.
    pub stack: Vec<u16>,
    /// The delay and sound timers.
    pub timers: Timers,
    /// The display.
    pub display: PixelGrid,
    /// Instructions per second; zero means as fast as possible.
    pub clock_rate_hz: u64,
}

impl View for Chip8 {
    type V = Chip8View;

    open spec fn view(&self) -> Chip8View {
        Chip8View {
            memory: self.memory@,
            regs: self.registers@,
            pc: self.pc,
            index: self.index,
            sp: self.sp,
            stack: self.stack@,
            timers: self.timers,
            screen: self.display@,
            should_exit: self.debug_should_exit,
            clock_rate_hz: self.clock_rate_hz,
        }
    }
}

/// An instruction that failed and left the state as it was.
pub open spec fn fail(s: Chip8View, e: ExecError) -> (Chip8View, Result<usize, ExecError>) {
    (s, Err(e))
}

/// An instruction that led to `s` and asks PC to move on by `delta`.
pub open spec fn done(s: Chip8View, delta: usize) -> (Chip8View, Result<usize, ExecError>) {
    (s, Ok(delta))
}

/// `s` with register `x` set to `v`.
pub open spec fn with_reg(s: Chip8View, x: u8, v: u8) -> Chip8View {
    Chip8View { regs: s.regs.update(x as int, v), ..s }
}

/// `s` with VF set to `flag` and then register `x` set to `v`.
pub open spec fn with_flag_and_reg(s: Chip8View, x: u8, v: u8, flag: u8) -> Chip8View {
    Chip8View { regs: s.regs.update(15, flag).update(x as int, v), ..s }
}

/// The error for the first of two register indices that does not exist.
pub open spec fn bad_register(x: u8, y: u8) -> ExecError {
    if x >= 16 {
        ExecError::NoSuchRegister(x)
    } else {
        ExecError::NoSuchRegister(y)
    }
}

impl Chip8 {
    /// The machine's invariant.
    pub open spec fn wf(&self) -> bool {
        &&& self@.wf()
        &&& self.display.wf()
        &&& self.display.nrows == CHIP8_HEIGHT_BEFORE_SF
        &&& self.display.ncols == CHIP8_WIDTH_BEFORE_SF
    }
}

/// The built-in glyphs.
fn font_bytes() -> (r: Vec<u8>)
    ensures
        r@ == font(),
{
    let r: Vec<u8> = vec![
        0xF0u8, 0x90, 0x90, 0x90, 0xF0, 0x20, 0x60, 0x20, 0x20, 0x70,
        0xF0, 0x10, 0xF0, 0x80, 0xF0, 0xF0, 0x10, 0xF0, 0x10, 0xF0,
        0x90, 0x90, 0xF0, 0x10, 0x10, 0xF0, 0x80, 0xF0, 0x10, 0xF0,
        0xF0, 0x80, 0xF0, 0x90, 0xF0, 0xF0, 0x10, 0x20, 0x40, 0x40,
        0xF0, 0x90, 0xF0, 0x90, 0xF0, 0xF0, 0x90, 0xF0, 0x10, 0xF0,
        0xF0, 0x90, 0xF0, 0x90, 0x90, 0xE0, 0x90, 0xE0, 0x90, 0xE0,
        0xF0, 0x80, 0x80, 0x80, 0xF0, 0xE0, 0x90, 0x90, 0x90, 0xE0,
        0xF0, 0x80, 0xF0, 0x80, 0xF0, 0xF0, 0x80, 0xF0, 0x80, 0x80,
    ];
    assert(r@ =~= font());
    r
}

impl Chip8 {
    /// A machine with the font installed, PC at 0x200, and everything else
    /// at zero.
    pub fn new() -> (c: Self)
        ensures
            c.wf(),
            c@.memory == initial_memory(),
            c@.regs == Seq::new(16, |i: int| 0u8),
            c@.pc == PROGRAM_START_BYTE_ADDR,
            c@.index == 0,
            c@.sp == 0,
            c@.stack == Seq::new(STACK_SIZE_N_ADDRS as nat, |i: int| 0u16),
            c@.timers == Timers::new_spec(),
            c@.screen == Seq::new(SCREEN_NPIXELS as nat, |i: int| false),
            !c@.should_exit,
            c@.clock_rate_hz == DEFAULT_CLOCK_RATE_HZ,
    {
        let glyphs = font_bytes();
        let mut memory: Vec<u8> = Vec::new();
        let mut i: usize = 0;
        while i < MEMORY_LENGTH_NBYTES
            invariant
                i <= MEMORY_LENGTH_NBYTES,
                glyphs@ == font(),
                memory@ == initial_memory().subrange(0, i as int),
            decreases MEMORY_LENGTH_NBYTES - i,
        {
            let b: u8 = if HEX_SPRITE_ZERO_ADDR as usize <= i && i < HEX_SPRITE_ZERO_ADDR as usize + 80 {
                glyphs[i - HEX_SPRITE_ZERO_ADDR as usize]
            } else {
                0u8
            };
            memory.push(b);
            i += 1;
            assert(memory@ =~= initial_memory().subrange(0, i as int));
        }
        assert(memory@ =~= initial_memory());
        let mut stack: Vec<u16> = Vec::new();
        let mut j: usize = 0;
        while j < STACK_SIZE_N_ADDRS
            invariant
                j <= STACK_SIZE_N_ADDRS,
                stack@ == Seq::new(j as nat, |k: int| 0u16),
            decreases STACK_SIZE_N_ADDRS - j,
        {
            stack.push(0u16);
            j += 1;
            assert(stack@ =~= Seq::new(j as nat, |k: int| 0u16));
        }
        let display = PixelGrid::new(CHIP8_HEIGHT_BEFORE_SF, CHIP8_WIDTH_BEFORE_SF);
        Chip8 {
            debug_should_exit: false,
            index: 0,
            memory,
            pc: PROGRAM_START_BYTE_ADDR,
            registers: RegisterArray::new(),
            sp: 0,
            stack,
            timers: Timers::new(),
            display,
            clock_rate_hz: DEFAULT_CLOCK_RATE_HZ,
        }
    }

    /// Copies a program into memory from 0x200 on.
    pub fn load(&mut self, binary: &Vec<u8>) -> (r: Result<(), LoadError>)
        requires
            old(self).wf(),
        ensures
            final(self).wf(),
            binary@.len() <= MAX_PROGRAM_SIZE_NBYTES ==> r is Ok && final(self)@ == (Chip8View {
                memory: old(self)@.memory.subrange(0, PROGRAM_START_BYTE_ADDR as int) + binary@
                    + old(self)@.memory.subrange(
                    PROGRAM_START_BYTE_ADDR + binary@.len(),
                    MEMORY_LENGTH_NBYTES as int,
                ),
                ..old(self)@
            }),
            binary@.len() > MAX_PROGRAM_SIZE_NBYTES ==> r == Err::<(), LoadError>(
                LoadError::TooLarge(binary@.len() as usize),
            ) && final(self)@ == old(self)@,
    {
        if binary.len() > MAX_PROGRAM_SIZE_NBYTES {
            return Err(LoadError::TooLarge(binary.len()));
        }
        let ghost m0 = self.memory@;
        let start = PROGRAM_START_BYTE_ADDR as usize;
        let mut i: usize = 0;
        while i < binary.len()
            invariant
                binary@.len() <= MAX_PROGRAM_SIZE_NBYTES,
                start == PROGRAM_START_BYTE_ADDR,
                m0.len() == MEMORY_LENGTH_NBYTES,
                i <= binary@.len(),
                self.wf(),
                self@ == (Chip8View { memory: self@.memory, ..old(self)@ }),
                self@.memory == m0.subrange(0, start as int) + binary@.subrange(0, i as int)
                    + m0.subrange(start + i, MEMORY_LENGTH_NBYTES as int),
            decreases binary@.len() - i,
        {
            self.memory.set(start + i, binary[i]);
            i += 1;
            assert(self@.memory =~= m0.subrange(0, start as int) + binary@.subrange(0, i as int)
                + m0.subrange(start + i, MEMORY_LENGTH_NBYTES as int));
        }
        assert(binary@.subrange(0, i as int) =~= binary@);
        assert(self@ =~= Chip8View {
            memory: m0.subrange(0, PROGRAM_START_BYTE_ADDR as int) + binary@ + m0.subrange(
                PROGRAM_START_BYTE_ADDR + binary@.len(),
                MEMORY_LENGTH_NBYTES as int,
            ),
            ..old(self)@
        });
        Ok(())
    }
}

impl Chip8 {
    /// The byte at `addr`.
    pub fn read_byte(&self, addr: u16) -> (r: Result<u8, ExecError>)
        requires
            self.wf(),
        ensures
            addr < MEMORY_LENGTH_NBYTES ==> r == Ok::<u8, ExecError>(self@.memory[addr as int]),
            addr >= MEMORY_LENGTH_NBYTES ==> r == Err::<u8, ExecError>(ExecError::AddressOutOfRange),
    {
        if addr as usize >= MEMORY_LENGTH_NBYTES {
            return Err(ExecError::AddressOutOfRange);
        }
        Ok(self.memory[addr as usize])
    }

    /// Writes `v` at `addr`.
    pub fn write_byte(&mut self, addr: u16, v: u8) -> (r: Result<(), ExecError>)
        requires
            old(self).wf(),
        ensures
            final(self).wf(),
            addr < MEMORY_LENGTH_NBYTES ==> r is Ok && final(self)@ == (Chip8View {
                memory: old(self)@.memory.update(addr as int, v),
                ..old(self)@
            }),
            addr >= MEMORY_LENGTH_NBYTES ==> r == Err::<(), ExecError>(ExecError::AddressOutOfRange)
                && final(self)@ == old(self)@,
    {
        if addr as usize >= MEMORY_LENGTH_NBYTES {
            return Err(ExecError::AddressOutOfRange);
        }
        self.memory.set(addr as usize, v);
        Ok(())
    }

    /// The big-endian word at `addr` and `addr + 1`.
    pub fn read_word(&self, addr: u16) -> (r: Result<u16, ExecError>)
        requires
            self.wf(),
        ensures
            addr + 1 < MEMORY_LENGTH_NBYTES ==> r == Ok::<u16, ExecError>(
                (self@.memory[addr as int] * 256 + self@.memory[addr + 1]) as u16,
            ),
            addr + 1 >= MEMORY_LENGTH_NBYTES ==> r == Err::<u16, ExecError>(
                ExecError::AddressOutOfRange,
            ),
    {
        if addr as usize + 1 >= MEMORY_LENGTH_NBYTES {
            return Err(ExecError::AddressOutOfRange);
        }
        let msb = self.memory[addr as usize];
        let lsb = self.memory[addr as usize + 1];
        Ok(msb as u16 * 256 + lsb as u16)
    }

    /// The address of the font glyph for hexadecimal digit `d`.
    pub fn sprite_addr_for_digit(d: u8) -> (r: u16)
        requires
            d < 16,
        ensures
            r == glyph_addr(d as int),
    {
        assert(GLYPH_NBYTES * (d as u16) <= 75) by (nonlinear_arith)
            requires d < 16, GLYPH_NBYTES == 5;
        HEX_SPRITE_ZERO_ADDR + GLYPH_NBYTES * d as u16
    }

    /// Lets `elapsed_ns` nanoseconds of machine time pass for the timers.
    pub fn tick_timers(&mut self, elapsed_ns: u64)
        requires
            old(self).wf(),
        ensures
            final(self).wf(),
            final(self)@ == (Chip8View { timers: tick_spec(old(self)@.timers, elapsed_ns), ..old(self)@ }),
    {
        self.timers.tick(elapsed_ns);
    }

    /// The time one instruction should take at the configured clock rate,
    /// in nanoseconds; zero when the rate is zero (no pacing).
    pub fn cycle_period_ns(&self) -> (r: u64)
        ensures
            self.clock_rate_hz == 0 ==> r == 0,
            self.clock_rate_hz > 0 ==> r == NANOS_PER_SECOND / self.clock_rate_hz,
    {
        if self.clock_rate_hz == 0 {
            0
        } else {
            NANOS_PER_SECOND / self.clock_rate_hz
        }
    }

    /// A copy of the whole stack.
    fn stack_copy(&self) -> (r: Vec<u16>)
        ensures
            r@ == self.stack@,
    {
        let mut out: Vec<u16> = Vec::new();
        let mut i: usize = 0;
        while i < self.stack.len()
            invariant
                i <= self.stack@.len(),
                out@ == self.stack@.subrange(0, i as int),
            decreases self.stack@.len() - i,
        {
            out.push(self.stack[i]);
            i += 1;
            assert(out@ =~= self.stack@.subrange(0, i as int));
        }
        assert(out@ =~= self.stack@);
        out
    }

    /// Carries out a debugger command and returns the answer to a peek.
    /// Peeks change nothing; `Exit` sets the exit flag; `SetClockRate` sets
    /// the clock rate; `ResumeExecution` changes nothing here (it ends a
    /// `BRK` pause, which the caller runs).
    pub fn handle_command(&mut self, cmd: EmulatorCommand) -> (r: Result<Option<EmulatorResponse>, ExecError>)
        requires
            old(self).wf(),
        ensures
            final(self).wf(),
            match cmd {
                EmulatorCommand::Exit => r == Ok::<Option<EmulatorResponse>, ExecError>(None)
                    && final(self)@ == (Chip8View { should_exit: true, ..old(self)@ }),
                EmulatorCommand::SetClockRate(hz) => r == Ok::<Option<EmulatorResponse>, ExecError>(None)
                    && final(self)@ == (Chip8View { clock_rate_hz: hz, ..old(self)@ }),
                EmulatorCommand::ResumeExecution => r == Ok::<Option<EmulatorResponse>, ExecError>(None)
                    && final(self)@ == old(self)@,
                EmulatorCommand::PeekAddr(addr, nbytes) => final(self)@ == old(self)@ && (if addr
                    + nbytes <= MEMORY_LENGTH_NBYTES {
                    r matches Ok(Some(EmulatorResponse::MemorySlice(bytes))) && bytes@
                        == old(self)@.memory.subrange(addr as int, addr + nbytes)
                } else {
                    r == Err::<Option<EmulatorResponse>, ExecError>(ExecError::AddressOutOfRange)
                }),
                EmulatorCommand::PeekI => final(self)@ == old(self)@ && r == Ok::<Option<EmulatorResponse>, ExecError>(
                    Some(EmulatorResponse::I(old(self)@.index)),
                ),
                EmulatorCommand::PeekPC => final(self)@ == old(self)@ && r == Ok::<Option<EmulatorResponse>, ExecError>(
                    Some(EmulatorResponse::PC(old(self)@.pc)),
                ),
                EmulatorCommand::PeekReg(i) => final(self)@ == old(self)@ && (if i < 16 {
                    r == Ok::<Option<EmulatorResponse>, ExecError>(
                        Some(EmulatorResponse::Reg(old(self)@.regs[i as int])),
                    )
                } else {
                    r == Err::<Option<EmulatorResponse>, ExecError>(ExecError::NoSuchRegister(i))
                }),
                EmulatorCommand::PeekSoundTimer => final(self)@ == old(self)@ && r == Ok::<Option<EmulatorResponse>, ExecError>(
                    Some(EmulatorResponse::SoundTimer(old(self)@.timers.sound)),
                ),
                EmulatorCommand::PeekSP => final(self)@ == old(self)@ && r == Ok::<Option<EmulatorResponse>, ExecError>(
                    Some(EmulatorResponse::SP(old(self)@.sp)),
                ),
                EmulatorCommand::PeekStack => final(self)@ == old(self)@ && (r matches Ok(
                    Some(EmulatorResponse::Stack(stack)),
                ) && stack@ == old(self)@.stack),
            },
    {
        match cmd {
            EmulatorCommand::Exit => {
                self.debug_should_exit = true;
                Ok(None)
            },
            EmulatorCommand::SetClockRate(hz) => {
                self.clock_rate_hz = hz;
                Ok(None)
            },
            EmulatorCommand::ResumeExecution => Ok(None),
            EmulatorCommand::PeekAddr(addr, nbytes) => {
                if nbytes > MEMORY_LENGTH_NBYTES || addr as usize + nbytes > MEMORY_LENGTH_NBYTES {
                    return Err(ExecError::AddressOutOfRange);
                }
                let start = addr as usize;
                let mut bytes: Vec<u8> = Vec::new();
                let mut i: usize = 0;
                while i < nbytes
                    invariant
                        self.wf(),
                        start + nbytes <= MEMORY_LENGTH_NBYTES,
                        i <= nbytes,
                        bytes@ == self@.memory.subrange(start as int, start + i),
                    decreases nbytes - i,
                {
                    bytes.push(self.memory[start + i]);
                    i += 1;
                    assert(bytes@ =~= self@.memory.subrange(start as int, start + i));
                }
                Ok(Some(EmulatorResponse::MemorySlice(bytes)))
            },
            EmulatorCommand::PeekI => Ok(Some(EmulatorResponse::I(self.index))),
            EmulatorCommand::PeekPC => Ok(Some(EmulatorResponse::PC(self.pc))),
            EmulatorCommand::PeekReg(i) => {
                if i >= 16 {
                    return Err(ExecError::NoSuchRegister(i));
                }
                Ok(Some(EmulatorResponse::Reg(self.registers.get(i))))
            },
            EmulatorCommand::PeekSoundTimer => Ok(Some(EmulatorResponse::SoundTimer(self.timers.get_sound()))),
            EmulatorCommand::PeekSP => Ok(Some(EmulatorResponse::SP(self.sp))),
            EmulatorCommand::PeekStack => Ok(Some(EmulatorResponse::Stack(self.stack_copy()))),
        }
    }
}

} // verus!
