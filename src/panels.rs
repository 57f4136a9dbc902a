//! The bookkeeping of the debugging panels that show memory around PC and
//! the stack: each remembers what it last drew, so that a renderer redraws
//! only when something changed or a refresh is due.
use vstd::prelude::*;
use crate::display::{PanelData, Point32};

verus! {

/// Redraw at least once in this many frames, changed or not.
pub const DRAW_INTERVAL: usize = 1000;

/// A copy of a vector.
fn copy_vec<T: Copy>(v: &Vec<T>) -> (r: Vec<T>)
    ensures
        r@ == v@,
{
    let mut out: Vec<T> = Vec::new();
    let mut i: usize = 0;
    while i < v.len()
        invariant
            i <= v@.len(),
            out@ == v@.subrange(0, i as int),
        decreases v@.len() - i,
    {
        out.push(v[i]);
        i += 1;
        assert(out@ =~= v@.subrange(0, i as int));
    }
    assert(out@ =~= v@);
    out
}

/// Whether the cached values agree with the new ones: the same scalar, and
/// the same elements as far as both sequences reach.
pub open spec fn cache_matches<A, T>(
    cached_scalar: Option<A>,
    cached_seq: Option<Seq<T>>,
    scalar: A,
    seq: Seq<T>,
) -> bool {
    match (cached_scalar, cached_seq) {
        (Some(c), Some(cs)) => c == scalar && forall|i: int|
            0 <= i < cs.len() && i < seq.len() ==> cs[i] == seq[i],
        _ => false,
    }
}

/// The panel that shows memory around PC.
pub struct RamPanel {
    /// Where the panel sits.
    data: PanelData,
    /// The PC drawn last.
    cached_pc: Option<u16>,
    /// The memory drawn last.
    cached_ram: Option<Vec<u8>>,
    /// Frames drawn so far, modulo the word size.
    draw_ticks: usize,
}

impl RamPanel {
    /// What the panel last drew, as plain values.
    pub closed spec fn cached(&self) -> (Option<u16>, Option<Seq<u8>>) {
        (self.cached_pc, match self.cached_ram {
            Some(r) => Some(r@),
            None => None,
        })
    }

    /// Frames drawn so far.
    pub closed spec fn ticks(&self) -> usize {
        self.draw_ticks
    }

    /// Where the panel sits.
    pub closed spec fn placement(&self) -> PanelData {
        self.data
    }

    /// A panel that has drawn nothing yet.
    pub fn new(origin: Point32, height: u32, width: u32) -> (p: Self)
        ensures
            p.cached() == (None::<u16>, None::<Seq<u8>>),
            p.ticks() == 0,
            p.placement() == (PanelData { height_npixels: height, width_npixels: width, origin }),
    {
        RamPanel {
            data: PanelData::new(origin, height, width),
            cached_pc: None,
            cached_ram: None,
            draw_ticks: 0,
        }
    }

    /// Where the panel sits.
    pub fn get_state(&self) -> (r: PanelData)
        ensures
            r == self.placement(),
    {
        self.data
    }

    /// Whether `pc` and `ram` are what the panel drew last.
    pub fn args_already_cached(&self, pc: u16, ram: &Vec<u8>) -> (r: bool)
        ensures
            r == cache_matches(self.cached().0, self.cached().1, pc, ram@),
    {
        let cached_pc = match self.cached_pc {
            Some(p) => p,
            None => return false,
        };
        let cached_ram = match &self.cached_ram {
            Some(r) => r,
            None => return false,
        };
        let mut i: usize = 0;
        while i < cached_ram.len() && i < ram.len()
            invariant
                self.cached() == (Some(cached_pc), Some(cached_ram@)),
                i <= cached_ram@.len(),
                forall|j: int| 0 <= j < i && j < ram@.len() ==> cached_ram@[j] == ram@[j],
            decreases cached_ram@.len() - i,
        {
            if cached_ram[i] != ram[i] {
                assert(!(cached_ram@[i as int] == ram@[i as int]));
                return false;
            }
            i += 1;
        }
        cached_pc == pc
    }

    /// Remembers `pc` and `ram` as drawn.
    pub fn update_cache(&mut self, pc: u16, ram: &Vec<u8>)
        ensures
            final(self).cached() == (Some(pc), Some(ram@)),
            final(self).ticks() == old(self).ticks(),
            final(self).placement() == old(self).placement(),
    {
        self.cached_pc = Some(pc);
        self.cached_ram = Some(copy_vec(ram));
    }

    /// Whether the panel must be drawn for `pc` and `ram`: they changed, or
    /// a periodic refresh is due.
    pub fn needs_redraw(&self, pc: u16, ram: &Vec<u8>) -> (r: bool)
        ensures
            r == (!cache_matches(self.cached().0, self.cached().1, pc, ram@) || self.ticks()
                % DRAW_INTERVAL == 0),
    {
        !self.args_already_cached(pc, ram) || self.draw_ticks % DRAW_INTERVAL == 0
    }

    /// Counts one frame.
    pub fn tick(&mut self)
        ensures
            final(self).ticks() == if old(self).ticks() == usize::MAX {
                0
            } else {
                old(self).ticks() + 1
            },
            final(self).cached() == old(self).cached(),
            final(self).placement() == old(self).placement(),
    {
        self.draw_ticks = self.draw_ticks.wrapping_add(1);
    }
}

/// The panel that shows the stack and the stack pointer.
pub struct StackPanel {
    /// Where the panel sits.
    data: PanelData,
    /// The SP drawn last.
    cached_sp: Option<u8>,
    /// The stack drawn last.
    cached_stack: Option<Vec<u16>>,
    /// Frames drawn so far, modulo the word size.
    draw_ticks: usize,
}

impl StackPanel {
    /// What the panel last drew, as plain values.
    pub closed spec fn cached(&self) -> (Option<u8>, Option<Seq<u16>>) {
        (self.cached_sp, match self.cached_stack {
            Some(s) => Some(s@),
            None => None,
        })
    }

    /// Frames drawn so far.
    pub closed spec fn ticks(&self) -> usize {
        self.draw_ticks
    }

    /// Where the panel sits.
    pub closed spec fn placement(&self) -> PanelData {
        self.data
    }

    /// A panel that has drawn nothing yet.
    pub fn new(origin: Point32, height: u32, width: u32) -> (p: Self)
        ensures
            p.cached() == (None::<u8>, None::<Seq<u16>>),
            p.ticks() == 0,
            p.placement() == (PanelData { height_npixels: height, width_npixels: width, origin }),
    {
        StackPanel {
            data: PanelData::new(origin, height, width),
            cached_sp: None,
            cached_stack: None,
            draw_ticks: 0,
        }
    }

    /// Where the panel sits.
    pub fn get_state(&self) -> (r: PanelData)
        ensures
            r == self.placement(),
    {
        self.data
    }

    /// Whether `sp` and `stack` are what the panel drew last.
    pub fn args_already_cached(&self, sp: u8, stack: &Vec<u16>) -> (r: bool)
        ensures
            r == cache_matches(self.cached().0, self.cached().1, sp, stack@),
    {
        let cached_sp = match self.cached_sp {
            Some(s) => s,
            None => return false,
        };
        let cached_stack = match &self.cached_stack {
            Some(s) => s,
            None => return false,
        };
        let mut i: usize = 0;
        while i < cached_stack.len() && i < stack.len()
            invariant
                self.cached() == (Some(cached_sp), Some(cached_stack@)),
                i <= cached_stack@.len(),
                forall|j: int| 0 <= j < i && j < stack@.len() ==> cached_stack@[j] == stack@[j],
            decreases cached_stack@.len() - i,
        {
            if cached_stack[i] != stack[i] {
                assert(!(cached_stack@[i as int] == stack@[i as int]));
                return false;
            }
            i += 1;
        }
        cached_sp == sp
    }

    /// Remembers `sp` and `stack` as drawn.
    pub fn update_cache(&mut self, sp: u8, stack: &Vec<u16>)
        ensures
            final(self).cached() == (Some(sp), Some(stack@)),
            final(self).ticks() == old(self).ticks(),
            final(self).placement() == old(self).placement(),
    {
        self.cached_sp = Some(sp);
        self.cached_stack = Some(copy_vec(stack));
    }

    /// Whether the panel must be drawn for `sp` and `stack`: they changed,
    /// or a periodic refresh is due.
    pub fn needs_redraw(&self, sp: u8, stack: &Vec<u16>) -> (r: bool)
        ensures
            r == (!cache_matches(self.cached().0, self.cached().1, sp, stack@) || self.ticks()
                % DRAW_INTERVAL == 0),
    {
        !self.args_already_cached(sp, stack) || self.draw_ticks % DRAW_INTERVAL == 0
    }

    /// Counts one frame.
    pub fn tick(&mut self)
        ensures
            final(self).ticks() == if old(self).ticks() == usize::MAX {
                0
            } else {
                old(self).ticks() + 1
            },
            final(self).cached() == old(self).cached(),
            final(self).placement() == old(self).placement(),
    {
        self.draw_ticks = self.draw_ticks.wrapping_add(1);
    }
}

} // verus!
