//! Properties that hold across instructions and across calls, proved from
//! the instruction semantics.
use vstd::prelude::*;
use vstd::arithmetic::div_mod::{lemma_fundamental_div_mod, lemma_fundamental_div_mod_converse};
use crate::chip8::{Chip8View, ExecError, MEMORY_LENGTH_NBYTES};
use crate::display::{
    bit_index, draw_prefix, draw_sprite_spec, lemma_bit_index_in_grid, sprite_bit,
    CHIP8_HEIGHT_BEFORE_SF, CHIP8_WIDTH_BEFORE_SF,
};
use crate::opcode::Opcode;
use crate::semantics::{exec_spec, ldivx_spec, ldvxi_spec, step_spec};
use crate::timers::{count_down, tick_spec, Timers, NANOS_PER_SECOND, TIMER_HZ};

verus! {

/// Drawing sprite bits never changes the size of the framebuffer.
pub proof fn lemma_draw_keeps_length(
    fb: Seq<bool>,
    w: int,
    h: int,
    sx: int,
    sy: int,
    rows: Seq<u8>,
    k: nat,
)
    requires
        w > 0,
        h > 0,
        fb.len() == w * h,
    ensures
        draw_prefix(fb, w, h, sx, sy, rows, k).0.len() == fb.len(),
    decreases k,
{
    if k > 0 {
        lemma_draw_keeps_length(fb, w, h, sx, sy, rows, (k - 1) as nat);
        lemma_bit_index_in_grid(w, h, sx, sy, k - 1);
    }
}

/// Every instruction, failing or not, keeps the machine in range: SP in
/// [0, 16], PC and I in [0, 4096), memory, stack, registers and screen at
/// their sizes, and the timers' leftover time below one countdown.
pub proof fn lemma_step_keeps_ranges(s: Chip8View, op: Opcode, keys: Seq<char>, random: u8)
    requires
        s.wf(),
    ensures
        step_spec(s, op, keys, random).0.wf(),
        exec_spec(s, op, keys, random).0.wf(),
{
    if let Opcode::DRWVxVyNibble(x, y, n) = op {
        if x < 16 && y < 16 && s.index + n <= MEMORY_LENGTH_NBYTES {
            let rows = s.memory.subrange(s.index as int, s.index + n);
            lemma_draw_keeps_length(
                s.screen,
                128,
                64,
                s.regs[x as int] as int,
                s.regs[y as int] as int,
                rows,
                (8 * rows.len()) as nat,
            );
        }
    }
}

/// A CALL followed, at the same call depth and with its stack slot
/// untouched, by a RET brings PC back to the instruction after the CALL
/// and the stack pointer back to where it was.
pub proof fn lemma_call_then_ret(
    s: Chip8View,
    addr: u16,
    t: Chip8View,
    keys: Seq<char>,
    random: u8,
)
    requires
        s.wf(),
        t.wf(),
        s.pc + 2 < MEMORY_LENGTH_NBYTES,
        step_spec(s, Opcode::CALL(addr), keys, random).1 is Ok,
        t.sp == step_spec(s, Opcode::CALL(addr), keys, random).0.sp,
        t.stack[t.sp - 1] == step_spec(s, Opcode::CALL(addr), keys, random).0.stack[t.sp - 1],
    ensures
        step_spec(t, Opcode::RET, keys, random).1 is Ok,
        step_spec(t, Opcode::RET, keys, random).0.pc == s.pc + 2,
        step_spec(t, Opcode::RET, keys, random).0.sp == s.sp,
{
}

/// The arithmetic instructions compute modulo 256, set VF to the documented
/// flag (where Vx is not VF itself), and change no register but Vx and VF
/// and nothing else in the machine.
pub proof fn lemma_arithmetic_mod_256(s: Chip8View, op: Opcode, keys: Seq<char>, random: u8)
    requires
        s.wf(),
        match op {
            Opcode::ADDVxByte(x, _) => x < 16,
            Opcode::ADDVxVy(x, y) => x < 16 && y < 16,
            Opcode::SUBVxVy(x, y) => x < 16 && y < 16,
            Opcode::SUBNVxVy(x, y) => x < 16 && y < 16,
            Opcode::SHRVx(x) => x < 16,
            Opcode::SHLVx(x) => x < 16,
            _ => false,
        },
    ensures
        ({
            let (t, r) = exec_spec(s, op, keys, random);
            let x: int = match op {
                Opcode::ADDVxByte(x, _) => x as int,
                Opcode::ADDVxVy(x, _) => x as int,
                Opcode::SUBVxVy(x, _) => x as int,
                Opcode::SUBNVxVy(x, _) => x as int,
                Opcode::SHRVx(x) => x as int,
                Opcode::SHLVx(x) => x as int,
                _ => 0,
            };
            let a = s.regs[x] as int;
            &&& r == Ok::<usize, ExecError>(2)
            &&& t == (Chip8View { regs: t.regs, ..s })
            &&& t.regs.len() == 16
            &&& forall|j: int| 0 <= j < 16 && j != x && j != 15 ==> t.regs[j] == s.regs[j]
            &&& match op {
                Opcode::ADDVxByte(_, kk) => t.regs[x] == (a + kk) % 256 && t.regs[15] == (if x
                    == 15 { t.regs[x] } else { s.regs[15] }),
                Opcode::ADDVxVy(_, y) => t.regs[x] == (a + s.regs[y as int]) % 256 && (x != 15
                    ==> t.regs[15] == (if a + s.regs[y as int] > 255 { 1int } else { 0 })),
                Opcode::SUBVxVy(_, y) => t.regs[x] == (a - s.regs[y as int]) % 256 && (x != 15
                    ==> t.regs[15] == (if a > s.regs[y as int] { 1int } else { 0 })),
                Opcode::SUBNVxVy(_, y) => t.regs[x] == (s.regs[y as int] - a) % 256 && (x != 15
                    ==> t.regs[15] == (if s.regs[y as int] > a { 1int } else { 0 })),
                Opcode::SHRVx(_) => t.regs[x] == a / 2 && (x != 15 ==> t.regs[15] == a % 2),
                Opcode::SHLVx(_) => t.regs[x] == (2 * a) % 256 && (x != 15 ==> t.regs[15] == (if a
                    >= 128 { 1int } else { 0 })),
                _ => true,
            }
        }),
{
}

/// LD B, Vx writes the decimal digits of Vx: hundreds, tens and ones, each
/// in [0, 9], that add back up to Vx.
pub proof fn lemma_bcd_digits(s: Chip8View, x: u8, keys: Seq<char>, random: u8)
    requires
        s.wf(),
        exec_spec(s, Opcode::LDBVx(x), keys, random).1 is Ok,
    ensures
        ({
            let m = exec_spec(s, Opcode::LDBVx(x), keys, random).0.memory;
            let i = s.index as int;
            &&& m[i] * 100 + m[i + 1] * 10 + m[i + 2] == s.regs[x as int]
            &&& m[i] <= 9 && m[i + 1] <= 9 && m[i + 2] <= 9
        }),
{
}

/// LD [I], Vx followed by LD Vx, [I] with I unchanged and the stored bytes
/// untouched in between restores V0..=Vx bit for bit.
pub proof fn lemma_store_then_load(s: Chip8View, x: u8, t: Chip8View)
    requires
        s.wf(),
        t.wf(),
        ldivx_spec(s, x).1 is Ok,
        t.index == s.index,
        t.memory.subrange(s.index as int, s.index + x + 1) == ldivx_spec(s, x).0.memory.subrange(
            s.index as int,
            s.index + x + 1,
        ),
    ensures
        ldvxi_spec(t, x).1 is Ok,
        forall|j: int| 0 <= j <= x ==> ldvxi_spec(t, x).0.regs[j] == s.regs[j],
{
    assert forall|j: int| 0 <= j <= x implies ldvxi_spec(t, x).0.regs[j] == s.regs[j] by {
        let st = ldivx_spec(s, x).0.memory;
        assert(t.memory.subrange(s.index as int, s.index + x + 1)[j] == st.subrange(
            s.index as int,
            s.index + x + 1,
        )[j]);
    }
}

/// A timer never goes up and never wraps: it stays at zero once there.
pub proof fn lemma_timers_never_wrap(t: Timers, elapsed_ns: u64)
    requires
        t.wf(),
    ensures
        tick_spec(t, elapsed_ns).delay <= t.delay,
        tick_spec(t, elapsed_ns).sound <= t.sound,
        t.delay == 0 ==> tick_spec(t, elapsed_ns).delay == 0,
        t.sound == 0 ==> tick_spec(t, elapsed_ns).sound == 0,
        tick_spec(t, elapsed_ns).wf(),
{
    lemma_fundamental_div_mod(t.subtick + TIMER_HZ * elapsed_ns, NANOS_PER_SECOND as int);
}

/// Counting down twice is counting down by the sum.
proof fn lemma_count_down_twice(v: u8, a: int, b: int)
    requires
        a >= 0,
        b >= 0,
    ensures
        count_down(count_down(v, a), b) == count_down(v, a + b),
{
}

/// The timers count at 60 Hz however the time is cut up: letting `a` and
/// then `b` nanoseconds pass is the same as letting `a + b` pass.
pub proof fn lemma_ticks_compose(t: Timers, a: u64, b: u64)
    requires
        t.wf(),
        a + b <= u64::MAX,
    ensures
        tick_spec(tick_spec(t, a), b) == tick_spec(t, (a + b) as u64),
{
    let d = NANOS_PER_SECOND as int;
    let s1 = t.subtick + TIMER_HZ * a;
    let q1 = s1 / d;
    let r1 = s1 % d;
    lemma_fundamental_div_mod(s1, d);
    let u = r1 + TIMER_HZ * b;
    let q2 = u / d;
    let r2 = u % d;
    lemma_fundamental_div_mod(u, d);
    assert(q1 >= 0 && q2 >= 0) by (nonlinear_arith)
        requires s1 >= 0, u >= 0, q1 == s1 / d, q2 == u / d, d > 0;
    let total = t.subtick + TIMER_HZ * ((a + b) as u64);
    assert(total == (q1 + q2) * d + r2) by (nonlinear_arith)
        requires
            total == t.subtick + 60 * (a + b),
            s1 == t.subtick + 60 * a,
            s1 == d * q1 + r1,
            u == r1 + 60 * b,
            u == d * q2 + r2;
    lemma_fundamental_div_mod_converse(total, d, q1 + q2, r2);
    lemma_count_down_twice(t.delay, q1, q2);
    lemma_count_down_twice(t.sound, q1, q2);
}

/// `(a + r) % m` for `a` and `r` in [0, m), without the remainder.
proof fn lemma_wrap_once(a: int, r: int, m: int)
    requires
        0 <= a < m,
        0 <= r < m,
    ensures
        (a + r) % m == if a + r < m { a + r } else { a + r - m },
{
    if a + r < m {
        lemma_fundamental_div_mod_converse(a + r, m, 0, a + r);
    } else {
        lemma_fundamental_div_mod_converse(a + r, m, 1, a + r - m);
    }
}

/// Two different bits of a sprite that fits the display land on different
/// pixels.
proof fn lemma_bits_land_apart(w: int, h: int, sx: int, sy: int, nrows: int, j: int, k: int)
    requires
        8 <= w,
        0 < h,
        nrows <= h,
        0 <= j < k < 8 * nrows,
    ensures
        bit_index(w, h, sx, sy, j) != bit_index(w, h, sx, sy, k),
{
    let a = sx % w;
    let b = sy % h;
    let xj = (a + j % 8) % w;
    let xk = (a + k % 8) % w;
    let yj = (b + j / 8) % h;
    let yk = (b + k / 8) % h;
    assert(0 <= j / 8 < nrows && 0 <= k / 8 < nrows && 0 <= j % 8 < 8 && 0 <= k % 8 < 8);
    lemma_wrap_once(a, j % 8, w);
    lemma_wrap_once(a, k % 8, w);
    lemma_wrap_once(b, j / 8, h);
    lemma_wrap_once(b, k / 8, h);
    assert(j / 8 != k / 8 || j % 8 != k % 8) by {
        lemma_fundamental_div_mod(j, 8);
        lemma_fundamental_div_mod(k, 8);
    }
    assert(yj != yk || xj != xk);
    lemma_fundamental_div_mod_converse(yj * w + xj, w, yj, xj);
    lemma_fundamental_div_mod_converse(yk * w + xk, w, yk, xk);
}

/// Whether one of the first `k` sprite bits lands on pixel `p`.
pub open spec fn hit_by_prefix(w: int, h: int, sx: int, sy: int, k: int, p: int) -> bool {
    exists|j: int| 0 <= j < k && #[trigger] bit_index(w, h, sx, sy, j) == p
}

/// What drawing the first `k` bits of a sprite that fits the display does:
/// pixels no bit reached stay as they were, the pixel of each bit is the
/// old one flipped by the bit, and a collision is a set bit on a pixel that
/// was lit before the sprite.
proof fn lemma_draw_prefix_effect(
    fb: Seq<bool>,
    w: int,
    h: int,
    sx: int,
    sy: int,
    rows: Seq<u8>,
    k: nat,
)
    requires
        8 <= w,
        0 < h,
        rows.len() <= h,
        fb.len() == w * h,
        k <= 8 * rows.len(),
    ensures
        ({
            let (out, collision) = draw_prefix(fb, w, h, sx, sy, rows, k);
            &&& out.len() == fb.len()
            &&& forall|p: int|
                0 <= p < fb.len() && !hit_by_prefix(w, h, sx, sy, k as int, p) ==> out[p] == fb[p]
            &&& forall|j: int|
                0 <= j < k ==> out[#[trigger] bit_index(w, h, sx, sy, j)] == (fb[bit_index(
                    w,
                    h,
                    sx,
                    sy,
                    j,
                )] != sprite_bit(rows, j))
            &&& collision == exists|j: int|
                0 <= j < k && sprite_bit(rows, j) && fb[#[trigger] bit_index(w, h, sx, sy, j)]
        }),
    decreases k,
{
    lemma_draw_keeps_length(fb, w, h, sx, sy, rows, k);
    if k > 0 {
        let k1 = (k - 1) as nat;
        lemma_draw_prefix_effect(fb, w, h, sx, sy, rows, k1);
        let (prev, pc) = draw_prefix(fb, w, h, sx, sy, rows, k1);
        let (out, collision) = draw_prefix(fb, w, h, sx, sy, rows, k);
        let i = bit_index(w, h, sx, sy, k1 as int);
        lemma_bit_index_in_grid(w, h, sx, sy, k1 as int);
        assert(!hit_by_prefix(w, h, sx, sy, k1 as int, i)) by {
            assert forall|j: int| 0 <= j < k1 implies #[trigger] bit_index(w, h, sx, sy, j) != i by {
                lemma_bits_land_apart(w, h, sx, sy, rows.len() as int, j, k1 as int);
            }
        }
        assert(prev[i] == fb[i]);
        assert forall|p: int|
            0 <= p < fb.len() && !hit_by_prefix(w, h, sx, sy, k as int, p) implies out[p]
            == fb[p] by {
            if hit_by_prefix(w, h, sx, sy, k1 as int, p) {
                let j = choose|j: int| 0 <= j < k1 && #[trigger] bit_index(w, h, sx, sy, j) == p;
                assert(0 <= j < k && bit_index(w, h, sx, sy, j) == p);
            }
            if p == i {
                assert(0 <= k1 < k && bit_index(w, h, sx, sy, k1 as int) == p);
            }
        }
        assert forall|j: int| 0 <= j < k implies out[#[trigger] bit_index(w, h, sx, sy, j)] == (
        fb[bit_index(w, h, sx, sy, j)] != sprite_bit(rows, j)) by {
            assert(out == prev.update(i, prev[i] != sprite_bit(rows, k1 as int)));
            if j < k1 {
                lemma_bits_land_apart(w, h, sx, sy, rows.len() as int, j, k1 as int);
                lemma_bit_index_in_grid(w, h, sx, sy, j);
                assert(prev[bit_index(w, h, sx, sy, j)] == (fb[bit_index(w, h, sx, sy, j)]
                    != sprite_bit(rows, j)));
            }
        }
        if collision {
            if !pc {
                assert(0 <= k1 < k && sprite_bit(rows, k1 as int) && fb[bit_index(w, h, sx, sy, k1 as int)]);
            } else {
                let j = choose|j: int|
                    0 <= j < k1 && sprite_bit(rows, j) && fb[#[trigger] bit_index(w, h, sx, sy, j)];
                assert(0 <= j < k);
            }
        }
        if exists|j: int|
            0 <= j < k && sprite_bit(rows, j) && fb[#[trigger] bit_index(w, h, sx, sy, j)] {
            let j = choose|j: int|
                0 <= j < k && sprite_bit(rows, j) && fb[#[trigger] bit_index(w, h, sx, sy, j)];
            if j < k1 {
                assert(pc);
            }
        }
    }
}

/// A sprite of at most `h` rows, drawn on a `w` by `h` framebuffer at
/// least 8 wide, reports a collision exactly when some pixel that was lit
/// before is dark after.
pub proof fn lemma_collision_iff_pixel_erased(
    fb: Seq<bool>,
    w: int,
    h: int,
    sx: int,
    sy: int,
    rows: Seq<u8>,
)
    requires
        8 <= w,
        0 < h,
        rows.len() <= h,
        fb.len() == w * h,
    ensures
        draw_sprite_spec(fb, w, h, sx, sy, rows).1 <==> exists|p: int|
            0 <= p < fb.len() && fb[p] && !(#[trigger] draw_sprite_spec(fb, w, h, sx, sy, rows).0[p]),
{
    let k = (8 * rows.len()) as nat;
    lemma_draw_prefix_effect(fb, w, h, sx, sy, rows, k);
    let (out, collision) = draw_prefix(fb, w, h, sx, sy, rows, k);
    if collision {
        let j = choose|j: int|
            0 <= j < k && sprite_bit(rows, j) && fb[#[trigger] bit_index(w, h, sx, sy, j)];
        let p = bit_index(w, h, sx, sy, j);
        lemma_bit_index_in_grid(w, h, sx, sy, j);
        assert(0 <= p < fb.len() && fb[p] && !out[p]);
    }
    if exists|p: int| 0 <= p < fb.len() && fb[p] && !(#[trigger] out[p]) {
        let p = choose|p: int| 0 <= p < fb.len() && fb[p] && !(#[trigger] out[p]);
        let j = choose|j: int| 0 <= j < k && #[trigger] bit_index(w, h, sx, sy, j) == p;
        assert(sprite_bit(rows, j) && fb[bit_index(w, h, sx, sy, j)]);
    }
}

/// DRW sets VF to 1 exactly when a pixel that was lit before the draw is
/// dark after it, and to 0 otherwise.
pub proof fn lemma_drw_flag(s: Chip8View, x: u8, y: u8, n: u8, keys: Seq<char>, random: u8)
    requires
        s.wf(),
        n <= 15,
        exec_spec(s, Opcode::DRWVxVyNibble(x, y, n), keys, random).1 is Ok,
    ensures
        ({
            let t = exec_spec(s, Opcode::DRWVxVyNibble(x, y, n), keys, random).0;
            &&& t.regs[15] == 0 || t.regs[15] == 1
            &&& t.regs[15] == 1 <==> exists|p: int|
                0 <= p < s.screen.len() && s.screen[p] && !(#[trigger] t.screen[p])
        }),
{
    let rows = s.memory.subrange(s.index as int, s.index + n);
    let w = CHIP8_WIDTH_BEFORE_SF as int;
    let h = CHIP8_HEIGHT_BEFORE_SF as int;
    let sx = s.regs[x as int] as int;
    let sy = s.regs[y as int] as int;
    let d = draw_sprite_spec(s.screen, w, h, sx, sy, rows);
    let t = exec_spec(s, Opcode::DRWVxVyNibble(x, y, n), keys, random).0;
    lemma_collision_iff_pixel_erased(s.screen, w, h, sx, sy, rows);
    assert(t.screen == d.0);
    assert(t.regs[15] == if d.1 { 1u8 } else { 0u8 });
    if d.1 {
        let p = choose|p: int| 0 <= p < s.screen.len() && s.screen[p] && !(#[trigger] d.0[p]);
        assert(!t.screen[p]);
    }
    if exists|p: int| 0 <= p < s.screen.len() && s.screen[p] && !(#[trigger] t.screen[p]) {
        let p = choose|p: int| 0 <= p < s.screen.len() && s.screen[p] && !(#[trigger] t.screen[p]);
        assert(!d.0[p]);
    }
}

} // verus!
