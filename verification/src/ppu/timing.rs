use vstd::prelude::*;

use crate::ppu::Ppu;
use crate::ppu::PpuQueryItem;

verus! {

/// The number of dots in a frame: 341 dots on each of 262 scanlines.
pub open spec fn spec_frame_dots() -> int {
    89342
}

impl PpuQueryItem {
    /// The place of the current dot in the frame, counted from dot 0 of the
    /// pre-render line.
    pub open spec fn spec_dot_index(self) -> int {
        (self.ppu.scanline + 1) * 341 + self.ppu.cycle
    }

    /// The state with the frame-complete flag taken away.
    pub open spec fn spec_frame_taken(self) -> Self {
        PpuQueryItem { ppu: Ppu { frame_complete: false, ..self.ppu }, ..self }
    }

    /// Whether the next tick raises the frame-complete flag.
    pub open spec fn spec_tick_raises(self) -> bool {
        self.spec_frame_taken().spec_tick().ppu.frame_complete
    }

    /// The state `n` dots later.
    pub open spec fn spec_ticks(self, n: nat) -> Self
        decreases n,
    {
        if n == 0 {
            self
        } else {
            self.spec_ticks((n - 1) as nat).spec_tick()
        }
    }

    /// How often the frame-complete flag is raised in the next `n` ticks.
    pub open spec fn spec_frames_raised(self, n: nat) -> int
        decreases n,
    {
        if n == 0 {
            0
        } else {
            self.spec_frames_raised((n - 1) as nat) + (if self.spec_ticks(
                (n - 1) as nat,
            ).spec_tick_raises() {
                1int
            } else {
                0int
            })
        }
    }
}

/// The work of a line changes neither the scanline nor the frame-complete
/// flag nor the rendering switches, it moves the dot only to pass over the
/// idle dot, and it leaves at most eight sprites on the line.
pub proof fn lemma_render_line_keeps_position(s: PpuQueryItem)
    requires
        s.ppu.wf(),
    ensures
        s.spec_render_line().ppu.scanline == s.ppu.scanline,
        s.spec_render_line().ppu.frame_complete == s.ppu.frame_complete,
        s.spec_render_line().ppu.registers.mask == s.ppu.registers.mask,
        s.spec_render_line().ppu.fine_x == s.ppu.fine_x,
        s.spec_render_line().ppu.scanline_sprites.length <= 8,
        s.spec_render_line().ppu.cycle == (if -1 <= s.ppu.scanline < 240 {
            s.ppu.spec_skip_idle_dot().cycle
        } else {
            s.ppu.cycle
        }),
{
    reveal(PpuQueryItem::spec_render_line);
}

/// Putting the pixel on the screen changes nothing but the screen.
pub proof fn lemma_output_keeps_position(s: PpuQueryItem)
    ensures
        s.spec_output() == (PpuQueryItem {
            ppu: Ppu { screen_buffer: s.spec_output().ppu.screen_buffer, ..s.ppu },
            ..s
        }),
{
    reveal(PpuQueryItem::spec_output);
}

/// The counters after one tick: the dot goes up by one, first passing
/// over the idle dot where rendering is on; after dot 340 the next scanline
/// begins, and after scanline 260 the pre-render line, with the
/// frame-complete flag raised. The rendering switches stay.
pub proof fn lemma_tick_counters(s: PpuQueryItem)
    requires
        s.ppu.wf(),
    ensures
        ({
            let t = s.spec_tick().ppu;
            let c = if -1 <= s.ppu.scanline < 240 {
                s.ppu.spec_skip_idle_dot().cycle
            } else {
                s.ppu.cycle
            };
            &&& t.wf()
            &&& t.registers.mask == s.ppu.registers.mask
            &&& t.cycle == (if c == 340 {
                0int
            } else {
                c + 1
            })
            &&& t.scanline == (if c < 340 {
                s.ppu.scanline as int
            } else if s.ppu.scanline == 260 {
                -1int
            } else {
                s.ppu.scanline + 1
            })
            &&& t.frame_complete == (s.ppu.frame_complete || (c == 340 && s.ppu.scanline == 260))
        }),
{
    reveal(PpuQueryItem::spec_tick);
    lemma_render_line_keeps_position(s);
    let s1 = s.spec_render_line();
    let s2 = PpuQueryItem { ppu: s1.ppu.spec_vblank(), ..s1 };
    lemma_output_keeps_position(s2);
    let s3 = s2.spec_output();
    assert(s3.ppu.cycle == s1.ppu.cycle);
    assert(s3.ppu.scanline == s1.ppu.scanline);
    assert(s3.ppu.frame_complete == s1.ppu.frame_complete);
}

/// One tick with rendering off moves the unit to the next dot of the
/// frame, raises the frame-complete flag on the frame's last dot and on no
/// other, and leaves rendering off.
pub proof fn lemma_tick_position(s: PpuQueryItem)
    requires
        s.ppu.wf(),
        !s.ppu.rendering(),
    ensures
        s.spec_tick().spec_dot_index() == (s.spec_dot_index() + 1) % spec_frame_dots(),
        s.spec_tick_raises() == (s.spec_dot_index() == spec_frame_dots() - 1),
        s.spec_tick().ppu.frame_complete == (s.ppu.frame_complete || s.spec_tick_raises()),
        !s.spec_tick().ppu.rendering(),
        s.spec_tick().ppu.wf(),
        0 <= s.spec_dot_index() < spec_frame_dots(),
{
    lemma_tick_counters(s);
    lemma_tick_counters(s.spec_frame_taken());
}

/// Counting one further: the remainder goes up by one or wraps to zero,
/// and the quotient goes up exactly when it wraps.
pub proof fn lemma_count_on(d: int, f: int)
    requires
        d >= 0,
        f > 0,
    ensures
        (d + 1) % f == (d % f + 1) % f,
        (d + 1) / f == d / f + (if d % f == f - 1 {
            1int
        } else {
            0int
        }),
{
    vstd::arithmetic::div_mod::lemma_fundamental_div_mod(d, f);
    let q = d / f;
    let r = d % f;
    assert(f * q == q * f) by (nonlinear_arith);
    if r == f - 1 {
        assert(d + 1 == (q + 1) * f + 0) by (nonlinear_arith)
            requires
                d == f * q + r,
                r == f - 1,
        ;
        vstd::arithmetic::div_mod::lemma_fundamental_div_mod_converse(d + 1, f, q + 1, 0);
        vstd::arithmetic::div_mod::lemma_fundamental_div_mod_converse(r + 1, f, 1, 0);
    } else {
        vstd::arithmetic::div_mod::lemma_fundamental_div_mod_converse(d + 1, f, q, r + 1);
        vstd::arithmetic::div_mod::lemma_small_mod((r + 1) as nat, f as nat);
    }
}

/// With rendering off, `n` ticks move the unit `n` dots on, round the
/// frame, and raise the frame-complete flag once each time the end of the
/// frame is passed.
pub proof fn lemma_frame_cadence(s: PpuQueryItem, n: nat)
    requires
        s.ppu.wf(),
        !s.ppu.rendering(),
    ensures
        s.spec_ticks(n).ppu.wf(),
        !s.spec_ticks(n).ppu.rendering(),
        s.spec_ticks(n).spec_dot_index() == (s.spec_dot_index() + n) % spec_frame_dots(),
        s.spec_frames_raised(n) == (s.spec_dot_index() + n) / spec_frame_dots(),
    decreases n,
{
    if n == 0 {
        assert(0 <= s.spec_dot_index() < spec_frame_dots());
    } else {
        let m = (n - 1) as nat;
        lemma_frame_cadence(s, m);
        let t = s.spec_ticks(m);
        lemma_tick_position(t);
        lemma_count_on(s.spec_dot_index() + m, spec_frame_dots());
    }
}

/// With rendering off, the frame-complete flag is raised exactly once in
/// any 89342 ticks in a row, and after them the unit is at the dot where it
/// began.
pub proof fn lemma_one_frame(s: PpuQueryItem)
    requires
        s.ppu.wf(),
        !s.ppu.rendering(),
    ensures
        s.spec_frames_raised(89342) == 1,
        s.spec_ticks(89342).spec_dot_index() == s.spec_dot_index(),
{
    lemma_frame_cadence(s, 89342);
    assert(0 <= s.spec_dot_index() < 89342);
}

} // verus!
