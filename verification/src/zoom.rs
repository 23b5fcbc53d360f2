//! The cinematic zoom-in reveal of a talking-head scene: the scaled
//! nearest-neighbour blit of a sub-rectangle of the composed frame onto a
//! 320x152 game area, and the sequence of zoom steps (each centred on the
//! character's focal point) that pulls back from a close-up to the whole
//! scene.
use vstd::prelude::*;
use crate::game::GameState;

verus! {

/// One step of the reveal, each presented to the display and held for at
/// least `hold` timer ticks.
#[derive(Clone, Copy, Debug, PartialEq, Eq, Structural)]
pub enum ZoomStep {
    /// Blit the source rect at `(col, row)` of the composed frame (which is
    /// only read) scaled by selector `scale`.
    Blit { col: i16, row: i16, scale: u8, hold: u16 },
    /// Present the current close-up again for the long pause.
    Pause { hold: u16 },
    /// Copy the whole composed frame to the screen 1:1 and present it.
    Reveal,
}

/// How long each zoom step is held, in timer ticks.
pub const ZOOM_STEP_TICKS: u16 = 6;

/// How long the long pause on the close-up is held, in timer ticks.
pub const ZOOM_PAUSE_TICKS: u16 = 300;

/// The zoom factor `(num, den)` of scale selector 1..7 (8/7, 4/3, 3/2, 2,
/// 3, 4, 8); any other selector is 1:1.
pub open spec fn zoom_ratio_spec(scale: u8) -> (int, int) {
    if scale == 1 {
        (8, 7)
    } else if scale == 2 {
        (4, 3)
    } else if scale == 3 {
        (3, 2)
    } else if scale == 4 {
        (2, 1)
    } else if scale == 5 {
        (3, 1)
    } else if scale == 6 {
        (4, 1)
    } else if scale == 7 {
        (8, 1)
    } else {
        (1, 1)
    }
}

/// The source pixel for output pixel `k` (row `k / 320`, column
/// `k % 320`) of the game area: the source rect's top-left (the row clamped
/// to 0..199, the column to 0 and up), plus the output coordinates scaled
/// down by the zoom factor, all `y_offset` rows down.
pub open spec fn zoom_src_index(y_offset: int, col: i16, row: i16, scale: u8, k: int) -> int {
    let (num, den) = zoom_ratio_spec(scale);
    let rowc: int = if row < 0 { 0 } else if row > 199 { 199 } else { row as int };
    let colc: int = if col < 0 { 0 } else { col as int };
    y_offset * 320 + rowc * 320 + colc + ((k / 320) * den / num) * 320 + (k % 320) * den / num
}

/// The first `done` output pixels of the game area written (each one whose
/// source and destination are inside the buffers); the rest of `dst` as it
/// was.
pub open spec fn zoom_blit_partial(
    dst: Seq<u8>,
    src: Seq<u8>,
    y_offset: int,
    col: i16,
    row: i16,
    scale: u8,
    done: int,
) -> Seq<u8> {
    Seq::new(
        dst.len(),
        |d: int|
            {
                let k = d - y_offset * 320;
                let s = zoom_src_index(y_offset, col, row, scale, k);
                if 0 <= k < done && s < src.len() {
                    src[s]
                } else {
                    dst[d]
                }
            },
    )
}

/// The focal point of talking head `id`'s zoom; (0, 0) = no zoom.
pub open spec fn zoom_focal_spec(id: int) -> (i16, i16) {
    if id == 0 {
        (0x4c, 0x2f)
    } else if id == 1 {
        (0x4b, 0x49)
    } else if id == 3 {
        (0x53, 0x25)
    } else if id == 4 {
        (0x4c, 0x3e)
    } else if id == 5 {
        (0x53, 0x3e)
    } else if id == 6 {
        (0x4d, 0x4e)
    } else if id == 7 {
        (0x58, 0x3f)
    } else if id == 8 {
        (0x47, 0x41)
    } else if id == 9 {
        (0x56, 0x1b)
    } else if id == 10 {
        (0x69, 0x5b)
    } else if id == 12 {
        (0x4a, 0x29)
    } else if id == 14 {
        (0x5e, 0x57)
    } else {
        (0, 0)
    }
}

/// Half the width and height of the source rect of scale selector 1..7.
pub open spec fn zoom_half_extent_spec(scale: int) -> (i16, i16) {
    if scale == 1 {
        (140, 66)
    } else if scale == 2 {
        (120, 57)
    } else if scale == 3 {
        (106, 50)
    } else if scale == 4 {
        (80, 38)
    } else if scale == 5 {
        (53, 25)
    } else if scale == 6 {
        (40, 19)
    } else if scale == 7 {
        (20, 9)
    } else {
        (0, 0)
    }
}

/// The step a sequence entry stands for: a negative entry is the pause, a
/// positive one a blit of the source rect centred on the focal point (its
/// top-left clamped at 0).
pub open spec fn zoom_step_spec(focal: (i16, i16), step: i8) -> ZoomStep {
    if step < 0 {
        ZoomStep::Pause { hold: ZOOM_PAUSE_TICKS }
    } else {
        let h = zoom_half_extent_spec(step as int);
        ZoomStep::Blit {
            col: if focal.0 - h.0 < 0 { 0 } else { (focal.0 - h.0) as i16 },
            row: if focal.1 - h.1 < 0 { 0 } else { (focal.1 - h.1) as i16 },
            scale: step as u8,
            hold: ZOOM_STEP_TICKS,
        }
    }
}

/// The full pull-back sequence: a 4x close-up, the pause, then 3x down to
/// 8/7.
pub open spec fn zoom_seq_full() -> Seq<i8> {
    seq![6i8, -1i8, 5i8, 4i8, 3i8, 2i8, 1i8]
}

/// The steps of a sequence.
pub open spec fn zoom_plan_spec(focal: (i16, i16), steps: Seq<i8>) -> Seq<ZoomStep> {
    Seq::new(steps.len(), |i: int| zoom_step_spec(focal, steps[i]))
}

/// The zoom factor of a scale selector.
pub fn zoom_ratio(scale: u8) -> (r: (usize, usize))
    ensures
        r.0 == zoom_ratio_spec(scale).0,
        r.1 == zoom_ratio_spec(scale).1,
        1 <= r.1 <= r.0 <= 8,
{
    match scale {
        1 => (8, 7),
        2 => (4, 3),
        3 => (3, 2),
        4 => (2, 1),
        5 => (3, 1),
        6 => (4, 1),
        7 => (8, 1),
        _ => (1, 1),
    }
}

/// Blit the `scale`-zoomed source rect at `(col, row)` of `src` onto the
/// 320x152 game area of `dst`, both `y_offset` rows down: output pixel `k`
/// takes source pixel `zoom_src_index(k)`; a pixel whose source or
/// destination falls outside its buffer is left alone.
pub fn zoom_blit(src: &Vec<u8>, dst: &mut Vec<u8>, y_offset: usize, col: i16, row: i16, scale: u8)
    requires
        y_offset <= 200,
    ensures
        final(dst)@ == zoom_blit_partial(
            old(dst)@,
            src@,
            y_offset as int,
            col,
            row,
            scale,
            152int * 320,
        ),
{
    let (num, den) = zoom_ratio(scale);
    let fb_base = y_offset * 320;
    let rowc: usize = if row < 0 {
        0
    } else if row > 199 {
        199
    } else {
        row as usize
    };
    let colc: usize = if col < 0 {
        0
    } else {
        col as usize
    };
    let base_src = fb_base + rowc * 320 + colc;
    let ghost d0 = dst@;
    proof {
        assert(dst@ =~= zoom_blit_partial(d0, src@, y_offset as int, col, row, scale, 0));
    }
    let mut k: usize = 0;
    while k < 152 * 320
        invariant
            k <= 152 * 320,
            fb_base == y_offset * 320,
            y_offset <= 200,
            base_src == fb_base + rowc * 320 + colc,
            rowc <= 199,
            colc <= 0x7fff,
            rowc == (if row < 0 { 0 } else if row > 199 { 199 } else { row as int }),
            colc == (if col < 0 { 0 } else { col as int }),
            num == zoom_ratio_spec(scale).0,
            den == zoom_ratio_spec(scale).1,
            1 <= den <= num <= 8,
            dst@ == zoom_blit_partial(d0, src@, y_offset as int, col, row, scale, k as int),
        decreases 152 * 320 - k,
    {
        let r = k / 320;
        let c = k % 320;
        assert((r * den) as int / num as int <= r && (c * den) as int / num as int <= c) by (nonlinear_arith)
            requires
                1 <= den <= num,
                r >= 0,
                c >= 0,
        ;
        let s = base_src + (r * den / num) * 320 + c * den / num;
        let d = fb_base + k;
        let ghost before = dst@;
        if s < src.len() && d < dst.len() {
            dst.set(d, src[s]);
        }
        proof {
            assert(s as int == zoom_src_index(y_offset as int, col, row, scale, k as int));
            assert(dst@ =~= zoom_blit_partial(
                d0,
                src@,
                y_offset as int,
                col,
                row,
                scale,
                k + 1,
            ));
        }
        k = k + 1;
    }
}

/// The focal point of talking head `id` (0 .. 0x10).
pub fn zoom_focal_point(id: usize) -> (f: (i16, i16))
    ensures
        f == zoom_focal_spec(id as int),
{
    match id {
        0 => (0x4c, 0x2f),
        1 => (0x4b, 0x49),
        3 => (0x53, 0x25),
        4 => (0x4c, 0x3e),
        5 => (0x53, 0x3e),
        6 => (0x4d, 0x4e),
        7 => (0x58, 0x3f),
        8 => (0x47, 0x41),
        9 => (0x56, 0x1b),
        10 => (0x69, 0x5b),
        12 => (0x4a, 0x29),
        14 => (0x5e, 0x57),
        _ => (0, 0),
    }
}

/// Half the extents of the source rect of a scale selector.
pub fn zoom_half_extent(scale: u8) -> (h: (i16, i16))
    ensures
        h == zoom_half_extent_spec(scale as int),
{
    match scale {
        1 => (140, 66),
        2 => (120, 57),
        3 => (106, 50),
        4 => (80, 38),
        5 => (53, 25),
        6 => (40, 19),
        7 => (20, 9),
        _ => (0, 0),
    }
}

/// One zoom step: the source rect of selector `scale` centred on `focal`,
/// its top-left clamped at 0.
pub fn zoom_reveal_step(focal: (i16, i16), scale: u8) -> (s: ZoomStep)
    requires
        0 <= focal.0 <= 0x100,
        0 <= focal.1 <= 0x100,
        scale < 128,
    ensures
        s == zoom_step_spec(focal, scale as i8),
{
    let (hx, hy) = zoom_half_extent(scale);
    let col = if focal.0 - hx < 0 {
        0
    } else {
        focal.0 - hx
    };
    let row = if focal.1 - hy < 0 {
        0
    } else {
        focal.1 - hy
    };
    ZoomStep::Blit { col, row, scale, hold: ZOOM_STEP_TICKS }
}

/// Which step sequence the reveal plays: the full pull-back always (the
/// flag that would select a short random one is never cleared).
pub fn zoom_uses_full_sequence() -> (b: bool)
    ensures
        b,
{
    true
}

/// The steps of `steps` for the zoom centred on `focal`.
pub fn zoom_plan(focal: (i16, i16), steps: &Vec<i8>) -> (plan: Vec<ZoomStep>)
    requires
        0 <= focal.0 <= 0x100,
        0 <= focal.1 <= 0x100,
    ensures
        plan@ == zoom_plan_spec(focal, steps@),
{
    let mut plan: Vec<ZoomStep> = Vec::new();
    let mut i: usize = 0;
    while i < steps.len()
        invariant
            i <= steps@.len(),
            0 <= focal.0 <= 0x100,
            0 <= focal.1 <= 0x100,
            plan@ == zoom_plan_spec(focal, steps@.subrange(0, i as int)),
        decreases steps@.len() - i,
    {
        let step = steps[i];
        let s = if step < 0 {
            ZoomStep::Pause { hold: ZOOM_PAUSE_TICKS }
        } else {
            zoom_reveal_step(focal, step as u8)
        };
        plan.push(s);
        proof {
            assert(zoom_plan_spec(focal, steps@.subrange(0, i + 1)) =~= zoom_plan_spec(
                focal,
                steps@.subrange(0, i as int),
            ).push(s));
        }
        i = i + 1;
    }
    proof {
        assert(steps@.subrange(0, steps@.len() as int) =~= steps@);
    }
    plan
}

impl GameState {
    /// The zoom-in reveal of the talking-head scene on screen: nothing
    /// (`None`) without a head, while its voice plays, for a head id of
    /// 0x11 and up, or for a character without a focal point; otherwise the
    /// steps of the full pull-back sequence centred on the character's focal
    /// point, after which the whole scene is shown 1:1. No random bit is
    /// drawn: the state is left as it was.
    pub fn scene_zoom_in_reveal(&mut self) -> (plan: Option<Vec<ZoomStep>>)
        ensures
            ({
                match old(self).vars.talking_head {
                    None => plan.is_none(),
                    Some(h) => {
                        let focal = zoom_focal_spec(h.talking_head_id as int);
                        if h.speaking || h.talking_head_id >= 0x11 || focal == (0i16, 0i16) {
                            plan.is_none()
                        } else {
                            plan matches Some(p) && p@ == zoom_plan_spec(focal, zoom_seq_full()).push(
                                ZoomStep::Reveal,
                            )
                        }
                    },
                }
            }),
            *final(self) == *old(self),
    {
        let head = match self.vars.talking_head {
            None => {
                return None;
            },
            Some(h) => h,
        };
        if head.speaking {
            return None;
        }
        let scene = head.talking_head_id as usize;
        if scene >= 0x11 {
            return None;
        }
        let focal = zoom_focal_point(scene);
        if focal.0 == 0 && focal.1 == 0 {
            return None;
        }
        let steps: Vec<i8> = if zoom_uses_full_sequence() {
            vec![6, -1, 5, 4, 3, 2, 1]
        } else if !self.roll_rand_bit() {
            vec![5, -1, 4, 3]
        } else {
            vec![4, -1, 3]
        };
        proof {
            assert(steps@ =~= zoom_seq_full());
        }
        let mut plan = zoom_plan(focal, &steps);
        plan.push(ZoomStep::Reveal);
        Some(plan)
    }
}

} // verus!
