//! The frames of the map popups' XOR effects: the outline that grows from
//! a point to a panel (or shrinks back), and the troop-contact popup's box
//! trail and corner brackets zooming to and from its panel (each frame a
//! rect as (x, y, width, height)); and the ornithopter's takeoff and
//! landing frames.
use vstd::prelude::*;
use crate::map_travel::Rect;
use crate::compass::{tdiv, abs_int};
use crate::troop_map::xor_bracket_anim_setup;

verus! {

/// Frame `k` of a linear run: `start + k * step`, each coordinate in 16
/// bits.
pub open spec fn linear_frame(
    start: (i16, i16, i16, i16),
    step: (i16, i16, i16, i16),
    k: int,
) -> (i16, i16, i16, i16) {
    (
        (start.0 + k * step.0) as i16,
        (start.1 + k * step.1) as i16,
        (start.2 + k * step.2) as i16,
        (start.3 + k * step.3) as i16,
    )
}

/// Coordinates small enough for a run of 16 frames to stay in 16 bits.
pub open spec fn run_bounded(start: (i16, i16, i16, i16), step: (i16, i16, i16, i16)) -> bool {
    &&& -0x2000 <= start.0 <= 0x2000
    &&& -0x2000 <= start.1 <= 0x2000
    &&& -0x2000 <= start.2 <= 0x2000
    &&& -0x2000 <= start.3 <= 0x2000
    &&& -0x400 <= step.0 <= 0x400
    &&& -0x400 <= step.1 <= 0x400
    &&& -0x400 <= step.2 <= 0x400
    &&& -0x400 <= step.3 <= 0x400
}

/// Frames `first .. first + n` of the run from `start` by `step`.
pub fn linear_frames(
    start: (i16, i16, i16, i16),
    step: (i16, i16, i16, i16),
    first: u8,
    n: u8,
) -> (frames: Vec<(i16, i16, i16, i16)>)
    requires
        run_bounded(start, step),
        first + n <= 16,
    ensures
        frames@.len() == n,
        forall|j: int|
            0 <= j < n ==> #[trigger] frames@[j] == linear_frame(start, step, first + j),
{
    let mut frames: Vec<(i16, i16, i16, i16)> = Vec::new();
    let mut j: u8 = 0;
    while j < n
        invariant
            j <= n,
            first + n <= 16,
            run_bounded(start, step),
            frames@.len() == j,
            forall|i: int|
                0 <= i < j ==> #[trigger] frames@[i] == linear_frame(start, step, first + i),
        decreases n - j,
    {
        let k = (first + j) as i16;
        assert(-0x400 * 16 <= k * step.0 <= 0x400 * 16 && -0x400 * 16 <= k * step.1 <= 0x400 * 16
            && -0x400 * 16 <= k * step.2 <= 0x400 * 16 && -0x400 * 16 <= k * step.3 <= 0x400
            * 16) by (nonlinear_arith)
            requires
                0 <= k <= 16,
                -0x400 <= step.0 <= 0x400,
                -0x400 <= step.1 <= 0x400,
                -0x400 <= step.2 <= 0x400,
                -0x400 <= step.3 <= 0x400,
        ;
        let f = (
            start.0 + k * step.0,
            start.1 + k * step.1,
            start.2 + k * step.2,
            start.3 + k * step.3,
        );
        frames.push(f);
        j = j + 1;
    }
    frames
}

/// The popup outline's run: it starts 2 px up and left of the source point
/// `src` and moves its corner towards the panel's by a sixteenth of the
/// gap (truncated) per frame while its size grows by a sixteenth of the
/// panel's (floored); closing, it starts from the panel with every step
/// negated.
pub open spec fn outline_run(src: (i16, i16), panel: Rect, reverse: bool) -> (
    (i16, i16, i16, i16),
    (i16, i16, i16, i16),
) {
    let sx = src.0 - 2;
    let sy = src.1 - 2;
    let pw = panel.x1 - panel.x0;
    let ph = panel.y1 - panel.y0;
    let dx = tdiv(panel.x0 - sx, 16);
    let dy = tdiv(panel.y0 - sy, 16);
    if reverse {
        (
            (panel.x0, panel.y0, pw as i16, ph as i16),
            ((-dx) as i16, (-dy) as i16, (-(pw / 16)) as i16, (-(ph / 16)) as i16),
        )
    } else {
        ((sx as i16, sy as i16, 0, 0), (dx as i16, dy as i16, (pw / 16) as i16, (ph / 16) as i16))
    }
}

/// A panel and points within the bounds the effects are drawn for.
pub open spec fn effect_bounded(panel: Rect, p: (i16, i16)) -> bool {
    &&& -0x800 <= panel.x0 <= 0x800
    &&& -0x800 <= panel.y0 <= 0x800
    &&& -0x800 <= panel.x1 <= 0x800
    &&& -0x800 <= panel.y1 <= 0x800
    &&& -0x800 <= p.0 <= 0x800
    &&& -0x800 <= p.1 <= 0x800
}

/// The 15 outlines of a popup's open (or, `reverse`, close) effect, from
/// the source point `src` to the panel (see `outline_run`); each is drawn,
/// shown for a frame and XOR-erased.
pub fn popup_outline_frames(src: (i16, i16), panel: Rect, reverse: bool) -> (frames: Vec<
    (i16, i16, i16, i16),
>)
    requires
        effect_bounded(panel, src),
    ensures
        frames@.len() == 15,
        forall|j: int|
            0 <= j < 15 ==> #[trigger] frames@[j] == linear_frame(
                outline_run(src, panel, reverse).0,
                outline_run(src, panel, reverse).1,
                j + 1,
            ),
{
    let sx = src.0 - 2;
    let sy = src.1 - 2;
    let pw = panel.x1 - panel.x0;
    let ph = panel.y1 - panel.y0;
    let dx = crate::map_travel::tdiv_i32((panel.x0 - sx) as i32, 16) as i16;
    let dy = crate::map_travel::tdiv_i32((panel.y0 - sy) as i32, 16) as i16;
    let ws = floor_div16(pw);
    let hs = floor_div16(ph);
    let (start, step) = if reverse {
        ((panel.x0, panel.y0, pw, ph), (-dx, -dy, -ws, -hs))
    } else {
        ((sx, sy, 0i16, 0i16), (dx, dy, ws, hs))
    };
    linear_frames(start, step, 1, 15)
}

/// `v` divided by 16, rounded down (an arithmetic shift by 4).
pub fn floor_div16(v: i16) -> (r: i16)
    ensures
        r == (v as int) / 16,
{
    if v >= 0 {
        v / 16
    } else {
        let q = (15 - v as i32) / 16;
        assert(q == (15 - v as int) / 16);
        assert(-(q as int) == (v as int) / 16) by (nonlinear_arith)
            requires
                q == (15 - v) / 16,
                v < 0,
        ;
        -(q as i16)
    }
}

/// The troop-contact popup's zoom to its panel from the troop icon at
/// `icon`: the target is the icon point with x clamped to 0..=300 and y
/// to at least 0; a 20x20 box steps 8 frames from the target towards the
/// panel's centred 20x20 origin, then the corner brackets grow 8 frames
/// from there towards the panel (see `xor_bracket_anim_setup`). Each run
/// plays twice, the second pass erasing the first; the last bracket frame
/// is the shape the close starts from.
pub fn xor_bracket_zoom_to_panel(panel: Rect, icon: (i16, i16)) -> (r: (
    Vec<(i16, i16, i16, i16)>,
    Vec<(i16, i16, i16, i16)>,
))
    requires
        effect_bounded(panel, icon),
    ensures
        ({
            let tx: i16 = if icon.0 < 0 { 0 } else if icon.0 > 0x12c { 0x12c } else { icon.0 };
            let ty: i16 = if icon.1 < 0 { 0 } else { icon.1 };
            let hw = (panel.x1 - panel.x0 - 0x14) / 2;
            let hh = (panel.y1 - panel.y0 - 0x14) / 2;
            let cx = panel.x0 + hw;
            let cy = panel.y0 + hh;
            let ex = hw / 8;
            let ey = hh / 8;
            let mx = tdiv(cx - tx, 8);
            let my = tdiv(cy - ty, 8);
            &&& r.0@.len() == 8
            &&& r.1@.len() == 8
            &&& forall|j: int|
                0 <= j < 8 ==> #[trigger] r.0@[j] == linear_frame(
                    (tx, ty, 0x14, 0x14),
                    (mx as i16, my as i16, 0, 0),
                    j,
                )
            &&& forall|j: int|
                0 <= j < 8 ==> #[trigger] r.1@[j] == linear_frame(
                    (cx as i16, cy as i16, 0x14, 0x14),
                    ((-ex) as i16, (-ey) as i16, (2 * ex) as i16, (2 * ey) as i16),
                    j,
                )
        }),
{
    let tx: i16 = if icon.0 < 0 {
        0
    } else if icon.0 > 0x12c {
        0x12c
    } else {
        icon.0
    };
    let ty: i16 = if icon.1 < 0 {
        0
    } else {
        icon.1
    };
    let ((cx, cy), (ex, ey), (mx, my)) = xor_bracket_anim_setup(panel, (tx, ty));
    assert(abs_int(cx - tx) / 8 <= 0x400 && abs_int(cy - ty) / 8 <= 0x400);
    let trail = linear_frames((tx, ty, 0x14, 0x14), (mx, my, 0, 0), 0, 8);
    let brackets = linear_frames((cx, cy, 0x14, 0x14), (-ex, -ey, 2 * ex, 2 * ey), 0, 8);
    (trail, brackets)
}

/// The troop-contact popup's close, the open played backwards: the corner
/// brackets shrink 8 frames from the last `shape` by the expand step
/// `expand`, then the 20x20 box steps 8 frames back from the panel's
/// centred origin `center` by the trail step `step`, moving before each
/// frame. Each run plays twice, the second pass erasing the first.
pub fn xor_bracket_zoom_from_panel(
    shape: (i16, i16, i16, i16),
    expand: (i16, i16),
    center: (i16, i16),
    step: (i16, i16),
) -> (r: (Vec<(i16, i16, i16, i16)>, Vec<(i16, i16, i16, i16)>))
    requires
        -0x2000 <= shape.0 <= 0x2000,
        -0x2000 <= shape.1 <= 0x2000,
        -0x2000 <= shape.2 <= 0x2000,
        -0x2000 <= shape.3 <= 0x2000,
        -0x200 <= expand.0 <= 0x200,
        -0x200 <= expand.1 <= 0x200,
        -0x2000 <= center.0 <= 0x2000,
        -0x2000 <= center.1 <= 0x2000,
        -0x400 <= step.0 <= 0x400,
        -0x400 <= step.1 <= 0x400,
    ensures
        r.0@.len() == 8,
        r.1@.len() == 8,
        forall|j: int|
            0 <= j < 8 ==> #[trigger] r.0@[j] == linear_frame(
                shape,
                (expand.0, expand.1, (-2 * expand.0) as i16, (-2 * expand.1) as i16),
                j,
            ),
        forall|j: int|
            0 <= j < 8 ==> #[trigger] r.1@[j] == linear_frame(
                (center.0, center.1, 0x14, 0x14),
                ((-step.0) as i16, (-step.1) as i16, 0, 0),
                j + 1,
            ),
{
    let brackets = linear_frames(
        shape,
        (expand.0, expand.1, -2 * expand.0, -2 * expand.1),
        0,
        8,
    );
    let trail = linear_frames((center.0, center.1, 0x14, 0x14), (-step.0, -step.1, 0, 0), 1, 8);
    (brackets, trail)
}

/// The frames the ornithopter takeoff (`step` 1) or landing (`step` -1)
/// draws from frame `start`: one per pass until the frame counter passes
/// 0x20 (or, landing, wraps below 0).
pub fn orni_anim_frames(start: u8, step: i8) -> (frames: Vec<u8>)
    requires
        start < 0x21,
        step == 1 || step == -1,
    ensures
        step == 1 ==> frames@ == Seq::new((0x21 - start) as nat, |k: int| (start + k) as u8),
        step == -1 ==> frames@ == Seq::new((start + 1) as nat, |k: int| (start - k) as u8),
{
    let mut frames: Vec<u8> = Vec::new();
    let mut f = start;
    let mut k: u8 = 0;
    loop
        invariant
            start < 0x21,
            step == 1 || step == -1,
            step == 1 ==> f == start + k && k < 0x21 - start,
            step == -1 ==> f == start - k && k <= start,
            step == 1 ==> frames@ == Seq::new(k as nat, |j: int| (start + j) as u8),
            step == -1 ==> frames@ == Seq::new(k as nat, |j: int| (start - j) as u8),
        decreases 0x22 - k,
    {
        frames.push(f);
        proof {
            if step == 1 {
                assert(frames@ =~= Seq::new((k + 1) as nat, |j: int| (start + j) as u8));
            } else {
                assert(frames@ =~= Seq::new((k + 1) as nat, |j: int| (start - j) as u8));
            }
        }
        k = k + 1;
        if step == 1 {
            if f == 0x20 {
                return frames;
            }
            f = f + 1;
        } else {
            if f == 0 {
                return frames;
            }
            f = f - 1;
        }
    }
}

/// Where frame `frame` of the takeoff (`step` not negative) or landing
/// draws the ornithopter lifting off the pad at `(x, y)`: past frame 0xe it
/// drifts 5 px a frame against the flight's direction and climbs by half
/// the square of the frames past 0xe (floored).
pub fn orni_anim_position(x: i16, y: i16, frame: u8, step: i8) -> (p: (i16, i16))
    requires
        frame < 0x21,
        -0x1000 <= x <= 0x1000,
        -0x1000 <= y <= 0x1000,
    ensures
        ({
            let t = frame - 0x0e;
            p == if t > 0 {
                (
                    (x - (if step >= 0 { 5 } else { -5 }) * t) as i16,
                    (y - (t * t) / 2) as i16,
                )
            } else {
                (x, y)
            }
        }),
{
    let t = frame as i16 - 0x0e;
    if t > 0 {
        let dx: i16 = if step >= 0 {
            5
        } else {
            -5
        };
        assert(t * t <= 18 * 18) by (nonlinear_arith)
            requires
                0 < t <= 18,
        ;
        assert(-90 <= dx * t <= 90) by (nonlinear_arith)
            requires
                dx == 5 || dx == -5,
                0 < t <= 18,
        ;
        let sq = t * t;
        (x - dx * t, y - sq / 2)
    } else {
        (x, y)
    }
}

} // verus!
