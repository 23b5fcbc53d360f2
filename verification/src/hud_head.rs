//! The HUD head over the command menu: its fold animation (index 0 =
//! folded away .. 10 = fully raised, one frame per 8 ticks), and what each
//! frame draws and restores. The engine performs each frame (restore,
//! draw, present, wait) in the order given.
use vstd::prelude::*;
use crate::map_travel::Rect;

verus! {

/// The HUD head box, and its top strip that overlaps the game area.
pub open spec fn hud_head_rect() -> Rect {
    Rect { x0: 150, y0: 137, x1: 170, y1: 160 }
}

pub open spec fn hud_head_strip_rect() -> Rect {
    Rect { x0: 150, y0: 137, x1: 170, y1: 147 }
}

/// One frame of the fold animation: the head index to draw, and whether
/// the background comes back from the saved game-area strip (folding down)
/// rather than from the clean background buffer.
#[derive(Clone, Copy, Debug, PartialEq, Eq, Structural)]
pub struct HeadFrame {
    pub index: u8,
    pub restore_strip: bool,
}

/// The HUD head state.
pub struct HudHead {
    pub index: u8,
    pub animating_down: bool,
}

/// The frames raising the head from `index` to 10.
pub open spec fn frames_up(index: u8, strip: bool) -> Seq<HeadFrame> {
    Seq::new((10 - index) as nat, |k: int| HeadFrame { index: (index + 1 + k) as u8, restore_strip: strip })
}

/// The frames folding the head from `index` down to 0.
pub open spec fn frames_down(index: u8) -> Seq<HeadFrame> {
    Seq::new(index as nat, |k: int| HeadFrame { index: (index - 1 - k) as u8, restore_strip: true })
}

/// The rect a frame restores before drawing.
pub fn hud_head_restore_rect(restore_strip: bool) -> (r: Rect)
    ensures
        r == if restore_strip { hud_head_strip_rect() } else { hud_head_rect() },
{
    if restore_strip {
        Rect { x0: 150, y0: 137, x1: 170, y1: 147 }
    } else {
        Rect { x0: 150, y0: 137, x1: 170, y1: 160 }
    }
}

/// The two sprites of the HUD head at `index`: the shoulders (0x0f at
/// (0x7e, 0x94)) and the head (0x10 + index at (0x96, 0x89)), as (sprite,
/// x, y).
pub fn ui_hud_head_draw(index: u8) -> (s: ((u16, i16, i16), (u16, i16, i16)))
    ensures
        s == ((0x0fu16, 0x7ei16, 0x94i16), ((0x10 + index) as u16, 0x96i16, 0x89i16)),
{
    ((0x0f, 0x7e, 0x94), (0x10 + index as u16, 0x96, 0x89))
}

impl HudHead {
    /// The frame the head shows at its current index.
    pub fn ui_hud_head_redraw(&self) -> (f: HeadFrame)
        ensures
            f == (HeadFrame { index: self.index, restore_strip: self.animating_down }),
    {
        HeadFrame { index: self.index, restore_strip: self.animating_down }
    }

    /// Raise the head to 10, one frame per step; only in the room view
    /// (`screen_mode_flags` 0).
    pub fn ui_hud_head_animate_up(&mut self, screen_mode_flags: u8) -> (frames: Vec<HeadFrame>)
        requires
            old(self).index <= 10,
        ensures
            screen_mode_flags != 0 ==> frames@.len() == 0 && final(self).index == old(self).index,
            screen_mode_flags == 0 ==> frames@ == frames_up(old(self).index, old(self).animating_down)
                && final(self).index == 10,
            final(self).animating_down == old(self).animating_down,
    {
        let mut frames: Vec<HeadFrame> = Vec::new();
        if screen_mode_flags != 0 {
            return frames;
        }
        let ghost i0 = self.index;
        while self.index != 0x0a
            invariant
                i0 <= self.index <= 10,
                self.animating_down == old(self).animating_down,
                i0 == old(self).index,
                frames@ == frames_up(i0, self.animating_down).subrange(0, self.index - i0),
            decreases 10 - self.index,
        {
            self.index = self.index + 1;
            frames.push(self.ui_hud_head_redraw());
            proof {
                assert(frames@ =~= frames_up(i0, self.animating_down).subrange(0, self.index - i0));
            }
        }
        proof {
            assert(frames_up(i0, self.animating_down).subrange(0, 10 - i0) =~= frames_up(
                i0,
                self.animating_down,
            ));
        }
        frames
    }

    /// Fold the head away, one frame per step, restoring the game-area
    /// strip each time; nothing while a voice or subtitle line shows
    /// (`voice_subtitle_mode` non-zero) or when the head is already folded.
    pub fn ui_hud_head_animate_down(&mut self, voice_subtitle_mode: u8) -> (frames: Vec<HeadFrame>)
        ensures
            (voice_subtitle_mode != 0 || old(self).index == 0) ==> frames@.len() == 0
                && final(self).index == old(self).index
                && final(self).animating_down == old(self).animating_down,
            !(voice_subtitle_mode != 0 || old(self).index == 0) ==> frames@ == frames_down(
                old(self).index,
            ) && final(self).index == 0 && !final(self).animating_down,
    {
        let mut frames: Vec<HeadFrame> = Vec::new();
        if voice_subtitle_mode != 0 {
            return frames;
        }
        if self.index == 0 {
            return frames;
        }
        self.animating_down = true;
        let ghost i0 = self.index;
        while self.index != 0
            invariant
                self.index <= i0,
                self.animating_down,
                frames@ == frames_down(i0).subrange(0, i0 - self.index),
            decreases self.index,
        {
            self.index = self.index - 1;
            frames.push(self.ui_hud_head_redraw());
            proof {
                assert(frames@ =~= frames_down(i0).subrange(0, i0 - self.index));
            }
        }
        self.animating_down = false;
        proof {
            assert(frames_down(i0).subrange(0, i0 as int) =~= frames_down(i0));
        }
        frames
    }

    /// The quick fold before a view switch: frames 9 and 8 (8 ticks
    /// apart), leaving the head at 8; nothing when it is folded.
    pub fn ui_hud_head_animate_down_start(&mut self) -> (frames: Vec<HeadFrame>)
        ensures
            old(self).index == 0 ==> frames@.len() == 0 && final(self).index == 0,
            old(self).index != 0 ==> frames@ == seq![
                HeadFrame { index: 9, restore_strip: old(self).animating_down },
                HeadFrame { index: 8, restore_strip: old(self).animating_down },
            ] && final(self).index == 8,
            final(self).animating_down == old(self).animating_down,
    {
        let mut frames: Vec<HeadFrame> = Vec::new();
        if self.index == 0 {
            return frames;
        }
        self.index = 9;
        frames.push(self.ui_hud_head_redraw());
        self.index = 8;
        frames.push(self.ui_hud_head_redraw());
        frames
    }
}

} // verus!
