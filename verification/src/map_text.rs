//! Text on the map screen: the hover label under the map (what it names,
//! where and in which colour it is drawn), the rallied-troops count written
//! over the digits of the title popup's template, and which view the map
//! refresh after a period of events redraws.
use vstd::prelude::*;
use crate::world::{location_index_spec, location_index_from_ptr};
use crate::game::GameState;

verus! {

/// What the hover label names.
#[derive(Clone, Copy, Debug, PartialEq, Eq, Structural)]
pub enum LabelText {
    /// Nothing: the SELECT DESTINATION caption types itself instead.
    Caption,
    /// The location type and name of this location.
    Location(usize),
    /// "DESERT", with the compass-point phrase when there is one.
    Desert(Option<u16>),
}

/// The hover label: its text, pen row and colour word (its pen column is
/// always 0x55), the column past which the strip is space-padded, and
/// whether the SELECT DESTINATION typewriter is re-armed (true) or removed
/// (false).
#[derive(Clone, Copy, Debug, PartialEq, Eq, Structural)]
pub struct HoverLabel {
    pub text: LabelText,
    pub y: u16,
    pub color: u16,
    pub pad_past_x: u16,
    pub caption_typewriter: bool,
}

/// The label of hover state `hover`: 0 gives the caption; a location
/// pointer (below 0xfff0) its location; 0xfff0 + n "DESERT", naming
/// compass point n (phrase 0xda + n) for n below 8. The pen sits on row
/// 0x22 in colour 0xf5fe, or on row 0x26 in 0x20fe in the ornithopter.
/// The strip is padded with spaces past column 0xed; state 0 re-arms the
/// SELECT DESTINATION typewriter, any other state removes it.
pub fn map_hover_label(hover: u16, orni_mode: bool) -> (l: HoverLabel)
    ensures
        l.pad_past_x == 0xed,
        l.caption_typewriter == (hover == 0),
        l.y == if orni_mode { 0x26u16 } else { 0x22u16 },
        l.color == if orni_mode { 0x20feu16 } else { 0xf5feu16 },
        l.text == if hover == 0 {
            LabelText::Caption
        } else if hover < 0xfff0 {
            LabelText::Location(location_index_spec(hover) as usize)
        } else if hover - 0xfff0 < 8 {
            LabelText::Desert(Some((hover - 0xfff0 + 0xda) as u16))
        } else {
            LabelText::Desert(None)
        },
{
    let (y, color): (u16, u16) = if orni_mode {
        (0x26, 0x20fe)
    } else {
        (0x22, 0xf5fe)
    };
    let text = if hover == 0 {
        LabelText::Caption
    } else if hover < 0xfff0 {
        LabelText::Location(location_index_from_ptr(hover))
    } else {
        let dir = hover - 0xfff0;
        if dir < 8 {
            LabelText::Desert(Some(dir + 0xda))
        } else {
            LabelText::Desert(None)
        }
    };
    HoverLabel { text, y, color, pad_past_x: 0xed, caption_typewriter: hover == 0 }
}

/// An ASCII decimal digit.
pub open spec fn is_digit(b: u8) -> bool {
    0x30 <= b <= 0x39
}

/// The last digit among the first `k` bytes of `text`, or -1.
pub open spec fn last_digit_before(text: Seq<u8>, k: int) -> int
    decreases k,
{
    if k <= 0 {
        -1
    } else if is_digit(text[k - 1]) {
        k - 1
    } else {
        last_digit_before(text, k - 1)
    }
}

/// `text` with the decimal digits of `n` written backwards from index `i`:
/// at least one digit, and no further than the start of the text.
pub open spec fn write_number_back(text: Seq<u8>, i: int, n: nat) -> Seq<u8>
    decreases i,
{
    let t = text.update(i, (0x30 + n % 10) as u8);
    if n / 10 == 0 || i <= 0 {
        t
    } else {
        write_number_back(t, i - 1, n / 10)
    }
}

/// Write `n` in decimal over the digit tail of `text`: backwards from its
/// last digit, for as many digits as `n` has (the characters before them,
/// the template's padding, stay); a text without digits is left alone.
pub fn replace_number_at_digit_tail(text: &mut Vec<u8>, n: u16)
    ensures
        ({
            let last = last_digit_before(old(text)@, old(text)@.len() as int);
            final(text)@ == if last < 0 {
                old(text)@
            } else {
                write_number_back(old(text)@, last, n as nat)
            }
        }),
{
    let mut k: usize = text.len();
    while k > 0 && !(0x30 <= text[k - 1] && text[k - 1] <= 0x39)
        invariant
            k <= text@.len(),
            *text == *old(text),
            last_digit_before(text@, k as int) == last_digit_before(
                text@,
                text@.len() as int,
            ),
        decreases k,
    {
        k = k - 1;
    }
    if k == 0 {
        return;
    }
    let mut i: usize = k - 1;
    assert(last_digit_before(text@, k as int) == i);
    let mut v: u16 = n;
    loop
        invariant
            i < text@.len(),
            text@.len() == old(text)@.len(),
            last_digit_before(old(text)@, old(text)@.len() as int) >= 0,
            write_number_back(text@, i as int, v as nat) == write_number_back(
                old(text)@,
                last_digit_before(old(text)@, old(text)@.len() as int),
                n as nat,
            ),
        decreases i,
    {
        let d = (v % 10) as u8;
        let ghost t0 = text@;
        text.set(i, 0x30 + d);
        assert(text@ == t0.update(i as int, (0x30 + v as nat % 10) as u8));
        assert(write_number_back(t0, i as int, v as nat) == if (v as nat) / 10 == 0 || i <= 0 {
            text@
        } else {
            write_number_back(text@, i - 1, (v as nat) / 10)
        });
        v = v / 10;
        if v == 0 || i == 0 {
            return;
        }
        i = i - 1;
    }
}

/// Which view the map refresh after a period of events redraws.
#[derive(Clone, Copy, Debug, PartialEq, Eq, Structural)]
pub enum MapRefresh {
    /// No map view is up.
    Nothing,
    /// The installed main-view drawing function (windowed map, minimap).
    MainView,
    /// The full map's recompose, and the spice-density overlay after it
    /// when that is up.
    Recompose { overlay: bool },
}

impl GameState {
    /// The map refresh after a period of events: clears the view's dirty
    /// counter and picks the redraw from the view mode (0 none, bit 7 the
    /// full map, bit 6 the overlay over it, anything else the main view).
    pub fn map_view_refresh_after_events(&mut self) -> (r: MapRefresh)
        ensures
            final(self).vars == (crate::game::GameVars {
                spice_density_overlay_dirty: 0,
                ..old(self).vars
            }),
            final(self).troops@ == old(self).troops@,
            final(self).locations@ == old(self).locations@,
            final(self).events@ == old(self).events@,
            final(self).same_tables(old(self)),
            final(self).string_subst_id_table@ == old(self).string_subst_id_table@,
            final(self).troop_condit == old(self).troop_condit,
            final(self).location_condit == old(self).location_condit,
            r == if old(self).vars.data_046eb & 0x80 == 0 {
                if old(self).vars.data_046eb == 0 {
                    MapRefresh::Nothing
                } else {
                    MapRefresh::MainView
                }
            } else {
                MapRefresh::Recompose { overlay: old(self).vars.data_046eb & 0x40 != 0 }
            },
    {
        self.vars.spice_density_overlay_dirty = 0;
        let mode = self.vars.data_046eb;
        if mode & 0x80 == 0 {
            if mode == 0 {
                MapRefresh::Nothing
            } else {
                MapRefresh::MainView
            }
        } else {
            MapRefresh::Recompose { overlay: mode & 0x40 != 0 }
        }
    }
}

} // verus!
