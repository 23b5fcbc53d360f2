//! The map screens under the mouse: the hover state of the travel map
//! (a location marker, a compass ray out of the player marker, plain
//! desert), what a left click on the full map does, the "you are here"
//! marker's rect and blink, and the SELECT DESTINATION caption's
//! typewriter.
use vstd::prelude::*;
use crate::world::{Location, Troop, location_index_spec, location_index_from_ptr};
use crate::map_travel::{Rect, TravelMap, nearest_marker_spec, inside_spec};
use crate::compass::{compass_angle_spec, compass_angle_from_delta};
use crate::troop_icons::{TroopIconList, topmost_hit};

verus! {

/// The hover state at screen point `(x, y)`: 0 outside the map window; the
/// pointer of the nearest marker (see `nearest_marker_spec`, no appearance
/// cap) within 9; else, with a player marker up (rect `m`, x0 not 0), 0xfff0
/// + n when the pointer lies within about 4 degrees of compass point n out
/// of the marker's tip (x0 + 11, y1; 16-bit deltas); else 0xffff.
pub open spec fn hover_state_spec(
    map: TravelMap,
    locations: Seq<Location>,
    m: Rect,
    x: i16,
    y: i16,
) -> u16 {
    if !inside_spec(map.view_rect, x as int, y as int) {
        0
    } else {
        let near = nearest_marker_spec(
            map.markers@,
            locations,
            0xff,
            map.mode,
            x,
            y,
            map.markers@.len() as int,
        );
        if near.1 < 9 {
            near.0
        } else if m.x0 == 0 {
            0xffff
        } else {
            let dx = x.wrapping_sub(m.x0.wrapping_add(0xb));
            let dy = y.wrapping_sub(m.y1);
            let a = (compass_angle_spec(dx, dy) + 3) % 256;
            if a % 32 < 6 {
                (0xfff0 + a / 32) as u16
            } else {
                0xffff
            }
        }
    }
}

impl TravelMap {
    /// The hover state of the travel map under screen point `(x, y)`, with
    /// the player marker's rect `marker` (see `hover_state_spec`).
    pub fn map_mouse_hover_tracker(&self, x: i16, y: i16, locations: &Vec<Location>, marker: Rect) -> (h:
        u16)
        requires
            forall|k: int|
                0 <= k < self.markers@.len() ==> (#[trigger] self.markers@[k]).location_index
                    < locations@.len(),
        ensures
            h == hover_state_spec(*self, locations@, marker, x, y),
    {
        let r = self.view_rect;
        if !(r.x0 <= x && x < r.x1 && r.y0 <= y && y < r.y1) {
            return 0;
        }
        let (near, dist) = self.find_nearest_location_marker(0xff, x, y, locations);
        if dist < 9 {
            return near;
        }
        if marker.x0 == 0 {
            return 0xffff;
        }
        let dx = x.wrapping_sub(marker.x0.wrapping_add(0xb));
        let dy = y.wrapping_sub(marker.y1);
        let a = compass_angle_from_delta(dx, dy).wrapping_add(3);
        if a % 32 < 6 {
            let v = (a / 32) as u16;
            assert(v < 8);
            assert(0xfff0u16 | v == 0xfff0 + v) by (bit_vector)
                requires
                    v < 8,
            ;
            0xfff0 | v
        } else {
            0xffff
        }
    }
}

impl TravelMap {
    /// The hover tracker's update: the hover state under `(x, y)` (see
    /// `hover_state_spec`) replaces `prev`, and the hover label strip is
    /// redrawn exactly when the state changed.
    pub fn map_mouse_hover_update(
        &self,
        prev: u16,
        x: i16,
        y: i16,
        locations: &Vec<Location>,
        marker: Rect,
    ) -> (r: (u16, bool))
        requires
            forall|k: int|
                0 <= k < self.markers@.len() ==> (#[trigger] self.markers@[k]).location_index
                    < locations@.len(),
        ensures
            r.0 == hover_state_spec(*self, locations@, marker, x, y),
            r.1 == (r.0 != prev),
    {
        let h = self.map_mouse_hover_tracker(x, y, locations, marker);
        (h, h != prev)
    }
}

/// What a left click on the full map does.
#[derive(Clone, Copy, Debug, PartialEq, Eq, Structural)]
pub enum MapClick {
    /// Inside the open popup panel: the panel's own business.
    Popup,
    /// On this troop's icon.
    Troop(usize),
    /// Near this location's marker, whose popup opens.
    Location(usize),
    /// Near the marker of the location whose popup is already open.
    SameLocation,
    /// On empty map: the popups close, and a live troop contact ends when
    /// the flag says so.
    Empty { end_contact: bool },
}

/// A left click on the full map at `(x, y)`: inside the open popup panel
/// (`popup`, half-open) it is the panel's; on a troop icon (see
/// `troop_icon_hit_test`) it contacts the troop; within 0x14 of a marker of
/// a location with appearance below 0x31 it opens that location's popup
/// (nothing new when `open_location` already shows it); elsewhere the
/// popups close, ending the contact with the selected troop if any.
pub fn dune_map_mouse_lmb(
    map: &TravelMap,
    icons: &TroopIconList,
    troops: &Vec<Troop>,
    locations: &Vec<Location>,
    x: i16,
    y: i16,
    popup: Option<Rect>,
    open_location: Option<usize>,
    selected_troop_id: u8,
) -> (c: MapClick)
    requires
        forall|k: int|
            0 <= k < icons.icons@.len() ==> (#[trigger] icons.icons@[k]).troop_index < troops@.len(),
        forall|k: int|
            0 <= k < map.markers@.len() ==> (#[trigger] map.markers@[k]).location_index
                < locations@.len(),
    ensures
        ({
            let hit = match topmost_hit(icons.icons@, x, y, icons.icons@.len() as int) {
                None => None::<usize>,
                Some(i) => {
                    let ti = icons.icons@[i].troop_index;
                    if troops@[ti as int].occupation & 0x80 != 0 {
                        None
                    } else {
                        Some(ti)
                    }
                },
            };
            let near = nearest_marker_spec(
                map.markers@,
                locations@,
                0x31,
                map.mode,
                x,
                y,
                map.markers@.len() as int,
            );
            c == if popup matches Some(r) && inside_spec(r, x as int, y as int) {
                MapClick::Popup
            } else {
                match hit {
                    Some(ti) => MapClick::Troop(ti),
                    None => if near.1 < 0x14 && near.0 != 0 {
                        if open_location == Some(location_index_spec(near.0) as usize) {
                            MapClick::SameLocation
                        } else {
                            MapClick::Location(location_index_spec(near.0) as usize)
                        }
                    } else {
                        MapClick::Empty { end_contact: selected_troop_id != 0 }
                    },
                }
            }
        }),
{
    if let Some(r) = popup {
        if r.x0 <= x && x < r.x1 && r.y0 <= y && y < r.y1 {
            return MapClick::Popup;
        }
    }
    if let Some((_, ti)) = icons.troop_icon_hit_test(x, y, troops) {
        return MapClick::Troop(ti);
    }
    let (marker, dist) = map.find_nearest_location_marker(0x31, x, y, locations);
    if dist < 0x14 && marker != 0 {
        let li = location_index_from_ptr(marker);
        if open_location == Some(li) {
            return MapClick::SameLocation;
        }
        return MapClick::Location(li);
    }
    MapClick::Empty { end_contact: selected_troop_id != 0 }
}

/// The rect of the "you are here" marker (sprite `w` x `h`) for the
/// player's projected position `pos`: its tip 13 px right of the rect's
/// left edge and at its bottom; the empty rect when the player is off the
/// window.
pub fn map_player_marker_rect(pos: Option<(i16, i16)>, w: i16, h: i16) -> (r: Rect)
    requires
        0 <= w <= 0x100,
        0 <= h <= 0x100,
        pos matches Some(p) ==> -0x1000 <= p.0 <= 0x1000 && -0x1000 <= p.1 <= 0x1000,
    ensures
        r == match pos {
            None => Rect { x0: 0, y0: 0, x1: 0, y1: 0 },
            Some(p) => Rect {
                x0: (p.0 - 13) as i16,
                y0: (p.1 - h) as i16,
                x1: (p.0 - 13 + w) as i16,
                y1: p.1,
            },
        },
{
    match pos {
        None => Rect { x0: 0, y0: 0, x1: 0, y1: 0 },
        Some((sx, sy)) => {
            let x0 = sx - 13;
            let y0 = sy - h;
            Rect { x0, y0, x1: x0 + w, y1: y0 + h }
        },
    }
}

/// One blink of the "you are here" marker (rect `m`) over the map window
/// `view`: the phase steps on; the marker's rect clamped to the window is
/// restored from the clean map, and on odd phases the marker is drawn again
/// at its rect's origin.
pub fn map_player_marker_blink(phase: u8, m: Rect, view: Rect) -> (r: (u8, Rect, bool))
    ensures
        r.0 == (phase + 1) % 256,
        r.1 == (Rect {
            x0: if m.x0 >= view.x0 { m.x0 } else { view.x0 },
            y0: if m.y0 >= view.y0 { m.y0 } else { view.y0 },
            x1: if m.x1 <= view.x1 { m.x1 } else { view.x1 },
            y1: if m.y1 <= view.y1 { m.y1 } else { view.y1 },
        }),
        r.2 == (r.0 % 2 == 1),
{
    let p = phase.wrapping_add(1);
    let restore = Rect {
        x0: if m.x0 >= view.x0 {
            m.x0
        } else {
            view.x0
        },
        y0: if m.y0 >= view.y0 {
            m.y0
        } else {
            view.y0
        },
        x1: if m.x1 <= view.x1 {
            m.x1
        } else {
            view.x1
        },
        y1: if m.y1 <= view.y1 {
            m.y1
        } else {
            view.y1
        },
    };
    (p, restore, p % 2 == 1)
}

/// The glyphs one firing of the caption typewriter draws from `text` at
/// `pos`: the spaces and the first other glyph after them, stopping early
/// at the end of the text or a high-bit terminator.
pub open spec fn caption_run_end(text: Seq<u8>, pos: int) -> int
    decreases text.len() - pos,
{
    if pos < 0 || pos >= text.len() || text[pos] & 0x80 != 0 {
        pos
    } else if text[pos] != 0x20 {
        pos + 1
    } else {
        caption_run_end(text, pos + 1)
    }
}

/// One firing of the SELECT DESTINATION caption typewriter: the glyphs it
/// draws, in order (see `caption_run_end`), and the position it leaves.
pub fn tick_map_caption(text: &Vec<u8>, pos: usize) -> (r: (Vec<u8>, usize))
    ensures
        r.1 == if pos >= text@.len() { pos as int } else { caption_run_end(text@, pos as int) },
        pos <= text@.len() ==> r.0@ == text@.subrange(pos as int, r.1 as int),
        pos > text@.len() ==> r.0@.len() == 0,
{
    let mut glyphs: Vec<u8> = Vec::new();
    if pos >= text.len() {
        return (glyphs, pos);
    }
    let mut p = pos;
    while p < text.len()
        invariant
            pos <= p <= text@.len(),
            pos < text@.len(),
            caption_run_end(text@, pos as int) == caption_run_end(text@, p as int),
            glyphs@ == text@.subrange(pos as int, p as int),
            forall|k: int| pos <= k < p ==> text@[k] == 0x20,
        decreases text@.len() - p,
    {
        let c = text[p];
        if c & 0x80 != 0 {
            return (glyphs, p);
        }
        glyphs.push(c);
        p = p + 1;
        proof {
            assert(glyphs@ =~= text@.subrange(pos as int, p as int));
        }
        if c != 0x20 {
            return (glyphs, p);
        }
    }
    (glyphs, p)
}

} // verus!
