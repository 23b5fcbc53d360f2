//! The map view and the in-game flight: projecting map positions (longitude
//! units, latitude rows) to the map window and back, the nearest location
//! and marker searches, the narration clip of a hover state, the flight's
//! heading and step arithmetic, the minimap trail ring, the flight video
//! choice and the hostile-zone warning.
use vstd::prelude::*;
use crate::world::{
    Location, signed16, unsigned16, as_signed16, as_unsigned16, abs_i16, location_index_spec,
    location_index_from_ptr, location_ptr, location_ptr_spec,
};
use crate::compass::{
    abs_int, tdiv, heading_deltas_spec, compass_to_position_spec, compass_angle_to_map_position,
    travel_heading_deltas,
};
use crate::troop_moves::location_is_atreides_spec;

verus! {

/// A screen rectangle, `x1`/`y1` exclusive.
#[derive(Clone, Copy, Debug, PartialEq, Eq, Structural)]
pub struct Rect {
    pub x0: i16,
    pub y0: i16,
    pub x1: i16,
    pub y1: i16,
}

/// A location marker on the map view: the location and its marker's
/// screen position, with the view mode the list was built under.
#[derive(Clone, Copy, Debug, PartialEq, Eq, Structural)]
pub struct MapLocationMarker {
    pub location_index: u16,
    pub x: i16,
    pub y: i16,
    pub mode: u8,
}

/// The map view and the flight state.
pub struct TravelMap {
    /// The view mode: 0 = none, 1 = the windowed map, bit 7 = the full
    /// globe, bit 6 = the spice-density overlay.
    pub mode: u8,
    pub view_rect: Rect,
    /// The map position the view is centred on.
    pub zoomed_longitude: u16,
    pub zoomed_latitude: i16,
    /// The byte length of each map row, indexed by latitude + 98.
    pub row_len: Vec<u16>,
    /// Longitude units per map cell, indexed by latitude + 98.
    pub lng_units_per_cell: Vec<u16>,
    /// The location markers on the current view.
    pub markers: Vec<MapLocationMarker>,
    /// The flight's compass heading.
    pub travel_heading: u8,
    /// The fractional latitude step (0x100 = one row).
    pub travel_step_accum: u16,
    /// Non-zero: the heading is fixed rather than homing.
    pub travel_heading_mode: u8,
    /// Non-zero: a directional flight with no location destination.
    pub travel_no_location_dest: u8,
    pub travel_destination_ptr: u16,
    /// The minimap trail: (longitude, latitude) entries, latitude 0x800
    /// marking an empty slot.
    pub trail: Vec<(u16, u16)>,
    pub trail_cursor: usize,
    /// The vehicle's own flight clip, the clip playing and the clip asked
    /// for.
    pub vehicle_mode: u16,
    pub video_id: u16,
    pub active_video_id: u16,
    /// The hostile-zone warning countdown (steps of 0x20).
    pub hostile_accum: u8,
    /// The SKIP TO DESTINATION verb flags (0x40 = greyed).
    pub skip_verb_flags: u8,
    pub pending_room_action: u8,
    pub pending_room_screen_request: u8,
    /// The flight's step clock (16-bit, wrapping): every 16th step runs one
    /// time period of events.
    pub travel_step_counter: u16,
}

/// The centre of the map window: fixed on the full globe, else the middle
/// of the view rect.
pub open spec fn centre_spec(mode: u8, r: Rect) -> (int, int) {
    if mode & 0x80 != 0 {
        (0xa0, 0x4c)
    } else {
        (r.x0 + (r.x1 - r.x0) / 2, r.y0 + (r.y1 - r.y0 - 1) / 2)
    }
}

/// A trail entry is empty (latitude 0x800) or a position on the map.
pub open spec fn trail_entry_ok(e: (u16, u16)) -> bool {
    e.1 == 0x800 || -98 <= signed16(e.1) <= 98
}

/// A screen point lies inside the (half-open) rect.
pub open spec fn inside_spec(r: Rect, x: int, y: int) -> bool {
    r.x0 <= x < r.x1 && r.y0 <= y < r.y1
}

impl TravelMap {
    /// The sizes and ranges the map arithmetic relies on.
    pub open spec fn wf(&self) -> bool {
        &&& self.row_len@.len() == 197
        &&& self.lng_units_per_cell@.len() == 197
        &&& forall|i: int| 0 <= i < 197 ==> 0 < #[trigger] self.row_len@[i] < 0x1000
        &&& forall|i: int| 0 <= i < 197 ==> 0 < #[trigger] self.lng_units_per_cell@[i] <= 0x4000
        &&& 0 <= self.view_rect.x0 <= self.view_rect.x1 <= 320
        &&& 0 <= self.view_rect.y0 < self.view_rect.y1 <= 200
        &&& -98 <= self.zoomed_latitude <= 98
        &&& self.travel_step_accum <= 0xff
        &&& self.trail@.len() > 0
        &&& self.trail_cursor < self.trail@.len()
        &&& forall|i: int|
            0 <= i < self.trail@.len() ==> trail_entry_ok(#[trigger] self.trail@[i])
    }

    /// The screen position of map position `(x, lat)`: the latitude offset
    /// from the view centre row, and the longitude offset scaled by the
    /// row's byte length over the 0x10000 circle (floored); the full globe
    /// scales both by 4.
    pub open spec fn position_to_screen_spec(&self, x: u16, lat: i16) -> (i16, i16) {
        let k: int = if self.mode & 0x80 != 0 { 4 } else { 1 };
        let c = centre_spec(self.mode, self.view_rect);
        let dlng = signed16(((x - self.zoomed_longitude + 0x10000) % 0x10000) as u16);
        let len = self.row_len@[lat + 98];
        (
            ((dlng * len * k) / 0x10000 + c.0) as i16,
            ((lat - self.zoomed_latitude) * k + c.1) as i16,
        )
    }

    /// The map position under screen point `(x, y)` of the windowed map:
    /// the row is the latitude offset from the centre; the cell is the view
    /// centre's cell plus the column offset, wrapped once into the row, and
    /// its longitude is `cell * 0x10000 / row length` in 16 bits.
    pub open spec fn screen_to_position_spec(&self, x: i16, y: i16) -> (u16, i16) {
        let c = centre_spec(self.mode, self.view_rect);
        let lat = y - c.1 + self.zoomed_latitude;
        let len = self.row_len@[lat + 98] as int;
        let cell0 = (len * self.zoomed_longitude) / 0x10000 + (x - c.0);
        let cell = if cell0 < 0 {
            cell0 + len
        } else if cell0 >= len {
            cell0 - len
        } else {
            cell0
        };
        (((((cell % 0x10000) * 0x10000) / len) % 0x10000) as u16, lat as i16)
    }

    /// The window centre.
    pub fn view_centre(&self) -> (c: (i16, i16))
        requires
            self.wf(),
        ensures
            c.0 == centre_spec(self.mode, self.view_rect).0,
            c.1 == centre_spec(self.mode, self.view_rect).1,
            0 <= c.0 <= 320,
            0 <= c.1 <= 200,
    {
        if self.mode & 0x80 != 0 {
            (0xa0, 0x4c)
        } else {
            let r = self.view_rect;
            (r.x0 + (r.x1 - r.x0) / 2, r.y0 + (r.y1 - r.y0 - 1) / 2)
        }
    }

    /// Project map position `(x, lat)` to the map window.
    pub fn map_position_to_screen(&self, x: u16, lat: i16) -> (p: (i16, i16))
        requires
            self.wf(),
            -98 <= lat <= 98,
        ensures
            p == self.position_to_screen_spec(x, lat),
    {
        let k: i32 = if self.mode & 0x80 != 0 {
            4
        } else {
            1
        };
        let (cx, cy) = self.view_centre();
        let sy = ((lat - self.zoomed_latitude) as i32) * k + cy as i32;
        let len = self.row_len[(lat + 98) as usize] as i32;
        let dlng = as_signed16(x.wrapping_sub(self.zoomed_longitude)) as i32;
        proof {
            assert(x.wrapping_sub(self.zoomed_longitude) == ((x - self.zoomed_longitude + 0x10000)
                % 0x10000) as u16);
        }
        assert(-0x8000 * 0x1000 * 4 <= dlng * len * k <= 0x8000 * 0x1000 * 4) by (nonlinear_arith)
            requires
                -0x8000 <= dlng <= 0x7fff,
                0 < len < 0x1000,
                1 <= k <= 4,
        ;
        let p = dlng * len * k;
        let sx = floor_div_65536(p) + cx as i32;
        (sx as i16, sy as i16)
    }

    /// Project map position `(x, lat)` and keep it only when it falls
    /// inside the map window.
    pub fn map_position_to_screen_if_visible(&self, x: u16, lat: i16) -> (r: Option<(i16, i16)>)
        requires
            self.wf(),
            -98 <= lat <= 98,
        ensures
            ({
                let p = self.position_to_screen_spec(x, lat);
                r == if inside_spec(self.view_rect, p.0 as int, p.1 as int) {
                    Some(p)
                } else {
                    None::<(i16, i16)>
                }
            }),
    {
        let (sx, sy) = self.map_position_to_screen(x, lat);
        let r = self.view_rect;
        if sx < r.x0 || sx >= r.x1 || sy < r.y0 || sy >= r.y1 {
            return None;
        }
        Some((sx, sy))
    }

    /// Location `li`'s marker position, when a map view is up and the
    /// location is inside the window.
    pub fn location_visible_on_map(&self, li: usize, locations: &Vec<Location>) -> (r: Option<
        (i16, i16),
    >)
        requires
            self.wf(),
            li < locations@.len(),
            -98 <= locations@[li as int].map_y <= 98,
        ensures
            ({
                let loc = locations@[li as int];
                let p = self.position_to_screen_spec(unsigned16(loc.map_x), loc.map_y);
                r == if self.mode == 0 || !inside_spec(self.view_rect, p.0 as int, p.1 as int) {
                    None::<(i16, i16)>
                } else {
                    Some(p)
                }
            }),
    {
        if self.mode == 0 {
            return None;
        }
        let loc = locations[li];
        self.map_position_to_screen_if_visible(as_unsigned16(loc.map_x), loc.map_y)
    }

    /// The map position under screen point `(x, y)` (the inverse of the
    /// projection); the full globe is not handled and gives the view
    /// centre's position.
    pub fn map_screen_to_position(&self, x: i16, y: i16) -> (r: (u16, i16))
        requires
            self.wf(),
            0 <= x <= 320,
            0 <= y <= 200,
            self.mode & 0x80 == 0 ==> -98 <= y - centre_spec(self.mode, self.view_rect).1
                + self.zoomed_latitude <= 98,
        ensures
            r == if self.mode & 0x80 != 0 {
                (self.zoomed_longitude, self.zoomed_latitude)
            } else {
                self.screen_to_position_spec(x, y)
            },
    {
        let (cx, cy) = self.view_centre();
        let dx = x - cx;
        let dy = y - cy;
        if self.mode & 0x80 != 0 {
            return (self.zoomed_longitude, self.zoomed_latitude);
        }
        let lat = dy + self.zoomed_latitude;
        let len = self.row_len[(lat + 98) as usize] as u32;
        let zl = self.zoomed_longitude as u32;
        assert(len * zl < 0x1000 * 0x10000) by (nonlinear_arith)
            requires
                len < 0x1000,
                zl < 0x10000,
        ;
        let q = ((len * zl) / 0x10000) as i32;
        assert(q < len) by (nonlinear_arith)
            requires
                q == (len * zl) / 0x10000,
                zl < 0x10000,
                len > 0,
        ;
        let lenv = len as i32;
        let cell0 = q + dx as i32;
        let cell = if cell0 < 0 {
            cell0 + lenv
        } else if cell0 >= lenv {
            cell0 - lenv
        } else {
            cell0
        };
        let c16: u32 = if cell < 0 {
            (cell + 0x10000) as u32
        } else {
            cell as u32
        };
        assert(c16 as int == (cell as int) % 0x10000);
        assert(c16 * 0x10000 < 0x1_0000_0000) by (nonlinear_arith)
            requires
                c16 < 0x10000,
        ;
        let v = (c16 * 0x10000) / len;
        ((v % 0x10000) as u16, lat)
    }
}

/// `p` divided by 0x10000, rounded down.
pub fn floor_div_65536(p: i32) -> (r: i32)
    ensures
        r == (p as int) / 0x10000,
{
    if p >= 0 {
        p / 0x10000
    } else {
        let q = (0xffff - (p as i64)) / 0x10000;
        assert(-q == (p as int) / 0x10000) by (nonlinear_arith)
            requires
                p < 0,
                q == (0xffff - p) / 0x10000,
        ;
        -(q as i32)
    }
}

/// The Manhattan distance of a marker from `(x, y)`, in 16 bits.
pub open spec fn marker_dist(m: MapLocationMarker, x: i16, y: i16) -> int {
    (abs_int(m.x - x) + abs_int(m.y - y)) % 0x10000
}

/// The nearest of the first `n` markers to `(x, y)` whose location's
/// appearance is below `max_appearance` and whose mode byte is `mode`: its
/// location pointer and distance, `(0, 0xffff)` with none; the first one
/// wins ties.
pub open spec fn nearest_marker_spec(
    markers: Seq<MapLocationMarker>,
    locations: Seq<Location>,
    max_appearance: u8,
    mode: u8,
    x: i16,
    y: i16,
    n: int,
) -> (u16, u16)
    decreases n,
{
    if n <= 0 {
        (0, 0xffff)
    } else {
        let prev = nearest_marker_spec(markers, locations, max_appearance, mode, x, y, n - 1);
        let m = markers[n - 1];
        if locations[m.location_index as int].appearance >= max_appearance || m.mode != mode {
            prev
        } else if marker_dist(m, x, y) < prev.1 {
            (location_ptr_spec(m.location_index as int), marker_dist(m, x, y) as u16)
        } else {
            prev
        }
    }
}

/// The travel distance of a location from map position `(x, lat)`: the
/// longitude delta in whole 256-unit cells when that is at least the
/// latitude delta's low byte, else the latitude delta (both deltas 16-bit
/// wrapped, then taken as magnitudes).
pub open spec fn loc_travel_dist(loc: Location, x: u16, lat: i16) -> int {
    let dlng = abs_int(signed16(((unsigned16(loc.map_x) - x + 0x10000) % 0x10000) as u16) as int);
    let dlat = abs_int(
        signed16(((unsigned16(loc.map_y) - unsigned16(lat) + 0x10000) % 0x10000) as u16) as int,
    );
    if dlng / 256 >= dlat % 256 {
        dlng / 256
    } else {
        dlat
    }
}

/// The nearest non-hidden (status bit 7 clear) location among the first
/// `n`, and its distance; `(0, 0xffff)` with none; the first one wins ties.
pub open spec fn nearest_location_spec(locations: Seq<Location>, x: u16, lat: i16, n: int) -> (
    int,
    int,
)
    decreases n,
{
    if n <= 0 {
        (0, 0xffff)
    } else {
        let prev = nearest_location_spec(locations, x, lat, n - 1);
        let loc = locations[n - 1];
        if loc.status & 0x80 != 0 {
            prev
        } else if loc_travel_dist(loc, x, lat) < prev.1 {
            (n - 1, loc_travel_dist(loc, x, lat))
        } else {
            prev
        }
    }
}

/// The nearest location of the first `n` is one of them (0 when none is).
proof fn lemma_nearest_location_in_range(locations: Seq<Location>, x: u16, lat: i16, n: int)
    requires
        0 <= n,
    ensures
        0 <= nearest_location_spec(locations, x, lat, n).0,
        n == 0 || nearest_location_spec(locations, x, lat, n).0 < n,
    decreases n,
{
    if n > 0 {
        lemma_nearest_location_in_range(locations, x, lat, n - 1);
    }
}

/// The narration clip of a map hover state: a location pointer gives
/// 0x2bc + ((first_name - 1) * 16 | last_name); the desert states
/// (0xffXX) add 0x2bc with 16-bit wrap.
pub open spec fn hover_clip_spec(hover: u16, locations: Seq<Location>) -> u16 {
    if hover & 0xff00 == 0xff00 {
        ((hover + 0x2bc) % 0x10000) as u16
    } else {
        let loc = locations[location_index_spec(hover)];
        (((((loc.first_name - 1) * 16) as u16 | loc.last_name as u16) + 0x2bc) % 0x10000) as u16
    }
}

/// The magnitude of the difference of two signed 16-bit values.
pub fn abs_diff_i16(a: i16, b: i16) -> (r: u16)
    ensures
        r == abs_int(a - b),
{
    let d = a as i32 - b as i32;
    if d < 0 {
        (-d) as u16
    } else {
        d as u16
    }
}

impl TravelMap {
    /// The marker nearest to screen point `(x, y)` by Manhattan distance,
    /// among those whose location's appearance is below `max_appearance`
    /// and that were built under the current view mode: its location
    /// pointer and distance, `(0, 0xffff)` with none.
    pub fn find_nearest_location_marker(
        &self,
        max_appearance: u8,
        x: i16,
        y: i16,
        locations: &Vec<Location>,
    ) -> (r: (u16, u16))
        requires
            forall|k: int|
                0 <= k < self.markers@.len() ==> (#[trigger] self.markers@[k]).location_index
                    < locations@.len(),
        ensures
            r == nearest_marker_spec(
                self.markers@,
                locations@,
                max_appearance,
                self.mode,
                x,
                y,
                self.markers@.len() as int,
            ),
    {
        self.find_nearest_marker_in_mode(max_appearance, self.mode, x, y, locations)
    }

    /// The same search among the markers built under view mode `mode`.
    pub fn find_nearest_marker_in_mode(
        &self,
        max_appearance: u8,
        mode: u8,
        x: i16,
        y: i16,
        locations: &Vec<Location>,
    ) -> (r: (u16, u16))
        requires
            forall|k: int|
                0 <= k < self.markers@.len() ==> (#[trigger] self.markers@[k]).location_index
                    < locations@.len(),
        ensures
            r == nearest_marker_spec(
                self.markers@,
                locations@,
                max_appearance,
                mode,
                x,
                y,
                self.markers@.len() as int,
            ),
    {
        let mut best: u16 = 0;
        let mut best_dist: u16 = 0xffff;
        let mut k: usize = 0;
        while k < self.markers.len()
            invariant
                k <= self.markers@.len(),
                (best, best_dist) == nearest_marker_spec(
                    self.markers@,
                    locations@,
                    max_appearance,
                    mode,
                    x,
                    y,
                    k as int,
                ),
                forall|j: int|
                    0 <= j < self.markers@.len() ==> (#[trigger] self.markers@[j]).location_index
                        < locations@.len(),
            decreases self.markers@.len() - k,
        {
            let m = self.markers[k];
            if locations[m.location_index as usize].appearance < max_appearance && m.mode == mode {
                let dist = abs_diff_i16(m.x, x).wrapping_add(abs_diff_i16(m.y, y));
                if dist < best_dist {
                    best_dist = dist;
                    best = location_ptr(m.location_index);
                }
            }
            k = k + 1;
        }
        (best, best_dist)
    }
}

/// The narration clip index of a map hover state.
pub fn map_hover_narration_clip(hover: u16, locations: &Vec<Location>) -> (c: u16)
    requires
        hover & 0xff00 != 0xff00 ==> location_index_spec(hover) < locations@.len()
            && locations@[location_index_spec(hover)].first_name >= 1,
    ensures
        c == hover_clip_spec(hover, locations@),
{
    let ax = if hover & 0xff00 == 0xff00 {
        hover
    } else {
        let loc = locations[location_index_from_ptr(hover)];
        ((loc.first_name as u16 - 1) * 16) | loc.last_name as u16
    };
    ax.wrapping_add(0x2bc)
}

/// The travel distance of `loc` from map position `(x, lat)`.
pub fn location_travel_distance(loc: &Location, x: u16, lat: i16) -> (d: u16)
    ensures
        d == loc_travel_dist(*loc, x, lat),
{
    let u = as_unsigned16(loc.map_x).wrapping_sub(x);
    assert(u == ((unsigned16(loc.map_x) - x + 0x10000) % 0x10000) as u16);
    let dlng = abs_i16(as_signed16(u));
    let v = as_unsigned16(loc.map_y).wrapping_sub(as_unsigned16(lat));
    assert(v == ((unsigned16(loc.map_y) - unsigned16(lat) + 0x10000) % 0x10000) as u16);
    let dlat = abs_i16(as_signed16(v));
    let cells = dlng / 256;
    if cells >= dlat % 256 {
        cells
    } else {
        dlat
    }
}

/// The nearest non-hidden location to map position `(x, lat)` (its table
/// index; 0 when every location is hidden).
pub fn iterate_over_locations_and_coordinates(x: u16, lat: i16, locations: &Vec<Location>) -> (r:
    usize)
    ensures
        r == nearest_location_spec(locations@, x, lat, locations@.len() as int).0,
{
    let mut best_dist: u16 = 0xffff;
    let mut best: usize = 0;
    let mut i: usize = 0;
    while i < locations.len()
        invariant
            i <= locations@.len(),
            (best as int, best_dist as int) == nearest_location_spec(locations@, x, lat, i as int),
        decreases locations@.len() - i,
    {
        let loc = locations[i];
        if loc.status & 0x80 == 0 {
            let dist = location_travel_distance(&loc, x, lat);
            if dist < best_dist {
                best_dist = dist;
                best = i;
            }
        }
        i = i + 1;
    }
    best
}

/// The heading the flight steers before a step from `(x, lat)`. With a
/// fixed heading only the polar guard applies: beyond latitude 0x4d a
/// heading pointing toward the near pole is bent to due east or west (on
/// its side). Homing re-aims at the destination location, unless standing
/// on it.
pub open spec fn updated_heading_spec(
    heading: u8,
    fixed: bool,
    dest: Location,
    x: u16,
    lat: i16,
) -> u8 {
    if fixed {
        if -0x4d <= lat <= 0x4d {
            heading
        } else if ((heading - 0x40 + 256) % 256 >= 128) != (lat < 0) {
            heading
        } else if heading >= 128 {
            0xc0
        } else {
            0x40
        }
    } else if unsigned16(dest.map_x) == x && dest.map_y == lat {
        heading
    } else {
        compass_to_position_spec(unsigned16(dest.map_x), dest.map_y, x, lat)
    }
}

/// One flight step from `(x, lat)` with heading `h`, `per` longitude units
/// per cell and step fraction `accum`: the heading's deltas scaled by
/// `per / 32` (truncated); the latitude part accumulates in 1/256 rows, a
/// step stopping at one row with the longitude shrunk in proportion once
/// the sum reaches 0x200. Past latitude -0x60..0x60 the pole flips the
/// heading and the longitude half a circle. Gives the new position, heading
/// and step fraction.
pub open spec fn step_position_spec(x: u16, lat: i16, h: u8, per: int, accum: int) -> (
    u16,
    i16,
    u8,
    u16,
) {
    let d = heading_deltas_spec(h);
    step_from_deltas_spec(x, lat, h, tdiv(per * d.0, 32), tdiv(d.1 * per, 32), accum)
}

/// The step once the heading's deltas are scaled: `lng_delta` longitude
/// units and `lat_scaled` 1/256 rows.
pub open spec fn step_from_deltas_spec(
    x: u16,
    lat: i16,
    h: u8,
    lng_delta: int,
    lat_scaled: int,
    accum: int,
) -> (u16, i16, u8, u16) {
    let acc = abs_int(lat_scaled) + accum;
    let rows: int = if acc < 0x200 { acc / 256 } else { 1 };
    let frac: int = if acc < 0x200 { acc % 256 } else { 0 };
    let lng: int = if acc < 0x200 { lng_delta } else { tdiv(lng_delta * 256, acc) };
    let new_lat = lat + if lat_scaled < 0 { -rows } else { rows };
    let new_x = (x + lng + 0x10000) % 0x10000;
    if 0 <= new_lat + 0x60 < 0xc0 {
        (new_x as u16, new_lat as i16, h, frac as u16)
    } else {
        (((new_x + 0x8000) % 0x10000) as u16, new_lat as i16, ((h + 0x80) % 256) as u8, frac as u16)
    }
}

/// One flight step of `tm` from `(x, lat)`: the heading re-aims (see
/// `updated_heading_spec`), then the position steps along it (see
/// `step_position_spec`) with the latitude row's longitude scale; the map
/// keeps the new heading and step fraction.
pub open spec fn flight_step_spec(tm: TravelMap, x: u16, lat: i16, locations: Seq<Location>) -> (
    TravelMap,
    u16,
    i16,
) {
    let fixed = tm.travel_no_location_dest != 0 || tm.travel_heading_mode != 0;
    let dest = locations[location_index_spec(tm.travel_destination_ptr)];
    let h = updated_heading_spec(tm.travel_heading, fixed, dest, x, lat);
    let s = step_position_spec(
        x,
        lat,
        h,
        tm.lng_units_per_cell@[lat + 98] as int,
        tm.travel_step_accum as int,
    );
    (TravelMap { travel_heading: s.2, travel_step_accum: s.3, ..tm }, s.0, s.1)
}

/// `n` flight steps from `(x, lat)`; `None` when a step would start off
/// the latitude table (-98..98).
pub open spec fn flight_walk(tm: TravelMap, x: u16, lat: i16, locations: Seq<Location>, n: nat) -> Option<
    (TravelMap, u16, i16),
>
    decreases n,
{
    if n == 0 {
        Some((tm, x, lat))
    } else if !(-98 <= lat <= 98) {
        None
    } else {
        let s = flight_step_spec(tm, x, lat, locations);
        flight_walk(s.0, s.1, s.2, locations, (n - 1) as nat)
    }
}

/// A walk of `n + 1` steps is a walk of `n` steps and one more.
pub proof fn lemma_flight_walk_snoc(tm: TravelMap, x: u16, lat: i16, locations: Seq<Location>, n: nat)
    ensures
        flight_walk(tm, x, lat, locations, n + 1) == match flight_walk(tm, x, lat, locations, n) {
            Some(p) => flight_walk(p.0, p.1, p.2, locations, 1),
            None => None,
        },
    decreases n,
{
    if n > 0 && -98 <= lat <= 98 {
        let s = flight_step_spec(tm, x, lat, locations);
        lemma_flight_walk_snoc(s.0, s.1, s.2, locations, (n - 1) as nat);
    }
}

/// A one-step walk from a row of the table is the flight step.
pub proof fn lemma_flight_walk_one(tm: TravelMap, x: u16, lat: i16, locations: Seq<Location>)
    requires
        -98 <= lat <= 98,
    ensures
        flight_walk(tm, x, lat, locations, 1) == Some(flight_step_spec(tm, x, lat, locations)),
{
    let s = flight_step_spec(tm, x, lat, locations);
    assert(flight_walk(s.0, s.1, s.2, locations, 0) == Some(s));
}

/// A walk that fails after `n` steps fails for every longer walk.
pub proof fn lemma_flight_walk_none_after(
    tm: TravelMap,
    x: u16,
    lat: i16,
    locations: Seq<Location>,
    n: nat,
    m: nat,
)
    requires
        n <= m,
        flight_walk(tm, x, lat, locations, n) is None,
    ensures
        flight_walk(tm, x, lat, locations, m) is None,
    decreases n,
{
    if n > 0 && -98 <= lat <= 98 {
        let s = flight_step_spec(tm, x, lat, locations);
        lemma_flight_walk_none_after(s.0, s.1, s.2, locations, (n - 1) as nat, (m - 1) as nat);
    }
}

/// The clip the flight plays next: a vehicle below the sand loop plays its
/// own clip; over rock (terrain low nibble 8 and up) the sand-to-rock
/// transition (3) from the sand loop or the rock-to-sand transition, else
/// the rock loop (4); over sand the vehicle clip from the sand loop, the
/// rock-to-sand transition (5) from the other rock clips, else the sand
/// loop (2).
pub open spec fn flight_video_spec(vehicle: u16, current: u16, terrain: u8) -> u16 {
    if vehicle < 2 {
        vehicle
    } else if terrain % 16 >= 8 {
        if current <= 2 || current == 5 {
            3
        } else {
            4
        }
    } else if current <= 2 {
        vehicle
    } else if current <= 4 {
        5
    } else {
        2
    }
}

/// The outcome of a map scroll click.
#[derive(Clone, Copy, Debug, PartialEq, Eq, Structural)]
pub enum MapScroll {
    /// The click does nothing (button up, or the spice-density overlay,
    /// which scrolls the globe itself).
    Ignored,
    /// The view moved; `true` when the full map's rallied-troops popup
    /// must close first.
    Scrolled(bool),
}

/// Truncating signed division of bounded operands.
pub fn tdiv_i32(a: i32, b: i32) -> (r: i32)
    requires
        b != 0,
        -0x4000_0000 <= a <= 0x4000_0000,
        -0x4000_0000 <= b <= 0x4000_0000,
    ensures
        r == tdiv(a as int, b as int),
{
    let aa: u32 = if a < 0 {
        (-a) as u32
    } else {
        a as u32
    };
    let ab: u32 = if b < 0 {
        (-b) as u32
    } else {
        b as u32
    };
    let q = aa / ab;
    assert(q <= aa) by (nonlinear_arith)
        requires
            q == aa / ab,
            ab >= 1,
    ;
    if (a >= 0) == (b > 0) {
        q as i32
    } else {
        -(q as i32)
    }
}

/// Who of the two companion slots (-1 = empty) voices a fly-over line: the
/// sole companion, or a coin flip on bit 7 of the random byte between two;
/// `None` with nobody aboard.
pub fn travel_pick_speaking_companion(c0: i8, c1: i8, rand_bits: u8) -> (r: Option<u8>)
    ensures
        r == if c0 == -1 && c1 == -1 {
            None::<u8>
        } else {
            let pick: i8 = if c1 == -1 || rand_bits & 0x80 != 0 { c0 } else { c1 };
            Some((if pick < 0 { pick + 256 } else { pick as int }) as u8)
        },
{
    if c0 == -1 && c1 == -1 {
        return None;
    }
    let pick = if c1 == -1 || rand_bits & 0x80 != 0 {
        c0
    } else {
        c1
    };
    Some(
        if pick < 0 {
            ((pick as i16) + 256) as u8
        } else {
            pick as u8
        },
    )
}

/// A heading's travel deltas scaled by `per / 32` (truncated):
/// `(longitude units, latitude in 1/256 rows)`.
pub fn scaled_heading_step(h: u8, per: u16) -> (r: (i32, i32))
    requires
        0 < per <= 0x4000,
    ensures
        r.0 == tdiv(per * heading_deltas_spec(h).0, 32),
        r.1 == tdiv(heading_deltas_spec(h).1 * per, 32),
        abs_int(r.0 as int) <= 0x4000,
        abs_int(r.1 as int) <= 0x4000,
{
    let (ddx, dlat) = travel_heading_deltas(h);
    proof {
        crate::compass::lemma_heading_deltas_bounded(h);
    }
    let p = per as i32;
    assert(-0x80000 <= p * (ddx as i32) <= 0x80000) by (nonlinear_arith)
        requires
            0 < p <= 0x4000,
            -32 <= ddx <= 32,
    ;
    assert(-0x80000 <= (dlat as i32) * p <= 0x80000) by (nonlinear_arith)
        requires
            0 < p <= 0x4000,
            -32 <= dlat <= 32,
    ;
    let a = tdiv_i32(p * (ddx as i32), 0x20);
    let b = tdiv_i32((dlat as i32) * p, 0x20);
    assert(abs_int(a as int) <= 0x4000) by (nonlinear_arith)
        requires
            abs_int(p * ddx) <= 0x80000,
            abs_int(a as int) == abs_int(p * ddx) / 32,
    ;
    assert(abs_int(b as int) <= 0x4000) by (nonlinear_arith)
        requires
            abs_int(dlat * p) <= 0x80000,
            abs_int(b as int) == abs_int(dlat * p) / 32,
    ;
    (a, b)
}

/// One flight step (see `step_position_spec`).
pub fn step_position(x: u16, lat: i16, h: u8, per: u16, accum: u16) -> (r: (u16, i16, u8, u16))
    requires
        -98 <= lat <= 98,
        0 < per <= 0x4000,
        accum <= 0xff,
    ensures
        r == step_position_spec(x, lat, h, per as int, accum as int),
        r.3 <= 0xff,
{
    let (lng_delta, lat_scaled) = scaled_heading_step(h, per);
    let r = step_from_deltas(x, lat, h, lng_delta, lat_scaled, accum);
    r
}

/// One flight step from already scaled deltas (see
/// `step_from_deltas_spec`).
pub fn step_from_deltas(x: u16, lat: i16, h: u8, lng_delta: i32, lat_scaled: i32, accum: u16) -> (r:
    (u16, i16, u8, u16))
    requires
        -98 <= lat <= 98,
        abs_int(lng_delta as int) <= 0x4000,
        abs_int(lat_scaled as int) <= 0x4000,
        accum <= 0xff,
    ensures
        r == step_from_deltas_spec(x, lat, h, lng_delta as int, lat_scaled as int, accum as int),
        r.3 <= 0xff,
{
    let mag: u16 = if lat_scaled < 0 {
        (-lat_scaled) as u16
    } else {
        lat_scaled as u16
    };
    let acc = mag + accum;
    let mut rows: i16;
    let frac: u16;
    let lng: i32;
    if acc < 0x200 {
        rows = (acc / 256) as i16;
        frac = acc % 256;
        lng = lng_delta;
    } else {
        rows = 1;
        frac = 0;
        lng = tdiv_i32(lng_delta * 0x100, acc as i32);
        assert(abs_int(lng as int) <= 0x4000) by (nonlinear_arith)
            requires
                abs_int(lng as int) == abs_int(lng_delta * 256) / abs_int(acc as int),
                abs_int(lng_delta as int) <= 0x4000,
                acc >= 0x200,
        ;
    }
    if lat_scaled < 0 {
        rows = -rows;
    }
    let new_lat = lat + rows;
    let mut new_x = x.wrapping_add(as_unsigned16(lng as i16));
    assert(new_x == (x + lng + 0x10000) % 0x10000);
    let mut heading = h;
    if !(0 <= new_lat + 0x60 && new_lat + 0x60 < 0xc0) {
        heading = h.wrapping_add(0x80);
        new_x = new_x.wrapping_add(0x8000);
    }
    (new_x, new_lat, heading, frac)
}

/// A map arrow click is ignored without the left button down, and on the
/// spice-density overlay over the full map.
pub open spec fn scroll_ignored(tm: TravelMap, lmb_down: bool) -> bool {
    !lmb_down || (tm.mode & 0x80 != 0 && tm.mode & 0x40 != 0)
}

/// What a map arrow click answers (see `ui_click_map_buttons`).
pub open spec fn scroll_result_spec(tm: TravelMap, lmb_down: bool) -> MapScroll {
    if scroll_ignored(tm, lmb_down) {
        MapScroll::Ignored
    } else {
        MapScroll::Scrolled(tm.mode & 0x80 != 0)
    }
}

/// How far from the equator the map view's centre may sit: +-0x4b rows on
/// the full globe, else so that every window row has a map row
/// (`0x56 - (height - 1) / 2`).
pub open spec fn view_lat_bound(tm: TravelMap) -> int {
    if tm.mode & 0x80 != 0 {
        0x4b
    } else {
        0x56 - (tm.view_rect.y1 - tm.view_rect.y0 - 1) / 2
    }
}

/// The view after a map arrow click scrolling by `(dlng, dlat)`: both in
/// 16 bits, the longitude wrapping round the map; the redraw that follows
/// the click clamps the latitude to the view's bound (`view_lat_bound`).
pub open spec fn scroll_spec(tm: TravelMap, dlng: u16, dlat: i16, lmb_down: bool) -> TravelMap {
    if scroll_ignored(tm, lmb_down) {
        tm
    } else {
        let lat = signed16(((unsigned16(tm.zoomed_latitude) + unsigned16(dlat)) % 0x10000) as u16);
        TravelMap {
            zoomed_longitude: ((tm.zoomed_longitude + dlng) % 0x10000) as u16,
            zoomed_latitude: crate::map_window::clamp_lat(lat as int, view_lat_bound(tm)) as i16,
            ..tm
        }
    }
}

impl TravelMap {
    /// The Chebyshev distance in map cells between the player at `(x, lat)`
    /// and location `loc`.
    pub open spec fn player_distance_spec(&self, loc: Location, x: u16, lat: i16) -> int {
        let dx = abs_int(unsigned16(loc.map_x) - x) / (self.lng_units_per_cell@[lat + 98] as int);
        let dy = abs_int(lat - loc.map_y);
        if dx >= dy {
            dx
        } else {
            dy
        }
    }

    /// The Chebyshev distance in map cells between the player at map
    /// position `(x, lat)` and location `li`: the longitude gap over the
    /// player row's units per cell (truncated) against the latitude gap.
    pub fn location_distance_from_player(
        &self,
        li: usize,
        x: u16,
        lat: i16,
        locations: &Vec<Location>,
    ) -> (d: u16)
        requires
            self.wf(),
            li < locations@.len(),
            -98 <= lat <= 98,
        ensures
            d == self.player_distance_spec(locations@[li as int], x, lat),
    {
        let per_cell = self.lng_units_per_cell[(lat + 98) as usize];
        let loc = locations[li];
        let mx = as_unsigned16(loc.map_x);
        let gap: u16 = if mx >= x {
            mx - x
        } else {
            x - mx
        };
        let dx = gap / per_cell;
        let dy = abs_diff_i16(lat, loc.map_y);
        if dx >= dy {
            dx
        } else {
            dy
        }
    }

    /// Turn the flight heading by `delta` and restart the step fraction at
    /// half a row.
    pub fn adjust_travel_heading(&mut self, delta: u8)
        ensures
            *final(self) == (TravelMap {
                travel_heading: ((old(self).travel_heading + delta) % 256) as u8,
                travel_step_accum: 0x80,
                ..*old(self)
            }),
    {
        self.travel_heading = self.travel_heading.wrapping_add(delta);
        self.travel_step_accum = 0x80;
    }

    /// Commit a flight: the destination pointer, the heading mode (0 =
    /// homing) and the heading `angle`, with the step fraction at half a
    /// row.
    pub fn travel_commit_destination(&mut self, dest: u16, mode: u8, angle: u8)
        ensures
            *final(self) == (TravelMap {
                travel_destination_ptr: dest,
                travel_heading_mode: mode,
                travel_heading: angle,
                travel_step_accum: 0x80,
                ..*old(self)
            }),
    {
        self.travel_destination_ptr = dest;
        self.travel_heading_mode = mode;
        self.travel_heading = 0;
        self.adjust_travel_heading(angle);
    }

    /// Re-aim the flight heading before a step from `(x, lat)` (see
    /// `updated_heading_spec`).
    pub fn travel_update_heading(&mut self, x: u16, lat: i16, locations: &Vec<Location>)
        requires
            old(self).travel_no_location_dest == 0 && old(self).travel_heading_mode == 0
                ==> location_index_spec(old(self).travel_destination_ptr) < locations@.len(),
        ensures
            ({
                let fixed = old(self).travel_no_location_dest != 0
                    || old(self).travel_heading_mode != 0;
                let dest = locations@[location_index_spec(old(self).travel_destination_ptr)];
                *final(self) == (TravelMap {
                    travel_heading: updated_heading_spec(
                        old(self).travel_heading,
                        fixed,
                        dest,
                        x,
                        lat,
                    ),
                    ..*old(self)
                })
            }),
    {
        if self.travel_no_location_dest != 0 || self.travel_heading_mode != 0 {
            if -0x4d <= lat && lat <= 0x4d {
                return;
            }
            let al = self.travel_heading;
            let ah = al.wrapping_sub(0x40);
            if (ah >= 128) != (lat < 0) {
                return;
            }
            self.travel_heading = if al >= 128 {
                0xc0
            } else {
                0x40
            };
        } else {
            let loc = locations[location_index_from_ptr(self.travel_destination_ptr)];
            let tx = as_unsigned16(loc.map_x);
            let tlat = loc.map_y;
            if tx == x && tlat == lat {
                return;
            }
            self.travel_heading = compass_angle_to_map_position(tx, tlat, x, lat);
        }
    }

    /// Advance the flight one step from `(x, lat)`: re-aim the heading,
    /// then step along it (see `step_position_spec`).
    pub fn travel_step_position(&mut self, x: u16, lat: i16, locations: &Vec<Location>) -> (r: (
        u16,
        i16,
    ))
        requires
            old(self).wf(),
            -98 <= lat <= 98,
            old(self).travel_no_location_dest == 0 && old(self).travel_heading_mode == 0
                ==> location_index_spec(old(self).travel_destination_ptr) < locations@.len(),
        ensures
            ({
                let s = flight_step_spec(*old(self), x, lat, locations@);
                &&& r == (s.1, s.2)
                &&& *final(self) == s.0
            }),
            final(self).wf(),
    {
        self.travel_update_heading(x, lat, locations);
        let per_cell = self.lng_units_per_cell[(lat + 98) as usize];
        let r = step_position(x, lat, self.travel_heading, per_cell, self.travel_step_accum);
        self.travel_heading = r.2;
        self.travel_step_accum = r.3;
        (r.0, r.1)
    }

    /// One movement step of the flight from `(x, lat)`: the step clock
    /// ticks (see `travel_step_counter_tick`), then the flight steps (see
    /// `flight_step_spec`). Returns the new position and whether this step
    /// runs one time period of events.
    pub fn travel_advance_step(&mut self, x: u16, lat: i16, locations: &Vec<Location>) -> (r: (
        u16,
        i16,
        bool,
    ))
        requires
            old(self).wf(),
            -98 <= lat <= 98,
            old(self).travel_no_location_dest == 0 && old(self).travel_heading_mode == 0
                ==> location_index_spec(old(self).travel_destination_ptr) < locations@.len(),
        ensures
            ({
                let s = flight_step_spec(*old(self), x, lat, locations@);
                let c = (old(self).travel_step_counter + 1) % 0x10000;
                &&& r == (s.1, s.2, c % 16 == 0)
                &&& *final(self) == (TravelMap { travel_step_counter: c as u16, ..s.0 })
            }),
            final(self).wf(),
    {
        let (c, run_events) = travel_step_counter_tick(self.travel_step_counter);
        self.travel_step_counter = c;
        let (nx, nlat) = self.travel_step_position(x, lat, locations);
        (nx, nlat, run_events)
    }

    /// The two points the terrain probe ahead of the flight reads: six
    /// flight steps from `(x, lat)`, and one more. The heading re-aims
    /// along the way and keeps its last value; the step fraction is put
    /// back. `None`, with nothing changed, where a step would start off the
    /// latitude table.
    pub fn travel_probe_points(&mut self, x: u16, lat: i16, locations: &Vec<Location>) -> (r: Option<
        ((u16, i16), (u16, i16)),
    >)
        requires
            old(self).wf(),
            old(self).travel_no_location_dest == 0 && old(self).travel_heading_mode == 0
                ==> location_index_spec(old(self).travel_destination_ptr) < locations@.len(),
        ensures
            final(self).wf(),
            ({
                let w6 = flight_walk(*old(self), x, lat, locations@, 6);
                let w7 = flight_walk(*old(self), x, lat, locations@, 7);
                if w6 is Some && w7 is Some {
                    let a = w6.unwrap();
                    let b = w7.unwrap();
                    &&& r == Some(((a.1, a.2), (b.1, b.2)))
                    &&& *final(self) == (TravelMap {
                        travel_step_accum: old(self).travel_step_accum,
                        ..b.0
                    })
                } else {
                    &&& r is None
                    &&& *final(self) == *old(self)
                }
            }),
    {
        let saved_heading = self.travel_heading;
        let saved_accum = self.travel_step_accum;
        let ghost start = *self;
        let mut cx = x;
        let mut clat = lat;
        let mut first: (u16, i16) = (x, lat);
        let ghost mut at6 = *self;
        let mut k: usize = 0;
        while k < 7
            invariant
                k <= 7,
                self.wf(),
                start == *old(self),
                start.wf(),
                flight_walk(start, x, lat, locations@, k as nat) == Some((*self, cx, clat)),
                k == 7 ==> flight_walk(start, x, lat, locations@, 6) == Some((at6, first.0, first.1)),
                self.travel_no_location_dest == start.travel_no_location_dest,
                self.travel_heading_mode == start.travel_heading_mode,
                self.travel_destination_ptr == start.travel_destination_ptr,
                *self == (TravelMap {
                    travel_heading: self.travel_heading,
                    travel_step_accum: self.travel_step_accum,
                    ..start
                }),
                saved_heading == start.travel_heading,
                saved_accum == start.travel_step_accum,
                start.travel_no_location_dest == 0 && start.travel_heading_mode == 0
                    ==> location_index_spec(start.travel_destination_ptr) < locations@.len(),
            decreases 7 - k,
        {
            proof {
                lemma_flight_walk_snoc(start, x, lat, locations@, k as nat);
            }
            if k == 6 {
                first = (cx, clat);
                proof {
                    at6 = *self;
                }
            }
            if !(-98 <= clat && clat <= 98) {
                proof {
                    lemma_flight_walk_none_after(start, x, lat, locations@, (k + 1) as nat, 7);
                    if k < 6 {
                        lemma_flight_walk_none_after(start, x, lat, locations@, (k + 1) as nat, 6);
                    }
                }
                self.travel_heading = saved_heading;
                self.travel_step_accum = saved_accum;
                assert(*self == start);
                return None;
            }
            proof {
                lemma_flight_walk_one(*self, cx, clat, locations@);
            }
            let (nx, nlat) = self.travel_step_position(cx, clat, locations);
            cx = nx;
            clat = nlat;
            k = k + 1;
        }
        self.travel_step_accum = saved_accum;
        Some((first, (cx, clat)))
    }

    /// One pass of the in-game travel pump's step logic: with a travel
    /// `active`, no room swap pending and a step due (0x300 ticks since
    /// `stamp`), the stamp becomes `now`, the flight advances one step from
    /// `(x, lat)` (see `travel_advance_step`: the step clock ticks and every
    /// 16th step runs one time period of events), the previous position's minimap dot is
    /// placed (see `travel_trail_stamp_last`) and the new position appended
    /// to the trail. A flight never reaches latitude +-98 (the pole flip
    /// turns it back before), which the step from `lat` relies on.
    pub fn travel_pump_step(
        &mut self,
        active: u8,
        room_swap_pending: bool,
        now: u16,
        stamp: &mut u16,
        x: u16,
        lat: i16,
        minimap_state: i8,
        locations: &Vec<Location>,
    ) -> (a: PumpAction)
        requires
            old(self).wf(),
            -97 <= lat <= 97,
            old(self).travel_no_location_dest == 0 && old(self).travel_heading_mode == 0
                ==> location_index_spec(old(self).travel_destination_ptr) < locations@.len(),
        ensures
            final(self).wf(),
            ({
                let due = (now - *old(stamp) + 0x10000) % 0x10000 >= 0x300;
                if active == 0 || room_swap_pending || !due {
                    &&& a == PumpAction::Idle
                    &&& *final(self) == *old(self)
                    &&& *final(stamp) == *old(stamp)
                } else {
                    let s = flight_step_spec(*old(self), x, lat, locations@);
                    let c = (old(self).travel_step_counter + 1) % 0x10000;
                    let n = old(self).trail@.len() as int;
                    &&& *final(stamp) == now
                    &&& a == PumpAction::Stepped {
                        x: s.1,
                        lat: s.2,
                        run_events: c % 16 == 0,
                        dot: old(self).stamp_last_spec(minimap_state),
                    }
                    &&& final(self).trail@ == old(self).trail@.update(
                        old(self).trail_cursor as int,
                        (s.1, unsigned16(s.2)),
                    )
                    &&& final(self).trail_cursor == (old(self).trail_cursor + 1) % n
                    &&& *final(self) == (TravelMap {
                        trail: final(self).trail,
                        trail_cursor: final(self).trail_cursor,
                        travel_step_counter: c as u16,
                        ..s.0
                    })
                }
            }),
    {
        if active == 0 || room_swap_pending {
            return PumpAction::Idle;
        }
        if !travel_step_due(now, *stamp) {
            return PumpAction::Idle;
        }
        *stamp = now;
        let ghost before = *self;
        let (nx, nlat, run_events) = self.travel_advance_step(x, lat, locations);
        proof {
            let fixed = before.travel_no_location_dest != 0 || before.travel_heading_mode != 0;
            let dest = locations@[location_index_spec(before.travel_destination_ptr)];
            let h = updated_heading_spec(before.travel_heading, fixed, dest, x, lat);
            crate::laws::law_flight_step_moves_at_most_one_row(
                x,
                lat,
                h,
                before.lng_units_per_cell@[lat + 98] as int,
                before.travel_step_accum as int,
            );
        }
        let dot = self.travel_trail_stamp_last(minimap_state);
        let ghost stepped = *self;
        self.travel_trail_append(nx, nlat);
        proof {
            assert(*self == (TravelMap { trail: self.trail, trail_cursor: self.trail_cursor, ..stepped }));
        }
        PumpAction::Stepped { x: nx, lat: nlat, run_events, dot }
    }

    /// The travel pump after a step to a position whose map offset is
    /// `offset`: it arrives when that is the destination's map offset;
    /// otherwise a staged night attack pauses it, and else the minimap
    /// (state `minimap_state`: negative hidden, non-zero a pending
    /// recentre, consumed to 0) is kept up.
    pub fn travel_pump_after_step(
        &self,
        offset: u16,
        locations: &Vec<Location>,
        night_attack_staged: bool,
        minimap_state: i8,
    ) -> (n: PumpNext)
        requires
            location_index_spec(self.travel_destination_ptr) < locations@.len(),
        ensures
            n == if offset == locations@[location_index_spec(self.travel_destination_ptr)].map_offset {
                PumpNext::Arrive
            } else if night_attack_staged {
                PumpNext::Paused
            } else if minimap_state >= 0 && minimap_state != 0 {
                PumpNext::Continue { recenter: true, minimap_state: 0 }
            } else {
                PumpNext::Continue { recenter: false, minimap_state }
            },
    {
        let dest = location_index_from_ptr(self.travel_destination_ptr);
        if offset == locations[dest].map_offset {
            return PumpNext::Arrive;
        }
        if night_attack_staged {
            return PumpNext::Paused;
        }
        if minimap_state >= 0 && minimap_state != 0 {
            PumpNext::Continue { recenter: true, minimap_state: 0 }
        } else {
            PumpNext::Continue { recenter: false, minimap_state }
        }
    }

    /// Append `(x, lat)` to the minimap trail at the write cursor, which
    /// moves on round the ring.
    pub fn travel_trail_append(&mut self, x: u16, lat: i16)
        requires
            old(self).wf(),
            -98 <= lat <= 98,
        ensures
            final(self).trail@ == old(self).trail@.update(
                old(self).trail_cursor as int,
                (x, unsigned16(lat)),
            ),
            final(self).trail_cursor == (old(self).trail_cursor + 1) % (old(
                self,
            ).trail@.len() as int),
            final(self).wf(),
            final(self).travel_heading == old(self).travel_heading,
            final(self).mode == old(self).mode,
            *final(self) == (TravelMap {
                trail: final(self).trail,
                trail_cursor: final(self).trail_cursor,
                ..*old(self)
            }),
    {
        let c = self.trail_cursor;
        self.trail.set(c, (x, as_unsigned16(lat)));
        let n = self.trail.len();
        self.trail_cursor = (c + 1) % n;
        proof {
            assert forall|i: int| 0 <= i < self.trail@.len() implies trail_entry_ok(
                #[trigger] self.trail@[i],
            ) by {
                if i != c {
                    assert(self.trail@[i] == old(self).trail@[i]);
                }
            }
        }
    }

    /// Where the newest trail entry's minimap dot goes (see
    /// `travel_trail_stamp_last`).
    pub open spec fn stamp_last_spec(&self, minimap_state: i8) -> Option<(i16, i16)> {
        let n = self.trail@.len() as int;
        let e = self.trail@[(self.trail_cursor + n - 1) % n];
        let p = self.position_to_screen_spec(e.0, signed16(e.1));
        if minimap_state < 0 || ((e.1 / 256) + 255) % 256 < 128 || !inside_spec(
            self.view_rect,
            p.0 as int,
            p.1 as int,
        ) {
            None::<(i16, i16)>
        } else {
            Some(((p.0 - 1) as i16, (p.1 - 1) as i16))
        }
    }

    /// Where the newest trail entry's minimap dot goes (one pixel up and
    /// left of its projection): nothing while the minimap is hidden
    /// (`minimap_state` negative), for an empty entry, or off the window.
    pub fn travel_trail_stamp_last(&self, minimap_state: i8) -> (r: Option<(i16, i16)>)
        requires
            self.wf(),
        ensures
            r == self.stamp_last_spec(minimap_state),
    {
        if minimap_state < 0 {
            return None;
        }
        let n = self.trail.len();
        let c = self.trail_cursor;
        let idx = if c == 0 {
            n - 1
        } else {
            c - 1
        };
        assert(idx as int == (c + n - 1) % (n as int)) by (nonlinear_arith)
            requires
                c < n,
                idx == if c == 0 { n - 1 } else { c - 1 },
        ;
        let (x, lat) = self.trail[idx];
        let h = lat / 256;
        if (h + 255) % 256 < 128 {
            return None;
        }
        proof {
            assert(trail_entry_ok(self.trail@[idx as int]));
        }
        match self.map_position_to_screen_if_visible(x, as_signed16(lat)) {
            None => None,
            Some((sx, sy)) => {
                proof {
                    assert(inside_spec(self.view_rect, sx as int, sy as int));
                }
                Some((sx - 1, sy - 1))
            },
        }
    }

    /// Pick the flight clip from the vehicle and the terrain byte (see
    /// `flight_video_spec`); falling back to the sand loop also resets the
    /// vehicle to the ornithopter.
    pub fn travel_select_flight_video(&mut self, terrain: u8)
        ensures
            final(self).active_video_id == flight_video_spec(
                old(self).vehicle_mode,
                old(self).video_id,
                terrain,
            ),
            final(self).vehicle_mode == if old(self).vehicle_mode >= 2 && terrain % 16 < 8 && old(
                self,
            ).video_id > 4 {
                2
            } else {
                old(self).vehicle_mode
            },
            *final(self) == (TravelMap {
                active_video_id: final(self).active_video_id,
                vehicle_mode: final(self).vehicle_mode,
                ..*old(self)
            }),
    {
        let vehicle = self.vehicle_mode;
        if vehicle < 2 {
            self.active_video_id = vehicle;
            return;
        }
        let current = self.video_id;
        assert(terrain & 0x0f == terrain % 16) by (bit_vector);
        if terrain & 0x0f >= 8 {
            self.active_video_id = if current <= 2 || current == 5 {
                3
            } else {
                4
            };
            return;
        }
        if current <= 2 {
            self.active_video_id = vehicle;
        } else if current <= 4 {
            self.active_video_id = 5;
        } else {
            self.vehicle_mode = 2;
            self.active_video_id = 2;
        }
    }

    /// Scroll the map view by `(dlng, dlat)` while the left button is down:
    /// the longitude wraps round the map, and the main-view redraw the
    /// click runs clamps the latitude to the view (see `scroll_spec`). The
    /// full map closes its rallied-troops popup first; the spice-density
    /// overlay scrolls the globe itself, so the click does nothing here.
    pub fn ui_click_map_buttons(&mut self, dlng: u16, dlat: i16, lmb_down: bool) -> (r: MapScroll)
        requires
            old(self).wf(),
        ensures
            r == scroll_result_spec(*old(self), lmb_down),
            *final(self) == scroll_spec(*old(self), dlng, dlat, lmb_down),
            final(self).wf(),
    {
        if !lmb_down {
            return MapScroll::Ignored;
        }
        let mut close = false;
        if self.mode & 0x80 != 0 {
            if self.mode & 0x40 != 0 {
                return MapScroll::Ignored;
            }
            close = true;
        }
        self.zoomed_longitude = self.zoomed_longitude.wrapping_add(dlng);
        let zl = self.zoomed_latitude.wrapping_add(dlat);
        proof {
            assert(zl == signed16(
                ((unsigned16(old(self).zoomed_latitude) + unsigned16(dlat)) % 0x10000) as u16,
            ));
        }
        let bound: i16 = if self.mode & 0x80 != 0 {
            0x4b
        } else {
            0x56 - (self.view_rect.y1 - self.view_rect.y0 - 1) / 2
        };
        self.zoomed_latitude = if zl < -bound {
            -bound
        } else if zl > bound {
            bound
        } else {
            zl
        };
        MapScroll::Scrolled(close)
    }

    /// The up arrow: 12 rows north.
    pub fn ui_click_map_up(&mut self, lmb_down: bool) -> (r: MapScroll)
        requires
            old(self).wf(),
        ensures
            final(self).wf(),
            r == scroll_result_spec(*old(self), lmb_down),
            *final(self) == scroll_spec(*old(self), 0, -0x0ci16, lmb_down),
    {
        self.ui_click_map_buttons(0, -0x0c, lmb_down)
    }

    /// The right arrow: 0x1002 longitude units east.
    pub fn ui_click_map_right(&mut self, lmb_down: bool) -> (r: MapScroll)
        requires
            old(self).wf(),
        ensures
            final(self).wf(),
            r == scroll_result_spec(*old(self), lmb_down),
            *final(self) == scroll_spec(*old(self), 0x1002u16, 0i16, lmb_down),
    {
        self.ui_click_map_buttons(0x1002, 0, lmb_down)
    }

    /// The down arrow: 12 rows south.
    pub fn ui_click_map_down(&mut self, lmb_down: bool) -> (r: MapScroll)
        requires
            old(self).wf(),
        ensures
            final(self).wf(),
            r == scroll_result_spec(*old(self), lmb_down),
            *final(self) == scroll_spec(*old(self), 0, 0x0ci16, lmb_down),
    {
        self.ui_click_map_buttons(0, 0x0c, lmb_down)
    }

    /// The left arrow: 0x1002 longitude units west.
    pub fn ui_click_map_left(&mut self, lmb_down: bool) -> (r: MapScroll)
        requires
            old(self).wf(),
        ensures
            final(self).wf(),
            r == scroll_result_spec(*old(self), lmb_down),
            *final(self) == scroll_spec(*old(self), 0xeffeu16, 0i16, lmb_down),
    {
        self.ui_click_map_buttons(0xeffe, 0, lmb_down)
    }

    /// Store the SKIP TO DESTINATION verb flags (0x40 = greyed).
    pub fn set_skip_to_destination_verb_flags(&mut self, flags: u8)
        ensures
            *final(self) == (TravelMap { skip_verb_flags: flags, ..*old(self) }),
    {
        self.skip_verb_flags = flags;
    }

    /// Clear the hostile-zone countdown and un-grey SKIP TO DESTINATION.
    pub fn ungrey_skip_to_destination_verb(&mut self)
        ensures
            *final(self) == (TravelMap { hostile_accum: 0, skip_verb_flags: 0, ..*old(self) }),
    {
        self.hostile_accum = 0;
        self.set_skip_to_destination_verb_flags(0);
    }

    /// The per-step hostile-zone check of an ornithopter flight (mode flags
    /// & 3 == 1): a homing flight to an Atreides location, or terrain that
    /// is not fully hostile (both 0x30 bits), un-greys SKIP TO DESTINATION;
    /// otherwise the verb greys, the warning is raised when the countdown is
    /// empty, and the countdown steps down by 0x20, asking for the room
    /// screen when it reaches 0.
    pub fn travel_route_hostile_zone_check(
        &mut self,
        mode_flags: u8,
        terrain: u8,
        locations: &Vec<Location>,
    )
        requires
            old(self).travel_no_location_dest == 0 ==> location_index_spec(
                old(self).travel_destination_ptr,
            ) < locations@.len(),
        ensures
            *final(self) == hostile_check_spec(*old(self), mode_flags, terrain, locations@),
    {
        if mode_flags & 3 != 1 {
            return;
        }
        if self.travel_no_location_dest == 0 {
            let dest = location_index_from_ptr(self.travel_destination_ptr);
            if locations[dest].status & 8 != 0 {
                self.ungrey_skip_to_destination_verb();
                return;
            }
        }
        if terrain & 0x30 != 0x30 {
            self.ungrey_skip_to_destination_verb();
            return;
        }
        if self.hostile_accum == 0 {
            self.pending_room_action = 4;
        }
        self.set_skip_to_destination_verb_flags(0x40);
        self.hostile_accum = self.hostile_accum.wrapping_sub(0x20);
        if self.hostile_accum == 0 {
            self.pending_room_screen_request = 2;
        }
    }
}

/// The hostile-zone check on flight state `o` (see
/// `travel_route_hostile_zone_check`).
pub open spec fn hostile_check_spec(o: TravelMap, mode_flags: u8, terrain: u8, locations: Seq<
    Location,
>) -> TravelMap {
    let safe_dest = o.travel_no_location_dest == 0 && location_is_atreides_spec(
        locations[location_index_spec(o.travel_destination_ptr)],
    );
    let acc = ((o.hostile_accum + 256 - 0x20) % 256) as u8;
    if mode_flags & 3 != 1 {
        o
    } else if safe_dest || terrain & 0x30 != 0x30 {
        TravelMap { hostile_accum: 0, skip_verb_flags: 0, ..o }
    } else {
        TravelMap {
            pending_room_action: if o.hostile_accum == 0 {
                4
            } else {
                o.pending_room_action
            },
            skip_verb_flags: 0x40,
            hostile_accum: acc,
            pending_room_screen_request: if acc == 0 {
                2
            } else {
                o.pending_room_screen_request
            },
            ..o
        }
    }
}

/// What SKIP TO DESTINATION does after one of its fast-forward steps.
#[derive(Clone, Copy, Debug, PartialEq, Eq, Structural)]
pub enum SkipNext {
    /// The flight lands at its destination (reached, or the 200 steps are
    /// used up).
    Finish,
    /// The hostile-zone check armed a room action: the fast-forward stops
    /// in flight and the engine settles the room screen.
    Halt,
    /// Step again.
    Continue,
}

/// The most steps SKIP TO DESTINATION fast-forwards.
pub const SKIP_MAX_STEPS: u16 = 200;

impl TravelMap {
    /// SKIP TO DESTINATION begins: the flight homes on its destination.
    pub fn travel_skip_to_destination_begin(&mut self)
        ensures
            *final(self) == (TravelMap { travel_heading_mode: 0, ..*old(self) }),
    {
        self.travel_heading_mode = 0;
    }

    /// After the `step`-th fast-forward step of SKIP TO DESTINATION (see
    /// `travel_advance_step`), at a position whose map offset is `offset`
    /// over terrain byte `terrain`: reaching the destination's map cell
    /// finishes the flight; otherwise the room action is cleared and the
    /// hostile-zone check runs (see `hostile_check_spec`): when it armed an
    /// action the fast-forward halts with the countdown step it took put
    /// back (+0x20), else the flight steps again, or finishes at the
    /// destination after the last of the 200 steps. The engine runs the
    /// steps themselves (see `travel_advance_step`): a step may run a time
    /// period of events, and the map offset and terrain come from its map.
    pub fn travel_skip_after_step(
        &mut self,
        step: u16,
        offset: u16,
        terrain: u8,
        mode_flags: u8,
        locations: &Vec<Location>,
    ) -> (n: SkipNext)
        requires
            1 <= step <= SKIP_MAX_STEPS,
            location_index_spec(old(self).travel_destination_ptr) < locations@.len(),
        ensures
            ({
                let dest = locations@[location_index_spec(old(self).travel_destination_ptr)];
                let h = hostile_check_spec(
                    TravelMap { pending_room_action: 0, ..*old(self) },
                    mode_flags,
                    terrain,
                    locations@,
                );
                if offset == dest.map_offset {
                    n == SkipNext::Finish && *final(self) == *old(self)
                } else if h.pending_room_action != 0 {
                    &&& n == SkipNext::Halt
                    &&& *final(self) == (TravelMap {
                        hostile_accum: ((h.hostile_accum + 0x20) % 256) as u8,
                        ..h
                    })
                } else {
                    &&& *final(self) == h
                    &&& n == if step == SKIP_MAX_STEPS {
                        SkipNext::Finish
                    } else {
                        SkipNext::Continue
                    }
                }
            }),
    {
        let dest = location_index_from_ptr(self.travel_destination_ptr);
        if offset == locations[dest].map_offset {
            return SkipNext::Finish;
        }
        self.pending_room_action = 0;
        self.travel_route_hostile_zone_check(mode_flags, terrain, locations);
        if self.pending_room_action != 0 {
            self.hostile_accum = self.hostile_accum.wrapping_add(0x20);
            return SkipNext::Halt;
        }
        if step == SKIP_MAX_STEPS {
            SkipNext::Finish
        } else {
            SkipNext::Continue
        }
    }
}

/// The flight armed from hover state `hover` on map `tm` (see
/// `arm_pending_travel`).
pub open spec fn armed_travel_spec(
    tm: TravelMap,
    hover: u16,
    x: i16,
    y: i16,
    px: u16,
    plat: i16,
    last_location_index: u16,
    locations: Seq<Location>,
) -> TravelMap {
    if hover < 0xfff0 {
        TravelMap {
            travel_no_location_dest: 0,
            travel_destination_ptr: location_ptr_spec(location_index_spec(hover)),
            travel_heading_mode: 0,
            travel_heading: angle_to_location_spec(locations[location_index_spec(hover)], px, plat),
            travel_step_accum: 0x80,
            ..tm
        }
    } else {
        let t = if tm.mode & 0x80 != 0 {
            (tm.zoomed_longitude, tm.zoomed_latitude)
        } else {
            tm.screen_to_position_spec(x, y)
        };
        TravelMap {
            travel_no_location_dest: 0xff,
            travel_destination_ptr: location_ptr_spec(last_location_index as int),
            travel_heading_mode: 1,
            travel_heading: compass_to_position_spec(t.0, t.1, px, plat),
            travel_step_accum: 0x80,
            ..tm
        }
    }
}

/// A location the flight passes near, spotted by the companions: the
/// location, which side of the heading it lies on (0 = ahead or left of
/// it, 1 = right) and the caption announcing it.
pub struct NearbySpot {
    pub location_index: usize,
    pub side: u8,
    pub caption: u16,
}

/// The compass angle from the player at `(px, plat)` to location `loc`.
pub open spec fn angle_to_location_spec(loc: Location, px: u16, plat: i16) -> u8 {
    compass_to_position_spec(unsigned16(loc.map_x), loc.map_y, px, plat)
}

/// A map cell of the block round the player announces its location: a
/// location cell (bit 6) of a table location that is a landmark (status
/// bit 7) the story has revealed, not under the player, and within 0x60 of
/// the heading.
pub open spec fn spot_cell_ok(
    cell: (u8, Option<usize>),
    locations: Seq<Location>,
    game_phase: u8,
    px: u16,
    plat: i16,
    heading: u8,
) -> bool {
    cell.0 & 0x40 != 0 && (cell.1 matches Some(li) && li < locations.len() && {
        let loc = locations[li as int];
        &&& loc.status & 0x80 != 0
        &&& game_phase >= loc.discoverable_at_phase
        &&& !(unsigned16(loc.map_x) == px && loc.map_y == plat)
        &&& (angle_to_location_spec(loc, px, plat) + 256 - heading + 0x60) % 256 < 0xc0
    })
}

/// The flight's step clock after one more step: the counter moves on by one
/// (16-bit, wrapping), and the step runs one time period of events when the
/// new count is a multiple of 16.
pub fn travel_step_counter_tick(counter: u16) -> (r: (u16, bool))
    ensures
        r.0 == (counter + 1) % 0x10000,
        r.1 == (r.0 % 16 == 0),
{
    let c = counter.wrapping_add(1);
    (c, c % 16 == 0)
}

/// The flight step is due: at least 0x300 ticks since the last one (16-bit
/// tick counter).
pub fn travel_step_due(now: u16, stamp: u16) -> (b: bool)
    ensures
        b == ((now - stamp + 0x10000) % 0x10000 >= 0x300),
{
    now.wrapping_sub(stamp) >= 0x300
}

/// The terrain byte the probe ahead of the flight settles on: the bytes
/// read at the two probe points, averaged in a byte (their sum wraps).
pub fn probe_terrain(a: u8, b: u8) -> (t: u8)
    ensures
        t == ((a + b) % 256) / 2,
{
    a.wrapping_add(b) / 2
}

/// What one pass of the in-game travel pump did with the flight.
#[derive(Clone, Copy, Debug, PartialEq, Eq)]
pub enum PumpAction {
    /// No travel is active, a room swap is pending, or the next step is not
    /// due yet (0x300 ticks after the last): only the flight video runs.
    Idle,
    /// The flight stepped to `(x, lat)`; `run_events` when this step runs
    /// one time period of events (every 16th step); `dot` is where the
    /// previous position's permanent minimap dot goes, if anywhere.
    Stepped { x: u16, lat: i16, run_events: bool, dot: Option<(i16, i16)> },
}

/// What the travel pump does after a step.
#[derive(Clone, Copy, Debug, PartialEq, Eq, Structural)]
pub enum PumpNext {
    /// The position reached the destination's map cell: the travel ends.
    Arrive,
    /// A staged night attack pauses the flight's side effects.
    Paused,
    /// The flight goes on: the minimap (unless hidden) recentres and
    /// redraws first when `recenter`, with the new minimap state, then the
    /// live marker is placed (see `travel_minimap_marker`) and the terrain
    /// ahead is probed.
    Continue { recenter: bool, minimap_state: i8 },
}

/// What the minimap does with the player's position `(sx, sy)` on it:
/// outside the inner inset (x 0xd6..0x132, y 0xa..0x36) it schedules a
/// recentre (state 1); else it draws the live marker, unless a room swap is
/// pending.
#[derive(Clone, Copy, Debug, PartialEq, Eq, Structural)]
pub enum MinimapMarker {
    ScheduleRecenter,
    Draw,
    Skip,
}

pub fn travel_minimap_marker(sx: i16, sy: i16, room_swap_pending: bool) -> (m: MinimapMarker)
    ensures
        m == if !(0xd6 <= sx < 0x132) || !(0xa <= sy < 0x36) {
            MinimapMarker::ScheduleRecenter
        } else if !room_swap_pending {
            MinimapMarker::Draw
        } else {
            MinimapMarker::Skip
        },
{
    if !(0xd6 <= sx && sx < 0x132) || !(0xa <= sy && sy < 0x36) {
        MinimapMarker::ScheduleRecenter
    } else if !room_swap_pending {
        MinimapMarker::Draw
    } else {
        MinimapMarker::Skip
    }
}

impl TravelMap {
    /// Aim the flight at location `li` from the player at `(px, plat)`:
    /// homing, at the compass angle to it.
    pub fn travel_aim_at_location(
        &mut self,
        li: usize,
        px: u16,
        plat: i16,
        locations: &Vec<Location>,
    )
        requires
            li < locations@.len(),
            li < 0x800,
        ensures
            *final(self) == (TravelMap {
                travel_destination_ptr: location_ptr_spec(li as int),
                travel_heading_mode: 0,
                travel_heading: angle_to_location_spec(locations@[li as int], px, plat),
                travel_step_accum: 0x80,
                ..*old(self)
            }),
    {
        let loc = locations[li];
        let angle = compass_angle_to_map_position(as_unsigned16(loc.map_x), loc.map_y, px, plat);
        self.travel_commit_destination(location_ptr(li as u16), 0, angle);
    }

    /// BACK TO STARTING POINT: the flight homes on the starting location
    /// `last_location` again (see `travel_aim_at_location`), as a location
    /// flight.
    pub fn travel_back_to_starting_point(
        &mut self,
        last_location: usize,
        px: u16,
        plat: i16,
        locations: &Vec<Location>,
    )
        requires
            last_location < locations@.len(),
            last_location < 0x800,
        ensures
            *final(self) == (TravelMap {
                travel_destination_ptr: location_ptr_spec(last_location as int),
                travel_heading_mode: 0,
                travel_heading: angle_to_location_spec(locations@[last_location as int], px, plat),
                travel_step_accum: 0x80,
                travel_no_location_dest: 0,
                ..*old(self)
            }),
    {
        self.travel_aim_at_location(last_location, px, plat, locations);
        self.travel_no_location_dest = 0;
    }

    /// TOWARDS NEAREST PLACE: the flight homes on the location nearest the
    /// player's position `(px, plat)` that is not hidden (see
    /// `nearest_location_spec`; the first location when every one is), as
    /// a location flight. Returns that location.
    pub fn travel_towards_nearest_place(&mut self, px: u16, plat: i16, locations: &Vec<Location>) -> (li:
        usize)
        requires
            0 < locations@.len() < 0x800,
        ensures
            li == nearest_location_spec(locations@, px, plat, locations@.len() as int).0,
            *final(self) == (TravelMap {
                travel_destination_ptr: location_ptr_spec(li as int),
                travel_heading_mode: 0,
                travel_heading: angle_to_location_spec(locations@[li as int], px, plat),
                travel_step_accum: 0x80,
                travel_no_location_dest: 0,
                ..*old(self)
            }),
    {
        let li = iterate_over_locations_and_coordinates(px, plat, locations);
        proof {
            lemma_nearest_location_in_range(locations@, px, plat, locations@.len() as int);
        }
        self.travel_aim_at_location(li, px, plat, locations);
        self.travel_no_location_dest = 0;
        li
    }

    /// Empty every slot of the minimap trail (longitude and latitude
    /// 0x800).
    pub fn travel_reset_trail(&mut self)
        requires
            old(self).wf(),
        ensures
            final(self).wf(),
            final(self).trail@ == Seq::new(old(self).trail@.len(), |i: int| (0x800u16, 0x800u16)),
            *final(self) == (TravelMap { trail: final(self).trail, ..*old(self) }),
    {
        let ghost before = *self;
        let n = self.trail.len();
        let mut i: usize = 0;
        while i < n
            invariant
                n == before.trail@.len(),
                i <= n,
                self.trail@.len() == n,
                forall|k: int| 0 <= k < i ==> #[trigger] self.trail@[k] == (0x800u16, 0x800u16),
                *self == (TravelMap { trail: self.trail, ..before }),
            decreases n - i,
        {
            self.trail.set(i, (0x800, 0x800));
            i = i + 1;
        }
        assert(self.trail@ =~= Seq::new(n as nat, |i: int| (0x800u16, 0x800u16)));
    }

    /// Arm a flight from the selected hover state: a location pointer homes
    /// on that location; a desert state flies at the compass angle to the
    /// clicked map point `(x, y)`, fixed-heading, with no location
    /// destination (the pointer kept on the last location).
    pub fn arm_pending_travel(
        &mut self,
        hover: u16,
        x: i16,
        y: i16,
        px: u16,
        plat: i16,
        last_location_index: u16,
        locations: &Vec<Location>,
    )
        requires
            old(self).wf(),
            locations@.len() < 0x800,
            hover < 0xfff0 ==> location_index_spec(hover) < locations@.len(),
            hover >= 0xfff0 ==> 0 <= x <= 320 && 0 <= y <= 200 && (old(self).mode & 0x80 == 0
                ==> -98 <= y - centre_spec(old(self).mode, old(self).view_rect).1
                + old(self).zoomed_latitude <= 98),
        ensures
            final(self).wf(),
            *final(self) == armed_travel_spec(
                *old(self),
                hover,
                x,
                y,
                px,
                plat,
                last_location_index,
                locations@,
            ),
    {
        self.travel_no_location_dest = 0;
        if hover < 0xfff0 {
            let li = location_index_from_ptr(hover);
            self.travel_aim_at_location(li, px, plat, locations);
            return;
        }
        self.travel_no_location_dest = self.travel_no_location_dest.wrapping_sub(1);
        let (tx, tlat) = self.map_screen_to_position(x, y);
        let angle = compass_angle_to_map_position(tx, tlat, px, plat);
        self.travel_commit_destination(location_ptr(last_location_index), 1, angle);
    }

    /// Look for a location the flight passes near, while a travel mode is
    /// up (mode flags bits 0-1) with companions aboard: every cell of the
    /// block round the player (`cells`: each map byte and the location
    /// owning it) is tried in turn (see `scan_fold`); each one that
    /// announces a location re-aims the flight home at it, so the last one
    /// wins. Returns the last spot, `None` when no cell announced one.
    #[verifier::rlimit(40)]
    pub fn travel_scan_nearby_location(
        &mut self,
        mode_flags: u8,
        companions: u8,
        cells: &Vec<(u8, Option<usize>)>,
        locations: &Vec<Location>,
        game_phase: u8,
        px: u16,
        plat: i16,
    ) -> (r: Option<NearbySpot>)
        requires
            old(self).wf(),
            locations@.len() < 0x800,
        ensures
            final(self).wf(),
            (mode_flags & 3 == 0 || companions == 0) ==> r.is_none() && *final(self) == *old(self),
            (mode_flags & 3 != 0 && companions != 0) ==> (*final(self), r) == scan_fold(
                *old(self),
                cells@,
                locations@,
                game_phase,
                px,
                plat,
                cells@.len() as int,
            ),
    {
        if mode_flags & 3 == 0 || companions == 0 {
            return None;
        }
        let mut spot: Option<NearbySpot> = None;
        let mut k: usize = 0;
        while k < cells.len()
            invariant
                k <= cells@.len(),
                self.wf(),
                locations@.len() < 0x800,
                (*self, spot) == scan_fold(
                    *old(self),
                    cells@,
                    locations@,
                    game_phase,
                    px,
                    plat,
                    k as int,
                ),
            decreases cells@.len() - k,
        {
            let cell = cells[k];
            let heading = self.travel_heading;
            let found = spot_cell_check(cell, heading, locations, game_phase, px, plat);
            if let Some(rel) = found {
                let li = cell.1.unwrap();
                let (side, caption): (u8, u16) = if rel < 0x60 {
                    (0, 0x00ce)
                } else {
                    (1, 0x00d0)
                };
                self.travel_no_location_dest = 0;
                self.travel_aim_at_location(li, px, plat, locations);
                self.pending_room_action = 3;
                spot = Some(NearbySpot { location_index: li, side, caption });
            }
            k = k + 1;
        }
        spot
    }
}

/// Whether `cell` announces its location to a flight on `heading` (see
/// `spot_cell_ok`), and with it the location's bearing off the heading
/// plus 0x60.
fn spot_cell_check(
    cell: (u8, Option<usize>),
    heading: u8,
    locations: &Vec<Location>,
    game_phase: u8,
    px: u16,
    plat: i16,
) -> (r: Option<u8>)
    ensures
        r.is_some() == spot_cell_ok(cell, locations@, game_phase, px, plat, heading),
        r matches Some(rel) ==> cell.1 matches Some(li) && rel == (angle_to_location_spec(
            locations@[li as int],
            px,
            plat,
        ) + 256 - heading + 0x60) % 256,
{
    let (byte, owner) = cell;
    if byte & 0x40 == 0 {
        return None;
    }
    let li = match owner {
        Some(li) => li,
        None => return None,
    };
    if li >= locations.len() {
        return None;
    }
    let loc = locations[li];
    if !(loc.status & 0x80 != 0 && game_phase >= loc.discoverable_at_phase) {
        return None;
    }
    if as_unsigned16(loc.map_x) == px && loc.map_y == plat {
        return None;
    }
    let angle = compass_angle_to_map_position(as_unsigned16(loc.map_x), loc.map_y, px, plat);
    let rel = angle.wrapping_sub(heading).wrapping_add(0x60);
    if rel < 0xc0 {
        Some(rel)
    } else {
        None
    }
}

/// One cell of the nearby-location scan: a cell that announces its
/// location (see `spot_cell_ok`, against the flight's heading so far)
/// re-aims the flight home at it, arms the companions' room action 3, and
/// becomes the spot, on the side of the heading it lies (0 = ahead or
/// left, 1 = right) with its caption.
pub open spec fn scan_step(
    tm: TravelMap,
    spot: Option<NearbySpot>,
    cell: (u8, Option<usize>),
    locations: Seq<Location>,
    game_phase: u8,
    px: u16,
    plat: i16,
) -> (TravelMap, Option<NearbySpot>) {
    if spot_cell_ok(cell, locations, game_phase, px, plat, tm.travel_heading) {
        let li = cell.1->0;
        let loc = locations[li as int];
        let rel = (angle_to_location_spec(loc, px, plat) + 256 - tm.travel_heading + 0x60) % 256;
        (
            TravelMap {
                travel_no_location_dest: 0,
                travel_destination_ptr: location_ptr_spec(li as int),
                travel_heading_mode: 0,
                travel_heading: angle_to_location_spec(loc, px, plat),
                travel_step_accum: 0x80,
                pending_room_action: 3,
                ..tm
            },
            Some(
                NearbySpot {
                    location_index: li,
                    side: if rel < 0x60 { 0u8 } else { 1u8 },
                    caption: if rel < 0x60 { 0x00ceu16 } else { 0x00d0u16 },
                },
            ),
        )
    } else {
        (tm, spot)
    }
}

/// The scan keeps a homing flight's destination inside the table.
pub proof fn lemma_scan_fold_dest(
    tm: TravelMap,
    cells: Seq<(u8, Option<usize>)>,
    locations: Seq<Location>,
    game_phase: u8,
    px: u16,
    plat: i16,
    n: int,
)
    requires
        locations.len() < 0x800,
        tm.travel_no_location_dest == 0 ==> location_index_spec(tm.travel_destination_ptr)
            < locations.len(),
    ensures
        ({
            let t = scan_fold(tm, cells, locations, game_phase, px, plat, n).0;
            t.travel_no_location_dest == 0 ==> location_index_spec(t.travel_destination_ptr)
                < locations.len()
        }),
    decreases n,
{
    if n > 0 {
        lemma_scan_fold_dest(tm, cells, locations, game_phase, px, plat, n - 1);
        let prev = scan_fold(tm, cells, locations, game_phase, px, plat, n - 1);
        if spot_cell_ok(cells[n - 1], locations, game_phase, px, plat, prev.0.travel_heading) {
            crate::world::lemma_location_ptr_roundtrip(cells[n - 1].1->0 as int);
        }
    }
}

/// The scan over the first `n` cells, in order.
pub open spec fn scan_fold(
    tm: TravelMap,
    cells: Seq<(u8, Option<usize>)>,
    locations: Seq<Location>,
    game_phase: u8,
    px: u16,
    plat: i16,
    n: int,
) -> (TravelMap, Option<NearbySpot>)
    decreases n,
{
    if n <= 0 {
        (tm, None)
    } else {
        let prev = scan_fold(tm, cells, locations, game_phase, px, plat, n - 1);
        scan_step(prev.0, prev.1, cells[n - 1], locations, game_phase, px, plat)
    }
}

/// The first marker at or after `i` that the travel pass built (mode bit
/// 6), or the list's length.
pub open spec fn first_travel_marker_from(ms: Seq<MapLocationMarker>, i: int) -> int
    decreases ms.len() - i,
{
    if i < 0 || i >= ms.len() {
        ms.len() as int
    } else if ms[i].mode & 0x40 != 0 {
        i
    } else {
        first_travel_marker_from(ms, i + 1)
    }
}

/// A location marker to draw: the marker, the sprite bank base (0x7a on
/// the full globe, else 0x3a; the location's appearance picks the sprite
/// within it) and whether a sietch's distant variant (+5) is wanted.
#[derive(Clone, Copy, Debug, PartialEq, Eq, Structural)]
pub struct MarkerDraw {
    pub marker: MapLocationMarker,
    pub sprite_base: u16,
    pub distant: bool,
}

impl TravelMap {
    /// The marker of location `li` on this view, when it is shown: not
    /// hidden (status bit 7), a map view up and the location inside the
    /// window.
    pub open spec fn marker_of(&self, locations: Seq<Location>, li: int) -> Option<
        MapLocationMarker,
    > {
        let loc = locations[li];
        let p = self.position_to_screen_spec(unsigned16(loc.map_x), loc.map_y);
        if loc.status & 0x80 != 0 || self.mode == 0 || !inside_spec(
            self.view_rect,
            p.0 as int,
            p.1 as int,
        ) {
            None
        } else {
            Some(MapLocationMarker { location_index: li as u16, x: p.0, y: p.1, mode: self.mode })
        }
    }

    /// The markers of locations `0..n` that this view shows, in table
    /// order.
    pub open spec fn markers_upto(&self, locations: Seq<Location>, n: int) -> Seq<
        MapLocationMarker,
    >
        decreases n,
    {
        if n <= 0 {
            Seq::empty()
        } else {
            let prev = self.markers_upto(locations, n - 1);
            match self.marker_of(locations, n - 1) {
                Some(m) => prev.push(m),
                None => prev,
            }
        }
    }

    /// `self` is `old` with its marker list rebuilt and `draws` the markers
    /// to draw (see `map_build_location_markers`).
    pub open spec fn is_marker_build_of(
        &self,
        old: &TravelMap,
        locations: Seq<Location>,
        px: u16,
        plat: i16,
        visibility_distance: u16,
        draws: Seq<MarkerDraw>,
    ) -> bool {
        let start = if old.mode & 0x40 != 0 {
            first_travel_marker_from(old.markers@, 0)
        } else {
            0
        };
        let built = old.markers_upto(locations, locations.len() as int);
        &&& self.markers@ == old.markers@.take(start) + built
        &&& *self == (TravelMap { markers: self.markers, ..*old })
        &&& draws.len() == built.len()
        &&& forall|k: int|
            0 <= k < built.len() ==> {
                let d = #[trigger] draws[k];
                let loc = locations[d.marker.location_index as int];
                &&& d.marker == built[k]
                &&& d.sprite_base == if old.mode & 0x80 != 0 {
                    0x7au16
                } else {
                    0x3au16
                }
                &&& d.distant == (loc.appearance < 0x20 && old.player_distance_spec(
                    loc,
                    px,
                    plat,
                ) > visibility_distance)
            }
    }

    /// Rebuild the location marker list: a travel pass (mode bit 6) keeps
    /// the leading markers of earlier passes and replaces the list from the
    /// first travel-pass marker on, any other pass replaces it all; the
    /// shown locations are appended in table order. Returns the markers to
    /// draw, the sietch markers (appearance below 0x20) farther than
    /// `visibility_distance` from the player at `(px, plat)` in their
    /// distant variant.
    pub fn map_build_location_markers(
        &mut self,
        locations: &Vec<Location>,
        px: u16,
        plat: i16,
        visibility_distance: u16,
    ) -> (draws: Vec<MarkerDraw>)
        requires
            old(self).wf(),
            locations@.len() < 0x10000,
            -98 <= plat <= 98,
            forall|i: int| 0 <= i < locations@.len() ==> -98 <= #[trigger] locations@[i].map_y <= 98,
        ensures
            final(self).wf(),
            final(self).is_marker_build_of(old(self), locations@, px, plat, visibility_distance, draws@),
    {
        let mut start: usize = 0;
        if self.mode & 0x40 != 0 {
            while start < self.markers.len() && self.markers[start].mode & 0x40 == 0
                invariant
                    start <= self.markers@.len(),
                    first_travel_marker_from(self.markers@, start as int)
                        == first_travel_marker_from(self.markers@, 0),
                decreases self.markers@.len() - start,
            {
                start = start + 1;
            }
        }
        proof {
            if self.mode & 0x40 != 0 {
                assert(first_travel_marker_from(self.markers@, start as int) == start);
            }
        }
        let ghost kept = self.markers@.take(start as int);
        self.markers.truncate(start);
        let sprite_base: u16 = if self.mode & 0x80 != 0 {
            0x7a
        } else {
            0x3a
        };
        let mut draws: Vec<MarkerDraw> = Vec::new();
        let mut i: usize = 0;
        while i < locations.len()
            invariant
                i <= locations@.len(),
                locations@.len() < 0x10000,
                -98 <= plat <= 98,
                forall|j: int| 0 <= j < locations@.len() ==> -98 <= #[trigger] locations@[j].map_y <= 98,
                self.wf(),
                *self == (TravelMap { markers: self.markers, ..*old(self) }),
                self.markers@ == kept + old(self).markers_upto(locations@, i as int),
                sprite_base == if old(self).mode & 0x80 != 0 { 0x7au16 } else { 0x3au16 },
                draws@.len() == old(self).markers_upto(locations@, i as int).len(),
                forall|k: int|
                    0 <= k < draws@.len() ==> {
                        let d = #[trigger] draws@[k];
                        let loc = locations@[d.marker.location_index as int];
                        &&& d.marker == old(self).markers_upto(locations@, i as int)[k]
                        &&& d.marker.location_index < i
                        &&& d.sprite_base == sprite_base
                        &&& d.distant == (loc.appearance < 0x20 && old(self).player_distance_spec(
                            loc,
                            px,
                            plat,
                        ) > visibility_distance)
                    },
            decreases locations@.len() - i,
        {
            let loc = locations[i];
            if loc.status & 0x80 == 0 {
                let vis = self.location_visible_on_map(i, locations);
                if let Some((x, y)) = vis {
                    let m = MapLocationMarker { location_index: i as u16, x, y, mode: self.mode };
                    self.markers.push(m);
                    let dist = self.location_distance_from_player(i, px, plat, locations);
                    let distant = loc.appearance < 0x20 && dist > visibility_distance;
                    draws.push(MarkerDraw { marker: m, sprite_base, distant });
                }
            }
            proof {
                let prev = old(self).markers_upto(locations@, i as int);
                assert(old(self).marker_of(locations@, i as int) == self.marker_of(locations@, i as int));
                assert forall|k: int| 0 <= k < draws@.len() implies {
                    let d = #[trigger] draws@[k];
                    let loc = locations@[d.marker.location_index as int];
                    &&& d.marker == old(self).markers_upto(locations@, i + 1)[k]
                    &&& d.marker.location_index < i + 1
                    &&& d.sprite_base == sprite_base
                    &&& d.distant == (loc.appearance < 0x20 && old(self).player_distance_spec(
                        loc,
                        px,
                        plat,
                    ) > visibility_distance)
                } by {
                    if k < prev.len() {
                        assert(old(self).markers_upto(locations@, i + 1)[k] == prev[k]);
                    }
                }
            }
            i = i + 1;
        }
        draws
    }
}

impl TravelMap {
    /// The settle after a flight step: the companions' room action is
    /// cleared; unless an action was already staged (`staged`), the
    /// companions aboard (`c0`, `c1`, -1 = an empty slot) look out for a
    /// nearby location (see `travel_scan_nearby_location`) and the
    /// hostile-zone check runs (see `travel_route_hostile_zone_check`);
    /// when either armed a room action, the companion who speaks (see
    /// `travel_pick_speaking_companion`) comes back with the spot, if any.
    pub fn travel_settle_companion_dispatch(
        &mut self,
        staged: u8,
        c0: i8,
        c1: i8,
        rand_bits: u8,
        mode_flags: u8,
        terrain: u8,
        cells: &Vec<(u8, Option<usize>)>,
        locations: &Vec<Location>,
        game_phase: u8,
        px: u16,
        plat: i16,
    ) -> (r: Option<(u8, Option<NearbySpot>)>)
        requires
            old(self).wf(),
            locations@.len() < 0x800,
            old(self).travel_no_location_dest == 0 ==> location_index_spec(
                old(self).travel_destination_ptr,
            ) < locations@.len(),
        ensures
            final(self).wf(),
            ({
                let cleared = TravelMap { pending_room_action: 0, ..*old(self) };
                let aboard = !(c0 == -1 && c1 == -1);
                let scan = if aboard && mode_flags & 3 != 0 {
                    scan_fold(cleared, cells@, locations@, game_phase, px, plat, cells@.len() as int)
                } else {
                    (cleared, None)
                };
                let after = hostile_check_spec(scan.0, mode_flags, terrain, locations@);
                if staged != 0 {
                    *final(self) == cleared && r.is_none()
                } else {
                    &&& *final(self) == after
                    &&& r == if !aboard || after.pending_room_action == 0 {
                        None::<(u8, Option<NearbySpot>)>
                    } else {
                        let pick: i8 = if c1 == -1 || rand_bits & 0x80 != 0 { c0 } else { c1 };
                        Some(((if pick < 0 { pick + 256 } else { pick as int }) as u8, scan.1))
                    }
                }
            }),
    {
        self.pending_room_action = 0;
        if staged != 0 {
            return None;
        }
        if c0 == -1 && c1 == -1 {
            self.travel_route_hostile_zone_check(mode_flags, terrain, locations);
            return None;
        }
        let ghost cleared = *self;
        let spot = self.travel_scan_nearby_location(mode_flags, 1, cells, locations, game_phase, px, plat);
        proof {
            lemma_scan_fold_dest(
                cleared,
                cells@,
                locations@,
                game_phase,
                px,
                plat,
                cells@.len() as int,
            );
        }
        self.travel_route_hostile_zone_check(mode_flags, terrain, locations);
        if self.pending_room_action == 0 {
            return None;
        }
        match travel_pick_speaking_companion(c0, c1, rand_bits) {
            Some(c) => Some((c, spot)),
            None => None,
        }
    }
}

impl TravelMap {
    /// The minimap dot of trail entry `e`: a filled entry whose position
    /// projects inside the map window, the dot one pixel up and left of it,
    /// kept only inside the minimap inset (x 0xcc..0x13a, y 4..0x3a).
    pub open spec fn trail_dot(&self, e: (u16, u16)) -> Option<(i16, i16)> {
        if e.1 == 0x800 {
            None
        } else {
            let p = self.position_to_screen_spec(e.0, signed16(e.1));
            if !inside_spec(self.view_rect, p.0 as int, p.1 as int) {
                None
            } else if 0xcc <= p.0 - 1 < 0x13a && 4 <= p.1 - 1 < 0x3a {
                Some(((p.0 - 1) as i16, (p.1 - 1) as i16))
            } else {
                None
            }
        }
    }

    /// The dots of the first `n` trail entries, oldest first (from the
    /// write cursor round the ring).
    pub open spec fn trail_dots(&self, n: int) -> Seq<(i16, i16)>
        decreases n,
    {
        if n <= 0 {
            Seq::empty()
        } else {
            let prev = self.trail_dots(n - 1);
            let e = self.trail@[(self.trail_cursor + n - 1) % (self.trail@.len() as int)];
            match self.trail_dot(e) {
                Some(d) => prev.push(d),
                None => prev,
            }
        }
    }

    /// The trail dots to redraw on the minimap, oldest first (see
    /// `trail_dots`).
    pub fn travel_trail_redraw(&self) -> (dots: Vec<(i16, i16)>)
        requires
            self.wf(),
        ensures
            dots@ == self.trail_dots(self.trail@.len() as int),
    {
        let n = self.trail.len();
        let mut dots: Vec<(i16, i16)> = Vec::new();
        let mut si = self.trail_cursor;
        let mut k: usize = 0;
        proof {
            vstd::arithmetic::div_mod::lemma_small_mod(si as nat, n as nat);
        }
        while k < n
            invariant
                self.wf(),
                n == self.trail@.len(),
                k <= n,
                si < n,
                si == (self.trail_cursor + k) % (n as int),
                dots@ == self.trail_dots(k as int),
            decreases n - k,
        {
            let (x, lat) = self.trail[si];
            if lat != 0x800 {
                assert(trail_entry_ok(self.trail@[si as int]));
                let v = self.map_position_to_screen_if_visible(x, as_signed16(lat));
                if let Some((sx, sy)) = v {
                    let px = sx - 1;
                    let py = sy - 1;
                    if 0xcc <= px && px < 0x13a && 4 <= py && py < 0x3a {
                        dots.push((px, py));
                    }
                }
            }
            proof {
                crate::map_window::lemma_mod_step(self.trail_cursor + k, n as int);
            }
            si = if si + 1 >= n {
                0
            } else {
                si + 1
            };
            k = k + 1;
        }
        dots
    }
}

/// What closing the map screen leaves to the engine: the game screen mode
/// flags (kept while a flight is armed, else cleared), whether the
/// flight's minimap view comes back (a closing mid-flight), and the
/// screen upkeep: the mouse nav rect cleared, the player-marker blink and
/// the SELECT DESTINATION typewriter removed, the room view restored with
/// its nav panel, and the room-swap flag (`room_swap_pending`) cleared.
#[derive(Clone, Copy, Debug, PartialEq, Eq, Structural)]
pub struct MapClose {
    pub mode_flags: u8,
    pub enter_minimap: bool,
    pub clear_nav_rect: bool,
    pub remove_caption_typewriter: bool,
    pub room_swap_pending: bool,
}

impl TravelMap {
    /// Close the map screen: only once per opening (a view mode set); the
    /// view mode drops to 0 and the marker list empties.
    pub fn map_screen_cleanup(&mut self, mode_flags: u8, minimap_state: i8) -> (r: Option<MapClose>)
        requires
            old(self).wf(),
        ensures
            final(self).wf(),
            old(self).mode == 0 ==> r.is_none() && *final(self) == *old(self),
            old(self).mode != 0 ==> {
                &&& final(self).markers@ == Seq::<MapLocationMarker>::empty()
                &&& *final(self) == (TravelMap { mode: 0, markers: final(self).markers, ..*old(self) })
                &&& r == Some(
                    MapClose {
                        mode_flags: if old(self).travel_destination_ptr == 0 {
                            0
                        } else {
                            mode_flags
                        },
                        enter_minimap: minimap_state > 0,
                        clear_nav_rect: true,
                        remove_caption_typewriter: true,
                        room_swap_pending: false,
                    },
                )
            },
    {
        if self.mode == 0 {
            return None;
        }
        self.mode = 0;
        self.markers.clear();
        let flags = if self.travel_destination_ptr == 0 {
            0
        } else {
            mode_flags
        };
        Some(
            MapClose {
                mode_flags: flags,
                enter_minimap: minimap_state > 0,
                clear_nav_rect: true,
                remove_caption_typewriter: true,
                room_swap_pending: false,
            },
        )
    }
}

} // verus!
