//! The windowed map's row fill: each window row is one planet-map row
//! round the view's longitude, short rows centred, long rows cut to the
//! window and read round the row's end; and the vegetation tufts the full
//! map stamps over its bands.
use vstd::prelude::*;
use crate::map_travel::{TravelMap, Rect, MarkerDraw};
use crate::world::Location;
use crate::map_panels::{here_box_spec, spice_overlay_geometry, spice_overlay_here_box, spice_overlay_uses_secondary_slot};
use crate::troop_map::{build_spice_density_xlat, density_xlat_spec};

verus! {

/// The row buffer's stride: one window row per 0xc8 bytes.
pub open spec fn row_stride() -> int {
    0xc8
}

/// Byte `c` of the window row showing a map row of `len` bytes at `off`
/// in `src`, for longitude `lng` and a window `width` wide: a row shorter
/// than the window is centred in it; the window's left edge is half the
/// shown width before the longitude's cell (wrapped once), and the shown
/// bytes read on round the row's end; bytes outside stay 0.
pub open spec fn window_row_byte(src: Seq<u8>, off: int, len: int, lng: u16, width: int, c: int) -> u8 {
    let eff_w = if len < width { len } else { width };
    let pad = if len < width { (width - len) / 2 } else { 0 };
    let cell = (len * lng) / 0x10000;
    let left = (cell + len - eff_w / 2) % len;
    let j = left + (c - pad);
    if pad <= c < pad + eff_w {
        src[off + if j >= len { j - len } else { j }]
    } else {
        0
    }
}

/// The whole row buffer: `height` window rows of `row_stride()` bytes, row
/// `i` showing the map row at latitude `top_lat + i`.
pub open spec fn window_rows_spec(
    src: Seq<u8>,
    row_offset: Seq<u32>,
    row_len: Seq<u16>,
    lng: u16,
    width: int,
    height: int,
    top_lat: int,
) -> Seq<u8> {
    Seq::new(
        (row_stride() * height) as nat,
        |k: int|
            {
                let y = top_lat + k / row_stride() + 98;
                window_row_byte(
                    src,
                    row_offset[y] as int,
                    row_len[y] as int,
                    lng,
                    width,
                    k % row_stride(),
                )
            },
    )
}

/// The latitude `lat` clamped into `-max..=max`.
pub open spec fn clamp_lat(lat: int, max: int) -> int {
    if lat < -max {
        -max
    } else if lat > max {
        max
    } else {
        lat
    }
}

impl TravelMap {
    /// Fill the windowed map's rows from the byte layer `src` (whose row
    /// at latitude index `y` starts at `row_offset[y]`): the view latitude
    /// is first clamped so every window row has a map row (to within
    /// `0x56 - (height - 1) / 2`), then each window row shows its map row
    /// (see `window_row_byte`). Returns the rows, the window's width and
    /// height and the top row's latitude.
    pub fn map_fill_window_rows_from(&mut self, src: &Vec<u8>, row_offset: &Vec<u32>) -> (r: (
        Vec<u8>,
        usize,
        usize,
        i16,
    ))
        requires
            old(self).wf(),
            old(self).view_rect.x1 - old(self).view_rect.x0 <= 0xc8,
            (old(self).view_rect.y1 - old(self).view_rect.y0 - 1) / 2 <= 0x56,
            row_offset@.len() == 197,
            forall|y: int|
                0 <= y < 197 ==> #[trigger] row_offset@[y] + old(self).row_len@[y] <= src@.len(),
        ensures
            final(self).wf(),
            ({
                let width = old(self).view_rect.x1 - old(self).view_rect.x0;
                let height = old(self).view_rect.y1 - old(self).view_rect.y0;
                let half = (height - 1) / 2;
                let lat = clamp_lat(old(self).zoomed_latitude as int, 0x56 - half);
                &&& *final(self) == (TravelMap { zoomed_latitude: lat as i16, ..*old(self) })
                &&& r.1 == width
                &&& r.2 == height
                &&& r.3 == lat - half
                &&& r.0@ == window_rows_spec(
                    src@,
                    row_offset@,
                    old(self).row_len@,
                    old(self).zoomed_longitude,
                    width,
                    height,
                    lat - half,
                )
            }),
    {
        let r = self.view_rect;
        let width = (r.x1 - r.x0) as usize;
        let height = (r.y1 - r.y0) as usize;
        let half = ((height - 1) / 2) as i16;
        let max_lat = 0x56 - half;
        let z = self.zoomed_latitude;
        self.zoomed_latitude = if z < -max_lat {
            -max_lat
        } else if z > max_lat {
            max_lat
        } else {
            z
        };
        let lng = self.zoomed_longitude;
        let top_lat = self.zoomed_latitude - half;
        let ghost spec_rows = window_rows_spec(
            src@,
            row_offset@,
            self.row_len@,
            lng,
            width as int,
            height as int,
            top_lat as int,
        );
        let mut rows: Vec<u8> = Vec::new();
        let mut i: usize = 0;
        while i < height
            invariant
                self.wf(),
                i <= height,
                height == self.view_rect.y1 - self.view_rect.y0,
                width == self.view_rect.x1 - self.view_rect.x0,
                width <= 0xc8,
                half == (height - 1) / 2,
                half <= 0x56,
                top_lat == self.zoomed_latitude - half,
                -(0x56 - half) <= self.zoomed_latitude <= 0x56 - half,
                row_offset@.len() == 197,
                forall|y: int|
                    0 <= y < 197 ==> #[trigger] row_offset@[y] + self.row_len@[y] <= src@.len(),
                spec_rows == window_rows_spec(
                    src@,
                    row_offset@,
                    self.row_len@,
                    lng,
                    width as int,
                    height as int,
                    top_lat as int,
                ),
                rows@.len() == 0xc8 * i,
                rows@ == spec_rows.take(rows@.len() as int),
            decreases height - i,
        {
            let y = (top_lat + i as i16 + 98) as usize;
            let off = row_offset[y] as usize;
            let len = self.row_len[y] as usize;
            let lv = len as u32;
            let xv = lng as u32;
            assert(lv * xv < 0x1000 * 0x10000) by (nonlinear_arith)
                requires
                    lv < 0x1000,
                    xv < 0x10000,
            ;
            assert((lv * xv) / 0x10000 < lv) by (nonlinear_arith)
                requires
                    xv < 0x10000,
                    lv > 0,
            ;
            let cell = ((lv * xv) / 0x10000) as usize;
            let (pad, eff_w) = if len < width {
                ((width - len) / 2, len)
            } else {
                (0, width)
            };
            let left = (cell + len - eff_w / 2) % len;
            let base = rows.len();
            let mut c: usize = 0;
            while c < 0xc8
                invariant
                    c <= 0xc8,
                    base == 0xc8 * i,
                    i < height,
                    rows@.len() == base + c,
                    rows@ == spec_rows.take(rows@.len() as int),
                    spec_rows.len() == 0xc8 * height,
                    y == top_lat + i + 98,
                    0 <= y < 197,
                    off == row_offset@[y as int],
                    len == self.row_len@[y as int],
                    0 < len,
                    off + len <= src@.len(),
                    cell == (len * lng) / 0x10000,
                    width == self.view_rect.x1 - self.view_rect.x0,
                    eff_w == if len < width { len } else { width },
                    pad == if len < width { (width - len) / 2 } else { 0 },
                    left == (cell + len - eff_w / 2) % (len as int),
                    spec_rows == window_rows_spec(
                        src@,
                        row_offset@,
                        self.row_len@,
                        lng,
                        width as int,
                        height as int,
                        top_lat as int,
                    ),
                decreases 0xc8 - c,
            {
                assert(left < len);
                assert(eff_w <= len);
                let b: u8 = if pad <= c && c < pad + eff_w {
                    let j = left + (c - pad);
                    let idx = if j >= len {
                        j - len
                    } else {
                        j
                    };
                    let slen = src.len();
                    assert(off + idx < slen);
                    src[off + idx]
                } else {
                    0
                };
                proof {
                    let k = base + c;
                    vstd::arithmetic::div_mod::lemma_fundamental_div_mod_converse(
                        k as int,
                        0xc8,
                        i as int,
                        c as int,
                    );
                    assert(spec_rows[k as int] == b);
                    assert(spec_rows.take(k + 1) == spec_rows.take(k as int).push(b));
                }
                rows.push(b);
                c = c + 1;
            }
            i = i + 1;
        }
        proof {
            assert(spec_rows.take(rows@.len() as int) == spec_rows);
        }
        (rows, width, height, top_lat)
    }
}

/// The tuft stamped for cell `i` of the map row of `len` bytes at `off`,
/// drawn at `(x, y)`: none unless the cell is vegetation (bits 4-5 = 1);
/// sprite 0x79 when the next cell east is vegetation too, else 0x78,
/// jittered by the cell's byte offset (x by bits 2-3 of length + offset, y
/// by its bits 0-1).
pub open spec fn veg_stamp(map: Seq<u8>, off: int, len: int, i: int, x: int, y: int) -> Seq<
    (u16, i16, i16),
> {
    if map[off + i] & 0x30 == 0x10 {
        let sprite = if map[off + (i + 1) % len] & 0x30 == 0x10 {
            0x79u16
        } else {
            0x78u16
        };
        let di = off + i;
        seq![(sprite, (x + ((len + di) / 4) % 4) as i16, (y + di % 4) as i16)]
    } else {
        Seq::empty()
    }
}

/// The tufts of the first `n` cells walking east from cell `c` at screen
/// column `sx`, 4 px per cell, wrapping round the row.
pub open spec fn veg_east(map: Seq<u8>, off: int, len: int, c: int, sx: int, sy: int, n: int) -> Seq<
    (u16, i16, i16),
>
    decreases n,
{
    if n <= 0 {
        Seq::empty()
    } else {
        veg_east(map, off, len, c, sx, sy, n - 1) + veg_stamp(
            map,
            off,
            len,
            (c + n - 1) % len,
            sx + 4 * (n - 1),
            sy,
        )
    }
}

/// The same walking west.
pub open spec fn veg_west(map: Seq<u8>, off: int, len: int, c: int, sx: int, sy: int, n: int) -> Seq<
    (u16, i16, i16),
>
    decreases n,
{
    if n <= 0 {
        Seq::empty()
    } else {
        veg_west(map, off, len, c, sx, sy, n - 1) + veg_stamp(
            map,
            off,
            len,
            (c - (n - 1)) % len,
            sx - 4 * (n - 1),
            sy,
        )
    }
}

/// Stepping one cell east or west of `a` round a row of `m` cells.
pub proof fn lemma_mod_step(a: int, m: int)
    requires
        m > 0,
    ensures
        (a + 1) % m == if a % m + 1 >= m { 0 } else { a % m + 1 },
        (a - 1) % m == if a % m == 0 { m - 1 } else { a % m - 1 },
{
    let q = a / m;
    let r = a % m;
    vstd::arithmetic::div_mod::lemma_fundamental_div_mod(a, m);
    assert(a == m * q + r);
    assert(m * q == q * m) by (nonlinear_arith);
    if r + 1 >= m {
        assert(a + 1 == (q + 1) * m + 0) by (nonlinear_arith)
            requires
                a == q * m + r,
                r + 1 == m,
        ;
        vstd::arithmetic::div_mod::lemma_fundamental_div_mod_converse(a + 1, m, q + 1, 0);
    } else {
        vstd::arithmetic::div_mod::lemma_fundamental_div_mod_converse(a + 1, m, q, r + 1);
    }
    if r == 0 {
        assert(a - 1 == (q - 1) * m + (m - 1)) by (nonlinear_arith)
            requires
                a == q * m + r,
                r == 0,
        ;
        vstd::arithmetic::div_mod::lemma_fundamental_div_mod_converse(a - 1, m, q - 1, m - 1);
    } else {
        vstd::arithmetic::div_mod::lemma_fundamental_div_mod_converse(a - 1, m, q, r - 1);
    }
}

/// One stamp of the walk (see `veg_stamp`).
fn veg_stamp_at(map: &Vec<u8>, off: usize, len: usize, i: usize, x: i16, y: i16) -> (r: Option<
    (u16, i16, i16),
>)
    requires
        0 < len < 0x1000,
        i < len,
        off + len <= map@.len(),
        -0x1000 <= x <= 0x1000,
        -0x1000 <= y <= 0x1000,
    ensures
        veg_stamp(map@, off as int, len as int, i as int, x as int, y as int) == match r {
            None => Seq::empty(),
            Some(t) => seq![t],
        },
{
    let mlen = map.len();
    let di = off + i;
    if map[di] & 0x30 != 0x10 {
        return None;
    }
    let nx = if i + 1 >= len {
        i + 1 - len
    } else {
        i + 1
    };
    proof {
        lemma_mod_step(i as int, len as int);
        vstd::arithmetic::div_mod::lemma_small_mod(i as nat, len as nat);
    }
    let sprite: u16 = if map[off + nx] & 0x30 == 0x10 {
        0x79
    } else {
        0x78
    };
    let lo = len % 16 + di % 16;
    assert((lo / 4) % 4 == ((len + di) / 4) % 4) by (bit_vector)
        requires
            lo == len % 16 + di % 16,
    ;
    let jy = (di % 4) as i16;
    let jx = ((lo / 4) % 4) as i16;
    Some((sprite, x + jx, y + jy))
}

/// The tufts of one band of the full map: the map row of `len` bytes at
/// `off` in `map`, whose cell under longitude `lng` projects to `(sx,
/// sy)`; the walk east covers the screen from `sx` to the window's right
/// edge `wx1`, the walk west from `sx` to its left edge `wx0`, one cell per
/// 4 px (the cell under `sx` is walked both ways).
pub fn map_draw_vegetation_marks_row(
    map: &Vec<u8>,
    off: usize,
    len: usize,
    lng: u16,
    sx: i16,
    sy: i16,
    wx0: i16,
    wx1: i16,
) -> (stamps: Vec<(u16, i16, i16)>)
    requires
        0 < len < 0x1000,
        off + len <= map@.len(),
        0 <= wx0 <= sx,
        sx < wx1 <= 320,
        0 <= sy <= 200,
    ensures
        ({
            let c = (len * lng) / 0x10000;
            let ne = if wx1 - sx <= 4 { 1 } else { (wx1 - sx + 3) / 4 };
            let nw = (sx - wx0) / 4 + 1;
            stamps@ == veg_east(map@, off as int, len as int, c, sx as int, sy as int, ne)
                + veg_west(map@, off as int, len as int, c, sx as int, sy as int, nw)
        }),
{
    let lv = len as u32;
    let xv = lng as u32;
    assert(lv * xv < 0x1000 * 0x10000) by (nonlinear_arith)
        requires
            lv < 0x1000,
            xv < 0x10000,
    ;
    assert((lv * xv) / 0x10000 < lv) by (nonlinear_arith)
        requires
            xv < 0x10000,
            lv > 0,
    ;
    let c = ((lv * xv) / 0x10000) as usize;
    let ghost cc = c as int;
    let ne: usize = if wx1 - sx <= 4 {
        1
    } else {
        ((wx1 - sx + 3) / 4) as usize
    };
    let nw: usize = ((sx - wx0) / 4 + 1) as usize;
    let mut stamps: Vec<(u16, i16, i16)> = Vec::new();
    let mut i = c;
    let mut k: usize = 0;
    proof {
        vstd::arithmetic::div_mod::lemma_small_mod(c as nat, len as nat);
    }
    while k < ne
        invariant
            0 < len < 0x1000,
            off + len <= map@.len(),
            cc == c,
            c < len,
            i < len,
            i == (cc + k) % (len as int),
            k <= ne,
            ne == if wx1 - sx <= 4 { 1 } else { (wx1 - sx + 3) / 4 },
            sx < wx1 <= 320,
            0 <= sy <= 200,
            0 <= sx,
            stamps@ == veg_east(map@, off as int, len as int, cc, sx as int, sy as int, k as int),
        decreases ne - k,
    {
        let x = sx + 4 * k as i16;
        let st = veg_stamp_at(map, off, len, i, x, sy);
        if let Some(t) = st {
            stamps.push(t);
        }
        proof {
            assert(stamps@ == veg_east(map@, off as int, len as int, cc, sx as int, sy as int, k + 1));
        }
        k = k + 1;
        i = if i + 1 >= len {
            i + 1 - len
        } else {
            i + 1
        };
        proof {
            lemma_mod_step(cc + k - 1, len as int);
        }
    }
    let ghost east = stamps@;
    let mut i = c;
    let mut k: usize = 0;
    proof {
        vstd::arithmetic::div_mod::lemma_small_mod(c as nat, len as nat);
    }
    while k < nw
        invariant
            0 < len < 0x1000,
            off + len <= map@.len(),
            cc == c,
            c < len,
            i < len,
            i == (cc - k) % (len as int),
            k <= nw,
            nw == (sx - wx0) / 4 + 1,
            0 <= wx0 <= sx,
            sx <= 320,
            0 <= sy <= 200,
            stamps@ == east + veg_west(map@, off as int, len as int, cc, sx as int, sy as int, k as int),
        decreases nw - k,
    {
        let x = sx - 4 * k as i16;
        let st = veg_stamp_at(map, off, len, i, x, sy);
        if let Some(t) = st {
            stamps.push(t);
        }
        proof {
            assert(stamps@ == east + veg_west(map@, off as int, len as int, cc, sx as int, sy as int, k + 1));
        }
        k = k + 1;
        i = if i == 0 {
            len - 1
        } else {
            i - 1
        };
        proof {
            lemma_mod_step(cc - k + 1, len as int);
        }
    }
    stamps
}

/// How the map view draws: the full globe through the flat-map renderer
/// at a view position, or the windowed map's rows (see
/// `map_fill_window_rows_from`), blitted unless the spice-density overlay
/// renders them itself.
pub enum GlobeDraw {
    Full { longitude: u16, latitude: i16 },
    Window { rows: Vec<u8>, width: usize, height: usize, top_lat: i16, blit: bool },
}

impl TravelMap {
    /// Draw the map view: on the full globe (mode bit 7) the view latitude
    /// is clamped to +-0x4b first; otherwise the window's rows are filled
    /// from `src` (see `map_fill_window_rows_from`) and blitted unless the
    /// overlay bit (6) is set.
    pub fn map_draw_zoomed_globe(&mut self, src: &Vec<u8>, row_offset: &Vec<u32>) -> (d: GlobeDraw)
        requires
            old(self).wf(),
            old(self).mode & 0x80 == 0 ==> {
                &&& old(self).view_rect.x1 - old(self).view_rect.x0 <= 0xc8
                &&& (old(self).view_rect.y1 - old(self).view_rect.y0 - 1) / 2 <= 0x56
                &&& row_offset@.len() == 197
                &&& forall|y: int|
                    0 <= y < 197 ==> #[trigger] row_offset@[y] + old(self).row_len@[y] <= src@.len()
            },
        ensures
            final(self).wf(),
            old(self).mode & 0x80 != 0 ==> {
                let lat = clamp_lat(old(self).zoomed_latitude as int, 0x4b);
                &&& *final(self) == (TravelMap { zoomed_latitude: lat as i16, ..*old(self) })
                &&& d matches GlobeDraw::Full { longitude, latitude } && longitude
                    == old(self).zoomed_longitude && latitude == lat
            },
            old(self).mode & 0x80 == 0 ==> {
                let width = old(self).view_rect.x1 - old(self).view_rect.x0;
                let height = old(self).view_rect.y1 - old(self).view_rect.y0;
                let half = (height - 1) / 2;
                let lat = clamp_lat(old(self).zoomed_latitude as int, 0x56 - half);
                &&& *final(self) == (TravelMap { zoomed_latitude: lat as i16, ..*old(self) })
                &&& d matches GlobeDraw::Window { rows, width: w, height: h, top_lat, blit } && w
                    == width && h == height && top_lat == lat - half && blit == (old(self).mode
                    & 0x40 == 0) && rows@ == window_rows_spec(
                    src@,
                    row_offset@,
                    old(self).row_len@,
                    old(self).zoomed_longitude,
                    width,
                    height,
                    lat - half,
                )
            },
    {
        if self.mode & 0x80 != 0 {
            let z = self.zoomed_latitude;
            self.zoomed_latitude = if z < -0x4b {
                -0x4b
            } else if z > 0x4b {
                0x4b
            } else {
                z
            };
            return GlobeDraw::Full { longitude: self.zoomed_longitude, latitude: self.zoomed_latitude };
        }
        let (rows, width, height, top_lat) = self.map_fill_window_rows_from(src, row_offset);
        GlobeDraw::Window { rows, width, height, top_lat, blit: self.mode & 0x40 == 0 }
    }
}

/// What the spice-density overlay panel shows: the window's landscape
/// rows (from the spice-field map) with their size and top latitude, the
/// colour table they are drawn through, the location markers to draw, the
/// "you are here" box, whether the panel takes the secondary popup slot,
/// the panel rect, and the overlay's own globe position (its latitude
/// clamped to the window).
pub struct SpiceOverlay {
    pub rows: Vec<u8>,
    pub width: usize,
    pub height: usize,
    pub top_lat: i16,
    pub xlat: Vec<u8>,
    pub markers: Vec<MarkerDraw>,
    pub here_box: Option<Rect>,
    pub secondary_slot: bool,
    pub panel: Rect,
    pub globe: (u16, i16),
}

/// The map view while the overlay composes: the window of the panel at
/// `(px, py)` in overlay mode (0x40), centred on the overlay's globe
/// position (latitude clamped so every window row has a map row).
pub open spec fn overlay_window_view(tm: TravelMap, px: i16, py: i16, globe: (u16, i16)) -> TravelMap {
    TravelMap {
        mode: 0x40,
        view_rect: Rect { x0: (px + 5) as i16, y0: (py + 7) as i16, x1: (px + 165) as i16, y1: (py + 96) as i16 },
        zoomed_longitude: globe.0,
        zoomed_latitude: clamp_lat(globe.1 as int, 0x56 - 44) as i16,
        ..tm
    }
}

impl TravelMap {
    /// Compose the spice-density overlay panel at `(px, py)`: the view
    /// becomes the panel's window in overlay mode, centred on the overlay's
    /// globe position `globe` (swapped with the map's own); the window rows
    /// are filled from the spice-field map `map2`, the colour table built,
    /// the markers rebuilt for the window, and the "you are here" box put
    /// round the map's own position. Then the position swaps back, the
    /// view mode gains the full-map and overlay bits (0xc0) and the view
    /// returns to the full-map rect (4, 4)-(316, 148).
    pub fn map_draw_spice_density_overlay(
        &mut self,
        px: i16,
        py: i16,
        globe: (u16, i16),
        map2: &Vec<u8>,
        row_offset: &Vec<u32>,
        locations: &Vec<Location>,
        monotone: bool,
        player: (u16, i16),
        visibility_distance: u16,
        map_popup_ptr: u16,
    ) -> (d: SpiceOverlay)
        requires
            old(self).wf(),
            -5 <= px <= 155,
            -7 <= py <= 104,
            -98 <= globe.1 <= 98,
            row_offset@.len() == 197,
            forall|y: int|
                0 <= y < 197 ==> #[trigger] row_offset@[y] + old(self).row_len@[y] <= map2@.len(),
            locations@.len() < 0x10000,
            -98 <= player.1 <= 98,
            forall|i: int| 0 <= i < locations@.len() ==> -98 <= #[trigger] locations@[i].map_y <= 98,
        ensures
            final(self).wf(),
            ({
                let win = overlay_window_view(*old(self), px, py, globe);
                let here = win.position_to_screen_spec(old(self).zoomed_longitude, old(self).zoomed_latitude);
                &&& d.width == 160 && d.height == 89
                &&& d.top_lat == win.zoomed_latitude - 44
                &&& d.rows@ == window_rows_spec(
                    map2@,
                    row_offset@,
                    old(self).row_len@,
                    globe.0,
                    160,
                    89,
                    win.zoomed_latitude - 44,
                )
                &&& d.xlat@ == density_xlat_spec(locations@, monotone, locations@.len() as int)
                &&& (TravelMap { markers: final(self).markers, ..win }).is_marker_build_of(
                    &win,
                    locations@,
                    player.0,
                    player.1,
                    visibility_distance,
                    d.markers@,
                )
                &&& d.here_box == here_box_spec(px, py, here.0, here.1)
                &&& d.secondary_slot == (map_popup_ptr != 0 && map_popup_ptr != 0x4710)
                &&& d.panel == (Rect { x0: px, y0: py, x1: (px + 170) as i16, y1: (py + 108) as i16 })
                &&& d.globe == (globe.0, win.zoomed_latitude)
                &&& *final(self) == (TravelMap {
                    mode: old(self).mode | 0xc0,
                    view_rect: Rect { x0: 4, y0: 4, x1: 316, y1: 148 },
                    markers: final(self).markers,
                    ..*old(self)
                })
            }),
    {
        let (window, panel) = spice_overlay_geometry(px, py);
        let saved_mode = self.mode;
        let own = (self.zoomed_longitude, self.zoomed_latitude);
        self.mode = 0x40;
        self.view_rect = window;
        self.zoomed_longitude = globe.0;
        self.zoomed_latitude = globe.1;
        let (rows, width, height, top_lat) = self.map_fill_window_rows_from(map2, row_offset);
        let xlat = build_spice_density_xlat(locations, monotone);
        let ghost win = *self;
        let markers = self.map_build_location_markers(locations, player.0, player.1, visibility_distance);
        let (cx, cy) = self.map_position_to_screen(own.0, own.1);
        proof {
            assert(-0x1000 <= cx <= 0x1000 && -0x1000 <= cy <= 0x1000) by {
                assert(0x40u8 & 0x80 == 0) by (bit_vector);
                lemma_screen_point_bounded(*self, own.0, own.1);
            }
        }
        let here_box = spice_overlay_here_box(px, py, cx, cy);
        let secondary_slot = spice_overlay_uses_secondary_slot(map_popup_ptr);
        let overlay_globe = (self.zoomed_longitude, self.zoomed_latitude);
        self.zoomed_longitude = own.0;
        self.zoomed_latitude = own.1;
        self.mode = saved_mode | 0xc0;
        self.view_rect = Rect { x0: 4, y0: 4, x1: 316, y1: 148 };
        proof {
            assert(win == (TravelMap { markers: win.markers, ..overlay_window_view(*old(self), px, py, globe) }));
        }
        SpiceOverlay {
            rows,
            width,
            height,
            top_lat,
            xlat,
            markers,
            here_box,
            secondary_slot,
            panel,
            globe: overlay_globe,
        }
    }
}

/// On a windowed view, a map position on the rows of the table projects
/// to a screen point within 0x1000 of the origin.
pub proof fn lemma_screen_point_bounded(tm: TravelMap, x: u16, lat: i16)
    requires
        tm.wf(),
        tm.mode & 0x80 == 0,
        -98 <= lat <= 98,
        -42 <= tm.zoomed_latitude <= 42,
    ensures
        -0x1000 <= tm.position_to_screen_spec(x, lat).0 <= 0x1000,
        -0x1000 <= tm.position_to_screen_spec(x, lat).1 <= 0x1000,
{
    let dlng = crate::world::signed16(((x - tm.zoomed_longitude + 0x10000) % 0x10000) as u16);
    let len = tm.row_len@[lat + 98] as int;
    assert(0 < len < 0x1000);
    let p = dlng * len * 1;
    assert(-0x8000 * 0x1000 <= p <= 0x8000 * 0x1000) by (nonlinear_arith)
        requires
            -0x8000 <= dlng <= 0x7fff,
            0 < len < 0x1000,
            p == dlng * len * 1,
    ;
    assert(-0x800 <= p / 0x10000 <= 0x800) by (nonlinear_arith)
        requires
            -0x8000 * 0x1000 <= p <= 0x8000 * 0x1000,
    ;
}

} // verus!
