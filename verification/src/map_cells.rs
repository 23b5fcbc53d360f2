//! Blocks of planet-map cells round a map position, and the fly-over
//! detector that scans a strip of them ahead of the flight for a location
//! it passes close to.
use vstd::prelude::*;
use crate::world::{Location, unsigned16, as_unsigned16};
use crate::map_travel::{TravelMap, angle_to_location_spec};
use crate::compass::compass_angle_to_map_position;

verus! {

/// The `k`-th cell of a run that starts at cell `start` of a row of `len`
/// cells, each step wrapping once at the row's end.
pub open spec fn run_cell(start: int, len: int, k: nat) -> int
    decreases k,
{
    if k == 0 {
        start
    } else {
        let p = run_cell(start, len, (k - 1) as nat);
        if p + 1 >= len {
            p + 1 - len
        } else {
            p + 1
        }
    }
}

/// The latitude of row `r` of a block of `rows` rows centred on latitude
/// `lat`: the block starts `rows / 2` rows up (not above -98) and each row
/// is read clamped into -98..=98.
pub open spec fn block_row_lat(lat: i16, rows: int, r: int) -> int {
    let top = if lat - rows / 2 < -98 { -98 } else { lat - rows / 2 };
    let l = top + r;
    if l < -98 {
        -98
    } else if l > 98 {
        98
    } else {
        l
    }
}

impl TravelMap {
    /// The first cell of a block row at latitude `row_lat` for longitude
    /// `x`: `cols / 2` cells before the longitude's cell, wrapped once.
    pub open spec fn block_row_start(&self, x: u16, row_lat: int, cols: int) -> int {
        let len = self.row_len@[row_lat + 98] as int;
        let c0 = (len * x) / 0x10000 - cols / 2;
        if c0 < 0 {
            c0 + len
        } else {
            c0
        }
    }

    /// Row `r` of the block: `cols` cells (latitude, cell in the row).
    pub open spec fn block_row(&self, x: u16, lat: i16, rows: int, cols: int, r: int) -> Seq<
        (i16, i32),
    > {
        let row_lat = block_row_lat(lat, rows, r);
        let len = self.row_len@[row_lat + 98] as int;
        let start = self.block_row_start(x, row_lat, cols);
        Seq::new(cols as nat, |c: int| (row_lat as i16, run_cell(start, len, c as nat) as i32))
    }

    /// The first `n` rows of the block, row after row.
    pub open spec fn block_spec(&self, x: u16, lat: i16, rows: int, cols: int, n: int) -> Seq<
        (i16, i32),
    >
        decreases n,
    {
        if n <= 0 {
            Seq::empty()
        } else {
            self.block_spec(x, lat, rows, cols, n - 1) + self.block_row(x, lat, rows, cols, n - 1)
        }
    }

    /// The `rows` x `cols` block of map cells centred on map position `(x,
    /// lat)`, row after row: each cell as its row's latitude and its cell
    /// index within the row (see `block_row`).
    pub fn map_build_cell_strip(&self, x: u16, lat: i16, rows: usize, cols: usize) -> (strip: Vec<
        (i16, i32),
    >)
        requires
            self.wf(),
            -98 <= lat <= 98,
            rows <= 16,
            cols <= 16,
        ensures
            strip@ == self.block_spec(x, lat, rows as int, cols as int, rows as int),
    {
        let mut strip: Vec<(i16, i32)> = Vec::new();
        let half_rows = (rows / 2) as i16;
        let top: i16 = if lat - half_rows < -98 {
            -98
        } else {
            lat - half_rows
        };
        let half_cols = (cols / 2) as i32;
        let mut r: usize = 0;
        while r < rows
            invariant
                self.wf(),
                -98 <= lat <= 98,
                rows <= 16,
                cols <= 16,
                r <= rows,
                half_cols == cols as int / 2,
                top == if lat - rows as int / 2 < -98 { -98 } else { lat - rows as int / 2 },
                strip@ == self.block_spec(x, lat, rows as int, cols as int, r as int),
            decreases rows - r,
        {
            let l = top + r as i16;
            let row_lat: i16 = if l < -98 {
                -98
            } else if l > 98 {
                98
            } else {
                l
            };
            assert(row_lat == block_row_lat(lat, rows as int, r as int));
            let len = self.row_len[(row_lat + 98) as usize] as u32;
            let xv = x as u32;
            assert(len * xv < 0x1000 * 0x10000) by (nonlinear_arith)
                requires
                    len < 0x1000,
                    xv < 0x10000,
            ;
            assert((len * xv) / 0x10000 < len) by (nonlinear_arith)
                requires
                    xv < 0x10000,
                    len > 0,
            ;
            let cell0 = ((len * xv) / 0x10000) as i32;
            let mut cell = cell0 - half_cols;
            if cell < 0 {
                cell = cell + len as i32;
            }
            let ghost start = cell as int;
            let ghost row = self.block_row(x, lat, rows as int, cols as int, r as int);
            assert(start == self.block_row_start(x, row_lat as int, cols as int));
            assert(start < len);
            let mut c: usize = 0;
            while c < cols
                invariant
                    self.wf(),
                    c <= cols,
                    cols <= 16,
                    0 < len < 0x1000,
                    -16 <= start < len,
                    -16 <= cell < len,
                    cell == run_cell(start, len as int, c as nat),
                    row == self.block_row(x, lat, rows as int, cols as int, r as int),
                    row.len() == cols,
                    forall|k: int| 0 <= k < cols ==> #[trigger] row[k] == (row_lat, run_cell(start, len as int, k as nat) as i32),
                    strip@ == self.block_spec(x, lat, rows as int, cols as int, r as int) + row.take(c as int),
                decreases cols - c,
            {
                strip.push((row_lat, cell));
                proof {
                    assert(row.take(c + 1) == row.take(c as int).push(row[c as int]));
                }
                cell = cell + 1;
                if cell >= len as i32 {
                    cell = cell - len as i32;
                }
                c = c + 1;
            }
            proof {
                assert(row.take(cols as int) == row);
            }
            r = r + 1;
        }
        strip
    }
}

/// The strip the fly-over detector scans: a run of 8 cells along the row
/// when the heading is nearer east or west ((heading + 0x20) bit 6 clear),
/// else a column of 8 rows.
pub fn flyover_strip_shape(heading: u8) -> (s: (usize, usize))
    ensures
        s == if (heading + 0x20) % 256 / 64 % 2 == 0 {
            (1usize, 8usize)
        } else {
            (8usize, 1usize)
        },
{
    let h = heading.wrapping_add(0x20);
    if (h / 64) % 2 == 0 {
        (1, 8)
    } else {
        (8, 1)
    }
}

/// A cell of the fly-over strip latches its location: a location cell (bit
/// 6) of a table location that the story has not hidden (status bit 7
/// with the game phase short of its discovery phase), not under the player,
/// and within 0x20 of the heading.
pub open spec fn flyover_cell_ok(
    cell: (u8, Option<usize>),
    locations: Seq<Location>,
    game_phase: u8,
    px: u16,
    plat: i16,
    heading: u8,
) -> bool {
    cell.0 & 0x40 != 0 && (cell.1 matches Some(li) && li < locations.len() && {
        let loc = locations[li as int];
        &&& !(loc.status & 0x80 != 0 && game_phase < loc.discoverable_at_phase)
        &&& !(unsigned16(loc.map_x) == px && loc.map_y == plat)
        &&& (angle_to_location_spec(loc, px, plat) + 256 - heading + 0x20) % 256 < 0x40
    })
}

/// What the fly-over detector leaves: its re-arm countdown, and the
/// location it latched with the signed bearing off the heading times 0x20.
#[derive(Clone, Copy, Debug, PartialEq, Eq, Structural)]
pub struct Flyover {
    pub countdown: u8,
    pub latch: Option<FlyoverLatch>,
}

/// A latched fly-over: the location and its bearing off the heading
/// (signed, times 0x20).
#[derive(Clone, Copy, Debug, PartialEq, Eq, Structural)]
pub struct FlyoverLatch {
    pub location_index: usize,
    pub bearing: i16,
}

/// Whether `cell` latches (see `flyover_cell_ok`), and with it the
/// location's bearing off the heading (signed, times 0x20).
fn flyover_cell_check(
    cell: (u8, Option<usize>),
    heading: u8,
    locations: &Vec<Location>,
    game_phase: u8,
    px: u16,
    plat: i16,
) -> (r: Option<i16>)
    ensures
        r.is_some() == flyover_cell_ok(cell, locations@, game_phase, px, plat, heading),
        r matches Some(b) ==> cell.1 matches Some(li) && b == ((angle_to_location_spec(
            locations@[li as int],
            px,
            plat,
        ) + 256 - heading + 0x20) % 256 - 0x20) * 0x20,
{
    let (byte, owner) = cell;
    if byte & 0x40 == 0 {
        return None;
    }
    let li = match owner {
        Some(li) => li,
        None => return None,
    };
    if li >= locations.len() {
        return None;
    }
    let loc = locations[li];
    if loc.status & 0x80 != 0 && game_phase < loc.discoverable_at_phase {
        return None;
    }
    if as_unsigned16(loc.map_x) == px && loc.map_y == plat {
        return None;
    }
    let angle = compass_angle_to_map_position(as_unsigned16(loc.map_x), loc.map_y, px, plat);
    let rel = angle.wrapping_sub(heading).wrapping_add(0x20);
    assert(rel == (angle + 256 - heading + 0x20) % 256);
    if rel < 0x40 {
        Some((rel as i16 - 0x20) * 0x20)
    } else {
        None
    }
}

/// One pass of the fly-over detector over the strip `cells` (each map byte
/// and the location owning it) ahead of the flight: while the re-arm
/// countdown runs it only counts down; otherwise the first cell that
/// latches (see `flyover_cell_ok`) is latched and the countdown re-armed
/// at 6.
pub fn travel_flyover_detect(
    countdown: u8,
    heading: u8,
    cells: &Vec<(u8, Option<usize>)>,
    locations: &Vec<Location>,
    game_phase: u8,
    px: u16,
    plat: i16,
) -> (f: Flyover)
    ensures
        countdown != 0 ==> f == (Flyover { countdown: (countdown - 1) as u8, latch: None }),
        countdown == 0 ==> match f.latch {
            None => f.countdown == 0 && forall|k: int|
                0 <= k < cells@.len() ==> !flyover_cell_ok(
                    #[trigger] cells@[k],
                    locations@,
                    game_phase,
                    px,
                    plat,
                    heading,
                ),
            Some(latch) => f.countdown == 6 && exists|k: int|
                0 <= k < cells@.len() && #[trigger] cells@[k] == (cells@[k].0, Some(
                    latch.location_index,
                )) && flyover_cell_ok(cells@[k], locations@, game_phase, px, plat, heading) && (
                forall|j: int|
                    0 <= j < k ==> !flyover_cell_ok(
                        #[trigger] cells@[j],
                        locations@,
                        game_phase,
                        px,
                        plat,
                        heading,
                    )) && latch.bearing == ((angle_to_location_spec(
                    locations@[latch.location_index as int],
                    px,
                    plat,
                ) + 256 - heading + 0x20) % 256 - 0x20) * 0x20,
        },
{
    if countdown != 0 {
        return Flyover { countdown: countdown - 1, latch: None };
    }
    let mut k: usize = 0;
    while k < cells.len()
        invariant
            k <= cells@.len(),
            countdown == 0,
            forall|j: int|
                0 <= j < k ==> !flyover_cell_ok(
                    #[trigger] cells@[j],
                    locations@,
                    game_phase,
                    px,
                    plat,
                    heading,
                ),
        decreases cells@.len() - k,
    {
        let cell = cells[k];
        if let Some(bearing) = flyover_cell_check(cell, heading, locations, game_phase, px, plat) {
            let li = cell.1.unwrap();
            proof {
                assert(cells@[k as int] == (cells@[k as int].0, Some(li)));
            }
            return Flyover {
                countdown: 6,
                latch: Some(FlyoverLatch { location_index: li, bearing }),
            };
        }
        k = k + 1;
    }
    Flyover { countdown: 0, latch: None }
}

} // verus!
