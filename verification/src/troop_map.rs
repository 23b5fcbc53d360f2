//! The troop side of the full map: the spice-density colour table, the
//! troop a contact verb acts on, occupation orders and their refusal, the
//! prospector's destination picks, distances and the location popup's
//! battle reading, and the geometry of the popup panels and their XOR
//! open/close effects.
use vstd::prelude::*;
use crate::world::{Troop, Location, Equipment, troop_chain, collect_troop_chain, location_ptr, location_ptr_spec, location_index_from_ptr, location_index_spec};
use crate::game::GameState;
use crate::map_travel::Rect;
use crate::compass::{abs_int, tdiv};
use crate::troop_moves::location_is_atreides_spec;
use crate::troop_occupation::{reinit_troop_spec, reinit_events_spec};

verus! {

/// The colour a visible location paints its spice field on the density
/// map: the flat marker colour (0x75, 0x78 on a monotone display) until
/// prospected (status bit 6), then the density shade 0x50 + density / 16.
pub open spec fn density_colour(loc: Location, monotone: bool) -> u8 {
    if loc.status & 0x40 == 0 {
        if monotone {
            0x78
        } else {
            0x75
        }
    } else {
        (0x50 + loc.spice_density / 16) as u8
    }
}

/// The density colour table after the first `n` locations: every field
/// starts at the backdrop 0x70, and each visible (status bit 7 clear)
/// location paints its own field, later ones over earlier.
pub open spec fn density_xlat_spec(locations: Seq<Location>, monotone: bool, n: int) -> Seq<u8>
    decreases n,
{
    if n <= 0 {
        Seq::new(256, |i: int| 0x70u8)
    } else {
        let prev = density_xlat_spec(locations, monotone, n - 1);
        let loc = locations[n - 1];
        if loc.status & 0x80 != 0 {
            prev
        } else {
            prev.update(loc.spice_field_id as int, density_colour(loc, monotone))
        }
    }
}

/// The spice-density palette remap: the colour of every map field id.
pub fn build_spice_density_xlat(locations: &Vec<Location>, monotone: bool) -> (xlat: Vec<u8>)
    ensures
        xlat@ == density_xlat_spec(locations@, monotone, locations@.len() as int),
        xlat@.len() == 256,
{
    let mut xlat: Vec<u8> = Vec::new();
    let mut i: usize = 0;
    while i < 256
        invariant
            i <= 256,
            xlat@ == Seq::new(i as nat, |k: int| 0x70u8),
        decreases 256 - i,
    {
        xlat.push(0x70);
        proof {
            assert(xlat@ =~= Seq::new((i + 1) as nat, |k: int| 0x70u8));
        }
        i = i + 1;
    }
    proof {
        assert(xlat@ =~= density_xlat_spec(locations@, monotone, 0));
    }
    let mut n: usize = 0;
    while n < locations.len()
        invariant
            n <= locations@.len(),
            xlat@ == density_xlat_spec(locations@, monotone, n as int),
            xlat@.len() == 256,
        decreases locations@.len() - n,
    {
        let loc = locations[n];
        if loc.status & 0x80 == 0 {
            let colour: u8 = if loc.status & 0x40 == 0 {
                if monotone {
                    0x78
                } else {
                    0x75
                }
            } else {
                0x50 + loc.spice_density / 16
            };
            xlat.set(loc.spice_field_id as usize, colour);
        }
        n = n + 1;
    }
    xlat
}

/// The occupation `job` inside the class of occupation `occ` (bits 2-3).
pub fn troop_occupation_within_class(occ: u8, job: u8) -> (r: u8)
    ensures
        r == (occ & 0x0c) | job,
{
    (occ & 0x0c) | job
}

/// A popup panel placed next to the icon or marker at `(x, y)`: 106 px
/// wide and `h` tall, vertically centred on the point and kept within rows
/// 4 .. 0x94, to the right of the point unless that reaches x 0xd2, then
/// 130 px further left.
pub fn map_place_popup_panel(x: i16, y: i16, h: i16) -> (r: Rect)
    requires
        0 <= h <= 0x90,
        -0x1000 <= x <= 0x1000,
        -0x1000 <= y <= 0x1000,
    ensures
        ({
            let py0 = y - h / 2;
            let py = if py0 < 4 { 4 } else if py0 > 0x94 - h { 0x94 - h } else { py0 };
            let px0 = x + 0x0f;
            let px = if px0 >= 0xd2 { px0 - 0x82 } else { px0 };
            r == Rect {
                x0: px as i16,
                y0: py as i16,
                x1: (px + 0x6a) as i16,
                y1: (py + h) as i16,
            }
        }),
{
    let py0 = y - h / 2;
    let py = if py0 < 4 {
        4
    } else if py0 > 0x94 - h {
        0x94 - h
    } else {
        py0
    };
    let mut px = x + 0x0f;
    if px >= 0xd2 {
        px = px - 0x82;
    }
    Rect { x0: px, y0: py, x1: px + 0x6a, y1: py + h }
}

/// The XOR outline of the rect at `(x, y)` size `(w, h)` clamped to the map
/// area (x 4 .. 0x13c, y 4 .. 0x94): its corners, `None` when the clamp
/// leaves nothing.
pub fn xor_rect_outline_bounds(x: i16, y: i16, w: i16, h: i16) -> (r: Option<Rect>)
    requires
        -0x1000 <= x <= 0x1000,
        -0x1000 <= y <= 0x1000,
        -0x1000 <= w <= 0x1000,
        -0x1000 <= h <= 0x1000,
    ensures
        ({
            let cl = |v: int, lo: int, hi: int| if v < lo { lo } else if v > hi { hi } else { v };
            let x0 = cl(x as int, 4, 0x13c);
            let x1 = cl(x + w, 4, 0x13c);
            let y0 = cl(y as int, 4, 0x94);
            let y1 = cl(y + h, 4, 0x94);
            r == if x1 < x0 || y1 < y0 {
                None::<Rect>
            } else {
                Some(Rect { x0: x0 as i16, y0: y0 as i16, x1: x1 as i16, y1: y1 as i16 })
            }
        }),
{
    let x0 = clamp_i16(x, 4, 0x13c);
    let x1 = clamp_i16(x + w, 4, 0x13c);
    let y0 = clamp_i16(y, 4, 0x94);
    let y1 = clamp_i16(y + h, 4, 0x94);
    if x1 < x0 || y1 < y0 {
        return None;
    }
    Some(Rect { x0, y0, x1, y1 })
}

/// `v` clamped to `lo ..= hi`.
pub fn clamp_i16(v: i16, lo: i16, hi: i16) -> (r: i16)
    requires
        lo <= hi,
    ensures
        r == if v < lo { lo } else if v > hi { hi } else { v },
{
    if v < lo {
        lo
    } else if v > hi {
        hi
    } else {
        v
    }
}

/// The bracket zoom's staging from the panel rect and the target point:
/// the origin of a 20x20 box centred on the panel, the per-frame bracket
/// growth (an eighth of half the panel extent less 20, floored), and the
/// per-frame trail step from the target to that origin (an eighth,
/// truncated toward zero).
pub fn xor_bracket_anim_setup(panel: Rect, target: (i16, i16)) -> (s: (
    (i16, i16),
    (i16, i16),
    (i16, i16),
))
    requires
        -0x1000 <= panel.x0 <= 0x1000,
        -0x1000 <= panel.x1 <= 0x1000,
        -0x1000 <= panel.y0 <= 0x1000,
        -0x1000 <= panel.y1 <= 0x1000,
        -0x1000 <= target.0 <= 0x1000,
        -0x1000 <= target.1 <= 0x1000,
    ensures
        ({
            let hw = (panel.x1 - panel.x0 - 0x14) / 2;
            let hh = (panel.y1 - panel.y0 - 0x14) / 2;
            let cx = panel.x0 + hw;
            let cy = panel.y0 + hh;
            s == (
                (cx as i16, cy as i16),
                ((hw / 8) as i16, (hh / 8) as i16),
                (tdiv(cx - target.0, 8) as i16, tdiv(cy - target.1, 8) as i16),
            )
        }),
{
    let hw = crate::compass::half_i16(panel.x1 - panel.x0 - 0x14);
    let hh = crate::compass::half_i16(panel.y1 - panel.y0 - 0x14);
    let cx = panel.x0 + hw;
    let cy = panel.y0 + hh;
    let ex = floor_div8(hw);
    let ey = floor_div8(hh);
    let mx = crate::map_travel::tdiv_i32((cx - target.0) as i32, 8) as i16;
    let my = crate::map_travel::tdiv_i32((cy - target.1) as i32, 8) as i16;
    ((cx, cy), (ex, ey), (mx, my))
}

/// `v` divided by 8, rounded down (an arithmetic shift by 3).
pub fn floor_div8(v: i16) -> (r: i16)
    ensures
        r == (v as int) / 8,
{
    if v >= 0 {
        v / 8
    } else {
        -((7 - (v as i32)) / 8) as i16
    }
}

/// How a column of `count` equipment icons of height `sprite_h` fits in
/// `avail` pixels (see `equipment_column_layout`).
pub open spec fn column_layout_spec(count: u8, avail: i16, sprite_h: i16) -> (i16, i16) {
    let n = count as int;
    let full = sprite_h + 2;
    let s0: int = if avail - full > 0 { avail - full } else { 0 };
    let sq = if s0 / n > 2 { s0 / n } else { 2 };
    let av = avail as int;
    let (k, step) = if av / n >= full {
        (n, full)
    } else if sq > 2 {
        (n, sq)
    } else {
        (av / 2, 2int)
    };
    let k2 = if k < 1 { 1 } else { k };
    ((if k2 > n { n } else { k2 }) as i16, step as i16)
}

/// How a column of `count` equipment icons of height `sprite_h` fits in
/// `avail` pixels: `(icons drawn, vertical step)`. At the natural step
/// (height + 2) when they fit; else squeezed to what is left over the first
/// icon divided among them (at least 2), and when that is only 2, as many
/// as fit at step 2 (at least one, at most `count`).
pub fn equipment_column_layout(count: u8, avail: i16, sprite_h: i16) -> (r: (i16, i16))
    requires
        count >= 1,
        0 <= avail <= 0x1000,
        0 <= sprite_h <= 0x1000,
    ensures
        r == column_layout_spec(count, avail, sprite_h),
        1 <= r.0 <= count,
        r.1 >= 2,
        r.0 * r.1 <= avail + 2,
{
    let n = count as i16;
    let full = sprite_h + 2;
    if avail / n >= full {
        assert(n * full <= avail) by (nonlinear_arith)
            requires
                avail / n >= full,
                n >= 1,
                avail >= 0,
        ;
        return (n, full);
    }
    let s0 = if avail - full > 0 {
        avail - full
    } else {
        0
    };
    let sq = if s0 / n > 2 {
        s0 / n
    } else {
        2
    };
    if sq > 2 {
        assert(n * sq <= s0) by (nonlinear_arith)
            requires
                sq == s0 / n,
                n >= 1,
                s0 >= 0,
        ;
        return (n, sq);
    }
    let k = avail / 2;
    let k2 = if k < 1 {
        1
    } else {
        k
    };
    let kk = if k2 > n {
        n
    } else {
        k2
    };
    (kk, 2)
}

/// The battle tallies over the first `n` troops of a list: (Harkonnen
/// population, attacking population, attackers' `harvest_rate` sum,
/// attackers' `harvest_total` sum), the attackers being the non-Harkonnen
/// troops with occupation exactly 6.
pub open spec fn battle_sums(troops: Seq<Troop>, chain: Seq<usize>, n: int) -> (int, int, int, int)
    decreases n,
{
    if n <= 0 {
        (0, 0, 0, 0)
    } else {
        let p = battle_sums(troops, chain, n - 1);
        let t = troops[chain[n - 1] as int];
        if t.bitfield_10 & 0x80 != 0 {
            (p.0 + t.population, p.1, p.2, p.3)
        } else if t.occupation == 6 {
            (p.0, p.1 + t.population, p.2 + t.harvest_rate, p.3 + t.harvest_total)
        } else {
            p
        }
    }
}

/// The battle gauge of tallies `s`: each side's strength averaged against
/// its population on a 0..256 scale, the signed difference over the larger
/// strength, halved (floored) and centred on 0x80.
pub open spec fn battle_gauge_spec(s: (int, int, int, int)) -> u8 {
    let avg_e = if s.3 + s.1 == 0 { 0 } else { (s.3 * 256) / (s.3 + s.1) };
    let avg_c = if s.2 + s.0 == 0 { 0 } else { (s.2 * 256) / (s.2 + s.0) };
    let hi = if avg_e >= avg_c { avg_e } else { avg_c };
    let bal = if hi != 0 { tdiv((avg_e - avg_c) * 0x80, hi) / 2 } else { 0 };
    (bal + 0x80) as u8
}

/// The prospector's working queue of picked destinations.
pub struct ProspectorPicks {
    pub count: u8,
    pub queue: Vec<u16>,
}

impl ProspectorPicks {
    /// Start the picks over.
    pub fn give_new_destinations_for_prospectors(&mut self)
        requires
            old(self).queue@.len() == 3,
        ensures
            final(self).count == 0,
            final(self).queue@ == seq![0u16, 0u16, 0u16],
    {
        self.count = 0;
        self.queue.set(0, 0);
        self.queue.set(1, 0);
        self.queue.set(2, 0);
        assert(self.queue@ =~= seq![0u16, 0u16, 0u16]);
    }

    /// Check a destination picked for the troop the move verb acts on
    /// (`contact`): any troop but the prospector (troop 2) goes ahead; the
    /// prospector only takes a sietch (appearance below 0x20) or an
    /// Atreides-held location, which is queued (a full queue starting over
    /// first); its order goes ahead once three are queued.
    pub fn move_troop_validate_pick(
        &mut self,
        contact: Option<usize>,
        li: usize,
        locations: &Vec<Location>,
    ) -> (go: bool)
        requires
            old(self).queue@.len() == 3,
            old(self).count <= 3,
            li < locations@.len(),
            li < 0x800,
        ensures
            final(self).queue@.len() == 3,
            final(self).count <= 3,
            ({
                let loc = locations@[li as int];
                match contact {
                    None => !go && *final(self) == *old(self),
                    Some(ti) => if ti != 2 {
                        go && *final(self) == *old(self)
                    } else if loc.appearance >= 0x20 && !location_is_atreides_spec(loc) {
                        !go && *final(self) == *old(self)
                    } else {
                        let base = if old(self).count >= 3 {
                            seq![0u16, 0u16, 0u16]
                        } else {
                            old(self).queue@
                        };
                        let slot = if old(self).count >= 3 { 0 } else { old(self).count as int };
                        &&& final(self).queue@ == base.update(slot, location_ptr_spec(li as int))
                        &&& final(self).count == slot + 1
                        &&& go == (slot + 1 >= 3)
                    },
                }
            }),
    {
        let ti = match contact {
            None => {
                return false;
            },
            Some(ti) => ti,
        };
        if ti != 2 {
            return true;
        }
        let loc = locations[li];
        if loc.appearance >= 0x20 && loc.status & 8 == 0 {
            return false;
        }
        if self.count >= 3 {
            self.give_new_destinations_for_prospectors();
        }
        let slot = self.count as usize;
        self.queue.set(slot, location_ptr(li as u16));
        self.count = self.count + 1;
        self.count >= 3
    }
}

impl GameState {
    /// The troop the contact verbs act on: with the full map up (view mode
    /// bit 7) the map's selected troop (by id), otherwise the room's chosen
    /// Fremen-2 slot.
    pub fn contact_verb_troop(&self) -> (r: Option<usize>)
        requires
            self.wf(),
        ensures
            r == if self.vars.data_046eb < 0x80 {
                self.fremen2_troops@[(self.vars.selected_fremen2 % 8) as int]
            } else {
                let id = self.vars.map_selected_troop_id;
                if id == 0 || id as int > self.troops@.len() {
                    None::<usize>
                } else {
                    Some((id - 1) as usize)
                }
            },
    {
        if self.vars.data_046eb < 0x80 {
            let s = self.vars.selected_fremen2;
            assert(s & 7 == s % 8) by (bit_vector);
            return self.fremen2_troops[(s & 7) as usize];
        }
        let id = self.vars.map_selected_troop_id;
        if id == 0 {
            return None;
        }
        if (id as usize) <= self.troops.len() {
            Some((id - 1) as usize)
        } else {
            None
        }
    }

    /// The Chebyshev distance in map cells between the player at `(px,
    /// plat)` and troop `ti`'s gps position.
    pub fn troop_distance_from_player(&self, ti: usize, px: u16, plat: i16) -> (d: u16)
        requires
            self.wf(),
            ti < self.troops@.len(),
            -98 <= plat <= 98,
        ensures
            ({
                let t = self.troops@[ti as int];
                let dx = abs_int(t.gps_coordinates_1 - px) / (self.lng_units_per_cell@[plat
                    + 98] as int);
                let dy = abs_int(crate::world::signed16(t.gps_coordinates_2) - plat);
                d == if dx >= dy { dx } else { dy }
            }),
    {
        let per_cell = self.lng_units_per_cell[(plat + 98) as usize];
        let t = self.troops[ti];
        let gap: u16 = if t.gps_coordinates_1 >= px {
            t.gps_coordinates_1 - px
        } else {
            px - t.gps_coordinates_1
        };
        let dx = gap / per_cell;
        let dy = crate::map_travel::abs_diff_i16(crate::world::as_signed16(t.gps_coordinates_2), plat);
        if dx >= dy {
            dx
        } else {
            dy
        }
    }

    /// Location `li` has a battle going on: it is battle-flagged (status
    /// bit 1), or it is not Atreides-held and a non-Harkonnen troop on its
    /// list is attacking (occupation 6).
    pub open spec fn battle_at_spec(&self, li: int) -> bool {
        let loc = self.locations@[li];
        let chain = troop_chain(self.troops@, loc.troop_id, self.troops@.len() as nat);
        loc.status & 2 != 0 || (!location_is_atreides_spec(loc) && exists|k: int|
            0 <= k < chain.len() && #[trigger] self.troops@[chain[k] as int].occupation == 6
                && self.troops@[chain[k] as int].bitfield_10 & 0x80 == 0)
    }

    /// Whether location `li` has a battle going on (see `battle_at_spec`).
    pub fn location_has_battle(&self, li: usize) -> (b: bool)
        requires
            li < self.locations@.len(),
        ensures
            b == self.battle_at_spec(li as int),
    {
        if self.locations[li].status & 2 != 0 {
            return true;
        }
        if self.location_is_atreides(li) {
            return false;
        }
        let chain = collect_troop_chain(&self.troops, self.locations[li].troop_id);
        let mut k: usize = 0;
        while k < chain.len()
            invariant
                k <= chain@.len(),
                li < self.locations@.len(),
                !location_is_atreides_spec(self.locations@[li as int]),
                self.locations@[li as int].status & 2 == 0,
                chain@ == troop_chain(
                    self.troops@,
                    self.locations@[li as int].troop_id,
                    self.troops@.len() as nat,
                ),
                forall|j: int| 0 <= j < chain@.len() ==> (#[trigger] chain@[j] as int) < self.troops@.len(),
                forall|j: int|
                    0 <= j < k ==> !(#[trigger] self.troops@[chain@[j] as int].occupation == 6
                        && self.troops@[chain@[j] as int].bitfield_10 & 0x80 == 0),
            decreases chain@.len() - k,
        {
            let t = self.troops[chain[k]];
            assert(6u8 & 0x20u8 == 0u8) by (bit_vector);
            if t.occupation & 0x20 == 0 && t.bitfield_10 & 0x80 == 0 && t.occupation == 6 {
                assert(self.troops@[chain@[k as int] as int].occupation == 6);
                return true;
            }
            k = k + 1;
        }
        false
    }

    /// The popup class of location `li` (0 = full, 1 = battle, 2 = header
    /// only): a battle makes it 1; an Atreides-held or undiscovered (status
    /// bit 4 clear) location is 2; otherwise its type string decides
    /// (`type_offset` 3 gives 0, 2 gives 1, anything else 2).
    pub fn location_class(&self, li: usize, type_offset: u16) -> (c: u8)
        requires
            li < self.locations@.len(),
        ensures
            ({
                let loc = self.locations@[li as int];
                c == if self.battle_at_spec(li as int) {
                    1u8
                } else if location_is_atreides_spec(loc) || loc.status & 0x10 == 0 {
                    2
                } else if type_offset == 3 {
                    0
                } else if type_offset == 2 {
                    1
                } else {
                    2
                }
            }),
    {
        if self.location_has_battle(li) {
            return 1;
        }
        if self.location_is_atreides(li) {
            return 2;
        }
        if self.locations[li].status & 0x10 == 0 {
            return 2;
        }
        match type_offset {
            3 => 0,
            2 => 1,
            _ => 2,
        }
    }

    /// The battle gauge of location `li` (0..0xff, 0x80 = even) over the
    /// troops on its list (see `battle_gauge_spec`).
    pub fn location_battle_gauge(&self, li: usize) -> (g: u8)
        requires
            self.wf(),
            li < self.locations@.len(),
        ensures
            ({
                let chain = troop_chain(
                    self.troops@,
                    self.locations@[li as int].troop_id,
                    self.troops@.len() as nat,
                );
                g == battle_gauge_spec(battle_sums(self.troops@, chain, chain.len() as int))
            }),
    {
        let chain = collect_troop_chain(&self.troops, self.locations[li].troop_id);
        proof {
            crate::world::lemma_troop_chain_in_range(
                self.troops@,
                self.locations@[li as int].troop_id,
                self.troops@.len() as nat,
            );
        }
        let mut hark_pop: u32 = 0;
        let mut attacker_pop: u32 = 0;
        let mut sum_c: u32 = 0;
        let mut sum_e: u32 = 0;
        let mut k: usize = 0;
        while k < chain.len()
            invariant
                k <= chain@.len(),
                chain@.len() <= 255,
                forall|j: int| 0 <= j < chain@.len() ==> (#[trigger] chain@[j] as int) < self.troops@.len(),
                (hark_pop as int, attacker_pop as int, sum_c as int, sum_e as int) == battle_sums(
                    self.troops@,
                    chain@,
                    k as int,
                ),
                hark_pop <= 255 * k,
                attacker_pop <= 255 * k,
                sum_c <= 0xffff * k,
                sum_e <= 0xffff * k,
            decreases chain@.len() - k,
        {
            let t = self.troops[chain[k]];
            let pop = t.population as u32;
            if t.bitfield_10 & 0x80 != 0 {
                hark_pop = hark_pop + pop;
            } else if t.occupation == 6 {
                attacker_pop = attacker_pop + pop;
                sum_c = sum_c + t.harvest_rate as u32;
                sum_e = sum_e + t.harvest_total as u32;
            }
            k = k + 1;
        }
        let avg_e: u32 = if sum_e + attacker_pop == 0 {
            0
        } else {
            assert(sum_e * 256 <= 0xffff * 255 * 256) by (nonlinear_arith)
                requires
                    sum_e <= 0xffff * 255,
            ;
            assert((sum_e * 256) / (sum_e + attacker_pop) <= 256) by (nonlinear_arith)
                requires
                    sum_e + attacker_pop > 0,
            ;
            (sum_e * 256) / (sum_e + attacker_pop)
        };
        let avg_c: u32 = if sum_c + hark_pop == 0 {
            0
        } else {
            assert(sum_c * 256 <= 0xffff * 255 * 256) by (nonlinear_arith)
                requires
                    sum_c <= 0xffff * 255,
            ;
            assert((sum_c * 256) / (sum_c + hark_pop) <= 256) by (nonlinear_arith)
                requires
                    sum_c + hark_pop > 0,
            ;
            (sum_c * 256) / (sum_c + hark_pop)
        };
        let hi: i32 = if avg_e >= avg_c {
            avg_e as i32
        } else {
            avg_c as i32
        };
        let diff = avg_e as i32 - avg_c as i32;
        let bal: i32 = if hi != 0 {
            let q = crate::map_travel::tdiv_i32(diff * 0x80, hi);
            assert(-128 <= q <= 128) by (nonlinear_arith)
                requires
                    abs_int(q as int) == abs_int(diff * 0x80) / abs_int(hi as int),
                    abs_int(diff as int) <= hi,
                    hi > 0,
            ;
            floor_half_i32(q)
        } else {
            0
        };
        (bal + 0x80) as u8
    }

    /// The first half of an occupation order for troop `ti`: an unchanged
    /// occupation nibble does nothing (`None`); otherwise the new occupation
    /// is set and the old occupation byte and speech word come back, for
    /// the refusal to restore once the troop has reacted.
    pub fn troop_occupation_verb_begin(&mut self, ti: usize, new: u8) -> (saved: Option<(u8, u16)>)
        requires
            old(self).troop_placed(ti as int),
        ensures
            ({
                let t = old(self).troops@[ti as int];
                let loc = old(self).locations@[old(self).troop_loc(ti as int)];
                if t.occupation % 16 == new {
                    saved.is_none() && *final(self) == *old(self)
                } else {
                    &&& saved == Some((t.occupation, t.dissatisfaction_and_speech))
                    &&& final(self).troops@ == old(self).troops@.update(
                        ti as int,
                        reinit_troop_spec(t, loc, new, old(self).vars.game_time),
                    )
                    &&& final(self).events@ == old(self).events@ + reinit_events_spec(
                        ti,
                        t,
                        loc,
                        new,
                        old(self).vars.map_selected_troop_id,
                    )
                    &&& final(self).keeps_tables(old(self))
                }
            }),
    {
        let t = self.troops[ti];
        if crate::world::low_nibble(t.occupation) == new {
            return None;
        }
        self.troop_set_occupation(ti, new);
        Some((t.occupation, t.dissatisfaction_and_speech))
    }

    /// The second half: an accepted order takes the harvester (equipment
    /// bit 7) from a troop now outside the spice class; a refused one
    /// restores the speech word and re-applies the old occupation byte.
    pub fn troop_occupation_verb_finish(&mut self, ti: usize, saved: (u8, u16), accepted: bool)
        requires
            old(self).troop_placed(ti as int),
        ensures
            final(self).troops@.len() == old(self).troops@.len(),
            final(self).locations@ == old(self).locations@,
            final(self).vars == old(self).vars,
            accepted ==> final(self).troops@ == old(self).troops@.update(
                ti as int,
                if (old(self).troops@[ti as int].occupation % 16) / 4 != 0 {
                    Troop {
                        equipment: old(self).troops@[ti as int].equipment & 0x7f,
                        ..old(self).troops@[ti as int]
                    }
                } else {
                    old(self).troops@[ti as int]
                },
            ),
            !accepted ==> {
                let t1 = Troop {
                    dissatisfaction_and_speech: saved.1,
                    ..old(self).troops@[ti as int]
                };
                let loc = old(self).locations@[old(self).troop_loc(ti as int)];
                &&& final(self).troops@ == old(self).troops@.update(
                    ti as int,
                    if t1.occupation % 16 == saved.0 {
                        t1
                    } else {
                        reinit_troop_spec(t1, loc, saved.0, old(self).vars.game_time)
                    },
                )
                &&& final(self).events@ == if t1.occupation % 16 == saved.0 {
                    old(self).events@
                } else {
                    old(self).events@ + reinit_events_spec(
                        ti,
                        t1,
                        loc,
                        saved.0,
                        old(self).vars.map_selected_troop_id,
                    )
                }
            },
            accepted ==> final(self).events@ == old(self).events@,
            final(self).keeps_tables(old(self)),
    {
        if accepted {
            if self.troop_get_occupation_bits_2_and_3(ti) != 0 {
                let mut w = self.troops[ti];
                w.equipment = w.equipment & 0x7f;
                self.set_troop(ti, w);
            }
        } else {
            let mut w = self.troops[ti];
            w.dissatisfaction_and_speech = saved.1;
            self.set_troop(ti, w);
            self.troop_set_occupation(ti, saved.0);
        }
    }
}

impl GameState {
    /// The end of a flight at its destination: an ornithopter flight (mode
    /// flags & 3 == 1) parks its ornithopter at the destination (one more
    /// there, 8-bit), the destination pointer clears, and the destination's
    /// map coordinates come back for the arrival check.
    pub fn travel_finish_at_destination(
        &mut self,
        travel: &mut crate::map_travel::TravelMap,
        mode_flags: u8,
    ) -> (c: (u16, u16))
        requires
            location_index_spec(old(travel).travel_destination_ptr) < old(self).locations@.len(),
        ensures
            ({
                let li = location_index_spec(old(travel).travel_destination_ptr);
                let loc = old(self).locations@[li];
                &&& c == (crate::world::unsigned16(loc.map_x), crate::world::unsigned16(loc.map_y))
                &&& final(self).locations@ == if mode_flags & 3 == 1 {
                    old(self).locations@.update(
                        li,
                        Location {
                            equipment: Equipment {
                                ornithopters: ((loc.equipment.ornithopters + 1) % 256) as u8,
                                ..loc.equipment
                            },
                            ..loc
                        },
                    )
                } else {
                    old(self).locations@
                }
                &&& *final(travel) == (crate::map_travel::TravelMap {
                    travel_destination_ptr: 0,
                    ..*old(travel)
                })
                &&& final(self).troops@ == old(self).troops@
                &&& final(self).vars == old(self).vars
            }),
    {
        let li = location_index_from_ptr(travel.travel_destination_ptr);
        if mode_flags & 3 == 1 {
            let mut loc = self.locations[li];
            loc.equipment.ornithopters = loc.equipment.ornithopters.wrapping_add(1);
            self.set_location(li, loc);
        }
        let loc = self.locations[li];
        travel.travel_destination_ptr = 0;
        (crate::world::as_unsigned16(loc.map_x), crate::world::as_unsigned16(loc.map_y))
    }
}

/// `v` halved, rounded down (an arithmetic shift by 1).
pub fn floor_half_i32(v: i32) -> (r: i32)
    requires
        -0x1000 <= v <= 0x1000,
    ensures
        r == (v as int) / 2,
{
    if v >= 0 {
        v / 2
    } else {
        -((1 - v) / 2)
    }
}

} // verus!
