//! Troop movement: the per-period travel step of a moving troop
//! (occupation bit 6), its arrival, the location lists troops are linked
//! into and out of, the equipment they carry between locations, move
//! orders, rallying, and the per-period walk over the troop table.
use vstd::prelude::*;
use crate::world::{
    Troop, Location, Equipment, location_index_from_ptr, location_index_spec, low_nibble, troop_chain, collect_troop_chain, abs_i16, signed16, unsigned16, as_signed16, as_unsigned16,
};
use crate::game::{GameState, GameEvent, GameVars};
use crate::troop_occupation::{reinit_troop_spec, reinit_events_spec};

verus! {

/// The row of the per-latitude table a latitude reads (clamped to the
/// table's -98..98 range).
pub open spec fn lat_row_spec(lat: i16) -> int {
    if lat < -98 {
        0
    } else if lat > 98 {
        196
    } else {
        lat + 98
    }
}

/// One sub-step toward the destination: `(dlng, dlat)` to add to the gps
/// position, `(0, 0)` meaning arrived. The longitude gap is counted in map
/// cells of `per_cell` units; arrival is a dominant-axis distance below 7.
/// Longitude-dominant: one cell toward the target, plus a latitude row on a
/// set random bit; latitude-dominant: one row, plus a cell on a set random
/// bit (a sub-cell longitude gap is snapped whole).
pub open spec fn substep_delta_spec(t: Troop, loc: Location, per_cell: u16, diagonal: bool) -> (
    i16,
    i16,
) {
    let lat = signed16(t.gps_coordinates_2);
    let dlat_total = loc.map_y as int - lat as int;
    let dlat_w: i16 = if dlat_total > 32767 {
        (dlat_total - 65536) as i16
    } else if dlat_total < -32768 {
        (dlat_total + 65536) as i16
    } else {
        dlat_total as i16
    };
    let lat_sign: i16 = if dlat_w >= 0 { 1i16 } else { -1i16 };
    let alat: int = if dlat_w >= 0 { dlat_w as int } else { -(dlat_w as int) };
    let dlng_total = signed16(
        ((unsigned16(loc.map_x) as int - t.gps_coordinates_1 as int + 0x10000) % 0x10000) as u16,
    );
    let alng: int = if dlng_total >= 0 { dlng_total as int } else { -(dlng_total as int) };
    let cells = alng / per_cell as int;
    let step_i: i16 = signed16(per_cell);
    let lng_step: i16 = if dlng_total >= 0 {
        step_i
    } else if step_i == -32768 {
        step_i
    } else {
        (0 - step_i) as i16
    };
    if cells >= alat {
        if cells < 7 {
            (0, 0)
        } else {
            let dlat_step: i16 = if alat == 0 { 0 } else { lat_sign };
            (lng_step, if diagonal { dlat_step } else { 0 })
        }
    } else {
        if alat < 7 {
            (0, 0)
        } else if cells == 0 {
            (dlng_total, lat_sign)
        } else {
            (if diagonal { lng_step } else { 0 }, lat_sign)
        }
    }
}

/// Whether the sub-step of `substep_delta_spec` draws a random bit: it
/// does where a diagonal step is possible (a dominant axis at least 7
/// away, and for a latitude-dominant step a longitude gap of a cell or
/// more).
pub open spec fn substep_draws_spec(t: Troop, loc: Location, per_cell: u16) -> bool {
    let lat = signed16(t.gps_coordinates_2);
    let dlat_total = loc.map_y as int - lat as int;
    let dlat_w: i16 = if dlat_total > 32767 {
        (dlat_total - 65536) as i16
    } else if dlat_total < -32768 {
        (dlat_total + 65536) as i16
    } else {
        dlat_total as i16
    };
    let alat: int = if dlat_w >= 0 { dlat_w as int } else { -(dlat_w as int) };
    let dlng_total = signed16(
        ((unsigned16(loc.map_x) as int - t.gps_coordinates_1 as int + 0x10000) % 0x10000) as u16,
    );
    let alng: int = if dlng_total >= 0 { dlng_total as int } else { -(dlng_total as int) };
    let cells = alng / per_cell as int;
    if cells >= alat {
        cells >= 7
    } else {
        alat >= 7 && cells != 0
    }
}

/// The random-bit cursor after a sub-step from `t`.
pub open spec fn substep_cursor_spec(t: Troop, loc: Location, per_cell: u16, bits: Seq<bool>, c: usize) -> usize {
    if substep_draws_spec(t, loc, per_cell) && c < bits.len() {
        (c + 1) as usize
    } else {
        c
    }
}

/// Troop `t` after one sub-step `d` on its gps position (16-bit wrapping).
pub open spec fn substep_moved(t: Troop, d: (i16, i16)) -> Troop {
    Troop {
        gps_coordinates_1: ((t.gps_coordinates_1 + unsigned16(d.0)) % 0x10000) as u16,
        gps_coordinates_2: ((t.gps_coordinates_2 + unsigned16(d.1)) % 0x10000) as u16,
        ..t
    }
}

/// Up to `n` sub-steps of troop `t` toward `loc`, with the per-latitude
/// cell widths `per_cell` and the random bits `bits` read from cursor `c`:
/// the troop after the walk, the cursor, and whether it arrived (a zero
/// sub-step, which ends the walk with the troop where it stood).
#[verifier::opaque]
pub open spec fn substep_walk(
    t: Troop,
    loc: Location,
    per_cell: Seq<u16>,
    bits: Seq<bool>,
    c: usize,
    n: nat,
) -> (Troop, usize, bool)
    decreases n,
{
    if n == 0 {
        (t, c, false)
    } else {
        let per = per_cell[lat_row_spec(signed16(t.gps_coordinates_2))];
        let bit = c < bits.len() && bits[c as int];
        let d = substep_delta_spec(t, loc, per, bit);
        let c2 = substep_cursor_spec(t, loc, per, bits, c);
        if d == (0i16, 0i16) {
            (t, c2, true)
        } else {
            substep_walk(substep_moved(t, d), loc, per_cell, bits, c2, (n - 1) as nat)
        }
    }
}

/// One step of `substep_walk` unfolded.
pub proof fn lemma_substep_walk_unfold(
    t: Troop,
    loc: Location,
    per_cell: Seq<u16>,
    bits: Seq<bool>,
    c: usize,
    n: nat,
    d: (i16, i16),
    c2: usize,
)
    requires
        n > 0,
        d == substep_delta_spec(
            t,
            loc,
            per_cell[lat_row_spec(signed16(t.gps_coordinates_2))],
            c < bits.len() && bits[c as int],
        ),
        c2 == substep_cursor_spec(
            t,
            loc,
            per_cell[lat_row_spec(signed16(t.gps_coordinates_2))],
            bits,
            c,
        ),
    ensures
        substep_walk(t, loc, per_cell, bits, c, n) == if d == (0i16, 0i16) {
            (t, c2, true)
        } else {
            substep_walk(substep_moved(t, d), loc, per_cell, bits, c2, (n - 1) as nat)
        },
{
    reveal(substep_walk);
}

/// A walk of no steps stays put.
pub proof fn lemma_substep_walk_zero(t: Troop, loc: Location, per_cell: Seq<u16>, bits: Seq<bool>, c: usize)
    ensures
        substep_walk(t, loc, per_cell, bits, c, 0) == (t, c, false),
{
    reveal(substep_walk);
}

/// The lowest position in `start+1 ..= 30` that no troop of `chain` holds,
/// searching from `p`; 30 when the bank is full.
pub open spec fn first_free_position(troops: Seq<Troop>, chain: Seq<usize>, p: int) -> u8
    decreases 31 - p,
{
    if p > 30 {
        30
    } else if exists|k: int| 0 <= k < chain.len() && troops[chain[k] as int].position == p {
        first_free_position(troops, chain, p + 1)
    } else {
        p as u8
    }
}

/// A location record whose equipment counts gained (or lost, clamped at 0)
/// one unit in every slot the troop's equipment bitmask holds.
pub open spec fn add_equipment_spec(e: Equipment, mask: u8, k: int) -> Equipment
    decreases 7 - k,
{
    if k >= 7 || k < 0 {
        e
    } else {
        let e2 = if mask & (0x80u8 >> k as u8) != 0 {
            e.with_slot(k, ((e.slot_spec(k) + 1) % 256) as u8)
        } else {
            e
        };
        add_equipment_spec(e2, mask, k + 1)
    }
}

pub open spec fn remove_equipment_spec(e: Equipment, mask: u8, k: int) -> Equipment
    decreases 7 - k,
{
    if k >= 7 || k < 0 {
        e
    } else {
        let e2 = if mask & (0x80u8 >> k as u8) != 0 {
            e.with_slot(
                k,
                if e.slot_spec(k) > 0 {
                    (e.slot_spec(k) - 1) as u8
                } else {
                    0
                },
            )
        } else {
            e
        };
        remove_equipment_spec(e2, mask, k + 1)
    }
}

/// Two troop records that differ at most in their list link.
pub open spec fn same_but_link(a: Troop, b: Troop) -> bool {
    a == Troop { next_troop_id: a.next_troop_id, ..b }
}

/// Two troop records that differ at most in their list link and their
/// position slot.
pub open spec fn same_but_slot(a: Troop, b: Troop) -> bool {
    a == Troop { position: a.position, next_troop_id: a.next_troop_id, ..b }
}

/// A location counts as Atreides-held when its status has bit 3.
pub open spec fn location_is_atreides_spec(loc: Location) -> bool {
    loc.status & 8 != 0
}

/// A rallied resident (occupation below 0x80, not captured) alerted by an
/// arrival: a spice prospector (1) stops working, a defender (6) stays as
/// it is, and anyone else standing at a location of the table is
/// re-assigned to defending.
pub open spec fn alert_resident_spec(t: Troop, locs: Seq<Location>, game_time: u16) -> Troop {
    let li = location_index_spec(t.offset_of_location);
    if t.occupation < 0x80 && t.occupation & 0x20 == 0 {
        if t.occupation % 16 == 1 {
            Troop { occupation: t.occupation | 0x10, ..t }
        } else if t.occupation % 16 != 6 && li < locs.len() {
            reinit_troop_spec(t, locs[li], 6, game_time)
        } else {
            t
        }
    } else {
        t
    }
}

/// The requests alerting resident `t` (troop `tj`) leaves: those of its
/// re-assignment to defending, when it gets one.
pub open spec fn alert_events_of(t: Troop, tj: usize, locs: Seq<Location>, game_time: u16, selected: u8) -> Seq<GameEvent> {
    let li = location_index_spec(t.offset_of_location);
    if t.occupation < 0x80 && t.occupation & 0x20 == 0 && t.occupation % 16 != 1 && t.occupation % 16
        != 6 && li < locs.len() {
        reinit_events_spec(tj, t, locs[li], 6, selected)
    } else {
        Seq::empty()
    }
}

/// The requests of alerting the first `k` troops of list `c` in order: a
/// troop met again is already alerted and leaves none.
pub open spec fn alert_events(
    troops: Seq<Troop>,
    c: Seq<usize>,
    locs: Seq<Location>,
    game_time: u16,
    selected: u8,
    k: int,
) -> Seq<GameEvent>
    decreases k,
{
    if k <= 0 {
        Seq::empty()
    } else {
        let prev = alert_events(troops, c, locs, game_time, selected, k - 1);
        let tj = c[k - 1];
        if c.subrange(0, k - 1).contains(tj) {
            prev
        } else {
            prev + alert_events_of(troops[tj as int], tj, locs, game_time, selected)
        }
    }
}

/// An alerted resident has nothing left to be alerted about.
pub proof fn lemma_alert_no_events(t: Troop, tj: usize, locs: Seq<Location>, game_time: u16, selected: u8)
    ensures
        alert_events_of(alert_resident_spec(t, locs, game_time), tj, locs, game_time, selected)
            == Seq::<GameEvent>::empty(),
        ({
            let a = alert_resident_spec(t, locs, game_time);
            let nib = a.occupation % 16;
            !(a.occupation < 0x80 && a.occupation & 0x20 == 0 && nib != 1 && nib != 6
                && location_index_spec(a.offset_of_location) < locs.len())
        }),
{
    lemma_alert_resident(t, locs, game_time);
}

/// Alerting a resident twice is alerting it once, and an alerted troop
/// keeps its location pointer, its gps position, and a cleared moving bit.
pub proof fn lemma_alert_resident(t: Troop, locs: Seq<Location>, game_time: u16)
    ensures
        alert_resident_spec(alert_resident_spec(t, locs, game_time), locs, game_time)
            == alert_resident_spec(t, locs, game_time),
        alert_resident_spec(t, locs, game_time).offset_of_location == t.offset_of_location,
        alert_resident_spec(t, locs, game_time).position == t.position,
        alert_resident_spec(t, locs, game_time).next_troop_id == t.next_troop_id,
        alert_resident_spec(t, locs, game_time).equipment == t.equipment,
        alert_resident_spec(t, locs, game_time).gps_coordinates_1 == t.gps_coordinates_1,
        alert_resident_spec(t, locs, game_time).gps_coordinates_2 == t.gps_coordinates_2,
        t.occupation & 0x40 == 0 ==> alert_resident_spec(t, locs, game_time).occupation & 0x40
            == 0,
        (t.occupation < 0x80 && t.occupation & 0x20 == 0 && t.occupation % 16 == 1) ==> {
            let a = alert_resident_spec(t, locs, game_time).occupation;
            a < 0x80 && a & 0x20 == 0 && a % 16 == 1
        },
        (t.occupation < 0x80 && t.occupation & 0x20 == 0 && t.occupation % 16 != 1 && t.occupation
            % 16 != 6 && location_index_spec(t.offset_of_location) < locs.len())
            ==> alert_resident_spec(t, locs, game_time).occupation == 6,
{
    let o = t.occupation;
    let li = location_index_spec(t.offset_of_location);
    if o < 0x80 && o & 0x20 == 0 {
        if o % 16 == 1 {
            let o2 = o | 0x10;
            assert(o2 < 0x80 && o2 & 0x20 == 0 && o2 % 16 == 1 && o2 | 0x10 == o2 && (o & 0x40
                == 0 ==> o2 & 0x40 == 0)) by (bit_vector)
                requires
                    o < 0x80,
                    o & 0x20 == 0,
                    o % 16 == 1,
                    o2 == o | 0x10,
            ;
        } else if o % 16 != 6 && li < locs.len() {
            assert(6u8 & 0x10 == 0 && 6u8 & 0x20 == 0 && 6u8 & 0x40 == 0) by (bit_vector);
            let r = reinit_troop_spec(t, locs[li], 6, game_time);
            assert(r.occupation == 6);
        }
    }
}

/// The location table `new` differs from `old` at most in the list heads.
pub open spec fn only_heads_changed(new: Seq<Location>, old: Seq<Location>) -> bool {
    &&& new.len() == old.len()
    &&& forall|l: int|
        0 <= l < old.len() ==> #[trigger] new[l] == Location { troop_id: new[l].troop_id, ..old[l] }
}

/// The first troop of `chain` whose link names troop id `id`: the
/// predecessor of that troop on the list.
pub open spec fn first_linking_to(troops: Seq<Troop>, chain: Seq<usize>, id: u8) -> Option<usize>
    decreases chain.len(),
{
    if chain.len() == 0 {
        None
    } else if troops[chain[0] as int].next_troop_id == id {
        Some(chain[0])
    } else {
        first_linking_to(troops, chain.drop_first(), id)
    }
}

/// The first troop of `chain` that is not Harkonnen (bitfield bit 7) and
/// is captured (occupation bit 5).
pub open spec fn first_captured_outsider(troops: Seq<Troop>, chain: Seq<usize>) -> Option<usize>
    decreases chain.len(),
{
    if chain.len() == 0 {
        None
    } else if troops[chain[0] as int].bitfield_10 & 0x80 == 0 && troops[chain[0] as int].occupation
        & 0x20 != 0 {
        Some(chain[0])
    } else {
        first_captured_outsider(troops, chain.drop_first())
    }
}

impl GameState {
    /// The tables and sizes the movement code keeps.
    pub open spec fn moves_keep(&self, old: &GameState) -> bool {
        &&& self.troops@.len() == old.troops@.len()
        &&& self.locations@.len() == old.locations@.len()
        &&& self.room_persons@ == old.room_persons@
        &&& self.fremen2_troops@ == old.fremen2_troops@
        &&& self.lng_units_per_cell@ == old.lng_units_per_cell@
        &&& self.rand_bits@ == old.rand_bits@
        &&& self.visible_location_markers@ == old.visible_location_markers@
        &&& self.string_subst_id_table@ == old.string_subst_id_table@
        &&& self.prospector_destinations@.len() == old.prospector_destinations@.len()
        &&& self.events@.len() >= old.events@.len()
    }

    /// `self` is `old` with troop `ti` taken out of its location's list
    /// (see `troop_unlink_from_location_chain`): the head moves on to its
    /// successor, or a predecessor takes over its link, and its own link is
    /// cleared. A moving troop (occupation bit 6) is in no list; a pointer
    /// that names no location leaves the lists alone.
    pub open spec fn is_unlink_of(&self, old: &GameState, ti: int) -> bool {
        let t = old.troops@[ti];
        let li = location_index_spec(t.offset_of_location);
        let linked = t.occupation & 0x40 == 0 && li < old.locations@.len();
        let head = old.locations@[li].troop_id;
        &&& self.troops@.len() == old.troops@.len()
        &&& self.troops@[ti] == Troop { next_troop_id: 0, ..t }
        &&& (linked && head == t.troop_id ==> self.locations@ == old.locations@.update(
            li,
            Location { troop_id: t.next_troop_id, ..old.locations@[li] },
        ))
        &&& (!(linked && head == t.troop_id) ==> self.locations@ == old.locations@)
        &&& self.troops@ == if linked && head != t.troop_id {
            match first_linking_to(
                old.troops@,
                troop_chain(old.troops@, head, old.troops@.len() as nat),
                t.troop_id,
            ) {
                Some(p) => if p != ti {
                    old.troops@.update(
                        p as int,
                        Troop { next_troop_id: t.next_troop_id, ..old.troops@[p as int] },
                    )
                } else {
                    old.troops@
                },
                None => old.troops@,
            }
        } else {
            old.troops@
        }.update(ti, Troop { next_troop_id: 0, ..t })
        &&& forall|j: int|
            0 <= j < old.troops@.len() && j != ti ==> {
                ||| #[trigger] self.troops@[j] == old.troops@[j]
                ||| (linked && old.troops@[j].next_troop_id == t.troop_id && self.troops@[j]
                    == Troop { next_troop_id: t.next_troop_id, ..old.troops@[j] })
            }
        &&& self.same_tables(old)
        &&& self.string_subst_id_table@ == old.string_subst_id_table@
        &&& self.troop_condit == old.troop_condit
        &&& self.location_condit == old.location_condit
        &&& self.vars == old.vars
        &&& self.events@ == old.events@
    }

    /// `self` is `old` with troop `ti` appended to location `li`'s list (see
    /// `troop_link_into_location`): an empty list takes it as the head at
    /// position 1 (9 for a Harkonnen troop); otherwise it links after the
    /// tail and takes the lowest free position of its bank.
    pub open spec fn is_link_of(&self, old: &GameState, ti: int, li: int) -> bool {
        let t = old.troops@[ti];
        let harkonnen = t.bitfield_10 & 0x80 != 0;
        let head = old.locations@[li].troop_id;
        let chain = troop_chain(old.troops@, head, old.troops@.len() as nat);
        &&& self.troops@.len() == old.troops@.len()
        &&& if head == 0 {
            &&& self.locations@ == old.locations@.update(
                li,
                Location { troop_id: t.troop_id, ..old.locations@[li] },
            )
            &&& self.troops@ == old.troops@.update(
                ti,
                Troop { position: if harkonnen { 9 } else { 1 }, ..t },
            )
        } else {
            &&& self.locations@ == old.locations@
            &&& self.troops@[ti] == Troop {
                position: first_free_position(old.troops@, chain, if harkonnen { 9 } else { 1 }),
                next_troop_id: if chain.len() > 0 && chain.last() == ti {
                    t.troop_id
                } else {
                    t.next_troop_id
                },
                ..t
            }
            &&& (chain.len() > 0 && chain.last() != ti ==> self.troops@[chain.last() as int]
                == Troop { next_troop_id: t.troop_id, ..old.troops@[chain.last() as int] })
            &&& forall|j: int|
                0 <= j < old.troops@.len() && j != ti && (chain.len() == 0 || j != chain.last())
                    ==> #[trigger] self.troops@[j] == old.troops@[j]
        }
        &&& self.same_tables(old)
        &&& self.string_subst_id_table@ == old.string_subst_id_table@
        &&& self.troop_condit == old.troop_condit
        &&& self.location_condit == old.location_condit
        &&& self.vars == old.vars
        &&& self.events@ == old.events@
    }

    /// `self` is `old` with troop `ti` out of play (see
    /// `troop_remove_from_play`): unlinked, parked at the sentinel pointer
    /// 0x0fbc with occupation 0xa0 and no population, its icon dropped.
    pub open spec fn is_removal_of(&self, old: &GameState, ti: int) -> bool {
        let t = old.troops@[ti];
        &&& self.wf()
        &&& self.moves_keep(old)
        &&& self.troops@[ti] == Troop {
            next_troop_id: 0,
            offset_of_location: 0x0fbc,
            occupation: 0xa0,
            population: 0,
            ..t
        }
        &&& self.events@ == old.events@.push(GameEvent::RemoveTroopIcon(ti as usize))
        &&& self.vars == old.vars
        &&& only_heads_changed(self.locations@, old.locations@)
        &&& forall|j: int|
            0 <= j < old.troops@.len() && j != ti ==> same_but_link(
                #[trigger] self.troops@[j],
                old.troops@[j],
            )
        &&& exists|u: GameState|
            #[trigger] u.is_unlink_of(old, ti) && {
                &&& self.troops@ == u.troops@.update(
                    ti,
                    Troop {
                        offset_of_location: 0x0fbc,
                        occupation: 0xa0,
                        population: 0,
                        ..u.troops@[ti]
                    },
                )
                &&& self.locations@ == u.locations@
                &&& self.same_rest(&u)
                &&& self.vars == u.vars
                &&& self.events@ == u.events@.push(GameEvent::RemoveTroopIcon(ti as usize))
            }
    }

    /// `self` is `old` after the position-bank check of troop `ti` at
    /// location `li` (see `troop_fix_position_bank`): nothing for a
    /// Harkonnen troop or one at position 8 or below; otherwise the troop
    /// is unlinked, the list's first captured non-Harkonnen troop (if not
    /// the troop itself) leaves play, and the troop is linked in again.
    pub open spec fn is_bank_fix_of(&self, old: &GameState, ti: int, li: int) -> bool {
        let t = old.troops@[ti];
        if t.bitfield_10 & 0x80 != 0 || t.position <= 8 {
            *self == *old
        } else {
            exists|unlinked: GameState, cleared: GameState|
                #![trigger unlinked.is_unlink_of(old, ti), self.is_link_of(&cleared, ti, li)]
                {
                    &&& unlinked.is_unlink_of(old, ti)
                    &&& match unlinked.bank_victim(li) {
                        Some(v) => if v != ti {
                            cleared.is_removal_of(&unlinked, v as int)
                        } else {
                            cleared == unlinked
                        },
                        None => cleared == unlinked,
                    }
                    &&& self.is_link_of(&cleared, ti, li)
                }
        }
    }

    /// The troop the position-bank re-roll of location `li` takes out of
    /// play: the first troop on the list that is neither Harkonnen
    /// (bitfield bit 7) nor free (occupation bit 5 set: captured).
    pub open spec fn bank_victim(&self, li: int) -> Option<usize> {
        first_captured_outsider(
            self.troops@,
            troop_chain(self.troops@, self.locations@[li].troop_id, self.troops@.len() as nat),
        )
    }

    /// The variables after location `li` is marked changed on the map
    /// views (see `location_mark_map_and_minimap_dirty`): the minimap is
    /// flagged while a travel mode is active, and the map view's dirty
    /// counter bumps for a visible, non-hidden location while a map view
    /// is up.
    pub open spec fn map_dirty_vars(&self, li: int) -> GameVars {
        let ov = self.vars;
        let bump = self.locations@[li].status & 0x80 == 0 && ov.data_046eb != 0 && exists|m: int|
            0 <= m < self.visible_location_markers@.len() && self.visible_location_markers@[m] as int
                == li;
        GameVars {
            travel_minimap_state: if ov.game_screen_mode_flags & 3 != 0 {
                ov.travel_minimap_state | 1
            } else {
                ov.travel_minimap_state
            },
            spice_density_overlay_dirty: if bump {
                ((ov.spice_density_overlay_dirty + 1) % 256) as u8
            } else {
                ov.spice_density_overlay_dirty
            },
            ..ov
        }
    }

    /// Every troop keeps its location pointer and its gps position.
    pub open spec fn troops_in_place(&self, old: &GameState) -> bool {
        forall|j: int|
            0 <= j < old.troops@.len() ==> {
                &&& (#[trigger] self.troops@[j]).offset_of_location == old.troops@[j].offset_of_location
                &&& self.troops@[j].gps_coordinates_1 == old.troops@[j].gps_coordinates_1
                &&& self.troops@[j].gps_coordinates_2 == old.troops@[j].gps_coordinates_2
            }
    }

    /// Location `li` counts as Atreides-held (status bit 3).
    pub fn location_is_atreides(&self, li: usize) -> (b: bool)
        requires
            li < self.locations@.len(),
        ensures
            b == location_is_atreides_spec(self.locations@[li as int]),
    {
        self.locations[li].status & 8 != 0
    }

    /// The next random bit the engine supplied (false once they run out).
    pub fn roll_rand_bit(&mut self) -> (b: bool)
        ensures
            ({
                let c = old(self).vars.rand_cursor;
                if c < old(self).rand_bits@.len() {
                    &&& b == old(self).rand_bits@[c as int]
                    &&& final(self).vars == GameVars { rand_cursor: (c + 1) as usize, ..old(self).vars }
                } else {
                    &&& !b
                    &&& final(self).vars == old(self).vars
                }
            }),
            final(self).troops@ == old(self).troops@,
            final(self).locations@ == old(self).locations@,
            final(self).same_tables(old(self)),
            final(self).string_subst_id_table@ == old(self).string_subst_id_table@,
            final(self).events@ == old(self).events@,
            final(self).troop_condit == old(self).troop_condit,
            final(self).location_condit == old(self).location_condit,
    {
        let c = self.vars.rand_cursor;
        if c < self.rand_bits.len() {
            let b = self.rand_bits[c];
            self.vars.rand_cursor = c + 1;
            b
        } else {
            false
        }
    }

    /// Longitude units per map cell at latitude `lat` (clamped to the
    /// table).
    pub fn lng_units_per_cell_at(&self, lat: i16) -> (u: u16)
        requires
            self.wf(),
        ensures
            u == self.lng_units_per_cell@[lat_row_spec(lat)],
            u > 0,
    {
        let row: usize = if lat < -98 {
            0
        } else if lat > 98 {
            196
        } else {
            (lat + 98) as usize
        };
        self.lng_units_per_cell[row]
    }

    /// One sub-step of troop `ti` toward its destination (see
    /// `substep_delta_spec`); a random bit is drawn only when a diagonal
    /// step is possible.
    pub fn troop_travel_substep_delta(&mut self, ti: usize) -> (d: (i16, i16))
        requires
            old(self).wf(),
            old(self).troop_placed(ti as int),
        ensures
            ({
                let t = old(self).troops@[ti as int];
                let loc = old(self).locations@[old(self).troop_loc(ti as int)];
                let per_cell = old(self).lng_units_per_cell@[lat_row_spec(
                    signed16(t.gps_coordinates_2),
                )];
                let c = old(self).vars.rand_cursor;
                let bit = c < old(self).rand_bits@.len() && old(self).rand_bits@[c as int];
                &&& d == substep_delta_spec(t, loc, per_cell, bit)
                &&& final(self).vars == GameVars {
                    rand_cursor: substep_cursor_spec(t, loc, per_cell, old(self).rand_bits@, c),
                    ..old(self).vars
                }
            }),
            final(self).troops@ == old(self).troops@,
            final(self).locations@ == old(self).locations@,
            final(self).same_tables(old(self)),
            final(self).string_subst_id_table@ == old(self).string_subst_id_table@,
            final(self).events@ == old(self).events@,
            final(self).same_rest(old(self)),
    {
        let t = self.troops[ti];
        let li = location_index_from_ptr(t.offset_of_location);
        let loc = self.locations[li];
        let lat = as_signed16(t.gps_coordinates_2);
        let per_cell = self.lng_units_per_cell_at(lat);
        let dlat_total = loc.map_y.wrapping_sub(lat);
        let lat_sign: i16 = if dlat_total >= 0 {
            1
        } else {
            -1
        };
        let alat = abs_i16(dlat_total);
        let dlng_total = as_signed16(as_unsigned16(loc.map_x).wrapping_sub(t.gps_coordinates_1));
        let cells = abs_i16(dlng_total) / per_cell;
        let step_i = as_signed16(per_cell);
        let lng_step = if dlng_total >= 0 {
            step_i
        } else {
            0i16.wrapping_sub(step_i)
        };
        if cells >= alat {
            if cells < 7 {
                return (0, 0);
            }
            let dlat_step = if alat == 0 {
                0
            } else {
                lat_sign
            };
            assert(cells >> 1 == cells / 2) by (bit_vector);
            if cells >> 1 == 0 {
                return (dlng_total, dlat_step);
            }
            let diagonal = self.roll_rand_bit();
            (lng_step, if diagonal {
                dlat_step
            } else {
                0
            })
        } else {
            if alat < 7 {
                return (0, 0);
            }
            if cells == 0 {
                return (dlng_total, lat_sign);
            }
            assert(alat >> 1 == alat / 2) by (bit_vector);
            if alat >> 1 == 0 {
                return (dlng_total, lat_sign);
            }
            let diagonal = self.roll_rand_bit();
            (if diagonal {
                lng_step
            } else {
                0
            }, lat_sign)
        }
    }

    /// Fold troop `ti`'s held equipment into location `li`'s counts (one
    /// unit per held bit, bit 7 = harvesters .. bit 1 = bulbs).
    pub fn troop_register_equipment_into_location(&mut self, ti: usize, li: usize)
        requires
            ti < old(self).troops@.len(),
            li < old(self).locations@.len(),
        ensures
            final(self).locations@ == old(self).locations@.update(
                li as int,
                Location {
                    equipment: add_equipment_spec(
                        old(self).locations@[li as int].equipment,
                        old(self).troops@[ti as int].equipment,
                        0,
                    ),
                    ..old(self).locations@[li as int]
                },
            ),
            final(self).troops@ == old(self).troops@,
            final(self).same_tables(old(self)),
            final(self).string_subst_id_table@ == old(self).string_subst_id_table@,
            final(self).troop_condit == old(self).troop_condit,
            final(self).location_condit == old(self).location_condit,
            final(self).vars == old(self).vars,
            final(self).events@ == old(self).events@,
    {
        let eq = self.troops[ti].equipment;
        let mut loc = self.locations[li];
        let ghost e0 = loc.equipment;
        let ghost loc0 = loc;
        let mut slot: usize = 0;
        while slot < 7
            invariant
                slot <= 7,
                loc == (Location { equipment: loc.equipment, ..loc0 }),
                add_equipment_spec(loc.equipment, eq, slot as int) == add_equipment_spec(e0, eq, 0),
            decreases 7 - slot,
        {
            let bit = 0x80u8 >> (slot as u8);
            if eq & bit != 0 {
                let v = loc.equipment.slot(slot);
                let nv = v.wrapping_add(1);
                assert(nv == (v + 1) % 256);
                loc.equipment.set_slot(slot, nv);
            }
            slot = slot + 1;
        }
        self.set_location(li, loc);
    }

    /// Take troop `ti`'s held equipment out of location `li`'s counts,
    /// clamped at 0.
    pub fn troop_unregister_equipment_from_location(&mut self, ti: usize, li: usize)
        requires
            ti < old(self).troops@.len(),
            li < old(self).locations@.len(),
        ensures
            final(self).locations@ == old(self).locations@.update(
                li as int,
                Location {
                    equipment: remove_equipment_spec(
                        old(self).locations@[li as int].equipment,
                        old(self).troops@[ti as int].equipment,
                        0,
                    ),
                    ..old(self).locations@[li as int]
                },
            ),
            final(self).troops@ == old(self).troops@,
            final(self).same_tables(old(self)),
            final(self).string_subst_id_table@ == old(self).string_subst_id_table@,
            final(self).troop_condit == old(self).troop_condit,
            final(self).location_condit == old(self).location_condit,
            final(self).vars == old(self).vars,
            final(self).events@ == old(self).events@,
    {
        let eq = self.troops[ti].equipment;
        let mut loc = self.locations[li];
        let ghost e0 = loc.equipment;
        let ghost loc0 = loc;
        let mut slot: usize = 0;
        while slot < 7
            invariant
                slot <= 7,
                loc == (Location { equipment: loc.equipment, ..loc0 }),
                remove_equipment_spec(loc.equipment, eq, slot as int) == remove_equipment_spec(
                    e0,
                    eq,
                    0,
                ),
            decreases 7 - slot,
        {
            let bit = 0x80u8 >> (slot as u8);
            if eq & bit != 0 {
                let v = loc.equipment.slot(slot);
                loc.equipment.set_slot(slot, v.saturating_sub(1));
            }
            slot = slot + 1;
        }
        self.set_location(li, loc);
    }

    /// Drop the head of the prospector's four-entry destination queue (the
    /// tail entry stays).
    pub fn shift_prospector_destinations(&mut self)
        requires
            old(self).prospector_destinations@.len() == 4,
        ensures
            ({
                let q = old(self).prospector_destinations@;
                final(self).prospector_destinations@ == seq![q[1], q[2], q[3], q[3]]
            }),
            final(self).troops@ == old(self).troops@,
            final(self).locations@ == old(self).locations@,
            final(self).vars == old(self).vars,
            final(self).events@ == old(self).events@,
            final(self).room_persons@ == old(self).room_persons@,
            final(self).fremen2_troops@ == old(self).fremen2_troops@,
            final(self).string_subst_id_table@ == old(self).string_subst_id_table@,
            final(self).lng_units_per_cell@ == old(self).lng_units_per_cell@,
            final(self).rand_bits@ == old(self).rand_bits@,
            final(self).visible_location_markers@ == old(self).visible_location_markers@,
            final(self).troop_condit == old(self).troop_condit,
            final(self).location_condit == old(self).location_condit,
    {
        let q1 = self.prospector_destinations[1];
        let q2 = self.prospector_destinations[2];
        let q3 = self.prospector_destinations[3];
        self.prospector_destinations.set(0, q1);
        self.prospector_destinations.set(1, q2);
        self.prospector_destinations.set(2, q3);
        assert(self.prospector_destinations@ =~= seq![q1, q2, q3, q3]);
    }

    /// Take troop `ti` out of its location's list (the head moves on to its
    /// successor, or its predecessor takes over its link) and clear its
    /// link. A moving troop (occupation bit 6) is in no list; a pointer that
    /// names no location leaves the lists alone.
    pub fn troop_unlink_from_location_chain(&mut self, ti: usize)
        requires
            ti < old(self).troops@.len(),
        ensures
            final(self).is_unlink_of(old(self), ti as int),
    {
        let t = self.troops[ti];
        let id = t.troop_id;
        let li = location_index_from_ptr(t.offset_of_location);
        if t.occupation & 0x40 == 0 && li < self.locations.len() {
            if self.locations[li].troop_id == id {
                let mut loc = self.locations[li];
                loc.troop_id = t.next_troop_id;
                self.set_location(li, loc);
            } else {
                let chain = collect_troop_chain(&self.troops, self.locations[li].troop_id);
                let mut pred: Option<usize> = None;
                let mut k: usize = 0;
                assert(chain@.subrange(0, chain@.len() as int) =~= chain@);
                while k < chain.len()
                    invariant_except_break
                        pred is None,
                    invariant
                        k <= chain@.len(),
                        forall|j: int|
                            0 <= j < chain@.len() ==> (#[trigger] chain@[j] as int) < self.troops@.len(),
                        first_linking_to(self.troops@, chain@.subrange(k as int, chain@.len() as int), id)
                            == first_linking_to(self.troops@, chain@, id),
                    ensures
                        pred == first_linking_to(self.troops@, chain@, id),
                        pred matches Some(tj) ==> tj < self.troops@.len()
                            && self.troops@[tj as int].next_troop_id == id,
                    decreases chain@.len() - k,
                {
                    let tj = chain[k];
                    let ghost rest = chain@.subrange(k as int, chain@.len() as int);
                    proof {
                        assert(rest[0] == tj);
                        assert(rest.drop_first() =~= chain@.subrange(k + 1, chain@.len() as int));
                    }
                    if self.troops[tj].next_troop_id == id {
                        pred = Some(tj);
                        break;
                    }
                    k = k + 1;
                }
                proof {
                    if k == chain@.len() {
                        assert(chain@.subrange(k as int, chain@.len() as int) =~= Seq::<usize>::empty());
                    }
                }
                if let Some(tj) = pred {
                    if tj != ti {
                        let mut w = self.troops[tj];
                        w.next_troop_id = t.next_troop_id;
                        self.set_troop(tj, w);
                    }
                }
            }
        }
        let mut w = self.troops[ti];
        w.next_troop_id = 0;
        self.set_troop(ti, w);
    }

    /// Append troop `ti` to location `li`'s list: an empty list takes it as
    /// the head at position 1 (9 for a Harkonnen troop, the mirrored bank);
    /// otherwise it links after the tail and takes the lowest position its
    /// bank (1.. or 9..) has free among the list's troops, 30 when full.
    pub fn troop_link_into_location(&mut self, ti: usize, li: usize)
        requires
            ti < old(self).troops@.len(),
            li < old(self).locations@.len(),
        ensures
            final(self).is_link_of(old(self), ti as int, li as int),
    {
        let t = self.troops[ti];
        let id = t.troop_id;
        let harkonnen = t.bitfield_10 & 0x80 != 0;
        let head = self.locations[li].troop_id;
        if head == 0 {
            let mut loc = self.locations[li];
            loc.troop_id = id;
            self.set_location(li, loc);
            let mut w = self.troops[ti];
            w.position = if harkonnen {
                9
            } else {
                1
            };
            self.set_troop(ti, w);
            return;
        }
        let chain = collect_troop_chain(&self.troops, head);
        let ghost troops0 = self.troops@;
        let start: u8 = if harkonnen {
            9
        } else {
            1
        };
        let position = self.first_free_position_in(&chain, start);
        if chain.len() > 0 {
            let tail = chain[chain.len() - 1];
            let mut w = self.troops[tail];
            w.next_troop_id = id;
            self.set_troop(tail, w);
        }
        let mut w = self.troops[ti];
        w.position = position;
        self.set_troop(ti, w);
    }

    /// The lowest position from `start` to 30 that no troop of `chain`
    /// holds; 30 when none is free.
    pub fn first_free_position_in(&self, chain: &Vec<usize>, start: u8) -> (p: u8)
        requires
            1 <= start <= 30,
            forall|j: int| 0 <= j < chain@.len() ==> (#[trigger] chain@[j] as int) < self.troops@.len(),
        ensures
            p == first_free_position(self.troops@, chain@, start as int),
    {
        let mut p: u8 = start;
        while p <= 30
            invariant
                start <= p <= 31,
                first_free_position(self.troops@, chain@, p as int) == first_free_position(
                    self.troops@,
                    chain@,
                    start as int,
                ),
                forall|j: int| 0 <= j < chain@.len() ==> (#[trigger] chain@[j] as int) < self.troops@.len(),
            decreases 31 - p,
        {
            let mut taken = false;
            let mut k: usize = 0;
            while k < chain.len()
                invariant
                    k <= chain@.len(),
                    forall|j: int| 0 <= j < chain@.len() ==> (#[trigger] chain@[j] as int) < self.troops@.len(),
                    taken == (exists|m: int|
                        0 <= m < k && self.troops@[chain@[m] as int].position == p),
                decreases chain@.len() - k,
            {
                if self.troops[chain[k]].position == p {
                    taken = true;
                }
                k = k + 1;
            }
            if !taken {
                return p;
            }
            p = p + 1;
        }
        30
    }


    /// While a map view is up, a visible, non-hidden location that changed
    /// in a way the map shows bumps the map view's dirty counter.
    pub fn location_mark_map_view_dirty(&mut self, li: usize)
        requires
            li < old(self).locations@.len(),
        ensures
            ({
                let ov = old(self).vars;
                let bump = old(self).locations@[li as int].status & 0x80 == 0 && ov.data_046eb != 0
                    && exists|m: int|
                    0 <= m < old(self).visible_location_markers@.len()
                        && old(self).visible_location_markers@[m] as int == li as int;
                final(self).vars == if bump {
                    GameVars {
                        spice_density_overlay_dirty: ((ov.spice_density_overlay_dirty + 1) % 256) as u8,
                        ..ov
                    }
                } else {
                    ov
                }
            }),
            final(self).troops@ == old(self).troops@,
            final(self).locations@ == old(self).locations@,
            final(self).same_tables(old(self)),
            final(self).string_subst_id_table@ == old(self).string_subst_id_table@,
            final(self).events@ == old(self).events@,
            final(self).troop_condit == old(self).troop_condit,
            final(self).location_condit == old(self).location_condit,
    {
        if self.locations[li].status & 0x80 != 0 || self.vars.data_046eb == 0 {
            return;
        }
        let mut found = false;
        let mut k: usize = 0;
        while k < self.visible_location_markers.len()
            invariant
                k <= self.visible_location_markers@.len(),
                found == (exists|m: int|
                    0 <= m < k && self.visible_location_markers@[m] as int == li as int),
                li < self.locations@.len(),
            decreases self.visible_location_markers@.len() - k,
        {
            if self.visible_location_markers[k] as usize == li {
                found = true;
            }
            k = k + 1;
        }
        if found {
            self.vars.spice_density_overlay_dirty = self.vars.spice_density_overlay_dirty.wrapping_add(1);
        }
    }

    /// The flight variant: while a travel mode is active (mode flag bits
    /// 0-1) the minimap is flagged for a redraw too.
    pub fn location_mark_map_and_minimap_dirty(&mut self, li: usize)
        requires
            li < old(self).locations@.len(),
        ensures
            final(self).vars == old(self).map_dirty_vars(li as int),
            final(self).troops@ == old(self).troops@,
            final(self).locations@ == old(self).locations@,
            final(self).same_rest(old(self)),
            final(self).events@ == old(self).events@,
    {
        if self.vars.game_screen_mode_flags & 3 != 0 {
            self.vars.travel_minimap_state = self.vars.travel_minimap_state | 1;
        }
        self.location_mark_map_view_dirty(li);
    }

    /// Take troop `ti` out of play: unlink it, drop its map icon, and park
    /// it at the table-end sentinel pointer 0x0fbc with occupation 0xa0
    /// (which every walk skips) and no population.
    pub fn troop_remove_from_play(&mut self, ti: usize)
        requires
            old(self).wf(),
            ti < old(self).troops@.len(),
        ensures
            final(self).is_removal_of(old(self), ti as int),
    {
        self.troop_unlink_from_location_chain(ti);
        let ghost u = *self;
        self.push_event(GameEvent::RemoveTroopIcon(ti));
        let mut t = self.troops[ti];
        t.offset_of_location = 0x0fbc;
        t.occupation = 0xa0;
        t.population = 0;
        self.set_troop(ti, t);
        proof {
            assert(u.is_unlink_of(old(self), ti as int));
        }
    }

    /// A non-Harkonnen troop that landed in the Harkonnen position bank
    /// (position above 8) re-rolls: it leaves the list, the list's first
    /// captured non-Harkonnen troop leaves play to free a slot, and it is
    /// linked in again.
    pub fn troop_fix_position_bank(&mut self, ti: usize, li: usize)
        requires
            old(self).wf(),
            ti < old(self).troops@.len(),
            li < old(self).locations@.len(),
        ensures
            final(self).wf(),
            final(self).moves_keep(old(self)),
            ({
                let t = old(self).troops@[ti as int];
                (t.bitfield_10 & 0x80 != 0 || t.position <= 8) ==> *final(self) == *old(self)
            }),
            same_but_slot(final(self).troops@[ti as int], old(self).troops@[ti as int]),
            final(self).vars == old(self).vars,
            only_heads_changed(final(self).locations@, old(self).locations@),
            final(self).is_bank_fix_of(old(self), ti as int, li as int),
    {
        let t = self.troops[ti];
        if t.bitfield_10 & 0x80 != 0 || t.position <= 8 {
            return;
        }
        self.troop_unlink_from_location_chain(ti);
        let ghost unlinked = *self;
        let chain = collect_troop_chain(&self.troops, self.locations[li].troop_id);
        let mut victim: Option<usize> = None;
        let mut k: usize = 0;
        assert(chain@.subrange(0, chain@.len() as int) =~= chain@);
        while k < chain.len()
            invariant_except_break
                victim is None,
            invariant
                k <= chain@.len(),
                forall|j: int| 0 <= j < chain@.len() ==> (#[trigger] chain@[j] as int) < self.troops@.len(),
                first_captured_outsider(self.troops@, chain@.subrange(k as int, chain@.len() as int))
                    == first_captured_outsider(self.troops@, chain@),
            ensures
                victim == first_captured_outsider(self.troops@, chain@),
                victim matches Some(tj) ==> tj < self.troops@.len(),
            decreases chain@.len() - k,
        {
            let tj = chain[k];
            let ghost rest = chain@.subrange(k as int, chain@.len() as int);
            proof {
                assert(rest[0] == tj);
                assert(rest.drop_first() =~= chain@.subrange(k + 1, chain@.len() as int));
            }
            if self.troops[tj].bitfield_10 & 0x80 == 0 && self.troops[tj].occupation & 0x20 != 0 {
                victim = Some(tj);
                break;
            }
            k = k + 1;
        }
        proof {
            if k == chain@.len() {
                assert(chain@.subrange(k as int, chain@.len() as int) =~= Seq::<usize>::empty());
            }
        }
        let ghost cleared = *self;
        if let Some(tj) = victim {
            if tj != ti {
                self.troop_remove_from_play(tj);
                proof {
                    cleared = *self;
                }
            }
        }
        self.troop_link_into_location(ti, li);
        proof {
            assert(unlinked.is_unlink_of(old(self), ti as int));
            assert(self.is_link_of(&cleared, ti as int, li as int));
        }
    }

    /// `self` is `old` after the residents of location `li` were alerted
    /// (see `troop_location_notify_residents`).
    pub open spec fn is_notify_of(&self, old: &GameState, li: int) -> bool {
        let c = troop_chain(old.troops@, old.locations@[li].troop_id, old.troops@.len() as nat);
        &&& self.troops@.len() == old.troops@.len()
        &&& forall|j: int|
            0 <= j < old.troops@.len() ==> #[trigger] self.troops@[j] == if c.contains(j as usize) {
                alert_resident_spec(old.troops@[j], old.locations@, old.vars.game_time)
            } else {
                old.troops@[j]
            }
        &&& self.locations@ == old.locations@
        &&& self.vars == old.vars
        &&& self.same_rest(old)
        &&& self.events@ == old.events@ + alert_events(
            old.troops@,
            c,
            old.locations@,
            old.vars.game_time,
            old.vars.map_selected_troop_id,
            c.len() as int,
        )
    }

    /// The arrival notification for location `li`'s rallied residents:
    /// every troop on the location's list is alerted
    /// (`alert_resident_spec`); nobody else changes.
    pub fn troop_location_notify_residents(&mut self, li: usize)
        requires
            old(self).wf(),
            li < old(self).locations@.len(),
        ensures
            final(self).wf(),
            final(self).moves_keep(old(self)),
            final(self).troops_in_place(old(self)),
            final(self).vars == old(self).vars,
            final(self).locations@ == old(self).locations@,
            forall|j: int|
                0 <= j < old(self).troops@.len() ==> #[trigger] final(self).troops@[j] == if troop_chain(
                    old(self).troops@,
                    old(self).locations@[li as int].troop_id,
                    old(self).troops@.len() as nat,
                ).contains(j as usize) {
                    alert_resident_spec(
                        old(self).troops@[j],
                        old(self).locations@,
                        old(self).vars.game_time,
                    )
                } else {
                    old(self).troops@[j]
                },
            final(self).same_rest(old(self)),
            final(self).is_notify_of(old(self), li as int),
            ({
                let c = troop_chain(
                    old(self).troops@,
                    old(self).locations@[li as int].troop_id,
                    old(self).troops@.len() as nat,
                );
                final(self).events@ == old(self).events@ + alert_events(
                    old(self).troops@,
                    c,
                    old(self).locations@,
                    old(self).vars.game_time,
                    old(self).vars.map_selected_troop_id,
                    c.len() as int,
                )
            }),
    {
        let chain = collect_troop_chain(&self.troops, self.locations[li].troop_id);
        let mut k: usize = 0;
        let ghost old_self = *self;
        let ghost gt = old_self.vars.game_time;
        let ghost sel = old_self.vars.map_selected_troop_id;
        while k < chain.len()
            invariant
                k <= chain@.len(),
                forall|j: int| 0 <= j < chain@.len() ==> (#[trigger] chain@[j] as int) < self.troops@.len(),
                self.wf(),
                self.moves_keep(&old_self),
                self.troops_in_place(&old_self),
                self.vars == old_self.vars,
                self.locations@ == old_self.locations@,
                gt == old_self.vars.game_time,
                sel == old_self.vars.map_selected_troop_id,
                self.same_rest(&old_self),
                self.events@ == old_self.events@ + alert_events(
                    old_self.troops@,
                    chain@,
                    old_self.locations@,
                    gt,
                    sel,
                    k as int,
                ),
                forall|j: int|
                    0 <= j < old_self.troops@.len() ==> #[trigger] self.troops@[j] == if chain@.subrange(
                        0,
                        k as int,
                    ).contains(j as usize) {
                        alert_resident_spec(old_self.troops@[j], old_self.locations@, gt)
                    } else {
                        old_self.troops@[j]
                    },
            decreases chain@.len() - k,
        {
            let tj = chain[k];
            let ghost before = self.troops@;
            let ghost ev0 = self.events@;
            let ghost cur = before[tj as int];
            let ghost seen = chain@.subrange(0, k as int).contains(tj);
            let ghost add = if seen {
                Seq::<GameEvent>::empty()
            } else {
                alert_events_of(old_self.troops@[tj as int], tj, old_self.locations@, gt, sel)
            };
            proof {
                assert(alert_events(old_self.troops@, chain@, old_self.locations@, gt, sel, k + 1)
                    == alert_events(old_self.troops@, chain@, old_self.locations@, gt, sel, k as int) + add);
                if seen {
                    lemma_alert_resident(old_self.troops@[tj as int], old_self.locations@, gt);
                    lemma_alert_no_events(old_self.troops@[tj as int], tj, old_self.locations@, gt, sel);
                }
            }
            let ghost want = alert_resident_spec(old_self.troops@[tj as int], old_self.locations@, gt);
            proof {
                lemma_alert_resident(old_self.troops@[tj as int], old_self.locations@, gt);
                assert(alert_resident_spec(cur, old_self.locations@, gt) == want);
            }
            let occ = self.troops[tj].occupation;
            if occ < 0x80 && occ & 0x20 == 0 {
                let nib = low_nibble(occ);
                if nib == 1 {
                    self.troop_make_stop_working(tj);
                } else if nib != 6 {
                    let lj = location_index_from_ptr(self.troops[tj].offset_of_location);
                    if lj < self.locations.len() {
                        assert(want == reinit_troop_spec(cur, old_self.locations@[lj as int], 6, gt));
                        self.troop_set_occupation(tj, 6);
                    }
                }
            }
            proof {
                assert(self.events@ =~= ev0 + add);
                assert(self.troops@ == before.update(tj as int, want));
                assert(chain@.subrange(0, k + 1) =~= chain@.subrange(0, k as int).push(tj));
                assert forall|j: int| 0 <= j < old_self.troops@.len() implies #[trigger] self.troops@[j]
                    == if chain@.subrange(0, k + 1).contains(j as usize) {
                    alert_resident_spec(old_self.troops@[j], old_self.locations@, gt)
                } else {
                    old_self.troops@[j]
                } by {
                    if j != tj as int {
                        assert(chain@.subrange(0, k + 1).contains(j as usize)
                            == chain@.subrange(0, k as int).contains(j as usize));
                    } else {
                        assert(chain@.subrange(0, k + 1)[k as int] == tj);
                    }
                }
            }
            k = k + 1;
        }
        proof {
            assert(chain@.subrange(0, chain@.len() as int) =~= chain@);
        }
    }
}

} // verus!
