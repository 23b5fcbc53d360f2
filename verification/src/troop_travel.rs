//! A troop on the move: settling into the location it reached, the
//! turn-around of a fetch mission, the prospector's destination queue, move
//! orders, the per-period travel step, rallying, and the per-period walk
//! over the troop table.
use vstd::prelude::*;
use crate::world::{
    Troop, Location, location_index_from_ptr, location_ptr, location_ptr_spec, low_nibble,
    unsigned16, as_unsigned16, collect_troop_chain, location_index_spec, troop_chain,
};
use crate::game::{GameState, GameEvent, GameVars};
use crate::troop_moves::{
    remove_equipment_spec, add_equipment_spec, same_but_slot, lemma_alert_resident, substep_walk, substep_moved, lemma_substep_walk_unfold,
    lemma_substep_walk_zero,
};
use crate::troop_occupation::{reinit_troop_spec, reinit_events_spec, assigned_occupation};

verus! {

/// A queue entry the prospector has already reached: it names the
/// prospector's current location and the prospector is not moving.
pub open spec fn queue_reached(h: u16, cur: u16, moving: bool) -> bool {
    h != 0 && h == cur && !moving
}

/// How many leading entries of the four-entry queue are already reached
/// (the last entry never is, see `prospector_sync_destination_queue`).
pub open spec fn queue_shift_count(q: Seq<u16>, cur: u16, moving: bool) -> int {
    if !queue_reached(q[0], cur, moving) {
        0
    } else if !queue_reached(q[1], cur, moving) {
        1
    } else if !queue_reached(q[2], cur, moving) {
        2
    } else {
        3
    }
}

/// The queue after `n` head drops: the tail entry fills the freed places.
pub open spec fn queue_shifted(q: Seq<u16>, n: int) -> Seq<u16> {
    Seq::new(4, |i: int| if i + n < 4 { q[i + n] } else { q[3] })
}

/// An arrival that does not settle: away from a battle-flagged (status
/// bit 1) or Atreides (bit 3) location, a fetch mission (occupation low
/// bits 11b, not espionage or attack) that is not yet home turns around.
pub open spec fn turns_around_for_home(t: Troop, loc: Location) -> bool {
    let low = t.occupation % 16;
    &&& loc.status & 2 == 0
    &&& loc.status & 8 == 0
    &&& low != 5
    &&& low != 6
    &&& low % 4 == 3
    &&& t.offset_of_location != t.harvest_rate
}

/// Troop `t`, arriving at `loc`, ended as `f`: its gps position snapped to
/// the location, and it either turned around for home (pointer home,
/// occupation kept) or settled (pointer kept, moving bit clear).
pub open spec fn arrival_outcome(t: Troop, loc: Location, f: Troop) -> bool {
    &&& f.gps_coordinates_1 == unsigned16(loc.map_x)
    &&& f.gps_coordinates_2 == unsigned16(loc.map_y)
    &&& if turns_around_for_home(t, loc) {
        &&& f.offset_of_location == t.harvest_rate
        &&& f.occupation == t.occupation
    } else {
        &&& f.offset_of_location == t.offset_of_location
        &&& f.occupation & 0x40 == 0
    }
}

/// The sub-steps of one period of travel: 4, 8 with an ornithopter
/// (equipment bit 6).
pub open spec fn travel_step_count(t: Troop) -> nat {
    if t.equipment & 0x40 != 0 {
        8
    } else {
        4
    }
}

/// Troop `t` after its gps position alone moved to that of `f`.
pub open spec fn moved_to(t: Troop, f: Troop) -> Troop {
    Troop { gps_coordinates_1: f.gps_coordinates_1, gps_coordinates_2: f.gps_coordinates_2, ..t }
}

/// A re-initialized troop differs from the troop before only in its
/// occupation, speech word, bitfield and occupation clocks.
pub proof fn lemma_reinit_frame(t: Troop, loc: Location, new: u8, game_time: u16)
    ensures
        ({
            let r = reinit_troop_spec(t, loc, new, game_time);
            r == Troop {
                occupation: r.occupation,
                dissatisfaction_and_speech: r.dissatisfaction_and_speech,
                bitfield_10: r.bitfield_10,
                time_period_of_ralliement: r.time_period_of_ralliement,
                harvest_rate: r.harvest_rate,
                harvest_total: r.harvest_total,
                ..t
            }
        }),
{
}

/// A troop left behind by a departing one: a rallied troop (occupation
/// below 0x80) just reassigned (speech bit 4) at a location of the table
/// restarts its occupation from its low nibble.
pub open spec fn restart_resident_spec(t: Troop, locs: Seq<Location>, game_time: u16) -> Troop {
    let li = location_index_spec(t.offset_of_location);
    if t.occupation < 0x80 && t.dissatisfaction_and_speech & 0x10 != 0 && li < locs.len() {
        reinit_troop_spec(t, locs[li], (t.occupation % 16) as u8, game_time)
    } else {
        t
    }
}

/// The requests restarting troop `t` (troop `tj`) leaves.
pub open spec fn restart_events_of(t: Troop, tj: usize, locs: Seq<Location>, game_time: u16, selected: u8) -> Seq<GameEvent> {
    let li = location_index_spec(t.offset_of_location);
    if t.occupation < 0x80 && t.dissatisfaction_and_speech & 0x10 != 0 && li < locs.len() {
        reinit_events_spec(tj, t, locs[li], (t.occupation % 16) as u8, selected)
    } else {
        Seq::empty()
    }
}

/// The requests of restarting the first `k` troops of list `c` in order:
/// a troop met again is already restarted and leaves none.
pub open spec fn restart_events(
    troops: Seq<Troop>,
    c: Seq<usize>,
    locs: Seq<Location>,
    game_time: u16,
    selected: u8,
    k: int,
) -> Seq<GameEvent>
    decreases k,
{
    if k <= 0 {
        Seq::empty()
    } else {
        let prev = restart_events(troops, c, locs, game_time, selected, k - 1);
        let tj = c[k - 1];
        if c.subrange(0, k - 1).contains(tj) {
            prev
        } else {
            prev + restart_events_of(troops[tj as int], tj, locs, game_time, selected)
        }
    }
}

/// A restarted troop has its reassignment bit cleared, its pointer kept:
/// restarting it again changes nothing.
pub proof fn lemma_restart_once(t: Troop, locs: Seq<Location>, game_time: u16)
    ensures
        restart_resident_spec(t, locs, game_time).offset_of_location == t.offset_of_location,
        restart_resident_spec(t, locs, game_time) != t ==> restart_resident_spec(t, locs, game_time).dissatisfaction_and_speech & 0x10 == 0,
        (t.occupation < 0x80 && t.dissatisfaction_and_speech & 0x10 != 0 && location_index_spec(
            t.offset_of_location,
        ) < locs.len()) ==> restart_resident_spec(t, locs, game_time).dissatisfaction_and_speech
            & 0x10 == 0,
{
    let li = location_index_spec(t.offset_of_location);
    if t.occupation < 0x80 && t.dissatisfaction_and_speech & 0x10 != 0 && li < locs.len() {
        let x = t.dissatisfaction_and_speech;
        let y = x & 0xffcf;
        assert(y & 0x10 == 0 && (y | 0x2000) & 0x10 == 0 && (y | 0x4000) & 0x10 == 0 && (y | 0x8000)
            & 0x10 == 0) by (bit_vector)
            requires
                y == x & 0xffcf,
        ;
    }
}

/// The troop after losing `by` motivation (see `troop_decrease_motivation`).
pub open spec fn motivation_drop_spec(t: Troop, by: u8) -> Troop {
    let m: u8 = if t.motivation >= by { (t.motivation - by) as u8 } else { 0 };
    if m < 5 {
        Troop {
            motivation: 4,
            occupation: t.occupation | 0x10,
            dissatisfaction_and_speech: t.dissatisfaction_and_speech | 0x20,
            ..t
        }
    } else {
        Troop { motivation: m, ..t }
    }
}

/// A re-initialized occupation never has the moving bit.
pub proof fn lemma_reinit_not_moving(t: Troop, loc: Location, new: u8, game_time: u16)
    requires
        new < 16,
    ensures
        reinit_troop_spec(t, loc, new, game_time).occupation & 0x40 == 0,
{
    let a = assigned_occupation(t, loc, new);
    assert(a < 16);
    assert(a & 0x40 == 0 && (a ^ 0x10) & 0x40 == 0) by (bit_vector)
        requires
            a < 16,
    ;
}

impl GameState {
    /// `self` is `old` with troop `ti`'s equipment counted into location
    /// `li` (see `troop_register_equipment_into_location`).
    pub open spec fn is_register_of(&self, old: &GameState, ti: int, li: int) -> bool {
        &&& self.locations@ == old.locations@.update(
            li,
            Location {
                equipment: add_equipment_spec(old.locations@[li].equipment, old.troops@[ti].equipment, 0),
                ..old.locations@[li]
            },
        )
        &&& self.troops@ == old.troops@
        &&& self.same_rest(old)
        &&& self.vars == old.vars
        &&& self.events@ == old.events@
    }

    /// `self` is `old` with troop `ti` re-assigned occupation `new` (see
    /// `troop_reinit_occupation`).
    pub open spec fn is_reinit_of(&self, old: &GameState, ti: int, new: u8) -> bool {
        let t = old.troops@[ti];
        let loc = old.locations@[old.troop_loc(ti)];
        &&& self.troops@ == old.troops@.update(ti, reinit_troop_spec(t, loc, new, old.vars.game_time))
        &&& self.events@ == old.events@ + reinit_events_spec(
            ti as usize,
            t,
            loc,
            new,
            old.vars.map_selected_troop_id,
        )
        &&& self.locations@ == old.locations@
        &&& self.same_rest(old)
        &&& self.vars == old.vars
    }

    /// `self` is `old` after the restart of a troop `ti` that settled at
    /// location `li`: an unrallied troop (occupation bit 7) stays as it is;
    /// otherwise it restarts its occupation from its low nibble, and
    /// settling at the current location while the room verb menu is up in
    /// the audience room (room 1 during the night attack) asks for a room
    /// redraw.
    pub open spec fn is_restart_of(&self, old: &GameState, ti: int, li: int) -> bool {
        let t = old.troops@[ti];
        let ov = old.vars;
        if t.occupation & 0x80 != 0 {
            *self == *old
        } else {
            let room: u8 = if ov.night_attack_stage == 0 { 2 } else { 1 };
            let redraw = li == ov.current_location_index && ov.room_command_menu_active
                && ov.current_room == room;
            &&& self.troops@ == old.troops@.update(
                ti,
                reinit_troop_spec(t, old.locations@[li], (t.occupation % 16) as u8, ov.game_time),
            )
            &&& self.events@ == old.events@ + reinit_events_spec(
                ti as usize,
                t,
                old.locations@[li],
                (t.occupation % 16) as u8,
                ov.map_selected_troop_id,
            )
            &&& self.locations@ == old.locations@
            &&& self.same_rest(old)
            &&& self.vars == if redraw {
                GameVars { room_redraw_request: ov.room_redraw_request | 1, ..ov }
            } else {
                ov
            }
        }
    }

    /// `self` is `old` after the turn-around of fetch-mission troop `ti`
    /// (see `troop_turn_around_home`): away from home it takes the unit it
    /// came for, if free, and heads home; at home it drops the mission bits
    /// and settles.
    pub open spec fn is_turn_around_of(&self, old: &GameState, ti: int) -> bool {
        let t = old.troops@[ti];
        let home = t.harvest_rate;
        let li = old.troop_loc(ti);
        let word = t.harvest_total;
        let slot = (word % 256) as int;
        let take = slot < 7 && old.vars.available_equipment.slot_spec(slot) != 0;
        let loc = old.locations@[li];
        if t.offset_of_location != home {
            &&& self.locations@ == if take {
                old.locations@.update(
                    li,
                    Location {
                        equipment: loc.equipment.with_slot(
                            slot,
                            ((loc.equipment.slot_spec(slot) + 255) % 256) as u8,
                        ),
                        ..loc
                    },
                )
            } else {
                old.locations@
            }
            &&& self.troops@ == old.troops@.update(
                ti,
                if take {
                    Troop {
                        equipment: t.equipment | ((word / 256) as u8),
                        harvest_total: (word % 256) as u16,
                        offset_of_location: home,
                        ..t
                    }
                } else {
                    Troop { offset_of_location: home, ..t }
                },
            )
            &&& self.events@ == old.events@.push(GameEvent::RefreshTroopIcon(ti as usize))
            &&& self.vars == old.vars
            &&& self.same_rest(old)
        } else {
            exists|pre: GameState|
                #[trigger] pre.only_troop_changed(old, ti, Troop { occupation: t.occupation & 0xfc, ..t })
                    && self.is_settle_of(&pre, ti)
        }
    }

    /// `self` is `old` with the prospector's queue head dropped when troop
    /// `ti` is the prospector (troop 2) arriving at it; else `old`.
    pub open spec fn is_queue_step_of(&self, old: &GameState, ti: int) -> bool {
        if ti == 2 && old.prospector_destinations@[0] == old.troops@[ti].offset_of_location {
            let q = old.prospector_destinations@;
            &&& self.prospector_destinations@ == seq![q[1], q[2], q[3], q[3]]
            &&& self.troops@ == old.troops@
            &&& self.locations@ == old.locations@
            &&& self.vars == old.vars
            &&& self.events@ == old.events@
            &&& self.room_persons@ == old.room_persons@
            &&& self.fremen2_troops@ == old.fremen2_troops@
            &&& self.string_subst_id_table@ == old.string_subst_id_table@
            &&& self.lng_units_per_cell@ == old.lng_units_per_cell@
            &&& self.rand_bits@ == old.rand_bits@
            &&& self.visible_location_markers@ == old.visible_location_markers@
            &&& self.troop_condit == old.troop_condit
            &&& self.location_condit == old.location_condit
        } else {
            *self == *old
        }
    }

    /// `self` is `old` with the hidden bit (7) of location `li` cleared.
    pub open spec fn is_reveal_of(&self, old: &GameState, li: int) -> bool {
        &&& self.locations@ == old.locations@.update(
            li,
            Location { status: old.locations@[li].status & 0x7f, ..old.locations@[li] },
        )
        &&& self.troops@ == old.troops@
        &&& self.same_rest(old)
        &&& self.vars == old.vars
        &&& self.events@ == old.events@
    }

    /// What follows a settle-here arrival of troop `ti` at location `li`
    /// (occupation nibble `low`): espionage (5) reveals a hidden location
    /// (its map views marked changed) or else alerts the residents; any
    /// other arrival that did not take the head of the list alerts them.
    pub open spec fn is_after_settle_of(&self, settled: &GameState, ti: int, li: int, low: int) -> bool {
        if low == 5 {
            if settled.locations@[li].status & 0x80 != 0 {
                exists|rev: GameState|
                    #[trigger] rev.is_reveal_of(settled, li) && {
                        &&& self.vars == rev.map_dirty_vars(li)
                        &&& self.troops@ == rev.troops@
                        &&& self.locations@ == rev.locations@
                        &&& self.same_rest(&rev)
                        &&& self.events@ == rev.events@
                    }
            } else {
                self.is_notify_of(settled, li)
            }
        } else if settled.troops@[ti].troop_id != settled.locations@[li].troop_id {
            self.is_notify_of(settled, li)
        } else {
            *self == *settled
        }
    }

    /// `self` is `old` after troop `ti` reached its destination (see
    /// `troop_arrive_at_destination`): the prospector's queue step, the gps
    /// snap onto the location, then at a battle-flagged or Atreides
    /// location the settle and what follows it, elsewhere the espionage and
    /// attack missions' re-assignment (low bits dropped) and then the
    /// fetch mission's turn-around or the settle.
    #[verifier::opaque]
    pub open spec fn is_arrival_of(&self, old: &GameState, ti: int) -> bool {
        let t = old.troops@[ti];
        let li = old.troop_loc(ti);
        let loc = old.locations@[li];
        let low = t.occupation % 16;
        let snap = Troop {
            gps_coordinates_1: unsigned16(loc.map_x),
            gps_coordinates_2: unsigned16(loc.map_y),
            ..t
        };
        exists|q: GameState, s: GameState|
            #![trigger q.is_queue_step_of(old, ti), s.only_troop_changed(&q, ti, snap)]
            {
                &&& q.is_queue_step_of(old, ti)
                &&& s.only_troop_changed(&q, ti, snap)
                &&& if loc.status & 2 != 0 || loc.status & 8 != 0 {
                    exists|settled: GameState|
                        #[trigger] settled.is_settle_of(&s, ti) && self.is_after_settle_of(
                            &settled,
                            ti,
                            li,
                            low as int,
                        )
                } else if low == 5 || low == 6 {
                    exists|r: GameState|
                        #[trigger] r.is_reinit_of(&s, ti, t.occupation & 0xfc) && self.is_settle_of(&r, ti)
                } else if low % 4 == 3 {
                    self.is_turn_around_of(&s, ti)
                } else {
                    self.is_settle_of(&s, ti)
                }
            }
    }

    /// `self` is `old` after the troops left on location `li`'s list
    /// restarted (see `restart_resident_spec`), in list order.
    pub open spec fn is_left_behind_restart_of(&self, old: &GameState, li: int) -> bool {
        let c = troop_chain(old.troops@, old.locations@[li].troop_id, old.troops@.len() as nat);
        &&& self.troops@.len() == old.troops@.len()
        &&& forall|j: int|
            0 <= j < old.troops@.len() ==> #[trigger] self.troops@[j] == if c.contains(j as usize) {
                restart_resident_spec(old.troops@[j], old.locations@, old.vars.game_time)
            } else {
                old.troops@[j]
            }
        &&& self.locations@ == old.locations@
        &&& self.vars == old.vars
        &&& self.same_rest(old)
        &&& self.events@ == old.events@ + restart_events(
            old.troops@,
            c,
            old.locations@,
            old.vars.game_time,
            old.vars.map_selected_troop_id,
            c.len() as int,
        )
    }

    /// How many entries of the prospector's queue it has already reached.
    pub open spec fn prospector_shift(&self) -> int {
        queue_shift_count(
            self.prospector_destinations@,
            self.troops@[2].offset_of_location,
            self.troops@[2].occupation & 0x40 != 0,
        )
    }

    /// `self` is `old` with the prospector's queue advanced past the
    /// entries it already reached (see `prospector_sync_destination_queue`).
    pub open spec fn is_queue_sync_of(&self, old: &GameState) -> bool {
        &&& self.prospector_destinations@ == queue_shifted(
            old.prospector_destinations@,
            old.prospector_shift(),
        )
        &&& self.troops@ == old.troops@
        &&& self.locations@ == old.locations@
        &&& self.vars == old.vars
        &&& self.events@ == old.events@
        &&& self.room_persons@ == old.room_persons@
        &&& self.fremen2_troops@ == old.fremen2_troops@
        &&& self.string_subst_id_table@ == old.string_subst_id_table@
        &&& self.lng_units_per_cell@ == old.lng_units_per_cell@
        &&& self.rand_bits@ == old.rand_bits@
        &&& self.visible_location_markers@ == old.visible_location_markers@
        &&& self.troop_condit == old.troop_condit
        &&& self.location_condit == old.location_condit
    }

    /// `self` is `m` with troop `ti` leaving location `old_li` for pointer
    /// `dest`: moving (bit 6) from position 0, its equipment taken out of
    /// the location's counts, its icon refreshed.
    pub open spec fn is_leave_of(&self, m: &GameState, ti: int, dest: u16, old_li: int) -> bool {
        let tm = m.troops@[ti];
        &&& self.troops@ == m.troops@.update(
            ti,
            Troop { offset_of_location: dest, occupation: tm.occupation | 0x40, position: 0, ..tm },
        )
        &&& self.locations@ == m.locations@.update(
            old_li,
            Location {
                equipment: remove_equipment_spec(m.locations@[old_li].equipment, tm.equipment, 0),
                ..m.locations@[old_li]
            },
        )
        &&& self.events@ == m.events@.push(GameEvent::RefreshTroopIcon(ti as usize))
        &&& self.vars == m.vars
        &&& self.same_rest(m)
    }

    /// `self` is `u` (troop `ti` already unlinked from location `old_li`)
    /// after the departure toward location `dest_li` (pointer `dest`): a
    /// defender (occupation 6) bound for a sietch (appearance below 0x28)
    /// at battle (status bit 1) stays; bound for one at peace it loses 3
    /// motivation first; then the troop leaves (`is_leave_of`) and, unless
    /// hidden (bitfield bit 4), takes a head start of 7 sub-steps.
    pub open spec fn is_departure_of(&self, u: &GameState, ti: int, dest_li: int, dest: u16, old_li: int) -> bool {
        let tu = u.troops@[ti];
        let dl = u.locations@[dest_li];
        let defender = tu.occupation == 6 && dl.appearance < 0x28;
        if defender && dl.status & 2 != 0 {
            *self == *u
        } else {
            exists|m: GameState, d: GameState|
                #[trigger] d.is_leave_of(&m, ti, dest, old_li) && {
                    &&& if defender {
                        m.only_troop_changed(u, ti, motivation_drop_spec(tu, 3))
                    } else {
                        m == *u
                    }
                    &&& if d.troops@[ti].bitfield_10 & 0x10 == 0 && d.troop_placed(ti) {
                        self.is_walk_of(&d, ti, 7)
                    } else {
                        *self == d
                    }
                }
        }
    }

    /// `self` is `q` after troop `ti` was ordered to location `dest_li`
    /// (pointer `dest`): a moving troop retargets (a fetch mission drops
    /// its low bits); a stationed one has the troops it leaves behind
    /// restart, leaves its location's list and departs.
    pub open spec fn is_order_of(&self, q: &GameState, ti: int, dest_li: int, dest: u16) -> bool {
        let t = q.troops@[ti];
        let old_li = q.troop_loc(ti);
        if t.occupation & 0x40 != 0 {
            &&& self.troops@ == q.troops@.update(
                ti,
                Troop {
                    offset_of_location: dest,
                    occupation: if t.occupation & 3 == 3 { t.occupation & 0xfc } else { t.occupation },
                    ..t
                },
            )
            &&& self.locations@ == q.locations@
            &&& self.events@ == q.events@.push(GameEvent::RefreshTroopIcon(ti as usize))
            &&& self.vars == q.vars
            &&& self.same_rest(q)
        } else {
            exists|r: GameState, u: GameState|
                #![trigger r.is_left_behind_restart_of(q, old_li), u.is_unlink_of(&r, ti)]
                {
                    &&& r.is_left_behind_restart_of(q, old_li)
                    &&& u.is_unlink_of(&r, ti)
                    &&& self.is_departure_of(&u, ti, dest_li, dest, old_li)
                }
        }
    }

    /// `self` is `old` after troop `ti` was ordered to location `dest_li`
    /// (see `troop_issue_move_order`): the prospector (troop 2) syncs its
    /// queue and goes to its head instead (an empty queue is no order).
    pub open spec fn is_move_order_of(&self, old: &GameState, ti: int, dest_li: int) -> bool {
        if ti == 2 {
            let head = old.prospector_destinations@[old.prospector_shift()];
            exists|q: GameState|
                #[trigger] q.is_queue_sync_of(old) && (if head == 0 {
                    *self == q
                } else {
                    self.is_order_of(&q, ti, dest_li, head)
                })
        } else {
            self.is_order_of(old, ti, dest_li, location_ptr_spec(dest_li))
        }
    }

    /// `self` is `old` after troop `ti` settled into the location its
    /// pointer names (see `troop_settle_into_location`): linked into the
    /// location's list, its moving bit cleared, its position-bank checked,
    /// its equipment counted into the location, then restarted.
    pub open spec fn is_settle_of(&self, old: &GameState, ti: int) -> bool {
        let li = old.troop_loc(ti);
        exists|linked: GameState, cleared: GameState, fixed: GameState, registered: GameState|
            #![trigger linked.is_link_of(old, ti, li), fixed.is_bank_fix_of(&cleared, ti, li), registered.is_register_of(&fixed, ti, li)]
            {
                &&& linked.is_link_of(old, ti, li)
                &&& cleared.only_troop_changed(
                    &linked,
                    ti,
                    Troop { occupation: linked.troops@[ti].occupation & 0xbf, ..linked.troops@[ti] },
                )
                &&& fixed.is_bank_fix_of(&cleared, ti, li)
                &&& registered.is_register_of(&fixed, ti, li)
                &&& self.is_restart_of(&registered, ti, li)
            }
    }
}

impl GameState {
    /// `self` is `old` after up to `steps` sub-steps of troop `ti` toward
    /// its destination (see `substep_walk`, with the random bits drawn in
    /// order): a troop still on its way has only its gps position changed
    /// and its icon follows it; one whose sub-step came out zero arrived
    /// (`arrival_outcome`).
    pub open spec fn is_walk_of(&self, old: &GameState, ti: int, steps: nat) -> bool {
        let t = old.troops@[ti];
        let loc = old.locations@[old.troop_loc(ti)];
        let w = substep_walk(
            t,
            loc,
            old.lng_units_per_cell@,
            old.rand_bits@,
            old.vars.rand_cursor,
            steps,
        );
        if !w.2 {
            &&& self.troops@ == old.troops@.update(ti, w.0)
            &&& self.locations@ == old.locations@
            &&& self.events@ == old.events@.push(GameEvent::TroopIconFollow(ti as usize))
            &&& self.vars == GameVars { rand_cursor: w.1, ..old.vars }
            &&& self.same_rest(old)
        } else {
            &&& arrival_outcome(t, loc, self.troops@[ti])
            &&& exists|walked: GameState|
                #[trigger] walked.is_walked_state_of(old, ti, w.0, w.1) && self.is_arrival_of(&walked, ti)
        }
    }

    /// `self` is `old` with troop `ti` walked to `t` and the random-bit
    /// cursor at `cursor`, nothing else changed.
    pub open spec fn is_walked_state_of(&self, old: &GameState, ti: int, t: Troop, cursor: usize) -> bool {
        &&& self.troops@ == old.troops@.update(ti, t)
        &&& self.locations@ == old.locations@
        &&& self.events@ == old.events@
        &&& self.vars == GameVars { rand_cursor: cursor, ..old.vars }
        &&& self.same_rest(old)
    }

    /// `self` is `old` after troop `ti`'s travel step of the period, unless
    /// it is the troop whose contact panel is open, which waits.
    pub open spec fn is_travel_period_of(&self, old: &GameState, ti: int) -> bool {
        if old.troops@[ti].troop_id == old.vars.map_selected_troop_id {
            *self == *old
        } else {
            &&& self.wf()
            &&& self.moves_keep(old)
            &&& self.is_walk_of(old, ti, travel_step_count(old.troops@[ti]))
        }
    }

    /// `self` is `old` after troop `ti` ran its occupation's callback: only
    /// spice mining (nibble 0) does anything.
    pub open spec fn is_occupation_period_of(&self, old: &GameState, ti: int) -> bool {
        &&& self.wf()
        &&& self.moves_keep(old)
        &&& if old.troops@[ti].occupation % 16 != 0 {
            *self == *old
        } else {
            self.is_mining_period_of(old, ti)
        }
    }

    /// The period of a troop free to act: captured (occupation bit 5) and
    /// unrallied (bit 7) troops do nothing, moving ones (bit 6) travel, the
    /// rest run their occupation.
    pub open spec fn is_free_troop_period_of(&self, old: &GameState, ti: int) -> bool {
        let occ = old.troops@[ti].occupation;
        if occ & 0xa0 != 0 {
            *self == *old
        } else if occ & 0x40 != 0 {
            self.is_travel_period_of(old, ti)
        } else {
            self.is_occupation_period_of(old, ti)
        }
    }

    /// `self` is `old` after troop `ti`'s turn in the per-period walk (see
    /// `run_troop_occupation_events`): an unplaced troop is passed over; an
    /// ill (speech bit 10) or just reassigned (bits 4-5) troop travels if
    /// moving, else waits until vegetation has started, when the
    /// reassignment bits clear and a healthy troop takes its turn.
    pub open spec fn is_troop_period_of(&self, old: &GameState, ti: int) -> bool {
        let t = old.troops@[ti];
        if !old.troop_placed(ti) {
            *self == *old
        } else if t.dissatisfaction_and_speech & 0x430 != 0 {
            if t.occupation & 0x40 != 0 {
                self.is_travel_period_of(old, ti)
            } else if old.vars.vegetation_started_on_dune == 0 {
                *self == *old
            } else {
                let t1 = Troop {
                    dissatisfaction_and_speech: t.dissatisfaction_and_speech & 0xffcf,
                    ..t
                };
                exists|cleared: GameState|
                    #[trigger] cleared.only_troop_changed(old, ti, t1) && if t1.dissatisfaction_and_speech
                        & 0x400 != 0 {
                        *self == cleared
                    } else {
                        self.is_free_troop_period_of(&cleared, ti)
                    }
            }
        } else {
            self.is_free_troop_period_of(old, ti)
        }
    }
}

impl GameState {
    /// Troop `ti` finishes its move into the location its pointer names: it
    /// is linked into the location's list, the moving bit (6) clears, a
    /// non-Harkonnen troop in the Harkonnen position bank re-rolls, its
    /// equipment is counted into the location, and (unless unrallied, bit 7)
    /// its occupation restarts from its low nibble. Arriving at the current
    /// location while the room verb menu is up, with the player in the
    /// audience room (room 1 during the night attack), requests a room
    /// redraw.
    pub fn troop_settle_into_location(&mut self, ti: usize)
        requires
            old(self).wf(),
            old(self).troop_placed(ti as int),
        ensures
            final(self).wf(),
            final(self).moves_keep(old(self)),
            final(self).troop_placed(ti as int),
            ({
                let t = old(self).troops@[ti as int];
                let li = old(self).troop_loc(ti as int);
                let f = final(self).troops@[ti as int];
                &&& final(self).locations@[li].equipment == add_equipment_spec(
                    old(self).locations@[li].equipment,
                    t.equipment,
                    0,
                )
                &&& t.occupation & 0x80 == 0 ==> same_but_slot(
                    f,
                    reinit_troop_spec(
                        Troop { occupation: t.occupation & 0xbf, ..t },
                        final(self).locations@[li],
                        (t.occupation % 16) as u8,
                        old(self).vars.game_time,
                    ),
                )
            }),
            ({
                let t = old(self).troops@[ti as int];
                let f = final(self).troops@[ti as int];
                &&& f.offset_of_location == t.offset_of_location
                &&& f.gps_coordinates_1 == t.gps_coordinates_1
                &&& f.gps_coordinates_2 == t.gps_coordinates_2
                &&& f.occupation & 0x40 == 0
                &&& (t.occupation & 0x80 != 0 ==> same_but_slot(
                    f,
                    Troop { occupation: t.occupation & 0xbf, ..t },
                ))
            }),
            ({
                let ov = old(self).vars;
                let li = old(self).troop_loc(ti as int);
                let room: u8 = if ov.night_attack_stage == 0 { 2 } else { 1 };
                let redraw = old(self).troops@[ti as int].occupation & 0x80 == 0 && li
                    == ov.current_location_index && ov.room_command_menu_active && ov.current_room
                    == room;
                final(self).vars == if redraw {
                    GameVars { room_redraw_request: ov.room_redraw_request | 1, ..ov }
                } else {
                    ov
                }
            }),
            final(self).is_settle_of(old(self), ti as int),
    {
        let li = location_index_from_ptr(self.troops[ti].offset_of_location);
        self.troop_link_into_location(ti, li);
        let ghost linked = *self;
        let mut w = self.troops[ti];
        w.occupation = w.occupation & 0xbf;
        self.set_troop(ti, w);
        let ghost cleared = *self;
        self.troop_fix_position_bank(ti, li);
        let ghost fixed = *self;
        self.troop_register_equipment_into_location(ti, li);
        let occ = self.troops[ti].occupation;
        let ghost o0 = old(self).troops@[ti as int].occupation;
        assert(occ == o0 & 0xbf);
        assert(occ & 0x40 == 0 && (occ & 0x80 == 0) == (o0 & 0x80 == 0) && occ % 16 == o0 % 16)
            by (bit_vector)
            requires
                occ == o0 & 0xbf,
        ;
        proof {
            assert(linked.is_link_of(old(self), ti as int, li as int));
        }
        let ghost registered = *self;
        self.troop_settle_restart(ti, li);
        proof {
            assert(registered.is_register_of(&fixed, ti as int, li as int));
            assert(self.is_restart_of(&registered, ti as int, li as int));
            assert(cleared.only_troop_changed(
                &linked,
                ti as int,
                Troop { occupation: linked.troops@[ti as int].occupation & 0xbf, ..linked.troops@[ti as int] },
            ));
            assert(fixed.is_bank_fix_of(&cleared, ti as int, li as int));
        }
    }

    /// The restart after settling (see `is_restart_of`).
    fn troop_settle_restart(&mut self, ti: usize, li: usize)
        requires
            old(self).wf(),
            old(self).troop_placed(ti as int),
            li == old(self).troop_loc(ti as int),
        ensures
            final(self).wf(),
            final(self).is_restart_of(old(self), ti as int, li as int),
            final(self).troops@[ti as int].occupation & 0x40 == 0 <== old(self).troops@[ti as int].occupation & 0x40 == 0,
    {
        let occ = self.troops[ti].occupation;
        if occ & 0x80 != 0 {
            return;
        }
        let nib = low_nibble(occ);
        proof {
            lemma_reinit_not_moving(
                self.troops@[ti as int],
                self.locations@[li as int],
                nib,
                self.vars.game_time,
            );
        }
        self.troop_reinit_occupation(ti, nib);
        if li != self.vars.current_location_index as usize {
            return;
        }
        if !self.vars.room_command_menu_active {
            return;
        }
        let room: u8 = if self.vars.night_attack_stage == 0 {
            2
        } else {
            1
        };
        if self.vars.current_room == room {
            self.vars.room_redraw_request = self.vars.room_redraw_request | 1;
        }
    }

    /// The turn-around of a fetch mission (occupation low bits 11b) at a
    /// hostile location: away from home the troop takes one unit of the
    /// equipment it came for (the `harvest_total` word: slot in the low
    /// byte, troop equipment bit in the high byte) when the location has a
    /// free one (`vars.available_equipment`, which the engine computes for
    /// this location), and heads home (`harvest_rate`); at home it drops the
    /// mission bits and settles.
    pub fn troop_turn_around_home(&mut self, ti: usize)
        requires
            old(self).wf(),
            old(self).troop_placed(ti as int),
        ensures
            final(self).wf(),
            final(self).moves_keep(old(self)),
            ({
                let t = old(self).troops@[ti as int];
                let home = t.harvest_rate;
                let li = old(self).troop_loc(ti as int);
                let word = t.harvest_total;
                let slot = (word % 256) as int;
                let take = slot < 7 && old(self).vars.available_equipment.slot_spec(slot) != 0;
                let loc = old(self).locations@[li];
                if t.offset_of_location != home {
                    &&& final(self).locations@ == if take {
                        old(self).locations@.update(
                            li,
                            Location {
                                equipment: loc.equipment.with_slot(
                                    slot,
                                    ((loc.equipment.slot_spec(slot) + 255) % 256) as u8,
                                ),
                                ..loc
                            },
                        )
                    } else {
                        old(self).locations@
                    }
                    &&& final(self).troops@ == old(self).troops@.update(
                        ti as int,
                        if take {
                            Troop {
                                equipment: t.equipment | ((word / 256) as u8),
                                harvest_total: (word % 256) as u16,
                                offset_of_location: home,
                                ..t
                            }
                        } else {
                            Troop { offset_of_location: home, ..t }
                        },
                    )
                    &&& final(self).events@ == old(self).events@.push(
                        GameEvent::RefreshTroopIcon(ti),
                    )
                    &&& final(self).vars == old(self).vars
                    &&& final(self).same_rest(old(self))
                } else {
                    &&& final(self).troops@[ti as int].offset_of_location == home
                    &&& final(self).locations@[li].equipment == add_equipment_spec(
                        loc.equipment,
                        t.equipment,
                        0,
                    )
                    &&& final(self).troops@[ti as int].occupation & 0x40 == 0
                    &&& final(self).troops@[ti as int].gps_coordinates_1 == t.gps_coordinates_1
                    &&& final(self).troops@[ti as int].gps_coordinates_2 == t.gps_coordinates_2
                }
            }),
            final(self).is_turn_around_of(old(self), ti as int),
    {
        let t = self.troops[ti];
        let home = t.harvest_rate;
        let dest = t.offset_of_location;
        if dest != home {
            let li = location_index_from_ptr(dest);
            let word = t.harvest_total;
            let slot = (word & 0xff) as usize;
            assert(word & 0xff == word % 256) by (bit_vector);
            let mut w = t;
            if slot < 7 && self.vars.available_equipment.slot(slot) != 0 {
                let mut loc = self.locations[li];
                let v = loc.equipment.slot(slot);
                let nv = v.wrapping_sub(1);
                assert(nv == (v + 255) % 256);
                loc.equipment.set_slot(slot, nv);
                self.set_location(li, loc);
                let hi = (word >> 8) as u8;
                assert(word >> 8 == word / 256) by (bit_vector);
                w.equipment = w.equipment | hi;
                w.harvest_total = word & 0xff;
            }
            w.offset_of_location = home;
            self.set_troop(ti, w);
            self.push_event(GameEvent::RefreshTroopIcon(ti));
        } else {
            let mut w = t;
            w.occupation = w.occupation & 0xfc;
            self.set_troop(ti, w);
            let ghost pre = *self;
            proof {
                assert(pre.troops@ =~= old(self).troops@.update(ti as int, pre.troops@[ti as int]));
            }
            self.troop_settle_into_location(ti);
            proof {
                assert(pre.only_troop_changed(old(self), ti as int, Troop { occupation: t.occupation & 0xfc, ..t }));
            }
        }
    }

    /// Drop the queue entries the prospector (troop 2) has already reached
    /// (the head names its current location while it is not moving); the
    /// new head is where its next move goes, `None` when the queue is empty.
    /// A queue whose last entry is already reached would never settle, so
    /// it is excluded.
    pub fn prospector_sync_destination_queue(&mut self) -> (r: Option<u16>)
        requires
            old(self).prospector_destinations@.len() == 4,
            old(self).troops@.len() > 2,
            !queue_reached(
                old(self).prospector_destinations@[3],
                old(self).troops@[2].offset_of_location,
                old(self).troops@[2].occupation & 0x40 != 0,
            ),
        ensures
            ({
                let q = old(self).prospector_destinations@;
                let cur = old(self).troops@[2].offset_of_location;
                let moving = old(self).troops@[2].occupation & 0x40 != 0;
                let n = queue_shift_count(q, cur, moving);
                &&& final(self).prospector_destinations@ == queue_shifted(q, n)
                &&& r == if q[n] == 0 { None::<u16> } else { Some(q[n]) }
            }),
            final(self).troops@ == old(self).troops@,
            final(self).locations@ == old(self).locations@,
            final(self).vars == old(self).vars,
            final(self).events@ == old(self).events@,
            final(self).wf() == old(self).wf(),
            final(self).moves_keep(old(self)),
            final(self).room_persons@ == old(self).room_persons@,
            final(self).fremen2_troops@ == old(self).fremen2_troops@,
            final(self).string_subst_id_table@ == old(self).string_subst_id_table@,
            final(self).visible_location_markers@ == old(self).visible_location_markers@,
            final(self).troop_condit == old(self).troop_condit,
            final(self).location_condit == old(self).location_condit,
    {
        let ghost q = self.prospector_destinations@;
        let ghost cur = self.troops@[2].offset_of_location;
        let ghost moving = self.troops@[2].occupation & 0x40 != 0;
        let ghost mut n: int = 0;
        proof {
            assert(q =~= queue_shifted(q, 0));
        }
        loop
            invariant
                0 <= n <= 3,
                self.prospector_destinations@ == queue_shifted(q, n),
                forall|k: int| 0 <= k < n ==> queue_reached(#[trigger] q[k], cur, moving),
                !queue_reached(q[3], cur, moving),
                self.troops@ == old(self).troops@,
                self.locations@ == old(self).locations@,
                self.vars == old(self).vars,
                self.events@ == old(self).events@,
                self.room_persons@ == old(self).room_persons@,
                self.fremen2_troops@ == old(self).fremen2_troops@,
                self.string_subst_id_table@ == old(self).string_subst_id_table@,
                self.lng_units_per_cell@ == old(self).lng_units_per_cell@,
                self.rand_bits@ == old(self).rand_bits@,
                self.visible_location_markers@ == old(self).visible_location_markers@,
                self.troop_condit == old(self).troop_condit,
                self.location_condit == old(self).location_condit,
                q.len() == 4,
                q == old(self).prospector_destinations@,
                self.troops@.len() > 2,
                cur == self.troops@[2].offset_of_location,
                moving == (self.troops@[2].occupation & 0x40 != 0),
            decreases 3 - n,
        {
            let head = self.prospector_destinations[0];
            if head != 0 && self.troops[2].offset_of_location == head && self.troops[2].occupation
                & 0x40 == 0 {
                self.shift_prospector_destinations();
                proof {
                    n = n + 1;
                    assert(self.prospector_destinations@ =~= queue_shifted(q, n));
                }
                continue;
            }
            proof {
                assert(self.prospector_destinations@[0] == queue_shifted(q, n)[0]);
                assert(head == q[n]);
                assert(queue_shift_count(q, cur, moving) == n);
                assert(self.prospector_destinations@.len() == 4);
            }
            return if head == 0 {
                None
            } else {
                Some(head)
            };
        }
    }

    /// Rally troop `ti` to the Atreides cause: only an unrallied (occupation
    /// bit 7) non-Harkonnen (bitfield bit 7 clear) troop qualifies. The
    /// rally count rises (reaching the story threshold advances the story to
    /// phase 0x4c), charisma rises by 1, the troop awaits orders
    /// (`(occupation & 0x20) | 2`) with its ralliement clocks stamped now
    /// and today, and its location, if it has no discovery phase yet, gets
    /// phase 2.
    pub fn troop_rally_troop(&mut self, ti: usize)
        requires
            ti < old(self).troops@.len(),
        ensures
            ({
                let t = old(self).troops@[ti as int];
                let ov = old(self).vars;
                if t.occupation & 0x80 == 0 || t.bitfield_10 & 0x80 != 0 {
                    *final(self) == *old(self)
                } else {
                    let n = ((ov.number_of_rallied_troops + 1) % 256) as u8;
                    let li = old(self).troop_loc(ti as int);
                    let phase: Seq<GameEvent> = if n >= ov.number_of_rallied_troops_for_leto_killed {
                        seq![GameEvent::SetGamePhase(0x4c)]
                    } else {
                        Seq::empty()
                    };
                    &&& final(self).vars == GameVars { number_of_rallied_troops: n, ..ov }
                    &&& final(self).events@ == old(self).events@ + phase + seq![
                        GameEvent::IncreaseCharisma(1),
                    ]
                    &&& final(self).troops@ == old(self).troops@.update(
                        ti as int,
                        Troop {
                            occupation: (t.occupation & 0x20) | 2,
                            time_period_of_ralliement: ov.game_time,
                            harvest_rate: 0,
                            harvest_total: 0,
                            game_day_of_ralliement: (ov.ingame_day % 256) as u8,
                            ..t
                        },
                    )
                    &&& final(self).locations@ == if li < old(self).locations@.len()
                        && old(self).locations@[li].discoverable_at_phase == 0 {
                        old(self).locations@.update(
                            li,
                            Location { discoverable_at_phase: 2, ..old(self).locations@[li] },
                        )
                    } else {
                        old(self).locations@
                    }
                    &&& final(self).same_tables(old(self))
                    &&& final(self).string_subst_id_table@ == old(self).string_subst_id_table@
                }
            }),
    {
        let t = self.troops[ti];
        if t.occupation & 0x80 == 0 || t.bitfield_10 & 0x80 != 0 {
            return;
        }
        let ghost e0 = self.events@;
        let n = self.vars.number_of_rallied_troops.wrapping_add(1);
        self.vars.number_of_rallied_troops = n;
        if n >= self.vars.number_of_rallied_troops_for_leto_killed {
            self.push_event(GameEvent::SetGamePhase(0x4c));
        }
        self.push_event(GameEvent::IncreaseCharisma(1));
        let day = (self.vars.ingame_day & 0xff) as u8;
        let d = self.vars.ingame_day;
        assert(d & 0xff == d % 256) by (bit_vector);
        let mut w = t;
        w.occupation = (t.occupation & 0x20) | 2;
        w.time_period_of_ralliement = self.vars.game_time;
        w.harvest_rate = 0;
        w.harvest_total = 0;
        w.game_day_of_ralliement = day;
        self.set_troop(ti, w);
        let li = location_index_from_ptr(t.offset_of_location);
        if li < self.locations.len() && self.locations[li].discoverable_at_phase == 0 {
            let mut loc = self.locations[li];
            loc.discoverable_at_phase = 2;
            self.set_location(li, loc);
        }
        proof {
            let phase: Seq<GameEvent> = if n >= self.vars.number_of_rallied_troops_for_leto_killed {
                seq![GameEvent::SetGamePhase(0x4c)]
            } else {
                Seq::empty()
            };
            assert(self.events@ =~= e0 + phase + seq![GameEvent::IncreaseCharisma(1)]);
        }
    }

    /// Troop `ti`'s pointer names a location of the table.
    pub fn troop_is_placed(&self, ti: usize) -> (b: bool)
        requires
            ti < self.troops@.len(),
        ensures
            b == self.troop_placed(ti as int),
    {
        location_index_from_ptr(self.troops[ti].offset_of_location) < self.locations.len()
    }

    /// Troop `ti` reached its destination: the prospector (troop 2)
    /// arriving at the head of its queue drops it, and the troop's gps
    /// position snaps to the location. At a battle-flagged (status bit 1)
    /// or Atreides location it settles; an espionage arrival (occupation 5)
    /// then reveals a hidden location (status bit 7, the map redrawn) or
    /// alerts the residents, and any other arrival that did not take the
    /// head of the list alerts them too. Elsewhere espionage and attack
    /// missions (5, 6) drop their low bits, a fetch mission (low bits 11b)
    /// turns around for home and everyone else settles. A troop that
    /// settles keeps its pointer and stops moving; one that turns around
    /// keeps its occupation and points at home.
    #[verifier::rlimit(60)]
    #[verifier::spinoff_prover]
    pub fn troop_arrive_at_destination(&mut self, ti: usize)
        requires
            old(self).wf(),
            old(self).troop_placed(ti as int),
        ensures
            final(self).wf(),
            final(self).moves_keep(old(self)),
            arrival_outcome(
                old(self).troops@[ti as int],
                old(self).locations@[old(self).troop_loc(ti as int)],
                final(self).troops@[ti as int],
            ),
            final(self).is_arrival_of(old(self), ti as int),
    {
        let t = self.troops[ti];
        if ti == 2 && self.prospector_destinations[0] == t.offset_of_location {
            self.shift_prospector_destinations();
        }
        let ghost q = *self;
        let occ_low = low_nibble(t.occupation);
        let li = location_index_from_ptr(t.offset_of_location);
        let loc = self.locations[li];
        let mut w = t;
        w.gps_coordinates_1 = as_unsigned16(loc.map_x);
        w.gps_coordinates_2 = as_unsigned16(loc.map_y);
        self.set_troop(ti, w);
        let ghost snapped = *self;
        proof {
            reveal(GameState::is_arrival_of);
            assert(q.is_queue_step_of(old(self), ti as int));
            assert(snapped.only_troop_changed(&q, ti as int, w));
        }
        if loc.status & 2 != 0 || self.location_is_atreides(li) {
            self.troop_settle_into_location(ti);
            let ghost settled = self.troops@[ti as int];
            let ghost after_settle = *self;
            proof {
                lemma_alert_resident(settled, self.locations@, self.vars.game_time);
            }
            if occ_low == 5 {
                if self.locations[li].status & 0x80 != 0 {
                    let mut l = self.locations[li];
                    l.status = l.status & 0x7f;
                    self.set_location(li, l);
                    let ghost rev = *self;
                    self.location_mark_map_and_minimap_dirty(li);
                    proof {
                        assert(rev.is_reveal_of(&after_settle, li as int));
                    }
                } else {
                    self.troop_location_notify_residents(li);
                }
            } else if self.troops[ti].troop_id != self.locations[li].troop_id {
                // The troop that heads the list after settling holds the
                // location; nobody else is alerted.
                self.troop_location_notify_residents(li);
            }
            proof {
                assert(self.is_after_settle_of(&after_settle, ti as int, li as int, occ_low as int));
                assert(after_settle.is_settle_of(&snapped, ti as int));
            }
            return;
        }
        let mut class = occ_low;
        if occ_low == 5 || occ_low == 6 {
            let new = self.troops[ti].occupation & 0xfc;
            proof {
                lemma_reinit_frame(
                    self.troops@[ti as int],
                    self.locations@[self.troop_loc(ti as int)],
                    new,
                    self.vars.game_time,
                );
            }
            self.troop_reinit_occupation(ti, new);
            class = 0;
        }
        let ghost r = *self;
        assert(class & 3 == class % 4) by (bit_vector);
        if class & 3 == 3 {
            self.troop_turn_around_home(ti);
        } else {
            self.troop_settle_into_location(ti);
        }
        proof {
            if occ_low == 5 || occ_low == 6 {
                assert(r.is_reinit_of(&snapped, ti as int, t.occupation & 0xfc));
            }
        }
    }

    /// Up to `steps` sub-steps of troop `ti` toward its destination, each
    /// added to its gps position (16-bit wrapping); a zero sub-step is the
    /// arrival, which ends the walk. A troop still on its way afterwards
    /// has its map icon follow it: only its gps position changed.
    #[verifier::rlimit(80)]
    #[verifier::spinoff_prover]
    pub fn troop_travel_substeps(&mut self, ti: usize, steps: u16)
        requires
            old(self).wf(),
            old(self).troop_placed(ti as int),
        ensures
            final(self).wf(),
            final(self).moves_keep(old(self)),
            steps == 0 ==> final(self).troops@ == old(self).troops@
                && final(self).events@ == old(self).events@.push(GameEvent::TroopIconFollow(ti)),
            final(self).is_walk_of(old(self), ti as int, steps as nat),
    {
        let mut k: u16 = 0;
        let ghost t0 = old(self).troops@[ti as int];
        let ghost loc0 = old(self).locations@[old(self).troop_loc(ti as int)];
        let ghost table = old(self).lng_units_per_cell@;
        let ghost bits = old(self).rand_bits@;
        let ghost whole = substep_walk(t0, loc0, table, bits, old(self).vars.rand_cursor, steps as nat);
        while k < steps
            invariant
                k <= steps,
                self.wf(),
                self.moves_keep(old(self)),
                self.troop_placed(ti as int),
                t0 == old(self).troops@[ti as int],
                loc0 == old(self).locations@[old(self).troop_loc(ti as int)],
                table == old(self).lng_units_per_cell@,
                bits == old(self).rand_bits@,
                whole == substep_walk(t0, loc0, table, bits, old(self).vars.rand_cursor, steps as nat),
                whole == substep_walk(
                    self.troops@[ti as int],
                    loc0,
                    table,
                    bits,
                    self.vars.rand_cursor,
                    (steps - k) as nat,
                ),
                k == 0 ==> self.troops@ == old(self).troops@ && self.events@ == old(self).events@,
                self.troops@ == old(self).troops@.update(ti as int, moved_to(t0, self.troops@[ti as int])),
                self.locations@ == old(self).locations@,
                self.events@ == old(self).events@,
                self.vars == (GameVars { rand_cursor: self.vars.rand_cursor, ..old(self).vars }),
                self.same_rest(old(self)),
            decreases steps - k,
        {
            let ghost mid = self.troops@[ti as int];
            let ghost c = self.vars.rand_cursor;
            let (dlng, dlat) = self.troop_travel_substep_delta(ti);
            proof {
                lemma_substep_walk_unfold(
                    mid,
                    loc0,
                    table,
                    bits,
                    c,
                    (steps - k) as nat,
                    (dlng, dlat),
                    self.vars.rand_cursor,
                );
            }
            if dlng == 0 && dlat == 0 {
                let ghost walked = *self;
                self.troop_arrive_at_destination(ti);
                proof {
                    assert(whole.2);
                    assert(whole.0 == walked.troops@[ti as int]);
                    assert(whole.1 == walked.vars.rand_cursor);
                    assert(walked.is_walked_state_of(old(self), ti as int, whole.0, whole.1));
                    assert(self.is_arrival_of(&walked, ti as int));
                }
                return;
            }
            let mut w = self.troops[ti];
            let ghost before = w;
            w.gps_coordinates_1 = w.gps_coordinates_1.wrapping_add(as_unsigned16(dlng));
            w.gps_coordinates_2 = w.gps_coordinates_2.wrapping_add(as_unsigned16(dlat));
            proof {
                assert(w == substep_moved(before, (dlng, dlat)));
            }
            self.set_troop(ti, w);
            k = k + 1;
        }
        proof {
            lemma_substep_walk_zero(self.troops@[ti as int], loc0, table, bits, self.vars.rand_cursor);
        }
        self.push_event(GameEvent::TroopIconFollow(ti));
    }

    /// One period of travel: 4 sub-steps, 8 with an ornithopter (equipment
    /// bit 6).
    pub fn troop_travel_step(&mut self, ti: usize)
        requires
            old(self).wf(),
            old(self).troop_placed(ti as int),
        ensures
            final(self).wf(),
            final(self).moves_keep(old(self)),
            final(self).is_walk_of(old(self), ti as int, travel_step_count(old(self).troops@[ti as int])),
    {
        let steps: u16 = if self.troops[ti].equipment & 0x40 != 0 {
            8
        } else {
            4
        };
        self.troop_travel_substeps(ti, steps);
    }

    /// The travel step, except for the troop whose contact panel is open:
    /// it waits in place.
    pub fn troop_travel_step_unless_selected(&mut self, ti: usize)
        requires
            old(self).wf(),
            old(self).troop_placed(ti as int),
        ensures
            final(self).wf(),
            final(self).moves_keep(old(self)),
            old(self).troops@[ti as int].troop_id == old(self).vars.map_selected_troop_id
                ==> *final(self) == *old(self),
            old(self).troops@[ti as int].troop_id != old(self).vars.map_selected_troop_id
                ==> final(self).is_walk_of(
                old(self),
                ti as int,
                travel_step_count(old(self).troops@[ti as int]),
            ),
    {
        if self.troops[ti].troop_id == self.vars.map_selected_troop_id {
            return;
        }
        self.troop_travel_step(ti);
    }

    /// The troops left on location `li`'s list restart (see
    /// `is_left_behind_restart_of`).
    fn troop_restart_left_behind(&mut self, li: usize)
        requires
            old(self).wf(),
            li < old(self).locations@.len(),
        ensures
            final(self).wf(),
            final(self).moves_keep(old(self)),
            final(self).troops_in_place(old(self)),
            final(self).is_left_behind_restart_of(old(self), li as int),
    {
        let chain = collect_troop_chain(&self.troops, self.locations[li].troop_id);
        let mut k: usize = 0;
        let ghost old_self = *self;
        let ghost gt = old_self.vars.game_time;
        let ghost sel = old_self.vars.map_selected_troop_id;
        while k < chain.len()
            invariant
                k <= chain@.len(),
                forall|j: int| 0 <= j < chain@.len() ==> (#[trigger] chain@[j] as int) < self.troops@.len(),
                self.wf(),
                self.moves_keep(&old_self),
                self.troops_in_place(&old_self),
                self.vars == old_self.vars,
                self.locations@ == old_self.locations@,
                gt == old_self.vars.game_time,
                sel == old_self.vars.map_selected_troop_id,
                self.same_rest(&old_self),
                self.events@ == old_self.events@ + restart_events(
                    old_self.troops@,
                    chain@,
                    old_self.locations@,
                    gt,
                    sel,
                    k as int,
                ),
                forall|j: int|
                    0 <= j < old_self.troops@.len() ==> #[trigger] self.troops@[j] == if chain@.subrange(
                        0,
                        k as int,
                    ).contains(j as usize) {
                        restart_resident_spec(old_self.troops@[j], old_self.locations@, gt)
                    } else {
                        old_self.troops@[j]
                    },
            decreases chain@.len() - k,
        {
            let tj = chain[k];
            let ghost before = self.troops@;
            let ghost ev0 = self.events@;
            let ghost o = old_self.troops@[tj as int];
            let ghost want = restart_resident_spec(o, old_self.locations@, gt);
            let ghost seen = chain@.subrange(0, k as int).contains(tj);
            let ghost add = if seen {
                Seq::<GameEvent>::empty()
            } else {
                restart_events_of(o, tj, old_self.locations@, gt, sel)
            };
            proof {
                lemma_restart_once(o, old_self.locations@, gt);
                assert(restart_events(old_self.troops@, chain@, old_self.locations@, gt, sel, k + 1)
                    == restart_events(old_self.troops@, chain@, old_self.locations@, gt, sel, k as int) + add);
            }
            let w = self.troops[tj];
            if w.occupation < 0x80 && w.dissatisfaction_and_speech & 0x10 != 0 && self.troop_is_placed(
                tj,
            ) {
                let nib = low_nibble(w.occupation);
                self.troop_reinit_occupation(tj, nib);
            }
            proof {
                assert(self.events@ =~= ev0 + add);
                assert(self.troops@ == before.update(tj as int, want));
                assert(chain@.subrange(0, k + 1) =~= chain@.subrange(0, k as int).push(tj));
                assert forall|j: int| 0 <= j < old_self.troops@.len() implies #[trigger] self.troops@[j]
                    == if chain@.subrange(0, k + 1).contains(j as usize) {
                    restart_resident_spec(old_self.troops@[j], old_self.locations@, gt)
                } else {
                    old_self.troops@[j]
                } by {
                    if j != tj as int {
                        assert(chain@.subrange(0, k + 1).contains(j as usize)
                            == chain@.subrange(0, k as int).contains(j as usize));
                    } else {
                        assert(chain@.subrange(0, k + 1)[k as int] == tj);
                    }
                }
            }
            k = k + 1;
        }
        proof {
            assert(chain@.subrange(0, chain@.len() as int) =~= chain@);
        }
    }

    /// Order troop `ti` to location `dest_li`. The prospector (troop 2)
    /// goes to the head of its destination queue instead (after dropping
    /// reached entries; an empty queue is no order). A moving troop just
    /// retargets (a fetch mission drops its low bits). A stationed troop
    /// leaves: the rallied troops it leaves behind with the reassigned
    /// speech bit (4) restart their occupation, it leaves its location's
    /// list, a defender (occupation 6) heading for a sietch (appearance
    /// below 0x28) that is at battle stays, or else loses 3 motivation; then
    /// it starts moving from position 0, its equipment leaves the old
    /// location, and unless hidden (bitfield bit 4) it gets a head start of
    /// 7 sub-steps.
    pub fn troop_issue_move_order(&mut self, ti: usize, dest_li: usize)
        requires
            old(self).wf(),
            old(self).troop_placed(ti as int),
            dest_li < old(self).locations@.len(),
            dest_li < 0x800,
            ti == 2 ==> !queue_reached(
                old(self).prospector_destinations@[3],
                old(self).troops@[2].offset_of_location,
                old(self).troops@[2].occupation & 0x40 != 0,
            ),
        ensures
            final(self).wf(),
            final(self).moves_keep(old(self)),
            final(self).is_move_order_of(old(self), ti as int, dest_li as int),
    {
        let mut dest_ptr = location_ptr(dest_li as u16);
        if ti == 2 {
            match self.prospector_sync_destination_queue() {
                None => {
                    proof {
                        assert(self.is_queue_sync_of(old(self)));
                    }
                    return;
                },
                Some(head) => {
                    dest_ptr = head;
                },
            }
        }
        let ghost q = *self;
        proof {
            if ti == 2 {
                assert(q.is_queue_sync_of(old(self)));
            } else {
                assert(dest_ptr == location_ptr_spec(dest_li as int));
            }
        }
        let t = self.troops[ti];
        if t.occupation & 0x40 != 0 {
            let mut w = t;
            w.offset_of_location = dest_ptr;
            if t.occupation & 3 == 3 {
                w.occupation = t.occupation & 0xfc;
            }
            self.set_troop(ti, w);
            self.push_event(GameEvent::RefreshTroopIcon(ti));
            proof {
                assert(self.is_order_of(&q, ti as int, dest_li as int, dest_ptr));
            }
            return;
        }
        let old_li = location_index_from_ptr(t.offset_of_location);
        self.troop_restart_left_behind(old_li);
        let ghost r = *self;
        self.troop_unlink_from_location_chain(ti);
        let ghost u = *self;
        self.troop_depart(ti, dest_li, dest_ptr, old_li);
        proof {
            assert(q.troop_loc(ti as int) == old_li as int);
            assert(q.troops@[ti as int].occupation & 0x40 == 0);
            assert(r.is_left_behind_restart_of(&q, old_li as int));
            assert(u.is_unlink_of(&r, ti as int));
            assert(self.is_departure_of(&u, ti as int, dest_li as int, dest_ptr, old_li as int));
            assert(self.is_order_of(&q, ti as int, dest_li as int, dest_ptr));
        }
    }

    /// The departure of troop `ti`, already unlinked from location `old_li`
    /// (see `is_departure_of`).
    fn troop_depart(&mut self, ti: usize, dest_li: usize, dest_ptr: u16, old_li: usize)
        requires
            old(self).wf(),
            old(self).troop_placed(ti as int),
            dest_li < old(self).locations@.len(),
            old_li < old(self).locations@.len(),
        ensures
            final(self).wf(),
            final(self).moves_keep(old(self)),
            final(self).is_departure_of(old(self), ti as int, dest_li as int, dest_ptr, old_li as int),
    {
        if self.troops[ti].occupation == 6 && self.locations[dest_li].appearance < 0x28 {
            if self.locations[dest_li].status & 2 != 0 {
                return;
            }
            self.troop_decrease_motivation(ti, 3);
        }
        let ghost m = *self;
        let mut w = self.troops[ti];
        w.offset_of_location = dest_ptr;
        w.occupation = w.occupation | 0x40;
        w.position = 0;
        self.set_troop(ti, w);
        self.troop_unregister_equipment_from_location(ti, old_li);
        self.push_event(GameEvent::RefreshTroopIcon(ti));
        let ghost d = *self;
        proof {
            assert(d.is_leave_of(&m, ti as int, dest_ptr, old_li as int));
        }
        if self.troops[ti].bitfield_10 & 0x10 == 0 && self.troop_is_placed(ti) {
            self.troop_travel_substeps(ti, 7);
        }
    }

    /// One time period of every troop but the table's closing entry: a
    /// troop that is ill (speech bit 10) or was just reassigned (bits 4-5)
    /// only travels if moving, and once vegetation has started on Dune the
    /// reassignment bits clear so a healthy troop rejoins the walk. Captured
    /// (occupation bit 5) and unrallied (bit 7) troops do nothing, moving
    /// ones (bit 6) take their travel step, and the rest run their
    /// occupation's per-period callback. A troop whose pointer names no
    /// location is passed over.
    pub fn run_troop_occupation_events(&mut self)
        requires
            old(self).wf(),
            old(self).troops@.len() >= 1,
        ensures
            final(self).wf(),
            final(self).moves_keep(old(self)),
            exists|states: Seq<GameState>|
                {
                    &&& states.len() == old(self).troops@.len()
                    &&& states[0] == *old(self)
                    &&& states.last() == *final(self)
                    &&& forall|k: int|
                        0 <= k < states.len() - 1 ==> #[trigger] states[k + 1].is_troop_period_of(
                            &states[k],
                            k,
                        )
                },
    {
        let n = self.troops.len() - 1;
        let mut ti: usize = 0;
        let ghost mut states: Seq<GameState> = seq![*self];
        while ti < n
            invariant
                ti <= n,
                n + 1 == self.troops@.len(),
                self.wf(),
                self.moves_keep(old(self)),
                states.len() == ti + 1,
                states[0] == *old(self),
                states.last() == *self,
                forall|k: int|
                    0 <= k < ti ==> #[trigger] states[k + 1].is_troop_period_of(&states[k], k),
            decreases n - ti,
        {
            let ghost before = *self;
            let ghost mut base = *self;
            let t = self.troops[ti];
            if !self.troop_is_placed(ti) {
                proof {
                    assert(self.is_troop_period_of(&before, ti as int));
                    states = states.push(*self);
                }
                ti = ti + 1;
                continue;
            }
            if t.dissatisfaction_and_speech & 0x430 != 0 {
                if t.occupation & 0x40 != 0 {
                    self.troop_travel_step_unless_selected(ti);
                    proof {
                        assert(self.is_troop_period_of(&before, ti as int));
                        states = states.push(*self);
                    }
                    ti = ti + 1;
                    continue;
                }
                if self.vars.vegetation_started_on_dune == 0 {
                    proof {
                        assert(self.is_troop_period_of(&before, ti as int));
                        states = states.push(*self);
                    }
                    ti = ti + 1;
                    continue;
                }
                let mut w = t;
                w.dissatisfaction_and_speech = w.dissatisfaction_and_speech & 0xffcf;
                self.set_troop(ti, w);
                proof {
                    base = *self;
                    assert(base.only_troop_changed(&before, ti as int, w));
                }
                if w.dissatisfaction_and_speech & 0x400 != 0 {
                    proof {
                        assert(self.is_troop_period_of(&before, ti as int));
                        states = states.push(*self);
                    }
                    ti = ti + 1;
                    continue;
                }
            }
            let t = self.troops[ti];
            if t.occupation & 0xa0 != 0 {
                proof {
                    assert(self.is_free_troop_period_of(&base, ti as int));
                    assert(self.is_troop_period_of(&before, ti as int));
                    states = states.push(*self);
                }
                ti = ti + 1;
                continue;
            }
            if t.occupation & 0x40 != 0 {
                self.troop_travel_step_unless_selected(ti);
                proof {
                    assert(self.is_free_troop_period_of(&base, ti as int));
                    assert(self.is_troop_period_of(&before, ti as int));
                    states = states.push(*self);
                }
                ti = ti + 1;
                continue;
            }
            self.run_troop_occupation_callback(ti);
            proof {
                assert(self.is_free_troop_period_of(&base, ti as int));
                assert(self.is_troop_period_of(&before, ti as int));
                states = states.push(*self);
            }
            ti = ti + 1;
        }
    }
}

} // verus!
