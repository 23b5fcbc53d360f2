//! What troops do with their time: the occupation viability tests, the
//! (re)assignment of an occupation, one period of spice mining, and the
//! per-period walk over the troop table.
use vstd::prelude::*;
use crate::world::{Troop, Location, location_index_from_ptr, low_nibble, low_byte_u8};
use crate::game::{GameState, GameEvent, GameVars};
use crate::troop_condit::{
    motivation_modifier_spec, troop_here_spec, harvest_spec, add8, trend_bitfield_spec,
};

verus! {

/// Can the troop NOT do its occupation where it stands? Spice mining (0)
/// needs an undamaged harvester, a troop that is not sulking, spice in the
/// ground, and an area prospected (status bit 6) but not exhausted (bit 0);
/// prospecting (1) only pays where neither bit is set; irrigation (8) needs
/// a non-sulking troop, water, status bit 5 and the troop's own bulbs; every
/// other occupation is always viable.
pub open spec fn not_viable_spec(t: Troop, loc: Location) -> bool {
    let occ = t.occupation % 16;
    if occ == 0 {
        t.bitfield_10 & 0x200 != 0 || t.dissatisfaction_and_speech & 0x30 != 0 || loc.spice_density
            < 1 || (loc.status ^ 0x40) & 0x41 != 0
    } else if occ == 1 {
        loc.status & 0x41 != 0
    } else if occ == 8 {
        t.dissatisfaction_and_speech & 0x30 != 0 || loc.water < 1 || loc.status & 0x20 == 0
            || t.equipment & 2 == 0
    } else {
        false
    }
}

/// The occupation clocks restarted: the ralliement time is now, and both
/// occupation accumulators are cleared.
pub open spec fn reset_clocks_spec(t: Troop, game_time: u16) -> Troop {
    Troop { time_period_of_ralliement: game_time, harvest_rate: 0, harvest_total: 0, ..t }
}

/// Whether the viability answer flips the troop's stopped bit (0x10).
pub open spec fn stop_bit_flips(t: Troop, nv: bool) -> bool {
    (t.occupation & 0x10 != 0) != nv
}

/// The troop after its stopped bit is synced with the viability answer:
/// a flip toggles the bit, and resuming work restarts the clocks.
pub open spec fn sync_stopped_spec(t: Troop, nv: bool, game_time: u16) -> Troop {
    if stop_bit_flips(t, nv) {
        let t2 = Troop { occupation: t.occupation ^ 0x10, ..t };
        if !nv {
            reset_clocks_spec(t2, game_time)
        } else {
            t2
        }
    } else {
        t
    }
}

/// The occupation actually assigned: ecology (8) at the record 0x07c8
/// location while it holds no bulbs becomes bulb growing (0x0a).
pub open spec fn assigned_occupation(t: Troop, loc: Location, new: u8) -> u8 {
    if new == 8 && t.offset_of_location == 0x07c8 && loc.equipment.bulbs == 0 {
        0x0a
    } else {
        new
    }
}

/// The troop right after a new occupation is written: speech bits 4-5 and
/// the working flag (bitfield bit 8) cleared.
pub open spec fn reinit_start_spec(t: Troop, loc: Location, new: u8) -> Troop {
    Troop {
        occupation: assigned_occupation(t, loc, new),
        dissatisfaction_and_speech: t.dissatisfaction_and_speech & 0xffcf,
        bitfield_10: t.bitfield_10 & 0xfeff,
        ..t
    }
}

/// The speech word with the new-job flag of the occupation class set
/// (0x2000 << class, in 16 bits).
pub open spec fn job_flag_spec(speech: u16, occupation: u8) -> u16 {
    let class = (occupation % 16) / 4;
    if class == 0 {
        speech | 0x2000
    } else if class == 1 {
        speech | 0x4000
    } else if class == 2 {
        speech | 0x8000
    } else {
        speech
    }
}

/// The troop after `troop_reinit_occupation(new)`.
pub open spec fn reinit_troop_spec(t: Troop, loc: Location, new: u8, game_time: u16) -> Troop {
    let t1 = reinit_start_spec(t, loc, new);
    let nv = not_viable_spec(t1, loc);
    let t2 = sync_stopped_spec(t1, nv, game_time);
    let t3 = if !nv { Troop { bitfield_10: t2.bitfield_10 | 0x100, ..t2 } } else { t2 };
    let t4 = reset_clocks_spec(t3, game_time);
    if t4.occupation != 2 {
        Troop {
            dissatisfaction_and_speech: job_flag_spec(t4.dissatisfaction_and_speech, t4.occupation),
            ..t4
        }
    } else {
        t4
    }
}

/// The requests `troop_reinit_occupation(new)` leaves: an icon refresh when
/// the stopped bit flipped, always one more, and a menu rebuild when the
/// troop is the one being contacted.
pub open spec fn reinit_events_spec(
    ti: usize,
    t: Troop,
    loc: Location,
    new: u8,
    selected_id: u8,
) -> Seq<GameEvent> {
    let t1 = reinit_start_spec(t, loc, new);
    let nv = not_viable_spec(t1, loc);
    let first = if stop_bit_flips(t1, nv) {
        seq![GameEvent::RefreshTroopIcon(ti)]
    } else {
        Seq::empty()
    };
    let last = if t.troop_id == selected_id {
        seq![GameEvent::RefreshTroopDialogMenu(ti)]
    } else {
        Seq::empty()
    };
    first + seq![GameEvent::RefreshTroopIcon(ti)] + last
}

/// The spice skill raised by `by`, capped at 0x5f; a rank change (high
/// nibble) marks `marker + 1` in bitfield bits 0-1.
pub open spec fn raise_skill_spec(t: Troop, by: u8, marker: u8) -> Troop {
    let raised_raw = add8(t.spice_skill, by);
    let raised: u8 = if raised_raw > 0x5f { 0x5f } else { raised_raw };
    if raised / 16 != t.spice_skill / 16 {
        Troop {
            spice_skill: raised,
            bitfield_10: (t.bitfield_10 & 0xfffc) | ((marker + 1) as u16),
            ..t
        }
    } else {
        Troop { spice_skill: raised, ..t }
    }
}

impl GameState {
    /// `self` is `old` after one period of spice mining by troop `ti` (see
    /// `troop_occupation_event_spice_mining`).
    pub open spec fn is_mining_period_of(&self, old: &GameState, ti: int) -> bool {
        let t = old.troops@[ti];
        let li = old.troop_loc(ti);
        let loc = old.locations@[li];
        let ov = old.vars;
        match mining_ready_spec(t, loc, ov.game_time) {
            None => {
                &&& self.troops@ == old.troops@.update(
                    ti,
                    mining_idle_spec(t, loc, ov.game_time),
                )
                &&& self.events@ == if mining_idle_flips(t, loc, ov.game_time) {
                    old.events@.push(GameEvent::RefreshTroopIcon(ti as usize))
                } else {
                    old.events@
                }
                &&& self.keeps_tables(old)
            },
            Some(t2) => {
                let v = troop_harvest_spec(t, loc, ov);
                let pot = ((v + ov.spice_harvest_remainder) % 0x10000) as u16;
                let nloc = mined_location_spec(loc, v);
                let q = if loc.spice_amount != 0 {
                    (v + loc.field_13) / loc.spice_amount as int
                } else {
                    0
                };
                let bites = loc.spice_amount != 0 && (if q > 0xff {
                    0xff
                } else {
                    q
                }) > loc.spice_density % 16;
                let dirty: u8 = if bites && ov.data_046eb & 0x40 != 0 {
                    ((ov.spice_density_overlay_dirty + 1) % 256) as u8
                } else {
                    ov.spice_density_overlay_dirty
                };
                &&& self.troops@ == old.troops@.update(
                    ti,
                    mined_troop_spec(t2, v),
                )
                &&& self.events@ == if stop_bit_flips(
                    if t.bitfield_10 & 0x200 != 0 {
                        Troop { bitfield_10: t.bitfield_10 & 0xfdff, ..t }
                    } else {
                        t
                    },
                    false,
                ) {
                    old.events@.push(GameEvent::RefreshTroopIcon(ti as usize))
                } else {
                    old.events@
                }
                &&& self.locations@ == old.locations@.update(li, nloc)
                &&& self.vars == GameVars {
                    spice_harvest_remainder: pot % 10,
                    spice_in_stock: ((ov.spice_in_stock + pot / 10) % 0x10000) as u16,
                    spice_density_overlay_dirty: dirty,
                    ..ov
                }
                &&& self.same_tables(old)
                &&& self.string_subst_id_table@ == old.string_subst_id_table@
                &&& self.troop_condit == old.troop_condit
                &&& self.location_condit == old.location_condit
            },
        }
    }

    /// Every table the occupation code does not write is unchanged.
    pub open spec fn keeps_tables(&self, old: &GameState) -> bool {
        &&& self.locations@ == old.locations@
        &&& self.same_tables(old)
        &&& self.string_subst_id_table@ == old.string_subst_id_table@
        &&& self.troop_condit == old.troop_condit
        &&& self.location_condit == old.location_condit
        &&& self.vars == old.vars
    }

    /// Occupation bit 4: the troop stops working.
    pub fn troop_make_stop_working(&mut self, ti: usize)
        requires
            ti < old(self).troops@.len(),
        ensures
            final(self).only_troop_changed(
                old(self),
                ti as int,
                Troop {
                    occupation: old(self).troops@[ti as int].occupation | 0x10,
                    ..old(self).troops@[ti as int]
                },
            ),
    {
        let mut t = self.troops[ti];
        t.occupation = t.occupation | 0x10;
        self.set_troop(ti, t);
    }

    /// Raise the troop's spice skill (see `raise_skill_spec`).
    pub fn troop_increase_spice_skill(&mut self, ti: usize, by: u8, marker: u8)
        requires
            ti < old(self).troops@.len(),
            marker < 3,
        ensures
            final(self).only_troop_changed(
                old(self),
                ti as int,
                raise_skill_spec(old(self).troops@[ti as int], by, marker),
            ),
    {
        let mut t = self.troops[ti];
        let before = t.spice_skill;
        let sum = before.wrapping_add(by);
        let raised = if sum > 0x5f {
            0x5f
        } else {
            sum
        };
        t.spice_skill = raised;
        let changed = (raised ^ before) & 0xf0;
        assert((changed != 0) == (raised / 16 != before / 16)) by (bit_vector)
            requires
                changed == (raised ^ before) & 0xf0,
        ;
        if changed != 0 {
            t.bitfield_10 = (t.bitfield_10 & 0xfffc) | (marker as u16 + 1);
        }
        self.set_troop(ti, t);
    }

    /// Restart the troop's occupation clocks.
    pub fn troop_reset_occupation_clocks(&mut self, ti: usize)
        requires
            ti < old(self).troops@.len(),
        ensures
            final(self).only_troop_changed(
                old(self),
                ti as int,
                reset_clocks_spec(old(self).troops@[ti as int], old(self).vars.game_time),
            ),
    {
        let mut t = self.troops[ti];
        t.time_period_of_ralliement = self.vars.game_time;
        t.harvest_rate = 0;
        t.harvest_total = 0;
        self.set_troop(ti, t);
    }

    /// The occupation class: 0 spice, 1 army, 2 ecology.
    pub fn troop_get_occupation_bits_2_and_3(&self, ti: usize) -> (c: u8)
        requires
            ti < self.troops@.len(),
        ensures
            c == (self.troops@[ti as int].occupation % 16) / 4,
            c <= 3,
    {
        low_nibble(self.troops[ti].occupation) / 4
    }

    /// Can troop `ti` NOT do its occupation where it stands? The answer is
    /// synced into occupation bit 4 (the stopped bit): a flip asks for an
    /// icon refresh, and resuming work restarts the clocks.
    pub fn troop_occupation_not_viable(&mut self, ti: usize) -> (nv: bool)
        requires
            old(self).troop_placed(ti as int),
        ensures
            ({
                let t = old(self).troops@[ti as int];
                let loc = old(self).locations@[old(self).troop_loc(ti as int)];
                &&& nv == not_viable_spec(t, loc)
                &&& final(self).troops@ == old(self).troops@.update(
                    ti as int,
                    sync_stopped_spec(t, nv, old(self).vars.game_time),
                )
                &&& final(self).events@ == if stop_bit_flips(t, nv) {
                    old(self).events@.push(GameEvent::RefreshTroopIcon(ti))
                } else {
                    old(self).events@
                }
                &&& final(self).keeps_tables(old(self))
            }),
    {
        let t = self.troops[ti];
        let li = location_index_from_ptr(t.offset_of_location);
        let loc = self.locations[li];
        let occ = low_nibble(t.occupation);
        let not_viable = if occ == 0 {
            t.bitfield_10 & 0x200 != 0 || t.dissatisfaction_and_speech & 0x30 != 0
                || loc.spice_density < 1 || (loc.status ^ 0x40) & 0x41 != 0
        } else if occ == 1 {
            loc.status & 0x41 != 0
        } else if occ == 8 {
            t.dissatisfaction_and_speech & 0x30 != 0 || loc.water < 1 || loc.status & 0x20 == 0
                || t.equipment & 2 == 0
        } else {
            false
        };
        let stopped = t.occupation & 0x10 != 0;
        if stopped != not_viable {
            let mut nt = t;
            nt.occupation = nt.occupation ^ 0x10;
            self.set_troop(ti, nt);
            self.push_event(GameEvent::RefreshTroopIcon(ti));
            if !not_viable {
                self.troop_reset_occupation_clocks(ti);
            }
        }
        not_viable
    }

    /// The spice-mining viability test, called directly.
    pub fn troop_spice_mining_not_viable(&mut self, ti: usize) -> (nv: bool)
        requires
            old(self).troop_placed(ti as int),
        ensures
            ({
                let t = old(self).troops@[ti as int];
                let loc = old(self).locations@[old(self).troop_loc(ti as int)];
                &&& nv == not_viable_spec(t, loc)
                &&& final(self).troops@ == old(self).troops@.update(
                    ti as int,
                    sync_stopped_spec(t, nv, old(self).vars.game_time),
                )
                &&& final(self).events@ == if stop_bit_flips(t, nv) {
                    old(self).events@.push(GameEvent::RefreshTroopIcon(ti))
                } else {
                    old(self).events@
                }
                &&& final(self).keeps_tables(old(self))
            }),
    {
        self.troop_occupation_not_viable(ti)
    }

    /// Re-initialize troop `ti`'s occupation as `new` (no same-occupation
    /// early-out): write it (ecology at the record 0x07c8 location without
    /// bulbs becomes bulb growing), clear the speech bits 4-5 and the
    /// working flag, re-test viability (setting the working flag when
    /// viable), refresh the icon, restart the clocks, flag the new job in
    /// the speech word unless awaiting orders, and rebuild the contacted
    /// troop's order menu.
    pub fn troop_reinit_occupation(&mut self, ti: usize, new: u8)
        requires
            old(self).troop_placed(ti as int),
        ensures
            ({
                let t = old(self).troops@[ti as int];
                let loc = old(self).locations@[old(self).troop_loc(ti as int)];
                &&& final(self).troops@ == old(self).troops@.update(
                    ti as int,
                    reinit_troop_spec(t, loc, new, old(self).vars.game_time),
                )
                &&& final(self).events@ == old(self).events@ + reinit_events_spec(
                    ti,
                    t,
                    loc,
                    new,
                    old(self).vars.map_selected_troop_id,
                )
                &&& final(self).keeps_tables(old(self))
            }),
    {
        let t = self.troops[ti];
        let li = location_index_from_ptr(t.offset_of_location);
        let mut new = new;
        if new == 8 && t.offset_of_location == 0x07c8 && self.locations[li].equipment.bulbs == 0 {
            new = 0x0a;
        }
        let mut nt = t;
        nt.occupation = new;
        nt.dissatisfaction_and_speech = nt.dissatisfaction_and_speech & 0xffcf;
        nt.bitfield_10 = nt.bitfield_10 & 0xfeff;
        self.set_troop(ti, nt);
        let ghost e0 = self.events@;
        if !self.troop_occupation_not_viable(ti) {
            let mut w = self.troops[ti];
            w.bitfield_10 = w.bitfield_10 | 0x100;
            self.set_troop(ti, w);
        }
        let ghost e1 = self.events@;
        self.push_event(GameEvent::RefreshTroopIcon(ti));
        self.troop_reset_occupation_clocks(ti);
        if self.troops[ti].occupation != 2 {
            let class = self.troop_get_occupation_bits_2_and_3(ti);
            let mut w = self.troops[ti];
            w.dissatisfaction_and_speech = w.dissatisfaction_and_speech | (0x2000u16 << class);
            let s = w.dissatisfaction_and_speech;
            let ghost sp = self.troops@[ti as int].dissatisfaction_and_speech;
            assert(sp | (0x2000u16 << class) == if class == 0 {
                sp | 0x2000
            } else if class == 1 {
                sp | 0x4000
            } else if class == 2 {
                sp | 0x8000
            } else {
                sp
            }) by (bit_vector)
                requires
                    class <= 3,
            ;
            self.set_troop(ti, w);
        }
        if self.troops[ti].troop_id == self.vars.map_selected_troop_id {
            self.push_event(GameEvent::RefreshTroopDialogMenu(ti));
        }
        proof {
            let loc = self.locations@[self.troop_loc(ti as int)];
            let first = if stop_bit_flips(reinit_start_spec(t, loc, new), not_viable_spec(
                reinit_start_spec(t, loc, new),
                loc,
            )) {
                seq![GameEvent::RefreshTroopIcon(ti)]
            } else {
                Seq::<GameEvent>::empty()
            };
            assert(self.events@ =~= e0 + reinit_events_spec(
                ti,
                t,
                loc,
                new,
                self.vars.map_selected_troop_id,
            ));
        }
    }

    /// Give troop `ti` the occupation `new`; a no-op when its occupation
    /// nibble already is `new`.
    pub fn troop_set_occupation(&mut self, ti: usize, new: u8)
        requires
            old(self).troop_placed(ti as int),
        ensures
            ({
                let t = old(self).troops@[ti as int];
                let loc = old(self).locations@[old(self).troop_loc(ti as int)];
                if t.occupation % 16 == new {
                    *final(self) == *old(self)
                } else {
                    &&& final(self).troops@ == old(self).troops@.update(
                        ti as int,
                        reinit_troop_spec(t, loc, new, old(self).vars.game_time),
                    )
                    &&& final(self).events@ == old(self).events@ + reinit_events_spec(
                        ti,
                        t,
                        loc,
                        new,
                        old(self).vars.map_selected_troop_id,
                    )
                    &&& final(self).keeps_tables(old(self))
                }
            }),
    {
        if low_nibble(self.troops[ti].occupation) == new {
            return;
        }
        self.troop_reinit_occupation(ti, new);
    }

    /// Motivation drops by `by` (clamped at 0); below 5 it is pinned at 4,
    /// the troop stops working and the demotivated speech bit 0x20 is set.
    pub fn troop_decrease_motivation(&mut self, ti: usize, by: u8)
        requires
            ti < old(self).troops@.len(),
        ensures
            ({
                let t = old(self).troops@[ti as int];
                let m: u8 = if t.motivation >= by { (t.motivation - by) as u8 } else { 0 };
                final(self).only_troop_changed(
                    old(self),
                    ti as int,
                    if m < 5 {
                        Troop {
                            motivation: 4,
                            occupation: t.occupation | 0x10,
                            dissatisfaction_and_speech: t.dissatisfaction_and_speech | 0x20,
                            ..t
                        }
                    } else {
                        Troop { motivation: m, ..t }
                    },
                )
            }),
    {
        let mut t = self.troops[ti];
        t.motivation = t.motivation.saturating_sub(by);
        if t.motivation < 5 {
            t.motivation = 4;
            t.occupation = t.occupation | 0x10;
            t.dissatisfaction_and_speech = t.dissatisfaction_and_speech | 0x20;
        }
        self.set_troop(ti, t);
    }
}

/// The troop before mining begins, when it mines this period: a damaged
/// harvester is repaired on the period whose low nibble matches the troop
/// id; the viability test must pass either way (its answer synced into the
/// stopped bit).
pub open spec fn mining_ready_spec(t: Troop, loc: Location, game_time: u16) -> Option<Troop> {
    if t.bitfield_10 & 0x200 != 0 {
        if game_time % 16 != (t.troop_id % 16) as u16 {
            None
        } else {
            let t1 = Troop { bitfield_10: t.bitfield_10 & 0xfdff, ..t };
            if not_viable_spec(t1, loc) {
                None
            } else {
                Some(sync_stopped_spec(t1, false, game_time))
            }
        }
    } else if not_viable_spec(t, loc) {
        None
    } else {
        Some(sync_stopped_spec(t, false, game_time))
    }
}

/// The troop after a period in which it does not mine.
pub open spec fn mining_idle_spec(t: Troop, loc: Location, game_time: u16) -> Troop {
    if t.bitfield_10 & 0x200 != 0 {
        if game_time % 16 != (t.troop_id % 16) as u16 {
            Troop { harvest_rate: 0, occupation: t.occupation | 0x10, ..t }
        } else {
            let t1 = Troop { bitfield_10: t.bitfield_10 & 0xfdff, ..t };
            sync_stopped_spec(t1, true, game_time)
        }
    } else {
        let t1 = sync_stopped_spec(t, true, game_time);
        Troop { harvest_rate: 0, harvest_total: 0, occupation: t1.occupation | 0x10, ..t1 }
    }
}

/// Whether the idle period flipped the stopped bit (one icon refresh).
pub open spec fn mining_idle_flips(t: Troop, loc: Location, game_time: u16) -> bool {
    if t.bitfield_10 & 0x200 != 0 {
        game_time % 16 == (t.troop_id % 16) as u16 && stop_bit_flips(
            Troop { bitfield_10: t.bitfield_10 & 0xfdff, ..t },
            true,
        )
    } else {
        stop_bit_flips(t, true)
    }
}

/// The period's harvest for a troop at a location.
pub open spec fn troop_harvest_spec(t: Troop, loc: Location, vars: GameVars) -> u16 {
    harvest_spec(
        add8(
            motivation_modifier_spec(
                t,
                vars.vegetation_started_on_dune,
                troop_here_spec(t, vars.location_appearance),
                vars.game_phase,
            ),
            (t.spice_skill / 16 * 16) as u8,
        ),
        t.population,
        t.equipment >= 0x80,
        (loc.spice_density / 16 * 16) as u8,
    )
}

/// The mining troop after harvesting `v`: working flag set, rate and trend
/// updated, the running total grown (16-bit), and a spice skill point each
/// time the total crosses a multiple of 128.
pub open spec fn mined_troop_spec(t2: Troop, v: u16) -> Troop {
    let t3 = Troop { bitfield_10: t2.bitfield_10 | 0x100, ..t2 };
    let total = ((t3.harvest_total + v) % 0x10000) as u16;
    let t5 = Troop {
        harvest_rate: v,
        bitfield_10: trend_bitfield_spec(t3.bitfield_10, t3.harvest_rate, v),
        harvest_total: total,
        ..t3
    };
    if (total ^ t3.harvest_total) & 0xff80 != 0 {
        raise_skill_spec(t5, 1, 0)
    } else {
        t5
    }
}

/// The location after the troop harvested `v`: the harvest plus the
/// location's carry, divided by its spice amount (capped at 0xff), is the
/// density it loses (clamped at 0); the remainder is the new carry. A zero
/// spice amount leaves the location alone.
pub open spec fn mined_location_spec(loc: Location, v: u16) -> Location {
    if loc.spice_amount == 0 {
        loc
    } else {
        let dividend = v + loc.field_13;
        let q = dividend / loc.spice_amount as int;
        let consumed: u8 = if q > 0xff { 0xff } else { q as u8 };
        Location {
            field_13: (dividend % loc.spice_amount as int) as u8,
            spice_density: if loc.spice_density >= consumed {
                (loc.spice_density - consumed) as u8
            } else {
                0
            },
            ..loc
        }
    }
}

impl GameState {
    /// One period of spice mining for troop `ti` (see the spec functions
    /// above): a troop that cannot mine stops working; otherwise its
    /// harvest grows its total, a tenth of harvest plus carry goes into the
    /// player's stock (the rest carried), and the field loses density. With
    /// the spice-density overlay up, biting past the shade it draws marks
    /// the overlay dirty.
    #[verifier::rlimit(60)]
    #[verifier::spinoff_prover]
    pub fn troop_occupation_event_spice_mining(&mut self, ti: usize)
        requires
            old(self).troop_placed(ti as int),
        ensures
            ({
                let t = old(self).troops@[ti as int];
                let li = old(self).troop_loc(ti as int);
                let loc = old(self).locations@[li];
                let ov = old(self).vars;
                match mining_ready_spec(t, loc, ov.game_time) {
                    None => {
                        &&& final(self).troops@ == old(self).troops@.update(
                            ti as int,
                            mining_idle_spec(t, loc, ov.game_time),
                        )
                        &&& final(self).events@ == if mining_idle_flips(t, loc, ov.game_time) {
                            old(self).events@.push(GameEvent::RefreshTroopIcon(ti))
                        } else {
                            old(self).events@
                        }
                        &&& final(self).keeps_tables(old(self))
                    },
                    Some(t2) => {
                        let v = troop_harvest_spec(t, loc, ov);
                        let pot = ((v + ov.spice_harvest_remainder) % 0x10000) as u16;
                        let nloc = mined_location_spec(loc, v);
                        let q = if loc.spice_amount != 0 {
                            (v + loc.field_13) / loc.spice_amount as int
                        } else {
                            0
                        };
                        let bites = loc.spice_amount != 0 && (if q > 0xff {
                            0xff
                        } else {
                            q
                        }) > loc.spice_density % 16;
                        let dirty: u8 = if bites && ov.data_046eb & 0x40 != 0 {
                            ((ov.spice_density_overlay_dirty + 1) % 256) as u8
                        } else {
                            ov.spice_density_overlay_dirty
                        };
                        &&& final(self).troops@ == old(self).troops@.update(
                            ti as int,
                            mined_troop_spec(t2, v),
                        )
                        &&& final(self).events@ == if stop_bit_flips(
                            if t.bitfield_10 & 0x200 != 0 {
                                Troop { bitfield_10: t.bitfield_10 & 0xfdff, ..t }
                            } else {
                                t
                            },
                            false,
                        ) {
                            old(self).events@.push(GameEvent::RefreshTroopIcon(ti))
                        } else {
                            old(self).events@
                        }
                        &&& final(self).locations@ == old(self).locations@.update(li, nloc)
                        &&& final(self).vars == GameVars {
                            spice_harvest_remainder: pot % 10,
                            spice_in_stock: ((ov.spice_in_stock + pot / 10) % 0x10000) as u16,
                            spice_density_overlay_dirty: dirty,
                            ..ov
                        }
                        &&& final(self).same_tables(old(self))
                        &&& final(self).string_subst_id_table@ == old(self).string_subst_id_table@
                        &&& final(self).troop_condit == old(self).troop_condit
                        &&& final(self).location_condit == old(self).location_condit
                    },
                }
            }),
    {
        let ghost t0 = self.troops@[ti as int];
        let ghost li0 = self.troop_loc(ti as int);
        if self.troops[ti].bitfield_10 & 0x200 != 0 {
            let gt = low_nibble(low_byte_u8(self.vars.game_time));
            let tid = low_nibble(self.troops[ti].troop_id);
            let due = gt == tid;
            if !due {
                let mut t = self.troops[ti];
                t.harvest_rate = 0;
                self.set_troop(ti, t);
                self.troop_make_stop_working(ti);
                return;
            }
            let mut t = self.troops[ti];
            t.bitfield_10 = t.bitfield_10 & 0xfdff;
            self.set_troop(ti, t);
            if self.troop_spice_mining_not_viable(ti) {
                return;
            }
        } else {
            if self.troop_spice_mining_not_viable(ti) {
                let mut t = self.troops[ti];
                t.harvest_rate = 0;
                t.harvest_total = 0;
                self.set_troop(ti, t);
                self.troop_make_stop_working(ti);
                return;
            }
        }
        proof {
            let t2 = self.troops@[ti as int];
            let o = t0.occupation;
            assert((o ^ 0x10) & 0x0f == o & 0x0f) by (bit_vector);
            assert(t2.occupation & 0x0f == t0.occupation & 0x0f);
            assert(motivation_modifier_spec(
                t2,
                self.vars.vegetation_started_on_dune,
                troop_here_spec(t2, self.vars.location_appearance),
                self.vars.game_phase,
            ) == motivation_modifier_spec(
                t0,
                self.vars.vegetation_started_on_dune,
                troop_here_spec(t0, self.vars.location_appearance),
                self.vars.game_phase,
            ));
        }
        let harvested = self.troop_mining_harvest(ti);
        let li = location_index_from_ptr(self.troops[ti].offset_of_location);
        self.spice_mining_pay_out(li, harvested);
    }

    /// The mining troop's harvest of the period (see `mined_troop_spec`).
    fn troop_mining_harvest(&mut self, ti: usize) -> (v: u16)
        requires
            old(self).troop_placed(ti as int),
        ensures
            v == troop_harvest_spec(
                old(self).troops@[ti as int],
                old(self).locations@[old(self).troop_loc(ti as int)],
                old(self).vars,
            ),
            v <= 0x1ff,
            final(self).only_troop_changed(
                old(self),
                ti as int,
                mined_troop_spec(old(self).troops@[ti as int], v),
            ),
    {
        let ghost t0 = self.troops@[ti as int];
        let ghost troops0 = self.troops@;
        let mut t = self.troops[ti];
        t.bitfield_10 = t.bitfield_10 | 0x100;
        self.set_troop(ti, t);
        let ghost t3 = self.troops@[ti as int];
        let harvested = self.troop_update_harvest_rate(ti);
        let old_total = self.troops[ti].harvest_total;
        let total = old_total.wrapping_add(harvested);
        let mut t = self.troops[ti];
        t.harvest_total = total;
        self.set_troop(ti, t);
        proof {
            let spec_total = ((t3.harvest_total + harvested) % 0x10000) as u16;
            assert(total == spec_total);
            assert(t == Troop {
                harvest_rate: harvested,
                bitfield_10: trend_bitfield_spec(t3.bitfield_10, t3.harvest_rate, harvested),
                harvest_total: spec_total,
                ..t3
            });
        }
        if (total ^ old_total) & 0xff80 != 0 {
            self.troop_increase_spice_skill(ti, 1, 0);
        }
        assert(self.troops@ =~= troops0.update(ti as int, mined_troop_spec(t0, harvested)));
        harvested
    }

    /// Pay out a harvest of `harvested`: a tenth of harvest plus carry into
    /// the stock (the rest carried), and the density bite out of location
    /// `li` (nothing when there is no such location).
    #[verifier::rlimit(40)]
    #[verifier::spinoff_prover]
    fn spice_mining_pay_out(&mut self, li: usize, harvested: u16)
        requires
            harvested <= 0x1ff,
        ensures
            ({
                let ov = old(self).vars;
                let pot = ((harvested + ov.spice_harvest_remainder) % 0x10000) as u16;
                let loc = old(self).locations@[li as int];
                let q = if loc.spice_amount != 0 {
                    (harvested + loc.field_13) / loc.spice_amount as int
                } else {
                    0
                };
                let bites = li < old(self).locations@.len() && loc.spice_amount != 0 && (if q
                    > 0xff {
                    0xff
                } else {
                    q
                }) > loc.spice_density % 16;
                let dirty: u8 = if bites && ov.data_046eb & 0x40 != 0 {
                    ((ov.spice_density_overlay_dirty + 1) % 256) as u8
                } else {
                    ov.spice_density_overlay_dirty
                };
                &&& final(self).vars == GameVars {
                    spice_harvest_remainder: pot % 10,
                    spice_in_stock: ((ov.spice_in_stock + pot / 10) % 0x10000) as u16,
                    spice_density_overlay_dirty: dirty,
                    ..ov
                }
                &&& final(self).locations@ == if li < old(self).locations@.len() {
                    old(self).locations@.update(li as int, mined_location_spec(loc, harvested))
                } else {
                    old(self).locations@
                }
            }),
            final(self).troops@ == old(self).troops@,
            final(self).events@ == old(self).events@,
            final(self).same_tables(old(self)),
            final(self).string_subst_id_table@ == old(self).string_subst_id_table@,
            final(self).troop_condit == old(self).troop_condit,
            final(self).location_condit == old(self).location_condit,
    {
        let pot = harvested.wrapping_add(self.vars.spice_harvest_remainder);
        self.vars.spice_harvest_remainder = pot % 10;
        self.vars.spice_in_stock = self.vars.spice_in_stock.wrapping_add(pot / 10);
        if li >= self.locations.len() {
            return;
        }
        let loc = self.locations[li];
        let dividend: u16 = harvested + loc.field_13 as u16;
        if loc.spice_amount == 0 {
            return;
        }
        let q = dividend / loc.spice_amount as u16;
        let consumed: u8 = if q > 0xff {
            0xff
        } else {
            q as u8
        };
        let mut nloc = loc;
        nloc.field_13 = (dividend % loc.spice_amount as u16) as u8;
        if consumed > low_nibble(loc.spice_density) && self.vars.data_046eb & 0x40 != 0 {
            self.vars.spice_density_overlay_dirty = self.vars.spice_density_overlay_dirty.wrapping_add(
                1,
            );
        }
        nloc.spice_density = loc.spice_density.saturating_sub(consumed);
        self.set_location(li, nloc);
    }

    /// The per-period callback of troop `ti`'s occupation: only spice
    /// mining (occupation nibble 0) does anything.
    pub fn run_troop_occupation_callback(&mut self, ti: usize)
        requires
            old(self).troop_placed(ti as int),
        ensures
            old(self).troops@[ti as int].occupation % 16 != 0 ==> *final(self) == *old(self),
            old(self).troops@[ti as int].occupation % 16 == 0 ==> final(self).is_mining_period_of(
                old(self),
                ti as int,
            ),
            final(self).troops@.len() == old(self).troops@.len(),
            final(self).same_tables(old(self)),
            final(self).moves_keep(old(self)),
            final(self).wf() == old(self).wf(),
    {
        if low_nibble(self.troops[ti].occupation) == 0 {
            self.troop_occupation_event_spice_mining(ti);
        }
    }
}

} // verus!
