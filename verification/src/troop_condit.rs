//! Troop bookkeeping around conversations: linking troops to their
//! locations at start-up, classifying a location's troops into the room
//! person slots, staging the CONDIT blocks the dialogue conditions read, and
//! the harvest-rate and motivation figures the troop panels show.
use vstd::prelude::*;
use crate::world::{
    Troop, Location, location_ptr, location_ptr_spec, location_index_from_ptr,
    location_index_spec, troop_chain, collect_troop_chain, high_byte, low_byte, high_nibble, low_nibble,
};
use crate::game::{GameState, GameEvent, RoomPerson, TroopCondit, LocationCondit, GameVars};

verus! {

/// The voice-bank low byte a troop takes from its location: the location's
/// first-name nibble, the troop's speech bits 4..6, and bit 7 for the
/// alternate bank (first names 4..5 and 10 and up); the high byte is kept.
pub open spec fn voice_bank_speech_spec(first_name: u8, speech: u16) -> u16 {
    let alt: u16 = if (4 <= first_name <= 5) || first_name >= 10 { 0x80 } else { 0 };
    (speech & 0xff00) | (first_name & 0x0f) as u16 | (speech & 0x70) | alt
}

/// A troop linked to location `li` (record `loc`): pointer, map position
/// and voice bank follow the location.
pub open spec fn place_in(t: Troop, li: int, loc: Location) -> Troop {
    Troop {
        offset_of_location: location_ptr_spec(li),
        gps_coordinates_1: loc.map_x as u16,
        gps_coordinates_2: loc.map_y as u16,
        dissatisfaction_and_speech: voice_bank_speech_spec(
            loc.first_name,
            t.dissatisfaction_and_speech,
        ),
        ..t
    }
}

/// Link the troops of `chain` (in order) to location `li`.
pub open spec fn place_chain(troops: Seq<Troop>, chain: Seq<usize>, li: int, loc: Location) -> Seq<
    Troop,
>
    decreases chain.len(),
{
    if chain.len() == 0 {
        troops
    } else {
        let ts = place_chain(troops, chain.drop_last(), li, loc);
        ts.update(chain.last() as int, place_in(ts[chain.last() as int], li, loc))
    }
}

/// Link every location's troop list to the location, location by location
/// over the first `n` locations.
pub open spec fn place_all(troops: Seq<Troop>, locations: Seq<Location>, n: int) -> Seq<Troop>
    decreases n,
{
    if n <= 0 {
        troops
    } else {
        let ts = place_all(troops, locations, n - 1);
        place_chain(
            ts,
            troop_chain(ts, locations[n - 1].troop_id, ts.len() as nat),
            n - 1,
            locations[n - 1],
        )
    }
}

/// Index of the first location whose first name is the 0xff end marker at
/// or after `i` (the table length when there is none).
pub open spec fn location_walk_end(locations: Seq<Location>, i: int) -> int
    decreases locations.len() - i,
{
    if i >= locations.len() {
        locations.len() as int
    } else if locations[i].first_name == 0xff {
        i
    } else {
        location_walk_end(locations, i + 1)
    }
}

/// The COMMAND string id of a skill's caption: its high nibble picks one of
/// "On trial" .. "Expert" (0xd1..0xd6).
pub open spec fn skill_caption_spec(skill: u8) -> u16 {
    ((skill / 16) as u16 + 0xd1) as u16
}

/// The duration phrase of the 0x85 placeholder: "but our job is finished"
/// for a stopped troop, else by the time periods since ralliement.
pub open spec fn ralliement_phrase_spec(occupation: u8, periods: u16) -> u16 {
    if occupation & 0x10 != 0 {
        0x74
    } else if periods < 3 {
        0x70
    } else if periods < 0x10 {
        0x71
    } else if periods < 0x20 {
        0x72
    } else {
        0x73
    }
}

/// A total averaged over `periods`, rounded up when the remainder is at
/// least half the divisor; 0 over no periods.
pub open spec fn rounded_average_spec(total: u16, periods: u16) -> u16 {
    if periods == 0 {
        0
    } else if periods as int <= (total % periods) as int * 2 {
        (total / periods + 1) as u16
    } else {
        (total / periods) as u16
    }
}

/// Byte addition that wraps around 256.
pub open spec fn add8(a: u8, b: u8) -> u8 {
    if a + b > 255 {
        (a + b - 256) as u8
    } else {
        (a + b) as u8
    }
}

/// Byte subtraction that wraps around 256.
pub open spec fn sub8(a: u8, b: u8) -> u8 {
    if a < b {
        (a - b + 256) as u8
    } else {
        (a - b) as u8
    }
}

/// The troop's effective motivation: +0x14 once vegetation has started;
/// an ecology troop (occupation 6) gets +0x1e at the current location and
/// skips the 0x64 cap elsewhere; occupations 8..9 read a flat 0x64; every
/// other value is capped at 0x64. During game phases 0x64..0x67 the result
/// drops by 0x28 (byte arithmetic), never below 10 (read signed).
pub open spec fn motivation_modifier_spec(t: Troop, vegetation: u8, here: bool, game_phase: u8) -> u8 {
    let occ = t.occupation & 0x0f;
    let base: u8 = if vegetation != 0 {
        add8(t.motivation, 0x14)
    } else {
        t.motivation
    };
    let al: u8 = if occ == 6 && here {
        add8(base, 0x1e)
    } else if occ != 6 && occ & 0x0e == 8 {
        0x64
    } else {
        base
    };
    let capped: u8 = if (occ != 6 || here) && al > 0x64 { 0x64 } else { al };
    if 0x64 <= game_phase < 0x68 {
        let d = sub8(capped, 0x28);
        if d < 10 || d >= 128 {
            10
        } else {
            d
        }
    } else {
        capped
    }
}

/// One period's spice harvest of a troop: `(density_hi + 1) * (base >> 8)
/// >> 7`, where `base` is the modifier-plus-rank byte times the population
/// (a quarter of it without a harvester) and `density_hi` the location's
/// spice density high nibble (0 when the troop has no location).
pub open spec fn harvest_spec(al: u8, population: u8, harvester: bool, density_hi: u8) -> u16 {
    let full = al as int * population as int;
    let base = if harvester { full } else { full / 4 };
    (((density_hi as int + 1) * (base / 256)) / 128) as u16
}

/// The trend bits after a harvest rate change: bits 2..3 become 8 when the
/// rate rose and 4 when it fell; unchanged when it stayed.
pub open spec fn trend_bitfield_spec(bitfield: u16, old_rate: u16, new_rate: u16) -> u16 {
    if old_rate == new_rate {
        bitfield
    } else if old_rate < new_rate {
        (bitfield & 0xfff3) | 8
    } else {
        (bitfield & 0xfff3) | 4
    }
}

/// The voice-bank low byte a troop takes from its location.
pub fn voice_bank_speech(first_name: u8, speech: u16) -> (r: u16)
    ensures
        r == voice_bank_speech_spec(first_name, speech),
{
    // Bit 7 flips at first names above 3, 5 and 9: set for 4..5 and 10 up.
    let alt: u8 = if (first_name > 3 && first_name <= 5) || first_name > 9 {
        0x80
    } else {
        0
    };
    let low = (speech & 0x00ff) as u8;
    let bank = (first_name & 0x0f) | (low & 0x70) | alt;
    let r = (speech & 0xff00) | bank as u16;
    assert(r == (speech & 0xff00) | (first_name & 0x0f) as u16 | (speech & 0x70) | alt as u16)
        by (bit_vector)
        requires
            low == (speech & 0x00ff) as u8,
            r == (speech & 0xff00) | ((first_name & 0x0f) | (low & 0x70) | alt) as u16,
    ;
    r
}

/// The COMMAND string id of a skill's caption.
pub fn get_command_string_index_from_troop_skill(skill: u8) -> (id: u16)
    ensures
        id == skill_caption_spec(skill),
{
    assert(skill >> 4 == skill / 16) by (bit_vector);
    (skill >> 4) as u16 + 0xd1
}

/// The duration phrase of the 0x85 placeholder.
pub fn ralliement_phrase(occupation: u8, periods: u16) -> (id: u16)
    ensures
        id == ralliement_phrase_spec(occupation, periods),
{
    if occupation & 0x10 != 0 {
        0x74
    } else if periods < 3 {
        0x70
    } else if periods < 0x10 {
        0x71
    } else if periods < 0x20 {
        0x72
    } else {
        0x73
    }
}

/// A total averaged over `periods`, rounded half up; 0 over no periods.
pub fn rounded_average(total: u16, periods: u16) -> (avg: u16)
    ensures
        avg == rounded_average_spec(total, periods),
{
    if periods == 0 {
        0
    } else {
        let q = total / periods;
        let r = total % periods;
        if (periods as u32) <= (r as u32) * 2 {
            assert(q < 0xffff) by (nonlinear_arith)
                requires
                    periods > 0,
                    q == total / periods,
                    r == total % periods,
                    periods as int <= r as int * 2,
            ;
            q + 1
        } else {
            q
        }
    }
}

/// One period's spice harvest (see `harvest_spec`).
pub fn harvest_amount(al: u8, population: u8, harvester: bool, density_hi: u8) -> (v: u16)
    requires
        density_hi <= 0xf0,
    ensures
        v == harvest_spec(al, population, harvester, density_hi),
        v <= 0x1ff,
{
    assert(al as int * population as int <= 255 * 255) by (nonlinear_arith);
    let ax0: u16 = al as u16 * population as u16;
    let mut ax: u16 = ax0;
    if !harvester {
        ax = ax0 >> 2;
        assert(ax <= 65025 && ax == ax0 / 4) by (bit_vector)
            requires
                ax == ax0 >> 2,
                ax0 <= 65025,
        ;
    }
    let hi = ax >> 8;
    assert(hi <= 254) by (bit_vector)
        requires
            ax <= 65025,
            hi == ax >> 8,
    ;
    assert((density_hi as int + 1) * hi as int <= 241 * 254) by (nonlinear_arith)
        requires
            density_hi <= 0xf0,
            hi <= 254,
    ;
    let product: u16 = (density_hi as u16 + 1) * hi;
    let v = product >> 7;
    assert(v == product / 128 && hi == ax / 256) by (bit_vector)
        requires
            v == product >> 7,
            hi == ax >> 8,
    ;
    v
}

impl GameState {
    /// Link every troop to the location whose list it is on: the pointer,
    /// the map position and the voice-bank byte follow the location. The
    /// walk stops at the location whose first name is the 0xff end marker.
    pub fn init_troop_locations(&mut self)
        requires
            old(self).locations@.len() <= 0x800,
        ensures
            final(self).troops@ == place_all(
                old(self).troops@,
                old(self).locations@,
                location_walk_end(old(self).locations@, 0),
            ),
            final(self).same_but_troops(old(self)),
    {
        let n = self.locations.len();
        let mut loc_index: usize = 0;
        let ghost start = self.troops@;
        let ghost old_self = *self;
        while loc_index < n
            invariant
                n == self.locations@.len(),
                n <= 0x800,
                loc_index <= n,
                location_walk_end(self.locations@, 0) == location_walk_end(
                    self.locations@,
                    loc_index as int,
                ),
                self.troops@ == place_all(start, self.locations@, loc_index as int),
                self.same_but_troops(&old_self),
                self.troops@.len() == start.len(),
                start == old_self.troops@,
            ensures
                self.troops@ == place_all(
                    start,
                    self.locations@,
                    location_walk_end(self.locations@, 0),
                ),
                self.same_but_troops(&old_self),
            decreases n - loc_index,
        {
            let loc = self.locations[loc_index];
            if loc.first_name == 0xff {
                break;
            }
            let chain = collect_troop_chain(&self.troops, loc.troop_id);
            let ptr = location_ptr(loc_index as u16);
            let ghost ts0 = self.troops@;
            proof {
                crate::troop_condit::lemma_place_chain_len(ts0, chain@, loc_index as int, loc);
            }
            let mut k: usize = 0;
            while k < chain.len()
                invariant
                    k <= chain@.len(),
                    forall|j: int| 0 <= j < chain@.len() ==> (#[trigger] chain@[j] as int) < ts0.len(),
                    self.troops@ == place_chain(ts0, chain@.take(k as int), loc_index as int, loc),
                    self.troops@.len() == ts0.len(),
                    self.same_but_troops(&old_self),
                    ptr == location_ptr_spec(loc_index as int),
                    loc_index < self.locations@.len(),
                    loc == self.locations@[loc_index as int],
                decreases chain@.len() - k,
            {
                let ti = chain[k];
                let mut t = self.troops[ti];
                t.offset_of_location = ptr;
                t.gps_coordinates_1 = loc.map_x as u16;
                t.gps_coordinates_2 = loc.map_y as u16;
                t.dissatisfaction_and_speech = voice_bank_speech(
                    loc.first_name,
                    t.dissatisfaction_and_speech,
                );
                self.set_troop(ti, t);
                proof {
                    assert(chain@.take(k + 1).drop_last() =~= chain@.take(k as int));
                }
                k = k + 1;
            }
            proof {
                assert(chain@.take(chain@.len() as int) =~= chain@);
            }
            loc_index = loc_index + 1;
        }
        proof {
            lemma_walk_end_at_len(self.locations@);
        }
    }
}


/// The room a troop of the current location shows in: 3 for a troop with
/// the no-more-orders bit in a Harkonnen fortress (appearance 0x28 and up),
/// 2 otherwise; a Harkonnen troop that still has orders stays out of sight
/// (`None`), and during the night attack the others man room 1.
pub open spec fn classify_room_spec(t: Troop, appearance: u8, night_attack_stage: u8) -> Option<u8> {
    if t.occupation & 0x20 != 0 {
        if appearance >= 0x28 {
            Some(3u8)
        } else {
            Some(2u8)
        }
    } else if t.bitfield_10 & 0x80 != 0 {
        None
    } else if night_attack_stage != 0 {
        Some(1u8)
    } else {
        Some(2u8)
    }
}

/// The room-person slots, the Fremen-2 slots and the game variables a room
/// visit's classification works on.
pub type RoomSlots = (Seq<RoomPerson>, Seq<Option<usize>>, GameVars);

/// Classifying troop `ti` (of `troops`, at a location of appearance `app`)
/// for the room: the troop placed in its slot (see
/// `classify_troop_for_room`), or nothing when it belongs in another room.
pub open spec fn classify_step(st: RoomSlots, troops: Seq<Troop>, app: u8, ti: int) -> RoomSlots {
    let rp = st.0;
    let ov = st.2;
    let t = troops[ti];
    let room = classify_room_spec(t, app, ov.night_attack_stage);
    if room is None || room->0 as u16 != ov.location_and_room % 256 {
        st
    } else {
        let slot: int = if t.bitfield_10 & 0x80 != 0 {
            12
        } else if t.occupation >= 0x80 {
            14
        } else {
            15
        };
        let cursor = ov.data_0476a & 7;
        let placed = RoomPerson {
            flags: if slot == 12 {
                (rp[12].flags & 0xef) | (t.occupation & 0x10)
            } else {
                rp[slot].flags
            },
            location_and_room: ov.location_and_room,
            location_appearance: ov.location_appearance,
        };
        let vars = if slot == 12 {
            GameVars {
                harkonnen_captain_troop: Some(ti as usize),
                data_000ee: 0,
                data_000ed: if t.occupation & 0x10 != 0 {
                    0xff
                } else {
                    t.motivation
                },
                ..ov
            }
        } else if slot == 14 {
            GameVars { fremen1_troop: Some(ti as usize), ..ov }
        } else {
            GameVars {
                data_0476a: (cursor + 1) as u8,
                data_0476b: if ti == 2 {
                    (cursor + 1) as u8
                } else {
                    ov.data_0476b
                },
                ..ov
            }
        };
        let f2 = if slot == 15 {
            st.1.update(cursor as int, Some(ti as usize))
        } else {
            st.1
        };
        (rp.update(slot, placed), f2, vars)
    }
}

/// Classifying the first `k` troops of `chain` in order.
pub open spec fn classify_fold(st: RoomSlots, troops: Seq<Troop>, app: u8, chain: Seq<usize>, k: int) -> RoomSlots
    decreases k,
{
    if k <= 0 {
        st
    } else {
        classify_step(classify_fold(st, troops, app, chain, k - 1), troops, app, chain[k - 1] as int)
    }
}

/// The location index the current appearance names (its high byte, 1-based).
pub open spec fn current_location_spec(location_appearance: u16) -> int {
    (location_appearance / 256) as int - 1
}

/// Troop `t` works at the location the player is in.
pub open spec fn troop_here_spec(t: Troop, location_appearance: u16) -> bool {
    location_appearance / 256 >= 1 && location_ptr_spec(current_location_spec(location_appearance))
        == t.offset_of_location
}

impl GameState {
    /// The Fremen troop slots hold troops of the table.
    pub open spec fn slots_ok(&self) -> bool {
        &&& (self.vars.fremen1_troop matches Some(i) ==> i < self.troops@.len())
        &&& forall|k: int|
            0 <= k < self.fremen2_troops@.len() ==> (#[trigger] self.fremen2_troops@[k] matches Some(
                i,
            ) ==> i < self.troops@.len())
    }

    /// Classify troop `ti` of the current location into a room-person slot
    /// for the room the player just entered: a Harkonnen troop becomes the
    /// captain (slot 12, seeding the overpower pair), a rallied troop the
    /// Fremen chief (slot 14), anyone else joins the Fremen-2 round-robin
    /// (slot 15); a troop bound for another room is skipped.
    pub fn classify_troop_for_room(&mut self, ti: usize)
        requires
            old(self).wf(),
            ti < old(self).troops@.len(),
            0 <= current_location_spec(old(self).vars.location_appearance) < old(
                self,
            ).locations@.len(),
        ensures
            final(self).wf(),
            (final(self).room_persons@, final(self).fremen2_troops@, final(self).vars) == classify_step(
                (old(self).room_persons@, old(self).fremen2_troops@, old(self).vars),
                old(self).troops@,
                old(self).locations@[current_location_spec(old(self).vars.location_appearance)].appearance,
                ti as int,
            ),
            ({
                let t = old(self).troops@[ti as int];
                let app = old(self).locations@[current_location_spec(
                    old(self).vars.location_appearance,
                )].appearance;
                let room = classify_room_spec(t, app, old(self).vars.night_attack_stage);
                let ov = old(self).vars;
                let fv = final(self).vars;
                if room is None || room->0 as u16 != ov.location_and_room % 256 {
                    *final(self) == *old(self)
                } else {
                    let slot: int = if t.bitfield_10 & 0x80 != 0 {
                        12
                    } else if t.occupation >= 0x80 {
                        14
                    } else {
                        15
                    };
                    let cursor = ov.data_0476a & 7;
                    &&& final(self).troops@ == old(self).troops@
                    &&& final(self).locations@ == old(self).locations@
                    &&& final(self).events@ == old(self).events@
                    &&& final(self).room_persons@.len() == old(self).room_persons@.len()
                    &&& forall|k: int|
                        0 <= k < old(self).room_persons@.len() && k != slot ==> (
                        #[trigger] final(self).room_persons@[k]) == old(self).room_persons@[k]
                    &&& final(self).room_persons@[slot].location_and_room == ov.location_and_room
                    &&& final(self).room_persons@[slot].location_appearance
                        == ov.location_appearance
                    &&& (slot == 12 ==> {
                        &&& final(self).room_persons@[12].flags == (old(self).room_persons@[12].flags
                            & 0xef) | (t.occupation & 0x10)
                        &&& fv == GameVars {
                            harkonnen_captain_troop: Some(ti),
                            data_000ee: 0,
                            data_000ed: if t.occupation & 0x10 != 0 {
                                0xff
                            } else {
                                t.motivation
                            },
                            ..ov
                        }
                        &&& final(self).fremen2_troops@ == old(self).fremen2_troops@
                    })
                    &&& (slot != 12 ==> final(self).room_persons@[slot].flags == old(
                        self,
                    ).room_persons@[slot].flags)
                    &&& (slot == 14 ==> fv == GameVars { fremen1_troop: Some(ti), ..ov }
                        && final(self).fremen2_troops@ == old(self).fremen2_troops@)
                    &&& (slot == 15 ==> {
                        &&& fv == GameVars {
                            data_0476a: (cursor + 1) as u8,
                            data_0476b: if ti == 2 {
                                (cursor + 1) as u8
                            } else {
                                ov.data_0476b
                            },
                            ..ov
                        }
                        &&& final(self).fremen2_troops@ == old(self).fremen2_troops@.update(
                            cursor as int,
                            Some(ti),
                        )
                    })
                    &&& final(self).string_subst_id_table@ == old(self).string_subst_id_table@
                    &&& final(self).troop_condit == old(self).troop_condit
                    &&& final(self).location_condit == old(self).location_condit
                    &&& final(self).prospector_destinations@ == old(self).prospector_destinations@
                    &&& final(self).lng_units_per_cell@ == old(self).lng_units_per_cell@
                    &&& final(self).rand_bits@ == old(self).rand_bits@
                    &&& final(self).visible_location_markers@ == old(
                        self,
                    ).visible_location_markers@
                }
            }),
    {
        let t = self.troops[ti];
        let cur = high_byte(self.vars.location_appearance);
        let loc_index = (cur as usize) - 1;
        let mut room = 2u8;
        if t.occupation & 0x20 != 0 {
            if self.locations[loc_index].appearance >= 0x28 {
                room = 3;
            }
        } else {
            if t.bitfield_10 & 0x80 != 0 {
                return;
            }
            if self.vars.night_attack_stage != 0 {
                room = 1;
            }
        }
        if room as u16 != low_byte(self.vars.location_and_room) {
            return;
        }
        let slot: usize = if t.bitfield_10 & 0x80 != 0 {
            self.vars.harkonnen_captain_troop = Some(ti);
            let occ_bit4 = t.occupation & 0x10;
            let mut rp = self.room_persons[12];
            rp.flags = (rp.flags & 0xef) | occ_bit4;
            self.room_persons.set(12, rp);
            self.vars.data_000ee = 0;
            self.vars.data_000ed = if occ_bit4 != 0 {
                0xff
            } else {
                t.motivation
            };
            12
        } else if t.occupation >= 0x80 {
            self.vars.fremen1_troop = Some(ti);
            14
        } else {
            let cur_a = self.vars.data_0476a;
            let masked = cur_a & 7;
            assert(cur_a & 7 <= 7) by (bit_vector);
            self.vars.data_0476a = masked;
            let idx = self.vars.data_0476a as usize;
            self.vars.data_0476a = self.vars.data_0476a + 1;
            if ti == 2 {
                self.vars.data_0476b = idx as u8 + 1;
            }
            self.fremen2_troops.set(idx, Some(ti));
            15
        };
        let ghost before = self.room_persons@;
        let mut rp = self.room_persons[slot];
        rp.location_and_room = self.vars.location_and_room;
        rp.location_appearance = self.vars.location_appearance;
        self.room_persons.set(slot, rp);
        proof {
            assert(self.room_persons@ =~= before.update(slot as int, rp));
        }
    }

    /// Stage the location CONDIT block from location `li`'s record.
    pub fn prepare_location_data_for_condit(&mut self, li: usize)
        requires
            li < old(self).locations@.len(),
        ensures
            ({
                let loc = old(self).locations@[li as int];
                &&& final(self).location_condit == LocationCondit {
                    appearance: loc.appearance,
                    area_and_name: (loc.first_name as int * 256 + loc.last_name as int) as u16,
                    worm_event_likelihood: 0,
                    status: loc.status,
                    spice_density: loc.spice_density,
                    unused_equipment: 0,
                    water: loc.water,
                    equipment: loc.equipment,
                }
                &&& final(self).vars == GameVars { condit_staged_location: li, ..old(self).vars }
            }),
            final(self).troops@ == old(self).troops@,
            final(self).locations@ == old(self).locations@,
            final(self).same_tables(old(self)),
            final(self).string_subst_id_table@ == old(self).string_subst_id_table@,
            final(self).troop_condit == old(self).troop_condit,
            final(self).events@ == old(self).events@,
    {
        self.vars.condit_staged_location = li;
        let loc = self.locations[li];
        let first = loc.first_name;
        let last = loc.last_name;
        let area = ((first as u16) << 8) | last as u16;
        assert(area == (first as int * 256 + last as int)) by (bit_vector)
            requires
                area == ((first as u16) << 8) | last as u16,
        ;
        self.location_condit = LocationCondit {
            appearance: loc.appearance,
            area_and_name: area,
            worm_event_likelihood: 0,
            status: loc.status,
            spice_density: loc.spice_density,
            unused_equipment: 0,
            water: loc.water,
            equipment: loc.equipment,
        };
    }

    /// The troop's effective motivation (see `motivation_modifier_spec`).
    pub fn troop_compute_motivation_modifier(&self, ti: usize) -> (m: u8)
        requires
            ti < self.troops@.len(),
        ensures
            m == motivation_modifier_spec(
                self.troops@[ti as int],
                self.vars.vegetation_started_on_dune,
                troop_here_spec(self.troops@[ti as int], self.vars.location_appearance),
                self.vars.game_phase,
            ),
    {
        let t = self.troops[ti];
        let occ = t.occupation & 0x0f;
        let mut al = t.motivation;
        if self.vars.vegetation_started_on_dune != 0 {
            al = al.wrapping_add(0x14);
        }
        let mut capped = true;
        if occ == 6 {
            let cur = high_byte(self.vars.location_appearance);
            let here = cur >= 1 && location_ptr(cur - 1) == t.offset_of_location;
            if here {
                al = al.wrapping_add(0x1e);
            } else {
                capped = false;
            }
        } else if occ & 0x0e == 8 {
            al = 0x64;
        }
        if capped && al > 0x64 {
            al = 0x64;
        }
        if 0x64 <= self.vars.game_phase && self.vars.game_phase < 0x68 {
            al = al.wrapping_sub(0x28);
            assert(((al as i8) < 10) == (al < 10 || al >= 128)) by (bit_vector);
            if (al as i8) < 10 {
                al = 10;
            }
        }
        al
    }
}


/// The figure and idle expression of the walk/facing persons 0x0e..0x10
/// for a troop id: figure `0x0e + id % 3`, expression `(id / 3) % m + 1`
/// with `m` 15 when the remainder is 0, else 17.
pub open spec fn walk_facing_spec(troop_id: u8) -> (u8, u8) {
    let rem = troop_id % 3;
    let m: u8 = if rem == 0 { 0x0f } else { 0x11 };
    ((0x0e + rem) as u8, ((troop_id / 3) % m + 1) as u8)
}

impl GameState {
    /// This period's spice harvest of troop `ti`, which also becomes its
    /// harvest rate; the trend bits record whether the rate rose or fell.
    pub fn troop_update_harvest_rate(&mut self, ti: usize) -> (v: u16)
        requires
            ti < old(self).troops@.len(),
        ensures
            ({
                let t = old(self).troops@[ti as int];
                let m = motivation_modifier_spec(
                    t,
                    old(self).vars.vegetation_started_on_dune,
                    troop_here_spec(t, old(self).vars.location_appearance),
                    old(self).vars.game_phase,
                );
                let li = location_index_spec(t.offset_of_location);
                let density: u8 = if li < old(self).locations@.len() {
                    (old(self).locations@[li].spice_density / 16 * 16) as u8
                } else {
                    0
                };
                &&& v == harvest_spec(
                    add8(m, (t.spice_skill / 16 * 16) as u8),
                    t.population,
                    t.equipment >= 0x80,
                    density,
                )
                &&& final(self).only_troop_changed(
                    old(self),
                    ti as int,
                    Troop {
                        harvest_rate: v,
                        bitfield_10: trend_bitfield_spec(t.bitfield_10, t.harvest_rate, v),
                        ..t
                    },
                )
            }),
            v <= 0x1ff,
    {
        let t = self.troops[ti];
        let m = self.troop_compute_motivation_modifier(ti);
        let skill_hi = high_nibble(t.spice_skill);
        let al = m.wrapping_add(skill_hi);
        let loc_index = location_index_from_ptr(t.offset_of_location);
        let density = if loc_index < self.locations.len() {
            high_nibble(self.locations[loc_index].spice_density)
        } else {
            0
        };
        let eq = t.equipment;
        assert((eq & 0x80 != 0) == (eq >= 0x80)) by (bit_vector);
        let value = harvest_amount(al, t.population, t.equipment & 0x80 != 0, density);
        let old_rate = t.harvest_rate;
        let mut nt = t;
        nt.harvest_rate = value;
        if old_rate != value {
            let trend: u16 = if old_rate < value {
                8
            } else {
                4
            };
            nt.bitfield_10 = (nt.bitfield_10 & 0xfff3) | trend;
        }
        self.set_troop(ti, nt);
        value
    }

    /// Stage the two spice rates the troop info panel shows: for a mining
    /// troop (occupation 0) the running total averaged over the periods
    /// since ralliement, then the current rate; any other occupation clears
    /// the trend bits and reads 0.
    pub fn troop_condit_stage_harvest_rates(&mut self, ti: usize) -> (v: u16)
        requires
            ti < old(self).troops@.len(),
        ensures
            ({
                let t = old(self).troops@[ti as int];
                if t.occupation != 0 {
                    &&& v == 0
                    &&& final(self).only_troop_changed(
                        old(self),
                        ti as int,
                        Troop { bitfield_10: t.bitfield_10 & 0xfff3, ..t },
                    )
                } else {
                    let m = motivation_modifier_spec(
                        t,
                        old(self).vars.vegetation_started_on_dune,
                        troop_here_spec(t, old(self).vars.location_appearance),
                        old(self).vars.game_phase,
                    );
                    let li = location_index_spec(t.offset_of_location);
                    let density: u8 = if li < old(self).locations@.len() {
                        (old(self).locations@[li].spice_density / 16 * 16) as u8
                    } else {
                        0
                    };
                    &&& v == harvest_spec(
                        add8(m, (t.spice_skill / 16 * 16) as u8),
                        t.population,
                        t.equipment >= 0x80,
                        density,
                    )
                    &&& final(self).troops@ == old(self).troops@.update(
                        ti as int,
                        Troop {
                            harvest_rate: v,
                            bitfield_10: trend_bitfield_spec(t.bitfield_10, t.harvest_rate, v),
                            ..t
                        },
                    )
                    &&& final(self).troop_condit == TroopCondit {
                        ds_4a: rounded_average_spec(
                            t.harvest_total,
                            old(self).troop_condit.time_periods_since_ralliement,
                        ),
                        ..old(self).troop_condit
                    }
                    &&& final(self).locations@ == old(self).locations@
                    &&& final(self).same_tables(old(self))
                    &&& final(self).string_subst_id_table@ == old(self).string_subst_id_table@
                    &&& final(self).location_condit == old(self).location_condit
                    &&& final(self).vars == old(self).vars
                    &&& final(self).events@ == old(self).events@
                }
            }),
    {
        let t = self.troops[ti];
        if t.occupation != 0 {
            let mut nt = t;
            nt.bitfield_10 = nt.bitfield_10 & 0xfff3;
            self.set_troop(ti, nt);
            return 0;
        }
        let periods = self.troop_condit.time_periods_since_ralliement;
        self.troop_condit.ds_4a = rounded_average(t.harvest_total, periods);
        self.troop_update_harvest_rate(ti)
    }

    /// A Fremen-2 troop whose speech word carries bit 0x800, spoken to
    /// during phases 0x60..0x63, advances the story to phase 0x64.
    pub fn game_phase_set_to_64_if_conditions_met(&mut self, ti: usize)
        requires
            ti < old(self).troops@.len(),
        ensures
            if old(self).troops@[ti as int].dissatisfaction_and_speech & 0x800 != 0 && 0x60
                <= old(self).vars.game_phase < 0x64 {
                &&& final(self).vars == GameVars { game_phase: 0x64, ..old(self).vars }
                &&& final(self).events@ == old(self).events@.push(GameEvent::SetGamePhase(0x64))
                &&& final(self).troops@ == old(self).troops@
                &&& final(self).locations@ == old(self).locations@
                &&& final(self).same_tables(old(self))
                &&& final(self).string_subst_id_table@ == old(self).string_subst_id_table@
                &&& final(self).troop_condit == old(self).troop_condit
                &&& final(self).location_condit == old(self).location_condit
            } else {
                *final(self) == *old(self)
            },
    {
        if self.troops[ti].dissatisfaction_and_speech & 0x800 == 0 {
            return;
        }
        if !(0x60 <= self.vars.game_phase && self.vars.game_phase < 0x64) {
            return;
        }
        self.vars.game_phase = 0x64;
        self.push_event(GameEvent::SetGamePhase(0x64));
    }

    /// The figure and idle expression for walk/facing person `id`: person
    /// 0x0e reads the Fremen chief's troop, 0x0f/0x10 the selected Fremen-2
    /// slot (or the raw id with expression 0 at game phase 0xc8); an empty
    /// slot keeps the raw id.
    pub fn walk_facing_sprite(&self, id: u8) -> (r: (u8, u8))
        requires
            self.wf(),
            self.slots_ok(),
        ensures
            ({
                let slot = if id == 0x0e {
                    self.vars.fremen1_troop
                } else {
                    self.fremen2_troops@[(self.vars.selected_fremen2 % 8) as int]
                };
                if id != 0x0e && self.vars.game_phase == 0xc8 {
                    r == (id, 0u8)
                } else {
                    match slot {
                        None => r == (id, 0u8),
                        Some(ti) => r == walk_facing_spec(self.troops@[ti as int].troop_id),
                    }
                }
            }),
    {
        let troop = if id == 0x0e {
            self.vars.fremen1_troop
        } else if self.vars.game_phase == 0xc8 {
            return (id, 0);
        } else {
            let sel = self.vars.selected_fremen2;
            assert(sel & 7 == sel % 8) by (bit_vector);
            self.fremen2_troops[(sel & 7) as usize]
        };
        match troop {
            None => (id, 0),
            Some(ti) => {
                let tid = self.troops[ti].troop_id;
                let quot = tid / 3;
                let rem = tid % 3;
                let modulus = if rem == 0 {
                    0x0f
                } else {
                    0x11
                };
                (0x0e + rem, quot % modulus + 1)
            },
        }
    }
}


/// The location CONDIT block staged from a location record.
pub open spec fn location_condit_spec(loc: Location) -> LocationCondit {
    LocationCondit {
        appearance: loc.appearance,
        area_and_name: (loc.first_name as int * 256 + loc.last_name as int) as u16,
        worm_event_likelihood: 0,
        status: loc.status,
        spice_density: loc.spice_density,
        unused_equipment: 0,
        water: loc.water,
        equipment: loc.equipment,
    }
}

/// The skill of the troop's occupation class (spice, army, ecology; the
/// class value 3 reads the equipment byte).
pub open spec fn skill_in_occupation_spec(t: Troop) -> u8 {
    let class = (t.occupation % 16) / 4;
    if class == 0 {
        t.spice_skill
    } else if class == 1 {
        t.army_skill
    } else if class == 2 {
        t.ecology_skill
    } else {
        t.equipment
    }
}

impl GameState {
    /// Stage troop `ti`'s CONDIT block before a troop conversation, then its
    /// location's block, and the string placeholders 3..8 and 0xa its
    /// dialogue and info panel expand (occupation caption, duration phrase,
    /// skill captions, equipment name, dissatisfaction phrase). The spice
    /// rates are staged first (which may update the troop's harvest rate and
    /// trend bits); everything after reads the updated troop.
    pub fn troop_prepare_troop_data_for_condit(&mut self, ti: usize)
        requires
            old(self).wf(),
            ti < old(self).troops@.len(),
        ensures
            ({
                let t0 = old(self).troops@[ti as int];
                let t = final(self).troops@[ti as int];
                let ov = old(self).vars;
                let periods = (if ov.game_time >= t0.time_period_of_ralliement {
                    ov.game_time - t0.time_period_of_ralliement
                } else {
                    ov.game_time - t0.time_period_of_ralliement + 0x10000
                }) as u16;
                let phrase = ralliement_phrase_spec(t0.occupation, periods);
                let li = location_index_spec(t0.offset_of_location);
                &&& final(self).troops@.len() == old(self).troops@.len()
                &&& forall|j: int|
                    0 <= j < old(self).troops@.len() && j != ti ==> #[trigger] final(self).troops@[j]
                        == old(self).troops@[j]
                &&& t == Troop { harvest_rate: t.harvest_rate, bitfield_10: t.bitfield_10, ..t0 }
                &&& final(self).troop_condit == TroopCondit {
                    offset_of_location: t0.offset_of_location,
                    troop_id: t0.troop_id,
                    occupation_low: t0.occupation % 16,
                    occupation: t0.occupation,
                    dissatisfaction_low: (t.dissatisfaction_and_speech % 16) as u8,
                    bitfield_10: t.bitfield_10,
                    dissatisfaction_and_speech: t.dissatisfaction_and_speech,
                    motivation_modifier: motivation_modifier_spec(
                        t,
                        ov.vegetation_started_on_dune,
                        troop_here_spec(t, ov.location_appearance),
                        ov.game_phase,
                    ),
                    skill_in_occupation: skill_in_occupation_spec(t),
                    spice_skill: t.spice_skill,
                    army_skill: t.army_skill,
                    ecology_skill: t.ecology_skill,
                    equipment: t.equipment,
                    population: t.population,
                    days_since_ralliement: sub8((ov.ingame_day % 256) as u8, t.game_day_of_ralliement),
                    game_days_since_ralliement: ((periods / 16) % 256) as u8,
                    time_periods_since_ralliement: periods,
                    harvest_rate: t.harvest_rate,
                    harvest_total: t.harvest_total,
                    ds_48: if t0.occupation == 0 { t.harvest_rate } else { 0 },
                    ds_4a: if t0.occupation == 0 {
                        rounded_average_spec(t0.harvest_total, periods)
                    } else {
                        old(self).troop_condit.ds_4a
                    },
                }
                &&& final(self).string_subst_id_table@ == old(self).string_subst_id_table@.update(
                    4,
                    (t0.occupation % 16 + 0x18) as u16,
                ).update(5, phrase).update(0xa, (t.dissatisfaction_and_speech % 16) as u16).update(
                    6,
                    skill_caption_spec(t.spice_skill),
                ).update(7, skill_caption_spec(t.army_skill)).update(
                    8,
                    skill_caption_spec(t.ecology_skill),
                ).update(3, (t.harvest_total % 256 + 0xe8) as u16)
                &&& final(self).events@ == if phrase == 0x73 {
                    old(self).events@.push(GameEvent::CommandStringNumber(0x73, periods / 16))
                } else {
                    old(self).events@
                }
                &&& if li < old(self).locations@.len() {
                    &&& final(self).location_condit == location_condit_spec(
                        old(self).locations@[li],
                    )
                    &&& final(self).vars == GameVars { condit_staged_location: li as usize, ..ov }
                } else {
                    &&& final(self).location_condit == old(self).location_condit
                    &&& final(self).vars == ov
                }
                &&& final(self).locations@ == old(self).locations@
                &&& final(self).same_tables(old(self))
            }),
    {
        let t0 = self.troops[ti];
        self.troop_condit.offset_of_location = t0.offset_of_location;
        self.troop_condit.troop_id = t0.troop_id;
        self.troop_condit.occupation = t0.occupation;
        let occ_low = low_nibble(t0.occupation);
        self.troop_condit.occupation_low = occ_low;
        self.string_subst_id_table.set(4, occ_low as u16 + 0x18);
        let periods = self.vars.game_time.wrapping_sub(t0.time_period_of_ralliement);
        self.troop_condit.time_periods_since_ralliement = periods;
        let days16 = periods >> 4;
        assert(days16 == periods / 16) by (bit_vector)
            requires
                days16 == periods >> 4,
        ;
        self.troop_condit.game_days_since_ralliement = low_byte(days16) as u8;
        let phrase = ralliement_phrase(t0.occupation, periods);
        if phrase == 0x73 {
            self.push_event(GameEvent::CommandStringNumber(0x73, days16));
        }
        self.string_subst_id_table.set(5, phrase);
        let ds_48 = self.troop_condit_stage_harvest_rates(ti);
        self.troop_condit.ds_48 = ds_48;
        let t = self.troops[ti];
        self.troop_condit.bitfield_10 = t.bitfield_10;
        self.troop_condit.dissatisfaction_and_speech = t.dissatisfaction_and_speech;
        let dsp = t.dissatisfaction_and_speech;
        let dl = low_nibble(low_byte(dsp) as u8);
        let dw = dsp & 0x0f;
        assert(dw == dsp % 16 && (dsp % 256) % 16 == dsp % 16) by (bit_vector)
            requires
                dw == dsp & 0x0f,
        ;
        self.troop_condit.dissatisfaction_low = dl;
        self.string_subst_id_table.set(0xa, dw);
        let m = self.troop_compute_motivation_modifier(ti);
        self.troop_condit.motivation_modifier = m;
        self.troop_condit.spice_skill = t.spice_skill;
        self.string_subst_id_table.set(6, get_command_string_index_from_troop_skill(t.spice_skill));
        self.troop_condit.army_skill = t.army_skill;
        self.string_subst_id_table.set(7, get_command_string_index_from_troop_skill(t.army_skill));
        self.troop_condit.ecology_skill = t.ecology_skill;
        self.string_subst_id_table.set(
            8,
            get_command_string_index_from_troop_skill(t.ecology_skill),
        );
        self.troop_condit.harvest_rate = t.harvest_rate;
        self.troop_condit.harvest_total = t.harvest_total;
        self.string_subst_id_table.set(3, low_byte(t.harvest_total) + 0xe8);
        let class = low_nibble(t.occupation) / 4;
        self.troop_condit.skill_in_occupation = if class == 0 {
            t.spice_skill
        } else if class == 1 {
            t.army_skill
        } else if class == 2 {
            t.ecology_skill
        } else {
            t.equipment
        };
        self.troop_condit.equipment = t.equipment;
        self.troop_condit.population = t.population;
        let day = low_byte(self.vars.ingame_day) as u8;
        self.troop_condit.days_since_ralliement = day.wrapping_sub(t.game_day_of_ralliement);
        let loc_index = location_index_from_ptr(t0.offset_of_location);
        if loc_index < self.locations.len() {
            self.prepare_location_data_for_condit(loc_index);
        }
    }

    /// The special-room half of a room visit: for a room whose appearance
    /// low byte is 0x80, classify the troops of the location (the
    /// appearance high byte, 1-based) into the room-person slots in the
    /// order of its list (see `classify_fold`), show the
    /// smuggler (slot 13) in a smuggler den (appearance 0x21), and stage the
    /// location's CONDIT block.
    pub fn init_room_persons_special(&mut self)
        requires
            old(self).wf(),
        ensures
            ({
                let la = old(self).vars.location_appearance;
                let li = current_location_spec(la);
                if la % 256 != 0x80 || li < 0 || li >= old(self).locations@.len() {
                    *final(self) == *old(self)
                } else {
                    let app = old(self).locations@[li].appearance;
                    let chain = troop_chain(
                        old(self).troops@,
                        old(self).locations@[li].troop_id,
                        old(self).troops@.len() as nat,
                    );
                    let f = classify_fold(
                        (old(self).room_persons@, old(self).fremen2_troops@, old(self).vars),
                        old(self).troops@,
                        app,
                        chain,
                        chain.len() as int,
                    );
                    &&& final(self).troops@ == old(self).troops@
                    &&& final(self).locations@ == old(self).locations@
                    &&& final(self).events@ == old(self).events@
                    &&& final(self).location_condit == location_condit_spec(
                        old(self).locations@[li],
                    )
                    &&& final(self).vars == GameVars { condit_staged_location: li as usize, ..f.2 }
                    &&& final(self).fremen2_troops@ == f.1
                    &&& final(self).room_persons@ == if app == 0x21 {
                        f.0.update(
                            13,
                            RoomPerson {
                                location_and_room: old(self).vars.location_and_room,
                                location_appearance: la,
                                ..f.0[13]
                            },
                        )
                    } else {
                        f.0
                    }
                    &&& final(self).string_subst_id_table@ == old(self).string_subst_id_table@
                    &&& final(self).troop_condit == old(self).troop_condit
                    &&& final(self).prospector_destinations@ == old(self).prospector_destinations@
                    &&& final(self).lng_units_per_cell@ == old(self).lng_units_per_cell@
                    &&& final(self).rand_bits@ == old(self).rand_bits@
                    &&& final(self).visible_location_markers@ == old(self).visible_location_markers@
                }
            }),
    {
        if low_byte(self.vars.location_appearance) != 0x80 {
            return;
        }
        let cur = high_byte(self.vars.location_appearance);
        if cur < 1 {
            return;
        }
        let loc_index = (cur - 1) as usize;
        if loc_index >= self.locations.len() {
            return;
        }
        let chain = collect_troop_chain(&self.troops, self.locations[loc_index].troop_id);
        let mut k: usize = 0;
        let ghost old_self = *self;
        while k < chain.len()
            invariant
                self.wf(),
                k <= chain@.len(),
                forall|j: int| 0 <= j < chain@.len() ==> (#[trigger] chain@[j] as int) < self.troops@.len(),
                self.troops@ == old_self.troops@,
                self.locations@ == old_self.locations@,
                self.events@ == old_self.events@,
                self.vars.location_appearance == old_self.vars.location_appearance,
                self.vars.location_and_room == old_self.vars.location_and_room,
                self.room_persons@[13] == old_self.room_persons@[13],
                self.room_persons@.len() == old_self.room_persons@.len(),
                loc_index as int == current_location_spec(self.vars.location_appearance),
                loc_index < self.locations@.len(),
                (self.room_persons@, self.fremen2_troops@, self.vars) == classify_fold(
                    (old_self.room_persons@, old_self.fremen2_troops@, old_self.vars),
                    old_self.troops@,
                    old_self.locations@[loc_index as int].appearance,
                    chain@,
                    k as int,
                ),
                self.string_subst_id_table@ == old_self.string_subst_id_table@,
                self.troop_condit == old_self.troop_condit,
                self.prospector_destinations@ == old_self.prospector_destinations@,
                self.lng_units_per_cell@ == old_self.lng_units_per_cell@,
                self.rand_bits@ == old_self.rand_bits@,
                self.visible_location_markers@ == old_self.visible_location_markers@,
            decreases chain@.len() - k,
        {
            self.classify_troop_for_room(chain[k]);
            k = k + 1;
        }
        if self.locations[loc_index].appearance == 0x21 {
            let mut rp = self.room_persons[13];
            rp.location_and_room = self.vars.location_and_room;
            rp.location_appearance = self.vars.location_appearance;
            self.room_persons.set(13, rp);
        }
        self.prepare_location_data_for_condit(loc_index);
    }
}

/// Linking a chain keeps the table length.
pub proof fn lemma_place_chain_len(troops: Seq<Troop>, chain: Seq<usize>, li: int, loc: Location)
    requires
        forall|j: int| 0 <= j < chain.len() ==> (#[trigger] chain[j] as int) < troops.len(),
    ensures
        place_chain(troops, chain, li, loc).len() == troops.len(),
    decreases chain.len(),
{
    if chain.len() > 0 {
        lemma_place_chain_len(troops, chain.drop_last(), li, loc);
    }
}

/// Past the last location the walk ends at the table length.
pub proof fn lemma_walk_end_at_len(locations: Seq<Location>)
    ensures
        location_walk_end(locations, locations.len() as int) == locations.len(),
{
}

} // verus!
