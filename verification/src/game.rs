//! The game state the simulation runs on: the troop and location tables,
//! the room-person slots a room visit fills, the CONDIT staging blocks the
//! dialogue conditions read, the scalar game variables, and the list of
//! requests the simulation leaves for the engine (icon respawns, story
//! phase changes, ..) that it performs after each call.
use vstd::prelude::*;
use crate::world::{Equipment, Location, Troop, location_index_spec};

verus! {

/// One dynamic room-person slot.
#[derive(Clone, Copy, Default, Debug)]
pub struct RoomPerson {
    pub flags: u8,
    pub location_and_room: u16,
    pub location_appearance: u16,
}

/// The troop CONDIT staging block: what the dialogue conditions read about
/// the troop behind the active conversation.
#[derive(Clone, Copy, Default, Debug)]
pub struct TroopCondit {
    pub offset_of_location: u16,
    pub troop_id: u8,
    pub occupation_low: u8,
    pub occupation: u8,
    pub dissatisfaction_low: u8,
    pub bitfield_10: u16,
    pub dissatisfaction_and_speech: u16,
    pub motivation_modifier: u8,
    pub skill_in_occupation: u8,
    pub spice_skill: u8,
    pub army_skill: u8,
    pub ecology_skill: u8,
    pub equipment: u8,
    pub population: u8,
    pub days_since_ralliement: u8,
    pub game_days_since_ralliement: u8,
    pub time_periods_since_ralliement: u16,
    pub harvest_rate: u16,
    pub harvest_total: u16,
    /// The current spice rate ("Current: N kgs/h").
    pub ds_48: u16,
    /// The average spice rate ("Average: N kgs/h").
    pub ds_4a: u16,
}

/// The location CONDIT staging block.
#[derive(Clone, Copy, Default, Debug)]
pub struct LocationCondit {
    pub appearance: u8,
    /// `(first_name << 8) | last_name`.
    pub area_and_name: u16,
    pub worm_event_likelihood: u8,
    pub status: u8,
    pub spice_density: u8,
    pub unused_equipment: u8,
    pub water: u8,
    pub equipment: Equipment,
}

/// What the simulation asks the engine to do once a call returns.
#[derive(Clone, Copy, Debug, PartialEq, Eq, Structural)]
pub enum GameEvent {
    /// Drop the troop's map icon and spawn a fresh one (its sprite and
    /// script follow the occupation).
    RefreshTroopIcon(usize),
    /// The troop moved: bring its map icon to the new position.
    TroopIconFollow(usize),
    /// Drop the troop's map icon.
    RemoveTroopIcon(usize),
    /// Advance the story to this game phase and run its callbacks.
    SetGamePhase(u8),
    /// Raise the player's charisma by this much.
    IncreaseCharisma(u8),
    /// Patch the number into the COMMAND string (id, number).
    CommandStringNumber(u16, u16),
    /// The contacted troop's order menu must be rebuilt.
    RefreshTroopDialogMenu(usize),
    /// Recompute the free equipment of this location.
    RefreshAvailableEquipment(usize),
    /// The troop info panel closed: repaint the map under it and play its
    /// outline scale-out.
    InfoPanelClosed,
}

/// The talking head on screen: which character, and whether its voice is
/// playing.
#[derive(Clone, Copy, Default, Debug)]
pub struct TalkingHead {
    pub talking_head_id: u16,
    pub speaking: bool,
}

/// The scalar game variables the simulation reads and writes.
#[derive(Clone, Copy, Default, Debug)]
pub struct GameVars {
    /// The current location (high byte, 1-based) and appearance (low byte).
    pub location_appearance: u16,
    /// The current room in the low byte.
    pub location_and_room: u16,
    pub night_attack_stage: u8,
    pub harkonnen_captain_troop: Option<usize>,
    pub fremen1_troop: Option<usize>,
    /// The overpower-condition pair staged for the Harkonnen captain.
    pub data_000ee: u8,
    pub data_000ed: u8,
    /// The Fremen-2 round-robin cursor and the prospector's 1-based slot.
    pub data_0476a: u8,
    pub data_0476b: u8,
    pub condit_staged_location: usize,
    pub game_time: u16,
    pub game_phase: u8,
    pub vegetation_started_on_dune: u8,
    pub spice_in_stock: u16,
    pub spice_harvest_remainder: u16,
    /// The map view mode (0 = none, 1 = windowed map, bit 7 = full map,
    /// bit 6 = spice-density overlay).
    pub data_046eb: u8,
    /// The map view dirty counter.
    pub spice_density_overlay_dirty: u8,
    pub map_selected_troop_id: u8,
    pub current_location_index: u16,
    pub current_room: u8,
    pub room_redraw_request: u8,
    /// True while the room verb menu is the active screen element.
    pub room_command_menu_active: bool,
    /// The free equipment of the location last computed.
    pub available_equipment: Equipment,
    pub number_of_rallied_troops: u8,
    pub number_of_rallied_troops_for_leto_killed: u8,
    pub selected_fremen2: u8,
    /// The in-game day counter.
    pub ingame_day: u16,
    pub game_screen_mode_flags: u8,
    pub travel_minimap_state: i8,
    /// How many of `GameState::rand_bits` have been consumed.
    pub rand_cursor: usize,
    /// The talking head on screen, if any.
    pub talking_head: Option<TalkingHead>,
    /// The troop whose info panel is open on the full map.
    pub map_info_popup_troop: Option<usize>,
    /// The record holding the map's primary popup slot (0 = free).
    pub map_popup_ptr: u16,
}

/// The game state the troop simulation runs on.
pub struct GameState {
    pub troops: Vec<Troop>,
    pub locations: Vec<Location>,
    /// The dynamic room-person slots (12 = Harkonnen captain, 13 =
    /// smuggler, 14 = Fremen chief, 15 = Fremen 2).
    pub room_persons: Vec<RoomPerson>,
    /// The eight Fremen-2 troop slots a room visit fills round-robin.
    pub fremen2_troops: Vec<Option<usize>>,
    /// The ids the string placeholders 0x80.. expand to.
    pub string_subst_id_table: Vec<u16>,
    /// The prospector troop's four-entry destination queue.
    pub prospector_destinations: Vec<u16>,
    /// Longitude units per map cell, indexed by latitude + 98.
    pub lng_units_per_cell: Vec<u16>,
    /// The random bits the engine's generator supplies, consumed in order.
    pub rand_bits: Vec<bool>,
    /// The locations whose map markers are on the current map view.
    pub visible_location_markers: Vec<u16>,
    pub troop_condit: TroopCondit,
    pub location_condit: LocationCondit,
    pub vars: GameVars,
    /// Requests for the engine, oldest first.
    pub events: Vec<GameEvent>,
}

impl GameState {
    /// The sizes the simulation relies on.
    pub open spec fn wf(&self) -> bool {
        &&& self.room_persons@.len() >= 16
        &&& self.fremen2_troops@.len() == 8
        &&& self.string_subst_id_table@.len() >= 11
        &&& self.prospector_destinations@.len() == 4
        &&& self.lng_units_per_cell@.len() == 197
        &&& forall|i: int|
            0 <= i < 197 ==> #[trigger] self.lng_units_per_cell@[i] > 0
        &&& self.troops@.len() <= 255
    }

    /// The location index troop `ti`'s pointer names.
    pub open spec fn troop_loc(&self, ti: int) -> int {
        location_index_spec(self.troops@[ti].offset_of_location)
    }

    /// Troop `ti` exists and its pointer names a location of the table.
    pub open spec fn troop_placed(&self, ti: int) -> bool {
        0 <= ti < self.troops@.len() && self.troop_loc(ti) < self.locations@.len()
    }

    /// Only troop `ti` changed, to `t`; nothing else did.
    pub open spec fn only_troop_changed(&self, old: &GameState, ti: int, t: Troop) -> bool {
        &&& self.troops@ == old.troops@.update(ti, t)
        &&& self.locations@ == old.locations@
        &&& self.room_persons@ == old.room_persons@
        &&& self.fremen2_troops@ == old.fremen2_troops@
        &&& self.string_subst_id_table@ == old.string_subst_id_table@
        &&& self.prospector_destinations@ == old.prospector_destinations@
        &&& self.lng_units_per_cell@ == old.lng_units_per_cell@
        &&& self.rand_bits@ == old.rand_bits@
        &&& self.visible_location_markers@ == old.visible_location_markers@
        &&& self.troop_condit == old.troop_condit
        &&& self.location_condit == old.location_condit
        &&& self.vars == old.vars
        &&& self.events@ == old.events@
    }

    /// Everything but the troop table is unchanged.
    pub open spec fn same_but_troops(&self, old: &GameState) -> bool {
        &&& self.locations@ == old.locations@
        &&& self.same_tables(old)
        &&& self.string_subst_id_table@ == old.string_subst_id_table@
        &&& self.troop_condit == old.troop_condit
        &&& self.location_condit == old.location_condit
        &&& self.vars == old.vars
        &&& self.events@ == old.events@
    }

    /// The tables that no troop-record update touches are unchanged.
    /// Every table but the troops, the locations, the variables and the
    /// requests is unchanged.
    pub open spec fn same_rest(&self, old: &GameState) -> bool {
        &&& self.same_tables(old)
        &&& self.string_subst_id_table@ == old.string_subst_id_table@
        &&& self.troop_condit == old.troop_condit
        &&& self.location_condit == old.location_condit
    }

    pub open spec fn same_tables(&self, old: &GameState) -> bool {
        &&& self.room_persons@ == old.room_persons@
        &&& self.fremen2_troops@ == old.fremen2_troops@
        &&& self.prospector_destinations@ == old.prospector_destinations@
        &&& self.lng_units_per_cell@ == old.lng_units_per_cell@
        &&& self.rand_bits@ == old.rand_bits@
        &&& self.visible_location_markers@ == old.visible_location_markers@
    }

    /// Overwrite troop `ti` with `t`.
    pub fn set_troop(&mut self, ti: usize, t: Troop)
        requires
            ti < old(self).troops@.len(),
        ensures
            final(self).only_troop_changed(old(self), ti as int, t),
    {
        self.troops.set(ti, t);
    }

    /// Overwrite location `li` with `loc`.
    pub fn set_location(&mut self, li: usize, loc: Location)
        requires
            li < old(self).locations@.len(),
        ensures
            final(self).locations@ == old(self).locations@.update(li as int, loc),
            final(self).troops@ == old(self).troops@,
            final(self).same_tables(old(self)),
            final(self).string_subst_id_table@ == old(self).string_subst_id_table@,
            final(self).troop_condit == old(self).troop_condit,
            final(self).location_condit == old(self).location_condit,
            final(self).vars == old(self).vars,
            final(self).events@ == old(self).events@,
    {
        self.locations.set(li, loc);
    }

    /// Queue a request for the engine.
    pub fn push_event(&mut self, e: GameEvent)
        ensures
            final(self).events@ == old(self).events@.push(e),
            final(self).troops@ == old(self).troops@,
            final(self).locations@ == old(self).locations@,
            final(self).same_tables(old(self)),
            final(self).string_subst_id_table@ == old(self).string_subst_id_table@,
            final(self).troop_condit == old(self).troop_condit,
            final(self).location_condit == old(self).location_condit,
            final(self).vars == old(self).vars,
    {
        self.events.push(e);
    }
}

} // verus!
