//! The verb menus of the full map: which travel order a click on a
//! location marker offers, how the map's main menu is set up, which
//! occupation submenu a contacted troop gets and which of its entries are
//! greyed, and the occupation each SPECIALIZE verb orders.
use vstd::prelude::*;
use crate::world::Location;
use crate::map_travel::{
    Rect, TravelMap, nearest_marker_spec, armed_travel_spec, flight_step_spec, centre_spec,
    hover_clip_spec, map_hover_narration_clip,
};
use crate::troop_map::{map_place_popup_panel, battle_gauge_spec, battle_sums, ProspectorPicks};
use crate::world::{location_ptr, location_ptr_spec, location_index_spec, location_index_from_ptr};
use crate::world::{Equipment, troop_chain};
use crate::game::GameState;

verus! {

/// The travel order a location popup offers.
#[derive(Clone, Copy, Debug, PartialEq, Eq, Structural)]
pub enum MoveMenu {
    /// GO THERE FLYING AN ORNI.
    Orni,
    /// GO THERE RIDING A WORM.
    Worm,
}

/// A click on location `li`'s marker: the travel order offered, and
/// whether the ornithopter verb is greyed (no free ornithopter where the
/// player stands).
#[derive(Clone, Copy, Debug, PartialEq, Eq, Structural)]
pub struct LocationClick {
    pub menu: Option<MoveMenu>,
    pub orni_greyed: bool,
}

/// The travel order a click on location `li`'s marker offers: none at the
/// player's own location; in the desert (room appearance 0xff) the worm,
/// once Paul can ride one (event bit 6); else the ornithopter, but only
/// from a shallow room (room at most 2, or a room appearance below 0x20).
pub open spec fn click_menu_spec(
    li: int,
    current: int,
    room_appearance: u8,
    current_room: u8,
    paul_events: u8,
) -> Option<MoveMenu> {
    if li == current {
        None
    } else if room_appearance == 0xff {
        if paul_events & 0x40 != 0 {
            Some(MoveMenu::Worm)
        } else {
            None
        }
    } else if current_room <= 2 || room_appearance < 0x20 {
        Some(MoveMenu::Orni)
    } else {
        None
    }
}

/// The order menu a click on location `li`'s marker pushes over its popup
/// (see `click_menu_spec`); the ornithopter verb greys when
/// `orni_available` (the free ornithopters of the player's location) is 0.
pub fn map_click_location_marker(
    li: usize,
    current: usize,
    room_appearance: u8,
    current_room: u8,
    paul_events: u8,
    orni_available: u8,
) -> (c: LocationClick)
    ensures
        c.menu == click_menu_spec(
            li as int,
            current as int,
            room_appearance,
            current_room,
            paul_events,
        ),
        c.orni_greyed == (c.menu == Some(MoveMenu::Orni) && orni_available == 0),
{
    let menu = if li == current {
        None
    } else if room_appearance == 0xff {
        if paul_events & 0x40 != 0 {
            Some(MoveMenu::Worm)
        } else {
            None
        }
    } else if current_room <= 2 || room_appearance < 0x20 {
        Some(MoveMenu::Orni)
    } else {
        None
    };
    let orni_greyed = match menu {
        Some(MoveMenu::Orni) => orni_available == 0,
        _ => false,
    };
    LocationClick { menu, orni_greyed }
}

/// The height of a location popup of class `class` (0 = full, 1 = battle,
/// 2 = header only, anything else none).
pub open spec fn location_panel_height(class: u8) -> i16 {
    if class == 0 {
        0x58
    } else if class == 1 {
        0x3c
    } else if class == 2 {
        0x1e
    } else {
        0
    }
}

/// The location popup of location `li` (popup class `class`), placed next
/// to the location's first marker on the view (see
/// `map_place_popup_panel`); none without a marker, or with the marker
/// above the screen.
pub fn map_place_location_panel(map: &TravelMap, li: usize, class: u8) -> (r: Option<Rect>)
    requires
        forall|k: int|
            0 <= k < map.markers@.len() ==> -0x1000 <= (#[trigger] map.markers@[k]).x <= 0x1000
                && map.markers@[k].y <= 0x1000,
    ensures
        match r {
            None => (forall|k: int|
                0 <= k < map.markers@.len() ==> (#[trigger] map.markers@[k]).location_index as int
                    != li) || exists|k: int|
                0 <= k < map.markers@.len() && (#[trigger] map.markers@[k]).location_index as int
                    == li && map.markers@[k].y < 0 && forall|j: int|
                    0 <= j < k ==> (#[trigger] map.markers@[j]).location_index as int != li,
            Some(p) => exists|k: int|
                0 <= k < map.markers@.len() && (#[trigger] map.markers@[k]).location_index as int
                    == li && map.markers@[k].y >= 0 && (forall|j: int|
                    0 <= j < k ==> (#[trigger] map.markers@[j]).location_index as int != li)
                    && p == ({
                    let m = map.markers@[k];
                    let h = location_panel_height(class);
                    let py0 = m.y - h / 2;
                    let py = if py0 < 4 { 4 } else if py0 > 0x94 - h { 0x94 - h } else { py0 };
                    let px0 = m.x + 0x0f;
                    let px = if px0 >= 0xd2 { px0 - 0x82 } else { px0 };
                    Rect { x0: px as i16, y0: py as i16, x1: (px + 0x6a) as i16, y1: (py + h) as i16 }
                }),
        },
{
    let mut k: usize = 0;
    while k < map.markers.len()
        invariant
            k <= map.markers@.len(),
            forall|j: int|
                0 <= j < map.markers@.len() ==> -0x1000 <= (#[trigger] map.markers@[j]).x <= 0x1000
                    && map.markers@[j].y <= 0x1000,
            forall|j: int| 0 <= j < k ==> (#[trigger] map.markers@[j]).location_index as int != li,
        decreases map.markers@.len() - k,
    {
        let m = map.markers[k];
        if m.location_index as usize == li {
            assert(map.markers@[k as int] == m);
            if m.y < 0 {
                return None;
            }
            let h: i16 = if class == 0 {
                0x58
            } else if class == 1 {
                0x3c
            } else if class == 2 {
                0x1e
            } else {
                0
            };
            return Some(map_place_popup_panel(m.x, m.y, h));
        }
        k = k + 1;
    }
    None
}

/// The contact slot of the map's main menu.
#[derive(Clone, Copy, Debug, PartialEq, Eq, Structural)]
pub enum ContactVerb {
    /// GIVE ORDERS TO TROOP (close-range view), greyed or not.
    GiveOrdersToTroop(bool),
    /// CONTACT FREMEN TROOPS, greyed or not.
    ContactFremenTroops(bool),
}

/// How the map's main menu is set up: whether TAKE AN ORNITHOPTER is
/// greyed, whether SEE SPICE DENSITY is available and FIND PROSPECTORS
/// shown, and the contact slot.
#[derive(Clone, Copy, Debug, PartialEq, Eq, Structural)]
pub struct MainMenuSetup {
    pub orni_greyed: bool,
    pub spice_density: bool,
    pub contact: ContactVerb,
    /// The map-troops menu is pushed on the screen element stack: it
    /// becomes the active menu.
    pub push_map_troops_menu: bool,
}

/// The map's main menu: the ornithopter verb is live only in a location
/// scene (room appearance not 0xff) that is shallow (appearance below 0x20
/// or room below 3) with a free ornithopter (`orni_available`); the spice
/// density and prospector verbs come with game phase 5; a close-range view
/// (`visibility_distance` below 2) offers orders to the troop of the
/// current location (`current_troop_id`, greyed unless it names one of
/// `troop_count` troops), a wider one contact with the troops, greyed
/// without troop icons on the map. The menu then becomes the active one.
pub fn map_setup_main_menu(
    room_appearance: u8,
    current_room: u8,
    orni_available: u8,
    game_phase: u8,
    visibility_distance: u16,
    current_troop_id: Option<u8>,
    troop_count: usize,
    troop_icons_present: bool,
) -> (s: MainMenuSetup)
    ensures
        s.orni_greyed == !(room_appearance != 0xff && (room_appearance < 0x20 || current_room < 3)
            && orni_available != 0),
        s.spice_density == (game_phase >= 5),
        s.push_map_troops_menu,
        s.contact == if visibility_distance < 2 {
            ContactVerb::GiveOrdersToTroop(
                !(current_troop_id matches Some(id) && id != 0 && id as int <= troop_count),
            )
        } else {
            ContactVerb::ContactFremenTroops(!troop_icons_present)
        },
{
    let mut orni_greyed = true;
    if room_appearance != 0xff && (room_appearance < 0x20 || current_room < 3) {
        orni_greyed = orni_available == 0;
    }
    let contact = if visibility_distance < 2 {
        let live = match current_troop_id {
            Some(id) => id != 0 && (id as usize) <= troop_count,
            None => false,
        };
        ContactVerb::GiveOrdersToTroop(!live)
    } else {
        ContactVerb::ContactFremenTroops(!troop_icons_present)
    };
    MainMenuSetup { orni_greyed, spice_density: game_phase >= 5, contact, push_map_troops_menu: true }
}

/// The occupation submenus a contacted troop can get.
#[derive(Clone, Copy, Debug, PartialEq, Eq, Structural)]
pub enum OccupationMenu {
    /// SELECT TROOP OCCUPATION (a troop awaiting orders).
    Select,
    Spice,
    Army,
    /// The fortress menu of a troop on espionage duty.
    Espionage,
    Ecology,
}

/// The submenu the CHANGE TROOP OCCUPATION verb stages and its greys:
/// GO & SEARCH FOR EQUIPMENT (the class menus' first entry, `None` on the
/// others), ESPIONAGE (the army menu's, `None` on the others) and the
/// first SPECIALIZE IN ECOLOGY entry.
#[derive(Clone, Copy, Debug, PartialEq, Eq, Structural)]
pub struct OccupationSubmenu {
    pub menu: OccupationMenu,
    pub equipment_greyed: Option<bool>,
    pub espionage_greyed: Option<bool>,
    pub ecology_greyed: bool,
}

/// The occupation submenu of a troop with occupation `occupation`: a troop
/// awaiting orders (nibble 2) gets the plain selection; otherwise the
/// occupation class (nibble bits 2-3) picks the spice, army (espionage
/// duty, nibble 5, the fortress one) or ecology menu. Equipment searches
/// grey until game phase 0x10, espionage without a Harkonnen holding
/// within 0x1e, and ecology until Paul has learnt it (event bit 5).
pub open spec fn occupation_submenu_spec(
    occupation: u8,
    harkonnen_distance: u16,
    game_phase: u8,
    paul_events: u8,
) -> OccupationSubmenu {
    let nibble = occupation % 16;
    let class = nibble / 4;
    let menu = if nibble == 2 {
        OccupationMenu::Select
    } else if class == 0 {
        OccupationMenu::Spice
    } else if class == 1 {
        if nibble == 5 {
            OccupationMenu::Espionage
        } else {
            OccupationMenu::Army
        }
    } else {
        OccupationMenu::Ecology
    };
    OccupationSubmenu {
        menu,
        equipment_greyed: if nibble == 2 {
            None
        } else {
            Some(game_phase < 0x10)
        },
        espionage_greyed: if nibble != 2 && class == 1 {
            Some(harkonnen_distance >= 0x1e)
        } else {
            None
        },
        ecology_greyed: paul_events & 0x20 == 0,
    }
}

/// The submenu the CHANGE TROOP OCCUPATION verb stages for a troop with
/// occupation `occupation` (see `occupation_submenu_spec`).
pub fn occupation_submenu(
    occupation: u8,
    harkonnen_distance: u16,
    game_phase: u8,
    paul_events: u8,
) -> (s: OccupationSubmenu)
    ensures
        s == occupation_submenu_spec(occupation, harkonnen_distance, game_phase, paul_events),
{
    let nibble = occupation % 16;
    let class = nibble / 4;
    let menu = if nibble == 2 {
        OccupationMenu::Select
    } else if class == 0 {
        OccupationMenu::Spice
    } else if class == 1 {
        if nibble == 5 {
            OccupationMenu::Espionage
        } else {
            OccupationMenu::Army
        }
    } else {
        OccupationMenu::Ecology
    };
    let equipment_greyed = if nibble == 2 {
        None
    } else {
        Some(game_phase < 0x10)
    };
    let espionage_greyed = if nibble != 2 && class == 1 {
        Some(harkonnen_distance >= 0x1e)
    } else {
        None
    };
    OccupationSubmenu {
        menu,
        equipment_greyed,
        espionage_greyed,
        ecology_greyed: paul_events & 0x20 == 0,
    }
}

/// The occupation verbs of the submenus.
#[derive(Clone, Copy, Debug, PartialEq, Eq, Structural)]
pub enum OccupationVerb {
    SpecializeInSpice,
    SpecializeInArmy,
    SpecializeInEcology,
    AssemblyWindTrap,
}

/// The occupation verb `verb` orders for troop `ti` (current occupation
/// `occupation`): spice mining (0), except the prospector troop (index 2),
/// which prospects (1); military training (4); irrigation (8); wind-trap
/// assembly keeps the occupation class and takes job 1 within it.
pub fn occupation_for_verb(verb: OccupationVerb, ti: usize, occupation: u8) -> (o: u8)
    ensures
        o == match verb {
            OccupationVerb::SpecializeInSpice => if ti == 2 { 1u8 } else { 0u8 },
            OccupationVerb::SpecializeInArmy => 4u8,
            OccupationVerb::SpecializeInEcology => 8u8,
            OccupationVerb::AssemblyWindTrap => (occupation & 0x0c) | 1,
        },
{
    match verb {
        OccupationVerb::SpecializeInSpice => if ti == 2 {
            1
        } else {
            0
        },
        OccupationVerb::SpecializeInArmy => 4,
        OccupationVerb::SpecializeInEcology => 8,
        OccupationVerb::AssemblyWindTrap => crate::troop_map::troop_occupation_within_class(
            occupation,
            1,
        ),
    }
}

/// The lower section of a location popup: the battle gauge sprite, or the
/// location's own equipment for the icon row.
#[derive(Clone, Copy, Debug)]
pub enum LocationSection {
    Battle(u16),
    Equipment(Equipment),
}

impl GameState {
    /// The lower section of location `li`'s popup: with a battle going on,
    /// the gauge sprite 0x8e + (gauge + 0xf) / 32 (see
    /// `battle_gauge_spec`); otherwise the location's equipment.
    pub fn location_popup_section(&self, li: usize) -> (s: LocationSection)
        requires
            self.wf(),
            li < self.locations@.len(),
        ensures
            ({
                let chain = troop_chain(
                    self.troops@,
                    self.locations@[li as int].troop_id,
                    self.troops@.len() as nat,
                );
                let gauge = battle_gauge_spec(battle_sums(self.troops@, chain, chain.len() as int));
                if self.battle_at_spec(li as int) {
                    s matches LocationSection::Battle(sp) && sp == 0x8e + (gauge + 0xf) / 32
                } else {
                    s matches LocationSection::Equipment(e) && e == self.locations@[li as int].equipment
                }
            }),
    {
        if self.location_has_battle(li) {
            let g = self.location_battle_gauge(li) as u16;
            let t: u16 = g + 0x0f;
            let sp = 0x8e + t / 32;
            LocationSection::Battle(sp)
        } else {
            LocationSection::Equipment(self.locations[li].equipment)
        }
    }
}

/// A hover state a left click on the map can pick (see
/// `map_destination_selectable`).
pub open spec fn destination_selectable_spec(mode_flags: u8, hover: u16, current_location_index: u16) -> bool {
    mode_flags & 0x0f != 0 && hover != 0 && !(hover < 0x8000 && mode_flags & 3 == 0
        && current_location_index != 0xffff && hover == location_ptr_spec(
        current_location_index as int,
    ))
}

/// A left click on the map picks the hovered destination: only in a map
/// or travel mode (mode flags bits 0-3), inside the map window (hover not
/// 0); a desert state always, a location marker unless, outside a travel
/// mode (bits 0-1), it is the player's own location.
pub fn map_destination_selectable(mode_flags: u8, hover: u16, current_location_index: u16) -> (b:
    bool)
    requires
        current_location_index != 0xffff ==> current_location_index < 0x800,
    ensures
        b == destination_selectable_spec(mode_flags, hover, current_location_index),
{
    if mode_flags & 0x0f == 0 || hover == 0 {
        return false;
    }
    assert(hover & 0x8000 == 0 <==> hover < 0x8000) by (bit_vector);
    if hover & 0x8000 == 0 && mode_flags & 3 == 0 && current_location_index != 0xffff && hover
        == location_ptr(current_location_index) {
        return false;
    }
    true
}

impl GameState {
    /// The destination a finished move order goes to, for the troop the
    /// move verb acts on (`ti`): the prospector (troop 2) first copies its
    /// three picked destinations into its destination queue and heads for
    /// the first (none when that slot is empty); any other troop goes to
    /// the location picked on the map (`picked`).
    pub fn move_troop_order_destination(
        &mut self,
        ti: usize,
        picked: Option<usize>,
        picks: &ProspectorPicks,
    ) -> (dest: Option<usize>)
        requires
            old(self).wf(),
            picks.queue@.len() == 3,
        ensures
            final(self).wf(),
            ti != 2 ==> dest == picked && *final(self) == *old(self),
            ti == 2 ==> {
                &&& final(self).prospector_destinations@ == picks.queue@.push(
                    old(self).prospector_destinations@[3],
                )
                &&& final(self).troops@ == old(self).troops@
                &&& final(self).locations@ == old(self).locations@
                &&& final(self).vars == old(self).vars
                &&& final(self).events@ == old(self).events@
                &&& dest == if picks.queue@[0] == 0 {
                    None::<usize>
                } else {
                    Some(location_index_spec(picks.queue@[0]) as usize)
                }
            },
    {
        if ti != 2 {
            return picked;
        }
        self.prospector_destinations.set(0, picks.queue[0]);
        self.prospector_destinations.set(1, picks.queue[1]);
        self.prospector_destinations.set(2, picks.queue[2]);
        proof {
            assert(self.prospector_destinations@ =~= picks.queue@.push(
                old(self).prospector_destinations@[3],
            ));
        }
        let head = self.prospector_destinations[0];
        if head == 0 {
            None
        } else {
            Some(location_index_from_ptr(head))
        }
    }
}

impl ProspectorPicks {
    /// The MOVE TROOP verb on the prospector: its working queue starts as a
    /// copy of its first three destinations, counted up to the first empty
    /// one (3 with none); returns whether ADD A DESTINATION is greyed
    /// (with no pick yet, or three).
    pub fn start_move_prospectors(&mut self, destinations: &Vec<u16>) -> (add_greyed: bool)
        requires
            old(self).queue@.len() == 3,
            destinations@.len() == 4,
        ensures
            final(self).queue@ == destinations@.take(3),
            final(self).count == if destinations@[0] == 0 {
                0u8
            } else if destinations@[1] == 0 {
                1u8
            } else if destinations@[2] == 0 {
                2u8
            } else {
                3u8
            },
            add_greyed == (final(self).count == 0 || final(self).count >= 3),
    {
        self.queue.set(0, destinations[0]);
        self.queue.set(1, destinations[1]);
        self.queue.set(2, destinations[2]);
        assert(self.queue@ =~= destinations@.take(3));
        self.count = if destinations[0] == 0 {
            0
        } else if destinations[1] == 0 {
            1
        } else if destinations[2] == 0 {
            2
        } else {
            3
        };
        self.count.wrapping_sub(1) >= 2
    }
}

/// A click while picking a move destination.
#[derive(Clone, Copy, Debug, PartialEq, Eq, Structural)]
pub enum MovePick {
    /// Outside the map window: the pick ends.
    Exit,
    /// No marker near enough: keep picking.
    Nothing,
    /// This location was picked.
    Location(usize),
}

impl TravelMap {
    /// A click at `(x, y)` while picking a move destination (the map
    /// window sits `yoff` rows down the screen): outside the window the pick
    /// ends; otherwise the nearest marker built under the overlay (mode
    /// 0x40, any appearance) within 9 is picked, and the view mode gains
    /// bits 6-7.
    pub fn move_troop_pick_lmb(&mut self, x: i16, y: i16, yoff: i16, locations: &Vec<Location>) -> (p:
        MovePick)
        requires
            forall|k: int|
                0 <= k < old(self).markers@.len() ==> (#[trigger] old(self).markers@[k]).location_index
                    < locations@.len(),
            0 <= yoff <= 200,
            -200 <= old(self).view_rect.y0 <= 200,
            -200 <= old(self).view_rect.y1 <= 200,
        ensures
            ({
                let r = old(self).view_rect;
                let inside = r.x0 <= x < r.x1 && r.y0 + yoff <= y < r.y1 + yoff;
                let near = nearest_marker_spec(
                    old(self).markers@,
                    locations@,
                    0xff,
                    0x40,
                    x,
                    y,
                    old(self).markers@.len() as int,
                );
                if !inside {
                    p == MovePick::Exit && *final(self) == *old(self)
                } else {
                    &&& *final(self) == (TravelMap { mode: old(self).mode | 0xc0, ..*old(self) })
                    &&& p == if near.1 >= 9 || near.0 == 0 {
                        MovePick::Nothing
                    } else {
                        MovePick::Location(location_index_spec(near.0) as usize)
                    }
                }
            }),
    {
        let r = self.view_rect;
        if !(r.x0 <= x && x < r.x1 && r.y0 + yoff <= y && y < r.y1 + yoff) {
            return MovePick::Exit;
        }
        let (ptr, dist) = self.find_nearest_marker_in_mode(0xff, 0x40, x, y, locations);
        self.mode = self.mode | 0xc0;
        if dist >= 9 || ptr == 0 {
            return MovePick::Nothing;
        }
        MovePick::Location(location_index_from_ptr(ptr))
    }
}

/// What a confirmed flight's departure leaves to the engine: whether the
/// staged night attack was called off, whether the flight departs now (not
/// a re-confirm mid-flight), whether the HUD head folds away and the
/// departing ornithopter leaves its pad (an ornithopter flight), and
/// whether the room view beneath is rebuilt (not on the full globe).
#[derive(Clone, Copy, Debug, PartialEq, Eq, Structural)]
pub struct Departure {
    pub night_attack_cancelled: bool,
    pub departs: bool,
    pub orni_flight: bool,
    pub redraw_room: bool,
}

impl GameState {
    /// `self` is `old` after confirming a flight from `last_location`, which
    /// answered `d` (see `map_confirm_travel_departure`).
    pub open spec fn is_flight_confirm_of(&self, old: GameState, last_location: int, d: Departure) -> bool {
        let ov = old.vars;
        let flags = (ov.game_screen_mode_flags | (ov.game_screen_mode_flags / 4)) as u8;
        let departs = ov.game_screen_mode_flags & 3 == 0;
        let orni = departs && flags & 3 == 1;
        let l = old.locations@[last_location as int];
        &&& self.vars == crate::game::GameVars {
            game_screen_mode_flags: flags,
            night_attack_stage: 0,
            current_location_index: if departs {
                0xffff
            } else {
                ov.current_location_index
            },
            ..ov
        }
        &&& self.locations@ == if orni {
            old.locations@.update(
                last_location as int,
                crate::world::Location {
                    equipment: crate::world::Equipment {
                        ornithopters: ((l.equipment.ornithopters + 255) % 256) as u8,
                        ..l.equipment
                    },
                    ..l
                },
            )
        } else {
            old.locations@
        }
        &&& self.troops@ == old.troops@
        &&& self.events@ == old.events@
        &&& self.same_rest(&old)
        &&& d == Departure {
            night_attack_cancelled: ov.night_attack_stage != 0,
            departs,
            orni_flight: orni,
            redraw_room: departs && ov.data_046eb & 0x80 == 0,
        }
    }

    /// Confirm an armed flight: the map mode bits fold into the travel bits
    /// (flags |= flags >> 2), a staged night attack is called off, and
    /// unless a flight was already under way the player leaves the current
    /// location (index 0xffff) and an ornithopter flight takes one
    /// ornithopter from the starting location `last_location`.
    pub fn map_confirm_travel_departure(&mut self, last_location: usize) -> (d: Departure)
        requires
            last_location < old(self).locations@.len(),
        ensures
            final(self).is_flight_confirm_of(*old(self), last_location as int, d),
    {
        let old_flags = self.vars.game_screen_mode_flags;
        self.vars.game_screen_mode_flags = old_flags | (old_flags / 4);
        let cancelled = self.vars.night_attack_stage != 0;
        self.vars.night_attack_stage = 0;
        let departs = old_flags & 3 == 0;
        let mut orni = false;
        if departs {
            self.vars.current_location_index = 0xffff;
            if self.vars.game_screen_mode_flags & 3 == 1 {
                orni = true;
                let mut l = self.locations[last_location];
                l.equipment.ornithopters = l.equipment.ornithopters.wrapping_sub(1);
                self.set_location(last_location, l);
            }
        }
        Departure {
            night_attack_cancelled: cancelled,
            departs,
            orni_flight: orni,
            redraw_room: departs && self.vars.data_046eb & 0x80 == 0,
        }
    }
}

/// What confirming a flight and closing the map leaves to the engine: the
/// departure, and for a flight that departs now the position its first
/// step reached.
#[derive(Clone, Copy, Debug, PartialEq, Eq)]
pub struct FlightConfirm {
    pub departure: Departure,
    pub first_step: Option<(u16, i16)>,
}

/// The hover state names a location of the table with a name, a desert
/// state, or nothing (0).
pub open spec fn hover_ok(hover: u16, locations: Seq<Location>) -> bool {
    hover == 0 || hover >= 0xfff0 || (location_index_spec(hover) < locations.len()
        && locations[location_index_spec(hover)].first_name >= 1)
}

/// `new_game` and `new_map` are `old_game` and `old_map` after confirming
/// the flight picked at hover state `hover` (clicked at `(x, y)`) from the
/// player's position `(px, plat)` at `last_location`, answered `r` (see
/// `map_confirm_travel_and_close`).
pub open spec fn is_confirm_close_of(
    new_game: GameState,
    new_map: TravelMap,
    old_game: GameState,
    old_map: TravelMap,
    hover: u16,
    x: i16,
    y: i16,
    px: u16,
    plat: i16,
    last_location: int,
    r: FlightConfirm,
) -> bool {
    let a = armed_travel_spec(old_map, hover, x, y, px, plat, last_location as u16, old_game.locations@);
    &&& new_game.is_flight_confirm_of(old_game, last_location, r.departure)
    &&& if r.departure.departs {
        let s = flight_step_spec(
            TravelMap { hostile_accum: 0, skip_verb_flags: 0, travel_step_counter: 0, ..a },
            px,
            plat,
            old_game.locations@,
        );
        &&& r.first_step == Some((s.1, s.2))
        &&& new_map == (TravelMap { travel_step_counter: 1, ..s.0 })
    } else {
        r.first_step is None && new_map == a
    }
}

impl GameState {
    /// Confirm the flight picked on the map and close it: the flight is
    /// armed on `tm` from hover state `hover` (see `armed_travel_spec`), the
    /// departure is confirmed (see `map_confirm_travel_departure`), and a
    /// flight that departs now (no travel mode was up) restarts its step
    /// clock, un-greys SKIP TO DESTINATION and takes its first step from
    /// the player's position `(px, plat)` (see `travel_advance_step`).
    pub fn map_confirm_travel_and_close(
        &mut self,
        tm: &mut TravelMap,
        hover: u16,
        x: i16,
        y: i16,
        px: u16,
        plat: i16,
        last_location: usize,
    ) -> (r: FlightConfirm)
        requires
            old(tm).wf(),
            old(self).locations@.len() < 0x800,
            last_location < old(self).locations@.len(),
            -98 <= plat <= 98,
            hover < 0xfff0 ==> location_index_spec(hover) < old(self).locations@.len(),
            hover >= 0xfff0 ==> 0 <= x <= 320 && 0 <= y <= 200 && (old(tm).mode & 0x80 == 0
                ==> -98 <= y - centre_spec(old(tm).mode, old(tm).view_rect).1
                + old(tm).zoomed_latitude <= 98),
        ensures
            is_confirm_close_of(
                *final(self),
                *final(tm),
                *old(self),
                *old(tm),
                hover,
                x,
                y,
                px,
                plat,
                last_location as int,
                r,
            ),
            final(tm).wf(),
    {
        tm.arm_pending_travel(hover, x, y, px, plat, last_location as u16, &self.locations);
        proof {
            if hover < 0xfff0 {
                crate::world::lemma_location_ptr_roundtrip(location_index_spec(hover));
            }
        }
        let mut first_step: Option<(u16, i16)> = None;
        if self.vars.game_screen_mode_flags & 3 == 0 {
            tm.travel_step_counter = 0;
            tm.ungrey_skip_to_destination_verb();
            let (nx, nlat, _) = tm.travel_advance_step(px, plat, &self.locations);
            first_step = Some((nx, nlat));
        }
        let departure = self.map_confirm_travel_departure(last_location);
        FlightConfirm { departure, first_step }
    }

    /// A left click on the map at `(x, y)` over hover state `hover` picks
    /// that destination when it is selectable (see
    /// `map_destination_selectable`): the hover state's narration clip
    /// plays (see `hover_clip_spec`) while its label blinks, then the flight
    /// is confirmed and the map closes (see `map_confirm_travel_and_close`).
    /// `None`, with nothing changed, when the click picks nothing.
    pub fn map_mouse_lmb_select_destination(
        &mut self,
        tm: &mut TravelMap,
        hover: u16,
        x: i16,
        y: i16,
        px: u16,
        plat: i16,
        last_location: usize,
    ) -> (r: Option<(u16, FlightConfirm)>)
        requires
            old(tm).wf(),
            old(self).locations@.len() < 0x800,
            last_location < old(self).locations@.len(),
            -98 <= plat <= 98,
            old(self).vars.current_location_index != 0xffff ==> old(self).vars.current_location_index
                < 0x800,
            hover_ok(hover, old(self).locations@),
            hover >= 0xfff0 ==> 0 <= x <= 320 && 0 <= y <= 200 && (old(tm).mode & 0x80 == 0
                ==> -98 <= y - centre_spec(old(tm).mode, old(tm).view_rect).1
                + old(tm).zoomed_latitude <= 98),
        ensures
            ({
                let ov = old(self).vars;
                if !destination_selectable_spec(ov.game_screen_mode_flags, hover, ov.current_location_index) {
                    &&& r is None
                    &&& *final(self) == *old(self)
                    &&& *final(tm) == *old(tm)
                } else {
                    &&& r matches Some(p)
                    &&& p.0 == hover_clip_spec(hover, old(self).locations@)
                    &&& is_confirm_close_of(
                        *final(self),
                        *final(tm),
                        *old(self),
                        *old(tm),
                        hover,
                        x,
                        y,
                        px,
                        plat,
                        last_location as int,
                        p.1,
                    )
                }
            }),
            final(tm).wf(),
    {
        if !map_destination_selectable(self.vars.game_screen_mode_flags, hover, self.vars.current_location_index) {
            return None;
        }
        assert(hover & 0xff00 == 0xff00 <==> hover >= 0xff00) by (bit_vector);
        let clip = map_hover_narration_clip(hover, &self.locations);
        let c = self.map_confirm_travel_and_close(tm, hover, x, y, px, plat, last_location);
        Some((clip, c))
    }
}

/// The map window the map screen opens over.
pub open spec fn map_view_rect_spec() -> Rect {
    Rect { x0: 81, y0: 45, x1: 241, y1: 134 }
}

impl GameState {
    /// TAKE AN ORNITHOPTER opens the map screen for a flight: the
    /// map-travel screen mode (mode flags 4) with an ornithopter as the
    /// vehicle (flight clip 2), the minimap trail emptied (see
    /// `travel_reset_trail`) and its state 0, and the windowed map view
    /// (view mode 1) over the map window (81, 45)-(241, 134).
    pub fn take_an_ornithopter_open_map(&mut self, tm: &mut TravelMap)
        requires
            old(tm).wf(),
        ensures
            *final(self) == (GameState {
                vars: crate::game::GameVars {
                    game_screen_mode_flags: 4,
                    travel_minimap_state: 0,
                    data_046eb: 1,
                    ..old(self).vars
                },
                ..*old(self)
            }),
            final(tm).trail@ == Seq::new(old(tm).trail@.len(), |i: int| (0x800u16, 0x800u16)),
            *final(tm) == (TravelMap {
                mode: 1,
                view_rect: map_view_rect_spec(),
                vehicle_mode: 2,
                trail: final(tm).trail,
                ..*old(tm)
            }),
            final(tm).wf(),
    {
        self.vars.game_screen_mode_flags = 4;
        tm.vehicle_mode = 2;
        tm.travel_reset_trail();
        self.vars.travel_minimap_state = 0;
        self.map_screen_open(tm);
    }

    /// Open the map screen: the windowed map view (view mode 1) over the
    /// map window (81, 45)-(241, 134).
    pub fn map_screen_open(&mut self, tm: &mut TravelMap)
        requires
            old(tm).wf(),
        ensures
            *final(self) == (GameState {
                vars: crate::game::GameVars { data_046eb: 1, ..old(self).vars },
                ..*old(self)
            }),
            *final(tm) == (TravelMap { mode: 1, view_rect: map_view_rect_spec(), ..*old(tm) }),
            final(tm).wf(),
    {
        self.vars.data_046eb = 1;
        tm.mode = 1;
        tm.view_rect = Rect { x0: 81, y0: 45, x1: 241, y1: 134 };
    }

    /// CHANGE DESTINATION, in flight: the map screen opens again over the
    /// flight (see `map_screen_open`), and the minimap comes back (state 1)
    /// when it closes.
    pub fn travel_change_destination(&mut self, tm: &mut TravelMap)
        requires
            old(tm).wf(),
        ensures
            *final(self) == (GameState {
                vars: crate::game::GameVars {
                    travel_minimap_state: 1,
                    data_046eb: 1,
                    ..old(self).vars
                },
                ..*old(self)
            }),
            *final(tm) == (TravelMap { mode: 1, view_rect: map_view_rect_spec(), ..*old(tm) }),
            final(tm).wf(),
    {
        self.vars.travel_minimap_state = 1;
        self.map_screen_open(tm);
    }
}

/// The transition a departure plays.
#[derive(Clone, Copy, Debug, PartialEq, Eq, Structural)]
pub enum DepartureTransition {
    NoTransition,
    /// The story's departure transition (any map mode but the
    /// ornithopter's).
    StoryPhase,
    /// The ornithopter takes off from its pad.
    Takeoff,
}

/// The departure transition: none on the full globe (view mode bit 7);
/// from any map mode but the ornithopter's (mode flags 4) the story's
/// transition; the takeoff only when the destination click armed it
/// (`armed` bit 7).
pub fn departure_transition(view_mode: u8, old_mode_flags: u8, armed: u8) -> (t:
    DepartureTransition)
    ensures
        t == if view_mode & 0x80 != 0 {
            DepartureTransition::NoTransition
        } else if old_mode_flags != 4 {
            DepartureTransition::StoryPhase
        } else if armed & 0x80 == 0 {
            DepartureTransition::NoTransition
        } else {
            DepartureTransition::Takeoff
        },
{
    if view_mode & 0x80 != 0 {
        DepartureTransition::NoTransition
    } else if old_mode_flags != 4 {
        DepartureTransition::StoryPhase
    } else if armed & 0x80 == 0 {
        DepartureTransition::NoTransition
    } else {
        DepartureTransition::Takeoff
    }
}

} // verus!
