use dune::game::{GameState, RoomPerson};
use dune::map_menus::{
    departure_transition, DepartureTransition, map_click_location_marker, map_destination_selectable, map_place_location_panel,
    map_setup_main_menu, occupation_for_verb, occupation_submenu, ContactVerb, LocationSection,
    MoveMenu, MovePick, OccupationMenu, OccupationVerb,
};
use dune::map_panels::{map_open_troop_info_popup, troop_contact_popup_layout};
use dune::map_text::MapRefresh;
use dune::map_travel::{MapLocationMarker, Rect, TravelMap};
use dune::troop_contact::{
    contact_head_anim_anchor, move_acknowledgement_action, ContactHead, contact_fremen_troops_action, dune_map_mouse_rmb, map_click_troop_icon, next_troop_icon,
    troop_contact_menu, ContactAction, ContactMenu, InfoToggle, TroopClick,
};
use dune::troop_icons::{troop_icon_data, TroopIcon, TroopIconList};
use dune::troop_map::ProspectorPicks;
use dune::world::{Equipment, Location, Troop};

fn state(troops: Vec<Troop>, locations: Vec<Location>) -> GameState {
    GameState {
        troops,
        locations,
        room_persons: vec![RoomPerson::default(); 16],
        fremen2_troops: vec![None; 8],
        string_subst_id_table: vec![0; 11],
        prospector_destinations: vec![0; 4],
        lng_units_per_cell: vec![0x100; 197],
        rand_bits: Vec::new(),
        visible_location_markers: Vec::new(),
        troop_condit: Default::default(),
        location_condit: Default::default(),
        vars: Default::default(),
        events: Vec::new(),
    }
}

fn map() -> TravelMap {
    TravelMap {
        mode: 1,
        view_rect: Rect { x0: 81, y0: 45, x1: 241, y1: 134 },
        zoomed_longitude: 0x8000,
        zoomed_latitude: 0,
        row_len: vec![0x100; 197],
        lng_units_per_cell: vec![0x100; 197],
        markers: Vec::new(),
        travel_heading: 0,
        travel_step_accum: 0x80,
        travel_heading_mode: 0,
        travel_no_location_dest: 0,
        travel_destination_ptr: 0x0100,
        trail: vec![(0, 0x800); 4],
        trail_cursor: 0,
        vehicle_mode: 2,
        video_id: 2,
        active_video_id: 0,
        hostile_accum: 0,
        skip_verb_flags: 0,
        pending_room_action: 0,
        pending_room_screen_request: 0,
        travel_step_counter: 0,
    }
}

fn marker(location_index: u16, x: i16, y: i16, mode: u8) -> MapLocationMarker {
    MapLocationMarker { location_index, x, y, mode }
}

fn icon(x0: i16, y0: i16, x1: i16, y1: i16, troop_index: usize) -> TroopIcon {
    TroopIcon {
        rect: Rect { x0, y0, x1, y1 },
        sprite: 0x13,
        troop_index,
        flags: 0,
        script_cursor: 0,
        script_base: 0,
    }
}

fn icons(list: Vec<TroopIcon>) -> TroopIconList {
    TroopIconList {
        icons: list,
        focused: vec![None, None],
        anim_phase: 0,
        draw_by_depth: false,
        data: troop_icon_data(),
        sprite_dims: Vec::new(),
    }
}

fn troop(id: u8, occupation: u8) -> Troop {
    Troop { troop_id: id, occupation, ..Default::default() }
}

#[test]
fn clicking_a_location_marker_offers_a_way_there() {
    let c = map_click_location_marker(3, 3, 0x10, 0, 0xff, 1);
    assert_eq!((c.menu, c.orni_greyed), (None, false));
    assert_eq!(map_click_location_marker(2, 3, 0xff, 0, 0x40, 0).menu, Some(MoveMenu::Worm));
    assert_eq!(map_click_location_marker(2, 3, 0xff, 0, 0x00, 0).menu, None);
    let c = map_click_location_marker(2, 3, 0x10, 5, 0, 0);
    assert_eq!((c.menu, c.orni_greyed), (Some(MoveMenu::Orni), true));
    let c = map_click_location_marker(2, 3, 0x30, 2, 0, 1);
    assert_eq!((c.menu, c.orni_greyed), (Some(MoveMenu::Orni), false));
    assert_eq!(map_click_location_marker(2, 3, 0x30, 3, 0, 1).menu, None);
}

#[test]
fn location_panel_next_to_its_marker() {
    let mut m = map();
    m.markers = vec![marker(4, 100, 50, 1), marker(4, 10, 10, 1), marker(6, 10, -3, 1)];
    assert_eq!(map_place_location_panel(&m, 4, 1), Some(Rect { x0: 115, y0: 20, x1: 221, y1: 80 }));
    assert_eq!(map_place_location_panel(&m, 4, 3), Some(Rect { x0: 115, y0: 50, x1: 221, y1: 50 }));
    assert_eq!(map_place_location_panel(&m, 5, 0), None);
    assert_eq!(map_place_location_panel(&m, 6, 0), None);
}

#[test]
fn main_menu_setup() {
    let s = map_setup_main_menu(0x10, 5, 1, 5, 1, Some(1), 3, false);
    assert_eq!((s.orni_greyed, s.spice_density, s.contact), (false, true, ContactVerb::GiveOrdersToTroop(false)));
    assert!(s.push_map_troops_menu);
    let s = map_setup_main_menu(0xff, 0, 1, 4, 3, None, 3, true);
    assert_eq!((s.orni_greyed, s.spice_density, s.contact), (true, false, ContactVerb::ContactFremenTroops(false)));
    assert!(map_setup_main_menu(0x30, 3, 1, 4, 3, None, 3, false).orni_greyed);
    assert!(map_setup_main_menu(0x30, 2, 0, 4, 3, None, 3, false).orni_greyed);
    assert_eq!(map_setup_main_menu(0x30, 2, 1, 4, 1, Some(0), 3, false).contact, ContactVerb::GiveOrdersToTroop(true));
    assert_eq!(map_setup_main_menu(0x30, 2, 1, 4, 1, Some(4), 3, false).contact, ContactVerb::GiveOrdersToTroop(true));
    assert_eq!(map_setup_main_menu(0x30, 2, 1, 4, 7, None, 3, false).contact, ContactVerb::ContactFremenTroops(true));
}

#[test]
fn occupation_submenus_and_verbs() {
    let s = occupation_submenu(0x02, 0, 0x20, 0x20);
    assert_eq!((s.menu, s.equipment_greyed, s.espionage_greyed, s.ecology_greyed), (OccupationMenu::Select, None, None, false));
    let s = occupation_submenu(0x00, 0, 0x0f, 0);
    assert_eq!((s.menu, s.equipment_greyed, s.ecology_greyed), (OccupationMenu::Spice, Some(true), true));
    let s = occupation_submenu(0x04, 0x10, 0x10, 0);
    assert_eq!((s.menu, s.equipment_greyed, s.espionage_greyed), (OccupationMenu::Army, Some(false), Some(false)));
    let s = occupation_submenu(0x45, 0x20, 0, 0);
    assert_eq!((s.menu, s.espionage_greyed), (OccupationMenu::Espionage, Some(true)));
    assert_eq!(occupation_submenu(0x08, 0, 0, 0).menu, OccupationMenu::Ecology);
    assert_eq!(occupation_submenu(0x1c, 0, 0, 0).menu, OccupationMenu::Ecology);
    assert_eq!(occupation_for_verb(OccupationVerb::SpecializeInSpice, 2, 0), 1);
    assert_eq!(occupation_for_verb(OccupationVerb::SpecializeInSpice, 0, 4), 0);
    assert_eq!(occupation_for_verb(OccupationVerb::SpecializeInArmy, 0, 0), 4);
    assert_eq!(occupation_for_verb(OccupationVerb::SpecializeInEcology, 0, 0), 8);
    assert_eq!(occupation_for_verb(OccupationVerb::AssemblyWindTrap, 0, 0x08), 9);
    assert_eq!(occupation_for_verb(OccupationVerb::AssemblyWindTrap, 0, 0x45), 5);
}

#[test]
fn location_popup_battle_or_equipment() {
    let e = Equipment { ornithopters: 2, bulbs: 1, ..Default::default() };
    let quiet = Location { equipment: e, ..Default::default() };
    let fighting = Location { status: 2, ..Default::default() };
    let s = state(Vec::new(), vec![quiet, fighting]);
    match s.location_popup_section(0) {
        LocationSection::Equipment(q) => assert_eq!((q.ornithopters, q.bulbs), (2, 1)),
        LocationSection::Battle(_) => panic!("no battle here"),
    }
    match s.location_popup_section(1) {
        LocationSection::Battle(sprite) => assert_eq!(sprite, 0x92),
        LocationSection::Equipment(_) => panic!("a battle here"),
    }
}

#[test]
fn picking_a_destination_on_the_map() {
    assert!(!map_destination_selectable(4, 0, 0xffff));
    assert!(!map_destination_selectable(0, 0xffff, 0xffff));
    assert!(!map_destination_selectable(4, 0x011c, 1));
    assert!(map_destination_selectable(5, 0x011c, 1));
    assert!(map_destination_selectable(4, 0x0138, 1));
    assert!(map_destination_selectable(4, 0xffff, 1));
    assert!(map_destination_selectable(4, 0x011c, 0xffff));
}

#[test]
fn move_orders_and_prospector_picks() {
    let mut s = state(vec![troop(1, 2), troop(2, 2), troop(3, 1)], vec![Location::default(); 3]);
    s.prospector_destinations = vec![0x0100, 0x0100, 0x0100, 0x0154];
    let picks = ProspectorPicks { count: 2, queue: vec![0x011c, 0x0138, 0] };
    assert_eq!(s.move_troop_order_destination(1, Some(5), &picks), Some(5));
    assert_eq!(s.prospector_destinations, vec![0x0100, 0x0100, 0x0100, 0x0154]);
    assert_eq!(s.move_troop_order_destination(2, None, &picks), Some(1));
    assert_eq!(s.prospector_destinations, vec![0x011c, 0x0138, 0, 0x0154]);
    let empty = ProspectorPicks { count: 0, queue: vec![0, 0x0138, 0] };
    assert_eq!(s.move_troop_order_destination(2, Some(1), &empty), None);
    let mut p = ProspectorPicks { count: 0, queue: vec![9, 9, 9] };
    assert!(!p.start_move_prospectors(&vec![0x011c, 0, 0x0138, 0x0154]));
    assert_eq!((p.count, p.queue.clone()), (1, vec![0x011c, 0, 0x0138]));
    assert!(p.start_move_prospectors(&vec![0x011c, 0x0138, 0x0154, 0]));
    assert_eq!(p.count, 3);
    assert!(p.start_move_prospectors(&vec![0, 0x0138, 0x0154, 0]));
    assert_eq!(p.count, 0);
}

#[test]
fn move_pick_clicks() {
    let mut m = map();
    m.markers = vec![marker(0, 161, 89, 0x40), marker(1, 150, 89, 1)];
    let mut l = Location::default();
    l.appearance = 0xfe;
    let locs = vec![l, Location::default()];
    assert_eq!(m.move_troop_pick_lmb(10, 10, 0, &locs), MovePick::Exit);
    assert_eq!(m.mode, 1);
    assert_eq!(m.move_troop_pick_lmb(163, 90, 0, &locs), MovePick::Location(0));
    assert_eq!(m.mode, 0xc1);
    assert_eq!(m.move_troop_pick_lmb(150, 89, 0, &locs), MovePick::Nothing);
}

#[test]
fn departure_of_a_confirmed_flight() {
    let mut start = Location::default();
    start.equipment.ornithopters = 2;
    let mut s = state(Vec::new(), vec![start, Location::default()]);
    s.vars.game_screen_mode_flags = 4;
    s.vars.night_attack_stage = 2;
    s.vars.current_location_index = 0;
    s.vars.data_046eb = 1;
    let d = s.map_confirm_travel_departure(0);
    assert!(d.night_attack_cancelled && d.departs && d.orni_flight && d.redraw_room);
    assert_eq!((s.vars.game_screen_mode_flags, s.vars.night_attack_stage), (5, 0));
    assert_eq!((s.vars.current_location_index, s.locations[0].equipment.ornithopters), (0xffff, 1));
    // a re-confirm in flight leaves the player and the pad alone
    s.vars.current_location_index = 7;
    let d = s.map_confirm_travel_departure(0);
    assert!(!d.departs && !d.orni_flight && !d.night_attack_cancelled);
    assert_eq!((s.vars.current_location_index, s.locations[0].equipment.ornithopters), (7, 1));
}

#[test]
fn map_refresh_after_events() {
    let mut s = state(Vec::new(), Vec::new());
    s.vars.spice_density_overlay_dirty = 3;
    assert_eq!(s.map_view_refresh_after_events(), MapRefresh::Nothing);
    assert_eq!(s.vars.spice_density_overlay_dirty, 0);
    s.vars.data_046eb = 1;
    assert_eq!(s.map_view_refresh_after_events(), MapRefresh::MainView);
    s.vars.data_046eb = 0xc0;
    assert_eq!(s.map_view_refresh_after_events(), MapRefresh::Recompose { overlay: true });
    s.vars.data_046eb = 0x80;
    assert_eq!(s.map_view_refresh_after_events(), MapRefresh::Recompose { overlay: false });
}

#[test]
fn next_troop_goes_up_the_ids() {
    let troops = vec![troop(1, 0), troop(2, 0), troop(3, 0), troop(4, 0x80)];
    let list = icons(vec![icon(0, 0, 5, 5, 0), icon(0, 0, 5, 5, 2), icon(0, 0, 5, 5, 3)]);
    assert_eq!(next_troop_icon(&list, &troops, 1), Some(1));
    assert_eq!(next_troop_icon(&list, &troops, 3), Some(0));
    assert_eq!(next_troop_icon(&list, &troops, 0), Some(0));
    // a later icon of the same troop wins the tie
    let list = icons(vec![icon(0, 0, 5, 5, 2), icon(0, 0, 5, 5, 2)]);
    assert_eq!(next_troop_icon(&list, &troops, 1), Some(1));
    assert_eq!(next_troop_icon(&icons(Vec::new()), &troops, 1), None);
}

#[test]
fn contact_verb_actions() {
    let troops = vec![troop(1, 0), troop(2, 0)];
    let list = icons(vec![icon(0, 0, 5, 5, 0)]);
    assert_eq!(contact_fremen_troops_action(0, 5, 0, 1, &troops, &list), ContactAction::Nothing);
    assert_eq!(contact_fremen_troops_action(2, 1, 0, 1, &troops, &list), ContactAction::CurrentLocation);
    assert_eq!(contact_fremen_troops_action(2, 5, 2, 1, &troops, &list), ContactAction::NextTroop);
    assert_eq!(contact_fremen_troops_action(2, 5, 0, 0, &troops, &list), ContactAction::NextTroop);
    assert_eq!(contact_fremen_troops_action(2, 5, 0, 1, &troops, &list), ContactAction::Resume(0));
    assert_eq!(contact_fremen_troops_action(2, 5, 0, 2, &troops, &list), ContactAction::NextTroop);
    assert_eq!(contact_fremen_troops_action(2, 5, 0, 3, &troops, &list), ContactAction::NextTroop);
}

#[test]
fn contact_menus_and_icon_clicks() {
    assert_eq!(troop_contact_menu(3, 5, 0, 0), ContactMenu::TroopDialog(true));
    assert_eq!(troop_contact_menu(3, 5, 0, 1), ContactMenu::TroopDialog(false));
    assert_eq!(troop_contact_menu(3, 5, 0x41, 0), ContactMenu::ChangeDestination);
    assert_eq!(troop_contact_menu(3, 5, 0x20, 0), ContactMenu::NextTroop);
    assert_eq!(troop_contact_menu(3, 5, 0x22, 0), ContactMenu::TroopDialog(true));
    assert_eq!(troop_contact_menu(6, 5, 0, 0), ContactMenu::NextTroop);
    assert_eq!(map_click_troop_icon(5, 2, 2, 1, 0), TroopClick::Ignore);
    assert_eq!(map_click_troop_icon(5, 2, 3, 1, 5), TroopClick::Dialogue);
    assert_eq!(map_click_troop_icon(5, 2, 2, 2, 0), TroopClick::Select(5));
}

#[test]
fn right_click_toggles_the_info_panel() {
    let troops = vec![troop(1, 0), troop(2, 0)];
    let list = icons(vec![icon(100, 100, 110, 110, 0), icon(120, 100, 130, 110, 1)]);
    let info = Rect { x0: 0, y0: 0, x1: 50, y1: 50 };
    assert_eq!(dune_map_mouse_rmb(&list, &troops, 105, 105, false, false, true, info, None), InfoToggle::Nothing);
    assert_eq!(dune_map_mouse_rmb(&list, &troops, 105, 105, true, false, false, info, None), InfoToggle::Nothing);
    assert_eq!(dune_map_mouse_rmb(&list, &troops, 10, 10, true, true, false, info, Some(1)), InfoToggle::Close);
    assert_eq!(dune_map_mouse_rmb(&list, &troops, 125, 105, true, true, false, info, Some(1)), InfoToggle::Close);
    assert_eq!(dune_map_mouse_rmb(&list, &troops, 105, 105, true, true, false, info, Some(1)), InfoToggle::Open(0, 0));
    assert_eq!(dune_map_mouse_rmb(&list, &troops, 90, 90, false, false, false, info, None), InfoToggle::Nothing);
}

#[test]
fn contact_popup_layout_and_info_panel() {
    let last = Rect { x0: 10, y0: 80, x1: 200, y1: 147 };
    let l = troop_contact_popup_layout(last, Some((50, 100)));
    assert_eq!(l.rect, Rect { x0: 10, y0: 5, x1: 200, y1: 72 });
    assert_eq!((l.overlay_panel_pos, l.subtitle_pos), (Some((0x5c, 0x1e)), (83, 8)));
    assert_eq!(l.head_rect, Rect { x0: 14, y0: 8, x1: 75, y1: 69 });
    let l = troop_contact_popup_layout(last, Some((50, 20)));
    assert_eq!((l.rect, l.overlay_panel_pos), (last, Some((0x5c, 0x0e))));
    let l = troop_contact_popup_layout(last, None);
    assert_eq!((l.rect, l.overlay_panel_pos), (last, None));
    assert_eq!(map_open_troop_info_popup(3, 5, (100, 60)), Some(Rect { x0: 115, y0: 10, x1: 221, y1: 110 }));
    assert_eq!(map_open_troop_info_popup(5, 5, (100, 60)), None);
    assert_eq!(map_open_troop_info_popup(3, 5, (200, 2)), Some(Rect { x0: 85, y0: 4, x1: 191, y1: 104 }));
}

#[test]
fn contact_heads_and_answers() {
    let captured = Troop { occupation: 0x22, offset_of_location: 0x011c, ..Default::default() };
    let free = Troop { occupation: 0x02, offset_of_location: 0x011c, ..Default::default() };
    let mut s = state(vec![captured, free], vec![Location::default(), Location { status: 8, ..Default::default() }]);
    s.vars.selected_fremen2 = 5;
    assert_eq!(s.map_troop_contact_head(0), ContactHead::Captor);
    assert_eq!((s.fremen2_troops[0], s.vars.selected_fremen2), (None, 5));
    assert_eq!(s.map_troop_contact_head(1), ContactHead::Fremen);
    assert_eq!((s.fremen2_troops[0], s.vars.selected_fremen2), (Some(1), 0));
    assert_eq!(contact_head_anim_anchor(ContactHead::Captor, 0x20, 4), (0, 3));
    assert_eq!(contact_head_anim_anchor(ContactHead::Fremen, 0x10, 3), (2, 2));
    assert_eq!(contact_head_anim_anchor(ContactHead::Fremen, 0x08, 0), (0, 0));
    assert_eq!(move_acknowledgement_action(1, 0x011c, 0x011c), 0x10);
    assert_eq!(move_acknowledgement_action(2, 0x011c, 0x011c), 0x0b);
    assert_eq!(move_acknowledgement_action(1, 0x0138, 0x011c), 0x0b);
    assert_eq!(departure_transition(0x80, 4, 0x80), DepartureTransition::NoTransition);
    assert_eq!(departure_transition(1, 8, 0x80), DepartureTransition::StoryPhase);
    assert_eq!(departure_transition(1, 4, 0), DepartureTransition::NoTransition);
    assert_eq!(departure_transition(1, 4, 0x80), DepartureTransition::Takeoff);
}

#[test]
fn contact_fremen_troops_opens_and_cycles_the_order_menu() {
    let troops = vec![troop(1, 0x01), troop(2, 0x02)];
    let list = icons(vec![icon(100, 100, 110, 110, 0), icon(40, 20, 50, 30, 1)]);
    // the contact slot is CONTACT FREMEN TROOPS, ungreyed with icons up
    assert_eq!(map_setup_main_menu(0x30, 2, 1, 5, 3, None, 2, true).contact, ContactVerb::ContactFremenTroops(false));
    // nothing selected yet: the cycle starts and contacts troop 1
    assert_eq!(contact_fremen_troops_action(2, 3, 0, 0, &troops, &list), ContactAction::NextTroop);
    assert_eq!(next_troop_icon(&list, &troops, 0), Some(0));
    // a stationary troop in range gets the full order menu, CUT CONTACT on a
    // map opened from the map itself
    assert_eq!(troop_contact_menu(1, 3, troops[0].occupation, 0), ContactMenu::TroopDialog(true));
    // the popup takes the half the icon is not in
    let last = Rect { x0: 10, y0: 80, x1: 200, y1: 147 };
    assert_eq!(troop_contact_popup_layout(last, Some((100, 100))).rect.y0, 5);
    // the generic Fremen head speaks for the troop
    let mut s = state(troops.clone(), vec![Location::default()]);
    s.troops[0].offset_of_location = 0x0100;
    assert_eq!(s.map_troop_contact_head(0), ContactHead::Fremen);
    // a prospecting troop's occupation submenu is the spice one, its
    // equipment search ungreyed at game phase 0x10
    let sub = occupation_submenu(troops[0].occupation, 0, 0x10, 0);
    assert_eq!((sub.menu, sub.equipment_greyed), (OccupationMenu::Spice, Some(false)));
    // the next troop after troop 1 is troop 2
    assert_eq!(next_troop_icon(&list, &troops, 1), Some(1));
}

#[test]
fn give_orders_to_troop_opens_the_map_on_that_troop() {
    // NO MORE ORDERS, not CUT CONTACT, once the room's path re-entered the map
    assert_eq!(troop_contact_menu(0, 1, 0x02, 1), ContactMenu::TroopDialog(false));
    // at close range the verb contacts the troop where the player stands
    let troops = vec![troop(1, 0x02)];
    assert_eq!(
        contact_fremen_troops_action(1, 1, 0, 0, &troops, &icons(Vec::new())),
        ContactAction::CurrentLocation
    );
}

#[test]
fn see_dune_map_renders_and_exits() {
    // GIVE ORDERS TO TROOP greyed with no troop at the current location
    assert_eq!(map_setup_main_menu(0x30, 2, 1, 5, 1, Some(0), 3, false).contact, ContactVerb::GiveOrdersToTroop(true));
}

#[test]
fn prospector_spice_map_scene_plays() {
    // the prospectors take spice prospecting, not mining
    assert_eq!(occupation_for_verb(OccupationVerb::SpecializeInSpice, 2, 0x02), 1);
}

#[test]
fn move_troop_orders_a_contacted_troop_to_a_marker() {
    // a moving troop gets the CHANGE DESTINATION menu
    assert_eq!(troop_contact_menu(0, 1, 0x42, 0), ContactMenu::ChangeDestination);
    // the outside click cancelled the pick mode
    let mut m = map();
    assert_eq!(m.move_troop_pick_lmb(300, 190, 0, &vec![Location::default()]), MovePick::Exit);
}

#[test]
fn confirming_a_flight_departs_with_a_fresh_step_clock() {
    let mut start = Location::default();
    start.equipment.ornithopters = 2;
    start.first_name = 1;
    let mut dest = Location::default();
    dest.first_name = 2;
    dest.last_name = 3;
    dest.map_x = 0x2000;
    let mut s = state(Vec::new(), vec![start, dest]);
    s.vars.game_screen_mode_flags = 4;
    s.vars.current_location_index = 0;
    let mut m = map();
    m.travel_step_counter = 0x77;
    m.hostile_accum = 0x40;
    m.skip_verb_flags = 0x40;
    // a click on location 1's marker (pointer 0x011c)
    let r = s.map_mouse_lmb_select_destination(&mut m, 0x011c, 160, 90, 0x1000, 0, 0);
    let (clip, c) = r.expect("location 1 is selectable");
    assert_eq!(clip, 0x2bc + 0x13);
    assert!(c.departure.departs && c.departure.orni_flight);
    assert_eq!((m.travel_destination_ptr, m.travel_heading_mode, m.travel_no_location_dest), (0x011c, 0, 0));
    // the step clock restarts and the first step is taken east towards it
    assert_eq!(m.travel_step_counter, 1);
    assert_eq!((m.hostile_accum, m.skip_verb_flags), (0, 0));
    let (nx, nlat) = c.first_step.expect("a departing flight steps");
    assert!(nx > 0x1000);
    assert_eq!(nlat, 0);
    assert_eq!((s.vars.current_location_index, s.locations[0].equipment.ornithopters), (0xffff, 1));
}

#[test]
fn a_click_on_the_players_own_location_picks_nothing() {
    let mut here = Location::default();
    here.first_name = 1;
    let mut s = state(Vec::new(), vec![here]);
    s.vars.game_screen_mode_flags = 4;
    s.vars.current_location_index = 0;
    let mut m = map();
    assert_eq!(s.map_mouse_lmb_select_destination(&mut m, 0x0100, 160, 90, 0x1000, 0, 0), None);
    assert_eq!(s.vars.game_screen_mode_flags, 4);
    assert_eq!(m.travel_step_counter, 0);
    // outside a map mode nothing is picked either
    s.vars.game_screen_mode_flags = 0;
    assert_eq!(s.map_mouse_lmb_select_destination(&mut m, 0xffff, 160, 90, 0x1000, 0, 0), None);
}

#[test]
fn a_reconfirm_in_flight_only_rearms() {
    let mut start = Location::default();
    start.first_name = 1;
    let mut dest = Location::default();
    dest.first_name = 1;
    dest.map_x = 0x2000;
    let mut s = state(Vec::new(), vec![start, dest]);
    s.vars.game_screen_mode_flags = 5;
    s.vars.current_location_index = 0xffff;
    let mut m = map();
    m.travel_step_counter = 9;
    let c = s.map_confirm_travel_and_close(&mut m, 0x011c, 0, 0, 0x1000, 0, 0);
    assert!(!c.departure.departs);
    assert_eq!(c.first_step, None);
    assert_eq!((m.travel_step_counter, m.travel_destination_ptr, m.travel_step_accum), (9, 0x011c, 0x80));
}

#[test]
fn take_an_ornithopter_opens_the_map_view() {
    let mut s = state(Vec::new(), Vec::new());
    s.vars.travel_minimap_state = 1;
    let mut m = map();
    m.mode = 0;
    m.vehicle_mode = 0;
    m.view_rect = Rect { x0: 0, y0: 0, x1: 10, y1: 10 };
    m.trail = vec![(0x1000, 3), (0x2000, 4)];
    s.take_an_ornithopter_open_map(&mut m);
    assert_eq!((s.vars.game_screen_mode_flags, s.vars.data_046eb, s.vars.travel_minimap_state), (4, 1, 0));
    assert_eq!((m.mode, m.vehicle_mode), (1, 2));
    assert_eq!(m.view_rect, Rect { x0: 81, y0: 45, x1: 241, y1: 134 });
    assert_eq!(m.trail, vec![(0x800, 0x800), (0x800, 0x800)]);
}

#[test]
fn change_destination_reopens_the_map_over_the_flight() {
    let mut s = state(Vec::new(), Vec::new());
    s.vars.game_screen_mode_flags = 5;
    s.vars.data_046eb = 0;
    let mut m = map();
    m.mode = 0;
    m.trail = vec![(0x1000, 3), (0x800, 0x800)];
    s.travel_change_destination(&mut m);
    assert_eq!((s.vars.travel_minimap_state, s.vars.data_046eb, s.vars.game_screen_mode_flags), (1, 1, 5));
    assert_eq!((m.mode, m.view_rect), (1, Rect { x0: 81, y0: 45, x1: 241, y1: 134 }));
    // the flight's trail stays
    assert_eq!(m.trail[0], (0x1000, 3));
}
