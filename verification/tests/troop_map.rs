use dune::game::{GameEvent, GameState, RoomPerson};
use dune::map_panels::{
    map_setup_troop_dialog_menu, spice_overlay_geometry, spice_overlay_here_box,
    spice_overlay_uses_secondary_slot, OccupationSlot, PanelLine, PanelText,
};
use dune::map_travel::{Rect, TravelMap};
use dune::troop_icons::{troop_icon_data, TroopIcon, TroopIconList};
use dune::troop_map::{
    build_spice_density_xlat, clamp_i16, equipment_column_layout, floor_div8, floor_half_i32,
    map_place_popup_panel, troop_occupation_within_class, xor_bracket_anim_setup,
    xor_rect_outline_bounds, ProspectorPicks,
};
use dune::world::{Equipment, Location, Troop};

fn state(troops: Vec<Troop>, locations: Vec<Location>) -> GameState {
    GameState {
        troops,
        locations,
        room_persons: vec![RoomPerson::default(); 16],
        fremen2_troops: vec![None; 8],
        string_subst_id_table: vec![0; 11],
        prospector_destinations: vec![0; 4],
        lng_units_per_cell: vec![0x100; 197],
        rand_bits: Vec::new(),
        visible_location_markers: Vec::new(),
        troop_condit: Default::default(),
        location_condit: Default::default(),
        vars: Default::default(),
        events: Vec::new(),
    }
}

fn troop(id: u8, occupation: u8, offset_of_location: u16) -> Troop {
    Troop { troop_id: id, occupation, offset_of_location, motivation: 50, ..Default::default() }
}

fn icons_for(ti: usize) -> TroopIconList {
    TroopIconList {
        icons: vec![TroopIcon {
            rect: Rect { x0: 0, y0: 0, x1: 5, y1: 5 },
            sprite: 0x13,
            troop_index: ti,
            flags: 0,
            script_cursor: 0,
            script_base: 0,
        }],
        focused: vec![None],
        anim_phase: 0,
        draw_by_depth: true,
        data: troop_icon_data(),
        sprite_dims: Vec::new(),
    }
}

#[test]
fn spice_density_colours() {
    let mut a = Location { spice_field_id: 3, ..Default::default() };
    let hidden = Location { spice_field_id: 3, status: 0x80, spice_density: 0xf0, ..Default::default() };
    let b = Location { spice_field_id: 5, status: 0x40, spice_density: 0x35, ..Default::default() };
    let x = build_spice_density_xlat(&vec![a, hidden, b], false);
    assert_eq!(x.len(), 256);
    assert_eq!((x[0], x[3], x[5]), (0x70, 0x75, 0x53));
    let x = build_spice_density_xlat(&vec![a, hidden, b], true);
    assert_eq!(x[3], 0x78);
    // a later location paints over an earlier one on the same field
    a.spice_field_id = 5;
    let x = build_spice_density_xlat(&vec![b, a], false);
    assert_eq!(x[5], 0x75);
}

#[test]
fn contact_verb_troop_by_view() {
    let mut s = state(vec![troop(1, 2, 0x100), troop(2, 2, 0x100)], vec![Location::default()]);
    s.fremen2_troops[1] = Some(1);
    s.vars.selected_fremen2 = 9;
    assert_eq!(s.contact_verb_troop(), Some(1));
    s.vars.data_046eb = 0x80;
    s.vars.map_selected_troop_id = 2;
    assert_eq!(s.contact_verb_troop(), Some(1));
    s.vars.map_selected_troop_id = 0;
    assert_eq!(s.contact_verb_troop(), None);
    s.vars.map_selected_troop_id = 9;
    assert_eq!(s.contact_verb_troop(), None);
}

#[test]
fn popup_panel_placement() {
    assert_eq!(map_place_popup_panel(100, 50, 0x64), Rect { x0: 115, y0: 4, x1: 221, y1: 104 });
    assert_eq!(map_place_popup_panel(200, 120, 0x30), Rect { x0: 85, y0: 96, x1: 191, y1: 144 });
    assert_eq!(map_place_popup_panel(150, 70, 0x10), Rect { x0: 165, y0: 62, x1: 271, y1: 78 });
}

#[test]
fn xor_effect_geometry() {
    assert_eq!(xor_rect_outline_bounds(0, 0, 10, 10), Some(Rect { x0: 4, y0: 4, x1: 10, y1: 10 }));
    assert_eq!(xor_rect_outline_bounds(400, 0, 10, 10), Some(Rect { x0: 0x13c, y0: 4, x1: 0x13c, y1: 10 }));
    assert_eq!(xor_rect_outline_bounds(0, 200, 5, -300), None);
    let s = xor_bracket_anim_setup(Rect { x0: 10, y0: 10, x1: 190, y1: 64 }, (50, 40));
    assert_eq!(s, ((90, 27), (10, 2), (5, -1)));
    assert_eq!(floor_div8(-1), -1);
    assert_eq!(floor_div8(9), 1);
    assert_eq!(floor_half_i32(-3), -2);
    assert_eq!(clamp_i16(-4, 0, 9), 0);
    assert_eq!(troop_occupation_within_class(0x4d, 1), 0x0d);
}

#[test]
fn equipment_columns_fit_the_panel() {
    assert_eq!(equipment_column_layout(3, 30, 8), (3, 10));
    assert_eq!(equipment_column_layout(5, 30, 8), (5, 4));
    assert_eq!(equipment_column_layout(10, 20, 8), (10, 2));
    assert_eq!(equipment_column_layout(30, 20, 8), (10, 2));
    assert_eq!(equipment_column_layout(3, 1, 8), (1, 2));
}

#[test]
fn battle_reading_of_a_location() {
    let mut hark = troop(1, 2, 0x100);
    hark.bitfield_10 = 0x80;
    hark.population = 10;
    hark.next_troop_id = 2;
    let mut att = troop(2, 6, 0x100);
    att.population = 20;
    att.harvest_rate = 30;
    att.harvest_total = 60;
    let mut l = Location { troop_id: 1, status: 0x10, ..Default::default() };
    let mut s = state(vec![hark, att], vec![l]);
    assert!(s.location_has_battle(0));
    assert_eq!(s.location_class(0, 3), 1);
    // both sides average 192: even
    assert_eq!(s.location_battle_gauge(0), 0x80);
    // without the Harkonnen the defenders read 256 against 192
    l.troop_id = 2;
    s.locations[0] = l;
    assert_eq!(s.location_battle_gauge(0), 0x70);
    // an Atreides location has no battle unless flagged
    s.locations[0].status = 0x18;
    assert!(!s.location_has_battle(0));
    assert_eq!(s.location_class(0, 3), 2);
    s.locations[0].status = 0x1a;
    assert!(s.location_has_battle(0));
    s.locations[0] = Location { status: 0x10, ..Default::default() };
    assert_eq!(s.location_class(0, 3), 0);
    assert_eq!(s.location_class(0, 2), 1);
    assert_eq!(s.location_class(0, 7), 2);
    s.locations[0].status = 0;
    assert_eq!(s.location_class(0, 3), 2);
    assert_eq!(s.location_battle_gauge(0), 0x80);
}

#[test]
fn prospector_destination_picks() {
    let sietch = Location { appearance: 0x10, ..Default::default() };
    let fort = Location { appearance: 0x30, ..Default::default() };
    let held = Location { appearance: 0x30, status: 8, ..Default::default() };
    let locs = vec![sietch, fort, held];
    let mut p = ProspectorPicks { count: 0, queue: vec![0, 0, 0] };
    assert!(!p.move_troop_validate_pick(None, 0, &locs));
    assert!(p.move_troop_validate_pick(Some(0), 1, &locs));
    assert!(!p.move_troop_validate_pick(Some(2), 1, &locs));
    assert_eq!(p.count, 0);
    assert!(!p.move_troop_validate_pick(Some(2), 0, &locs));
    assert!(!p.move_troop_validate_pick(Some(2), 2, &locs));
    assert!(p.move_troop_validate_pick(Some(2), 0, &locs));
    assert_eq!((p.count, p.queue.clone()), (3, vec![0x100, 0x138, 0x100]));
    // a full queue starts over
    assert!(!p.move_troop_validate_pick(Some(2), 2, &locs));
    assert_eq!((p.count, p.queue.clone()), (1, vec![0x138, 0, 0]));
    p.give_new_destinations_for_prospectors();
    assert_eq!((p.count, p.queue.clone()), (0, vec![0, 0, 0]));
}

#[test]
fn troop_contact_menu_orders() {
    let held = Location { status: 8, appearance: 0x30, ..Default::default() };
    let locs = vec![held];
    let none = Equipment::default();
    let m = map_setup_troop_dialog_menu(&troop(1, 0, 0x100), 5, &locs, none);
    assert_eq!((m.occupation, m.modify_equipment, m.move_troop), (OccupationSlot::Change, false, true));
    let mut t = troop(1, 0, 0x100);
    t.equipment = 0x80;
    let m = map_setup_troop_dialog_menu(&t, 4, &locs, none);
    assert_eq!((m.occupation, m.modify_equipment, m.move_troop), (OccupationSlot::Change, true, false));
    let m = map_setup_troop_dialog_menu(&troop(1, 1, 0x100), 5, &locs, none);
    assert_eq!(m.occupation, OccupationSlot::Greyed);
    let m = map_setup_troop_dialog_menu(&troop(1, 2, 0x100), 9, &locs, none);
    assert_eq!((m.occupation, m.modify_equipment, m.move_troop), (OccupationSlot::Select, false, false));
    let mut sulking = troop(1, 0, 0x100);
    sulking.dissatisfaction_and_speech = 0x400;
    let m = map_setup_troop_dialog_menu(&sulking, 9, &locs, none);
    assert_eq!((m.occupation, m.modify_equipment, m.move_troop), (OccupationSlot::Greyed, false, false));
    let free = Equipment { atomics: 1, ..Default::default() };
    let far = vec![Location { appearance: 0x30, ..Default::default() }];
    let m = map_setup_troop_dialog_menu(&troop(1, 0, 0x100), 9, &far, free);
    assert!(!m.modify_equipment);
}

#[test]
fn spice_overlay_panel_geometry() {
    let (w, p) = spice_overlay_geometry(75, 15);
    assert_eq!(w, Rect { x0: 80, y0: 22, x1: 240, y1: 111 });
    assert_eq!(p, Rect { x0: 75, y0: 15, x1: 245, y1: 123 });
    assert_eq!(spice_overlay_here_box(75, 15, 160, 60), Some(Rect { x0: 120, y0: 40, x1: 199, y1: 79 }));
    assert_eq!(spice_overlay_here_box(75, 15, 10, 60), None);
    assert!(spice_overlay_uses_secondary_slot(0x18e9));
    assert!(!spice_overlay_uses_secondary_slot(0x4710));
    assert!(!spice_overlay_uses_secondary_slot(0));
}

#[test]
fn troop_info_panel_lines() {
    let r = Rect { x0: 10, y0: 10, x1: 116, y1: 110 };
    let mut s = state(vec![troop(1, 2, 0x100)], vec![Location::default()]);
    let lines = s.map_draw_troop_info_panel_content(0, r, &icons_for(0)).unwrap();
    assert_eq!(
        lines,
        vec![
            PanelLine { text: PanelText::SettledIn, x: 22, y: 14 },
            PanelLine { text: PanelText::LocationName, x: 14, y: 23 },
            PanelLine { text: PanelText::MenAndMotivation, x: 14, y: 33 },
            PanelLine { text: PanelText::Equipment, x: 14, y: 52 },
            PanelLine { text: PanelText::EquipmentRow, x: 14, y: 60 },
        ]
    );
    assert_eq!(s.string_subst_id_table[4], 0x26);
    let mut s = state(vec![troop(1, 0x22, 0x100)], vec![Location::default()]);
    let lines = s.map_draw_troop_info_panel_content(0, r, &icons_for(0)).unwrap();
    assert_eq!(lines[2], PanelLine { text: PanelText::FreedPrisoner, x: 14, y: 33 });
    assert_eq!(lines[3], PanelLine { text: PanelText::Equipment, x: 14, y: 54 });
    let mut s = state(vec![troop(1, 0x41, 0x100)], vec![Location::default()]);
    let lines = s.map_draw_troop_info_panel_content(0, r, &icons_for(0)).unwrap();
    assert_eq!(lines[0].text, PanelText::GoingTo);
    assert_eq!(lines[3], PanelLine { text: PanelText::SkillCaption(6), x: 14, y: 48 });
    assert_eq!(lines[4], PanelLine { text: PanelText::Equipment, x: 14, y: 62 });
    // without an icon the panel closes
    let mut s = state(vec![troop(1, 2, 0x100)], vec![Location::default()]);
    s.vars.map_info_popup_troop = Some(0);
    s.vars.map_popup_ptr = 0x18df;
    assert!(s.map_draw_troop_info_panel_content(0, r, &icons_for(5)).is_none());
    assert_eq!((s.vars.map_info_popup_troop, s.vars.map_popup_ptr), (None, 0));
    assert_eq!(s.events, vec![GameEvent::InfoPanelClosed]);
}

#[test]
fn occupation_order_and_its_refusal() {
    let mut s = state(vec![troop(1, 2, 0x100)], vec![Location::default()]);
    assert!(s.troop_occupation_verb_begin(0, 2).is_none());
    let saved = s.troop_occupation_verb_begin(0, 6).unwrap();
    assert_eq!(saved, (2, 0));
    assert_eq!(s.troops[0].occupation, 6);
    s.troop_occupation_verb_finish(0, saved, false);
    assert_eq!(s.troops[0].occupation, 2);
    let mut t = troop(1, 0, 0x100);
    t.equipment = 0x80;
    let mut s = state(vec![t], vec![Location::default()]);
    let saved = s.troop_occupation_verb_begin(0, 6).unwrap();
    s.troop_occupation_verb_finish(0, saved, true);
    assert_eq!(s.troops[0].equipment, 0);
}

#[test]
fn distances_and_arrival() {
    let mut t = troop(1, 0x40, 0x100);
    t.gps_coordinates_1 = 0x1800;
    t.gps_coordinates_2 = 0xfffd;
    let mut s = state(vec![t], vec![Location { map_x: 0x2000, map_y: 4, ..Default::default() }]);
    assert_eq!(s.troop_distance_from_player(0, 0x1000, 0), 8);
    assert_eq!(s.troop_distance_from_player(0, 0x1700, 10), 13);
    let mut m = TravelMap {
        mode: 1,
        view_rect: Rect { x0: 81, y0: 45, x1: 241, y1: 134 },
        zoomed_longitude: 0,
        zoomed_latitude: 0,
        row_len: vec![0x100; 197],
        lng_units_per_cell: vec![0x100; 197],
        markers: Vec::new(),
        travel_heading: 0,
        travel_step_accum: 0x80,
        travel_heading_mode: 0,
        travel_no_location_dest: 0,
        travel_destination_ptr: 0x0100,
        trail: vec![(0, 0x800)],
        trail_cursor: 0,
        vehicle_mode: 2,
        video_id: 2,
        active_video_id: 0,
        hostile_accum: 0,
        skip_verb_flags: 0,
        pending_room_action: 0,
        pending_room_screen_request: 0,
        travel_step_counter: 0,
    };
    assert_eq!(s.travel_finish_at_destination(&mut m, 1), (0x2000, 4));
    assert_eq!(s.locations[0].equipment.ornithopters, 1);
    assert_eq!(m.travel_destination_ptr, 0);
}

#[test]
fn move_prospectors_queues_destinations() {
    let sietch_a = Location { appearance: 0x10, ..Default::default() };
    let sietch_b = Location { appearance: 0x18, ..Default::default() };
    let locs = vec![Location::default(), sietch_a, sietch_b];
    let mut p = ProspectorPicks { count: 0, queue: vec![0, 0, 0] };
    // two destinations queued, still collecting
    assert!(!p.move_troop_validate_pick(Some(2), 1, &locs));
    assert!(!p.move_troop_validate_pick(Some(2), 2, &locs));
    assert_eq!(p.count, 2);
    // the queue head and the second stop
    assert_eq!((p.queue[0], p.queue[1]), (0x011c, 0x0138));
}
