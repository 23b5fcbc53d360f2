use dune::game::{GameEvent, GameState, RoomPerson};
use dune::troop_condit::{
    get_command_string_index_from_troop_skill, harvest_amount, ralliement_phrase, rounded_average,
    voice_bank_speech,
};
use dune::world::{location_index_from_ptr, location_ptr, Equipment, Location, Troop};

fn state(troops: Vec<Troop>, locations: Vec<Location>) -> GameState {
    GameState {
        troops,
        locations,
        room_persons: vec![RoomPerson::default(); 16],
        fremen2_troops: vec![None; 8],
        string_subst_id_table: vec![0; 11],
        prospector_destinations: vec![0; 4],
        lng_units_per_cell: vec![0x100; 197],
        rand_bits: Vec::new(),
        visible_location_markers: Vec::new(),
        troop_condit: Default::default(),
        location_condit: Default::default(),
        vars: Default::default(),
        events: Vec::new(),
    }
}

fn troop(id: u8, occupation: u8, offset_of_location: u16) -> Troop {
    Troop { troop_id: id, occupation, offset_of_location, motivation: 50, ..Default::default() }
}

fn place(map_x: i16, map_y: i16, status: u8) -> Location {
    Location { map_x, map_y, status, ..Default::default() }
}

#[test]
fn location_pointers() {
    assert_eq!(location_ptr(0), 0x0100);
    assert_eq!(location_ptr(1), 0x011c);
    assert_eq!(location_index_from_ptr(0x011c), 1);
    assert_eq!(location_index_from_ptr(0x0fbc), 134);
}

#[test]
fn condit_helpers() {
    assert_eq!(rounded_average(10, 4), 3);
    assert_eq!(rounded_average(9, 4), 2);
    assert_eq!(rounded_average(7, 0), 0);
    assert_eq!(get_command_string_index_from_troop_skill(0x35), 0xd4);
    assert_eq!(ralliement_phrase(0x10, 0), 0x74);
    assert_eq!(ralliement_phrase(0, 2), 0x70);
    assert_eq!(ralliement_phrase(0, 5), 0x71);
    assert_eq!(ralliement_phrase(0, 0x10), 0x72);
    assert_eq!(ralliement_phrase(0, 0x40), 0x73);
    assert_eq!(voice_bank_speech(4, 0x1234), 0x12b4);
    assert_eq!(voice_bank_speech(2, 0x1234), 0x1232);
    assert_eq!(harvest_amount(200, 100, true, 0x10), 10);
    assert_eq!(harvest_amount(200, 100, false, 0x10), 2);
}

#[test]
fn linking_and_unlinking_a_location_list() {
    let mut h = troop(3, 2, 0x100);
    h.bitfield_10 = 0x80;
    let mut s = state(vec![troop(1, 2, 0x100), troop(2, 2, 0x100), h], vec![place(0, 0, 0)]);
    s.troop_link_into_location(0, 0);
    assert_eq!((s.locations[0].troop_id, s.troops[0].position), (1, 1));
    s.troop_link_into_location(1, 0);
    assert_eq!((s.troops[1].position, s.troops[0].next_troop_id), (2, 2));
    s.troop_link_into_location(2, 0);
    assert_eq!((s.troops[2].position, s.troops[1].next_troop_id), (9, 3));
    s.troop_unlink_from_location_chain(1);
    assert_eq!((s.troops[0].next_troop_id, s.troops[1].next_troop_id), (3, 0));
    s.troop_unlink_from_location_chain(0);
    assert_eq!(s.locations[0].troop_id, 3);
    // a moving troop is in no list
    s.troops[2].occupation = 0x42;
    s.troop_unlink_from_location_chain(2);
    assert_eq!(s.locations[0].troop_id, 3);
}

#[test]
fn equipment_follows_the_troop() {
    let mut t = troop(1, 2, 0x100);
    t.equipment = 0xc0;
    let mut l = place(0, 0, 0);
    l.equipment = Equipment { harvesters: 2, ornithopters: 5, ..Default::default() };
    let mut s = state(vec![t], vec![l]);
    s.troop_register_equipment_into_location(0, 0);
    assert_eq!((s.locations[0].equipment.harvesters, s.locations[0].equipment.ornithopters), (3, 6));
    s.troop_unregister_equipment_from_location(0, 0);
    assert_eq!((s.locations[0].equipment.harvesters, s.locations[0].equipment.ornithopters), (2, 5));
    // counting in wraps at 255, taking out stops at 0
    s.locations[0].equipment.ornithopters = 255;
    s.troop_register_equipment_into_location(0, 0);
    assert_eq!(s.locations[0].equipment.ornithopters, 0);
    s.troop_unregister_equipment_from_location(0, 0);
    assert_eq!(s.locations[0].equipment.ornithopters, 0);
}

#[test]
fn rallying_a_fremen_troop() {
    let mut s = state(vec![troop(1, 0x80, 0x100)], vec![place(0, 0, 0)]);
    s.vars.number_of_rallied_troops = 4;
    s.vars.number_of_rallied_troops_for_leto_killed = 5;
    s.vars.game_time = 100;
    s.vars.ingame_day = 0x123;
    s.troop_rally_troop(0);
    assert_eq!(s.vars.number_of_rallied_troops, 5);
    assert_eq!(s.events, vec![GameEvent::SetGamePhase(0x4c), GameEvent::IncreaseCharisma(1)]);
    assert_eq!(s.troops[0].occupation, 2);
    assert_eq!(s.troops[0].time_period_of_ralliement, 100);
    assert_eq!(s.troops[0].game_day_of_ralliement, 0x23);
    assert_eq!(s.locations[0].discoverable_at_phase, 2);
    // a Harkonnen troop is never rallied
    let mut h = troop(1, 0x80, 0x100);
    h.bitfield_10 = 0x80;
    let mut s = state(vec![h], vec![place(0, 0, 0)]);
    s.troop_rally_troop(0);
    assert!(s.events.is_empty());
    assert_eq!(s.troops[0].occupation, 0x80);
}

#[test]
fn motivation_floor() {
    let mut t = troop(1, 2, 0x100);
    t.motivation = 10;
    let mut s = state(vec![t], vec![place(0, 0, 0)]);
    s.troop_decrease_motivation(0, 3);
    assert_eq!(s.troops[0].motivation, 7);
    s.troop_decrease_motivation(0, 5);
    assert_eq!(s.troops[0].motivation, 4);
    assert_eq!(s.troops[0].occupation & 0x10, 0x10);
    assert_eq!(s.troops[0].dissatisfaction_and_speech & 0x20, 0x20);
}

#[test]
fn prospector_queue_sync() {
    let mut s = state(
        vec![troop(1, 2, 0x100), troop(2, 2, 0x100), troop(3, 2, 0x11c)],
        vec![place(0, 0, 0), place(0, 0, 0), place(0, 0, 0)],
    );
    s.prospector_destinations = vec![0x11c, 0x11c, 0x138, 0];
    assert_eq!(s.prospector_sync_destination_queue(), Some(0x138));
    assert_eq!(s.prospector_destinations, vec![0x138, 0, 0, 0]);
    s.prospector_destinations = vec![0, 0x138, 0, 0];
    assert_eq!(s.prospector_sync_destination_queue(), None);
    s.shift_prospector_destinations();
    assert_eq!(s.prospector_destinations, vec![0x138, 0, 0, 0]);
}

#[test]
fn troop_moves_across_the_map_and_settles() {
    let mut t = troop(1, 0x42, 0x100);
    t.equipment = 0x40;
    t.gps_coordinates_1 = 0x1000;
    t.gps_coordinates_2 = 40;
    let mut s = state(vec![t], vec![place(0x1000, 0, 8)]);
    s.troop_travel_step(0);
    // 8 latitude rows per period with an ornithopter
    assert_eq!(s.troops[0].gps_coordinates_2, 32);
    assert_eq!(s.troops[0].occupation & 0x40, 0x40);
    assert_eq!(s.events.last(), Some(&GameEvent::TroopIconFollow(0)));
    for _ in 0..4 {
        s.troop_travel_step(0);
    }
    // settled, moving bit gone
    assert_eq!(s.troops[0].occupation & 0x40, 0);
    // the gps snapped onto the location
    assert_eq!((s.troops[0].gps_coordinates_1, s.troops[0].gps_coordinates_2), (0x1000, 0));
    // chained in as the head, in the first free slot
    assert_eq!(s.locations[0].troop_id, 1);
    assert_eq!(s.troops[0].position, 1);
    // the ornithopter folded into the location
    assert_eq!(s.locations[0].equipment.ornithopters, 1);
}

#[test]
fn move_order_sends_a_stationed_troop_off() {
    let mut t = troop(1, 2, 0x100);
    t.equipment = 0x40;
    t.position = 1;
    t.gps_coordinates_1 = 0x1000;
    let mut l0 = place(0x1000, 0, 8);
    l0.troop_id = 1;
    l0.equipment.ornithopters = 1;
    let mut s = state(vec![t], vec![l0, place(0x2000, 0, 8)]);
    s.troop_issue_move_order(0, 1);
    assert_eq!(s.troops[0].occupation, 0x42);
    assert_eq!(s.troops[0].offset_of_location, 0x11c);
    assert_eq!(s.troops[0].position, 0);
    assert_eq!(s.locations[0].troop_id, 0);
    assert_eq!(s.locations[0].equipment.ornithopters, 0);
    // the 7-sub-step head start, a cell of longitude each
    assert_eq!(s.troops[0].gps_coordinates_1, 0x1700);
    assert_eq!(s.events, vec![GameEvent::RefreshTroopIcon(0), GameEvent::TroopIconFollow(0)]);
    // a moving troop only retargets
    s.troop_issue_move_order(0, 0);
    assert_eq!(s.troops[0].offset_of_location, 0x100);
    assert_eq!(s.troops[0].gps_coordinates_1, 0x1700);
}

#[test]
fn fetch_mission_turns_around_for_home() {
    let mut t = troop(1, 0x43, 0x100);
    t.harvest_rate = 0x11c;
    t.harvest_total = 0x4001;
    let mut l0 = place(0x1000, 0, 0);
    l0.equipment.ornithopters = 2;
    let mut s = state(vec![t], vec![l0, place(0x2000, 0, 8)]);
    s.vars.available_equipment.ornithopters = 1;
    s.troop_arrive_at_destination(0);
    assert_eq!(s.locations[0].equipment.ornithopters, 1);
    assert_eq!(s.troops[0].equipment, 0x40);
    assert_eq!(s.troops[0].harvest_total, 1);
    assert_eq!(s.troops[0].offset_of_location, 0x11c);
    assert_eq!(s.troops[0].occupation, 0x43);
    assert_eq!((s.troops[0].gps_coordinates_1, s.troops[0].gps_coordinates_2), (0x1000, 0));
}

#[test]
fn selected_troop_waits_and_the_walk_moves_the_others() {
    let mut t = troop(1, 0x42, 0x100);
    t.gps_coordinates_1 = 0x1000;
    t.gps_coordinates_2 = 40;
    let mut s = state(vec![t, Troop::default()], vec![place(0x1000, 0, 8)]);
    s.vars.map_selected_troop_id = 1;
    s.troop_travel_step_unless_selected(0);
    assert_eq!(s.troops[0].gps_coordinates_2, 40);
    s.vars.map_selected_troop_id = 0;
    s.run_troop_occupation_events();
    assert_eq!(s.troops[0].gps_coordinates_2, 36);
}

#[test]
fn removing_a_troop_from_play() {
    let mut l0 = place(0, 0, 0);
    l0.troop_id = 1;
    let mut t = troop(1, 2, 0x100);
    t.population = 30;
    let mut s = state(vec![t], vec![l0]);
    s.troop_remove_from_play(0);
    assert_eq!(s.locations[0].troop_id, 0);
    assert_eq!((s.troops[0].offset_of_location, s.troops[0].occupation, s.troops[0].population), (0x0fbc, 0xa0, 0));
    assert_eq!(s.events, vec![GameEvent::RemoveTroopIcon(0)]);
}

#[test]
fn spice_mining_accumulates_stock_and_depletes_the_field() {
    let mut t = troop(1, 0, 0x100);
    t.equipment = 0x80;
    t.population = 100;
    t.spice_skill = 0x40;
    let mut l = place(0x1000, 0, 0x40);
    l.spice_density = 0x80;
    l.spice_amount = 4;
    let mut s = state(vec![t], vec![l]);
    s.troop_occupation_event_spice_mining(0);
    let rate = s.troops[0].harvest_rate;
    // the troop mined something, and the total is this period's
    assert!(rate > 0);
    assert_eq!(s.troops[0].harvest_total, rate);
    // the troop is working, and not marked stopped
    assert_eq!(s.troops[0].bitfield_10 & 0x100, 0x100);
    assert_eq!(s.troops[0].occupation & 0x10, 0);
    // a tenth into the stock, the rest carried
    assert_eq!(s.vars.spice_in_stock, rate / 10);
    assert_eq!(s.vars.spice_harvest_remainder, rate % 10);
    // the field is depleted at spice_amount per density point, with the carry
    assert_eq!(s.locations[0].spice_density, 0x80u8.saturating_sub((rate / 4).min(0xff) as u8));
    assert_eq!(s.locations[0].field_13 as u16, rate % 4);
    // a second period adds to both
    let stock_after_one = s.vars.spice_in_stock;
    s.troop_occupation_event_spice_mining(0);
    assert!(s.troops[0].harvest_total > rate);
    assert!(s.vars.spice_in_stock >= stock_after_one);
    // an exhausted field stops the troop and clears both accumulators
    s.locations[0].status |= 1;
    s.troop_occupation_event_spice_mining(0);
    assert_eq!(s.troops[0].occupation & 0x10, 0x10);
    assert_eq!((s.troops[0].harvest_rate, s.troops[0].harvest_total), (0, 0));
}

#[test]
fn arrival_alerts_the_residents() {
    let mut prospector = troop(1, 1, 0x100);
    prospector.next_troop_id = 2;
    prospector.position = 1;
    let mut miner = troop(2, 0, 0x100);
    miner.position = 2;
    let mut newcomer = troop(3, 0x42, 0x100);
    newcomer.gps_coordinates_1 = 0x0ff0;
    let mut l0 = place(0x1000, 0, 8);
    l0.troop_id = 1;
    let mut s = state(vec![prospector, miner, newcomer], vec![l0]);
    s.troop_arrive_at_destination(2);
    // the newcomer settled at the tail of the list, not at its head
    assert_eq!(s.locations[0].troop_id, 1);
    assert_eq!(s.troops[1].next_troop_id, 3);
    assert_eq!((s.troops[2].gps_coordinates_1, s.troops[2].offset_of_location), (0x1000, 0x100));
    // the prospector stops working, everyone else defends
    assert_eq!(s.troops[0].occupation, 0x11);
    assert_eq!(s.troops[1].occupation, 6);
    assert_eq!(s.troops[2].occupation, 6);
}

#[test]
fn ornithopter_walks_eight_rows_a_period() {
    let mut t = troop(1, 0x42, 0x100);
    t.equipment = 0x40;
    t.gps_coordinates_1 = 0x1000;
    t.gps_coordinates_2 = 40;
    let mut s = state(vec![t], vec![place(0x1000, 0, 8)]);
    s.troop_travel_step(0);
    assert_eq!((s.troops[0].gps_coordinates_1, s.troops[0].gps_coordinates_2), (0x1000, 32));
    assert_eq!(s.troops[0].occupation & 0x40, 0x40);
    assert_eq!(s.events, vec![GameEvent::TroopIconFollow(0)]);
}

#[test]
fn defenders_bound_for_a_sietch() {
    // a sietch at battle keeps its defender where it is, out of its list
    let mut l0 = place(0x1000, 0, 8);
    l0.troop_id = 1;
    let mut sietch = place(0x2000, 0, 2);
    sietch.appearance = 0x10;
    let mut s = state(vec![troop(1, 6, 0x100)], vec![l0, sietch]);
    s.troop_issue_move_order(0, 1);
    assert_eq!((s.troops[0].offset_of_location, s.troops[0].occupation), (0x100, 6));
    assert_eq!(s.locations[0].troop_id, 0);
    assert!(s.events.is_empty());
    // a sietch at peace costs it 3 motivation, then it leaves
    let mut l0 = place(0x1000, 0, 8);
    l0.troop_id = 1;
    let mut sietch = place(0x2000, 0, 0);
    sietch.appearance = 0x10;
    let mut t = troop(1, 6, 0x100);
    t.bitfield_10 = 0x10;
    let mut s = state(vec![t], vec![l0, sietch]);
    s.troop_issue_move_order(0, 1);
    assert_eq!(s.troops[0].motivation, 47);
    assert_eq!((s.troops[0].offset_of_location, s.troops[0].occupation), (0x11c, 0x46));
    assert_eq!(s.events, vec![GameEvent::RefreshTroopIcon(0)]);
}

#[test]
fn a_departure_restarts_the_reassigned_troops_left_behind() {
    let mut l0 = place(0x1000, 0, 8);
    l0.troop_id = 1;
    let mut leaver = troop(1, 2, 0x100);
    leaver.next_troop_id = 2;
    leaver.bitfield_10 = 0x10;
    let mut stayer = troop(2, 6, 0x100);
    stayer.dissatisfaction_and_speech = 0x10;
    let mut s = state(vec![leaver, stayer], vec![l0, place(0x2000, 0, 8)]);
    s.troop_issue_move_order(0, 1);
    assert_eq!(s.troops[1].dissatisfaction_and_speech & 0x10, 0);
    assert_eq!(s.locations[0].troop_id, 2);
    assert_eq!(s.troops[0].occupation, 0x42);
}

#[test]
fn espionage_arrival_reveals_a_hidden_location() {
    let mut t = troop(1, 0x45, 0x100);
    t.gps_coordinates_1 = 0x1000;
    let mut s = state(vec![t], vec![place(0x1000, 0, 0x88)]);
    s.vars.game_screen_mode_flags = 1;
    s.troop_arrive_at_destination(0);
    assert_eq!(s.locations[0].status, 0x08);
    assert_eq!(s.vars.travel_minimap_state & 1, 1);
    assert_eq!(s.troops[0].occupation & 0x40, 0);
}

#[test]
fn unlinking_a_troop_off_its_list_leaves_the_list() {
    let mut s = state(vec![troop(1, 2, 0x100), troop(2, 2, 0x100), troop(3, 2, 0x100)], vec![place(0, 0, 0)]);
    s.troop_link_into_location(0, 0);
    s.troop_link_into_location(2, 0);
    assert_eq!((s.locations[0].troop_id, s.troops[0].next_troop_id, s.troops[2].next_troop_id), (1, 3, 0));
    // troop 2 was never linked; its stale link is cleared and the list stays
    s.troops[1].next_troop_id = 3;
    s.troop_unlink_from_location_chain(1);
    assert_eq!(s.troops[1].next_troop_id, 0);
    assert_eq!((s.locations[0].troop_id, s.troops[0].next_troop_id, s.troops[2].next_troop_id), (1, 3, 0));
}
