use dune::compass::{
    compass_angle_from_delta, compass_angle_to_map_position, half_i16, signed8,
    travel_heading_deltas,
};
use dune::map_travel::{
    iterate_over_locations_and_coordinates, map_hover_narration_clip, probe_terrain, step_position,
    travel_minimap_marker, travel_pick_speaking_companion, travel_step_due, MapLocationMarker,
    MapScroll, MinimapMarker, PumpAction, PumpNext, Rect, SkipNext, TravelMap,
    travel_step_counter_tick,
};
use dune::world::Location;

fn map() -> TravelMap {
    TravelMap {
        mode: 1,
        view_rect: Rect { x0: 81, y0: 45, x1: 241, y1: 134 },
        zoomed_longitude: 0x8000,
        zoomed_latitude: 0,
        row_len: vec![0x100; 197],
        lng_units_per_cell: vec![0x100; 197],
        markers: Vec::new(),
        travel_heading: 0,
        travel_step_accum: 0x80,
        travel_heading_mode: 0,
        travel_no_location_dest: 0,
        travel_destination_ptr: 0x0100,
        trail: vec![(0, 0x800); 4],
        trail_cursor: 0,
        vehicle_mode: 2,
        video_id: 2,
        active_video_id: 0,
        hostile_accum: 0,
        skip_verb_flags: 0,
        pending_room_action: 0,
        pending_room_screen_request: 0,
        travel_step_counter: 0,
    }
}

fn loc(map_x: i16, map_y: i16, status: u8) -> Location {
    Location { map_x, map_y, status, ..Default::default() }
}

#[test]
fn compass_points_of_the_compass() {
    assert_eq!(compass_angle_from_delta(0, -5), 0x00);
    assert_eq!(compass_angle_from_delta(5, 0), 0x40);
    assert_eq!(compass_angle_from_delta(0, 5), 0x80);
    assert_eq!(compass_angle_from_delta(-5, 0), 0xc0);
    assert_eq!(compass_angle_from_delta(0, 0), 0);
    // north-east diagonal and an interpolated octant
    assert_eq!(compass_angle_from_delta(7, -7), 0x20);
    assert_eq!(compass_angle_from_delta(10, -20), 0x10);
}

#[test]
fn heading_deltas_of_the_quadrants() {
    assert_eq!(travel_heading_deltas(0x00), (0, -32));
    assert_eq!(travel_heading_deltas(0x40), (32, 0));
    assert_eq!(travel_heading_deltas(0x80), (0, 32));
    assert_eq!(travel_heading_deltas(0xc0), (-32, 0));
    assert_eq!(travel_heading_deltas(0x10), (16, -32));
    assert_eq!(travel_heading_deltas(0x50), (32, 16));
}

#[test]
fn heading_deltas_walk_back_to_the_heading() {
    for h in 0..=255u8 {
        let (dx, dy) = travel_heading_deltas(h);
        assert_eq!(compass_angle_from_delta(dx, dy), h, "heading {h:#04x}");
    }
}

#[test]
fn small_arithmetic_helpers() {
    assert_eq!(signed8(0xff), -1);
    assert_eq!(signed8(0x7f), 127);
    assert_eq!(half_i16(-3), -2);
    assert_eq!(half_i16(7), 3);
}

#[test]
fn compass_to_a_map_position() {
    // due east on the longitude scale
    assert_eq!(compass_angle_to_map_position(0x1100, 0, 0x1000, 0), 0x40);
    // a row south of the player
    assert_eq!(compass_angle_to_map_position(0x1000, 1, 0x1000, 0), 0x80);
    // a large latitude gap is halved with the longitude
    assert_eq!(compass_angle_to_map_position(0x1000, -0x90, 0x1000, 0x10), 0x00);
}

#[test]
fn projection_and_its_inverse() {
    let m = map();
    assert_eq!(m.map_position_to_screen(0x9000, 10), (177, 99));
    assert_eq!(m.map_position_to_screen(0x7000, -10), (145, 79));
    assert_eq!(m.map_screen_to_position(177, 99), (0x9000, 10));
    assert_eq!(m.map_position_to_screen_if_visible(0x9000, 10), Some((177, 99)));
    assert_eq!(m.map_position_to_screen_if_visible(0x9000, 60), None);
    // a view longitude inside its cell: the column comes back within two
    let mut m = map();
    m.row_len = vec![0x0e0; 197];
    m.zoomed_longitude = 0x8123;
    for x in [100i16, 150, 161, 200] {
        let (lng, lat) = m.map_screen_to_position(x, 99);
        let (bx, by) = m.map_position_to_screen(lng, lat);
        assert!(x - 2 <= bx && bx <= x, "column {} came back at {}", x, bx);
        assert_eq!(by, 99);
    }
}

#[test]
fn full_globe_scales_by_four() {
    let mut m = map();
    m.mode = 0x80;
    assert_eq!(m.map_position_to_screen(0x9000, 10), (0xa0 + 64, 0x4c + 40));
    assert_eq!(m.map_screen_to_position(10, 10), (0x8000, 0));
}

#[test]
fn location_visible_only_with_a_map_view() {
    let mut m = map();
    let locs = vec![loc(-0x7000, 10, 0)];
    assert_eq!(m.location_visible_on_map(0, &locs), Some((177, 99)));
    m.mode = 0;
    assert_eq!(m.location_visible_on_map(0, &locs), None);
}

#[test]
fn nearest_marker_by_manhattan_distance() {
    let mut m = map();
    let mut a = loc(0, 0, 0);
    a.appearance = 0x10;
    let mut b = loc(0, 0, 0);
    b.appearance = 0x50;
    let locs = vec![a, a, b];
    m.markers = vec![
        MapLocationMarker { location_index: 0, x: 100, y: 100, mode: 1 },
        MapLocationMarker { location_index: 1, x: 96, y: 100, mode: 1 },
        MapLocationMarker { location_index: 2, x: 100, y: 101, mode: 1 },
    ];
    // location 2 is too grand; location 1 is 6 away, location 0 is 2 away
    assert_eq!(m.find_nearest_location_marker(0x40, 100, 98, &locs), (0x0100, 2));
    assert_eq!(m.find_nearest_location_marker(0x40, 96, 101, &locs), (0x011c, 1));
    // ties go to the first
    assert_eq!(m.find_nearest_location_marker(0x40, 98, 100, &locs), (0x0100, 2));
    // nothing under the cap
    assert_eq!(m.find_nearest_location_marker(0x10, 97, 100, &locs), (0, 0xffff));
}

#[test]
fn hover_narration_clips() {
    let mut l = loc(0, 0, 0);
    l.first_name = 3;
    l.last_name = 5;
    let locs = vec![loc(0, 0, 0), l];
    assert_eq!(map_hover_narration_clip(0x011c, &locs), 0x2bc + 0x25);
    assert_eq!(map_hover_narration_clip(0xffff, &locs), 0x2bb);
    assert_eq!(map_hover_narration_clip(0xfff3, &locs), 0x2af);
}

#[test]
fn nearest_location_skips_hidden() {
    let locs = vec![loc(0x100, 5, 0x80), loc(0x300, 0, 0), loc(0x2000, 0, 0)];
    assert_eq!(iterate_over_locations_and_coordinates(0x100, 5, &locs), 1);
}

#[test]
fn distance_from_player_in_cells() {
    let m = map();
    let locs = vec![loc(0x0800, 3, 0)];
    assert_eq!(m.location_distance_from_player(0, 0x0100, 0, &locs), 7);
    assert_eq!(m.location_distance_from_player(0, 0x0700, -20, &locs), 23);
}

#[test]
fn flight_step_east_and_the_pole_flip() {
    // heading east, one cell of longitude, no latitude
    assert_eq!(step_position(0x1000, 0, 0x40, 0x100, 0x80), (0x1100, 0, 0x40, 0x80));
    // heading south near the pole: one row, accumulator spilling
    let (x, lat, h, acc) = step_position(0x1000, 96, 0x80, 0x100, 0x80);
    assert_eq!((x, lat, h, acc), (0x9000, 97, 0x00, 0x80));
}

#[test]
fn travel_step_and_heading_state() {
    let mut m = map();
    m.travel_heading_mode = 1;
    m.travel_heading = 0x40;
    let locs = vec![loc(0, 0, 0)];
    assert_eq!(m.travel_step_position(0x1000, 0, &locs), (0x1100, 0));
    assert_eq!(m.travel_step_accum, 0x80);
    m.adjust_travel_heading(0x10);
    assert_eq!(m.travel_heading, 0x50);
    m.travel_commit_destination(0x011c, 0, 0x22);
    assert_eq!((m.travel_destination_ptr, m.travel_heading_mode, m.travel_heading), (0x011c, 0, 0x22));
}

#[test]
fn polar_guard_bends_a_poleward_heading() {
    let mut m = map();
    m.travel_heading_mode = 1;
    m.travel_heading = 0x10;
    let locs = vec![loc(0, 0, 0)];
    m.travel_update_heading(0, -0x50, &locs);
    assert_eq!(m.travel_heading, 0x40);
    m.travel_heading = 0x90;
    m.travel_update_heading(0, -0x50, &locs);
    assert_eq!(m.travel_heading, 0x90);
}

#[test]
fn homing_reaims_at_the_destination() {
    let mut m = map();
    let locs = vec![loc(0x2000, 0, 0)];
    m.travel_update_heading(0x1000, 0, &locs);
    assert_eq!(m.travel_heading, 0x40);
}

#[test]
fn trail_ring_and_last_dot() {
    let mut m = map();
    assert_eq!(m.travel_trail_stamp_last(0), None);
    m.travel_trail_append(0x9000, 10);
    assert_eq!(m.trail_cursor, 1);
    assert_eq!(m.trail[0], (0x9000, 10));
    assert_eq!(m.travel_trail_stamp_last(0), Some((176, 98)));
    assert_eq!(m.travel_trail_stamp_last(-1), None);
    for _ in 0..3 {
        m.travel_trail_append(0x8000, -1);
    }
    assert_eq!(m.trail_cursor, 0);
    assert_eq!(m.trail[3], (0x8000, 0xffff));
}

#[test]
fn flight_clip_choice() {
    let mut m = map();
    m.video_id = 2;
    m.travel_select_flight_video(0x08);
    assert_eq!(m.active_video_id, 3);
    m.video_id = 3;
    m.travel_select_flight_video(0x09);
    assert_eq!(m.active_video_id, 4);
    m.video_id = 4;
    m.travel_select_flight_video(0x01);
    assert_eq!(m.active_video_id, 5);
    m.vehicle_mode = 6;
    m.video_id = 6;
    m.travel_select_flight_video(0x01);
    assert_eq!((m.active_video_id, m.vehicle_mode), (2, 2));
    m.vehicle_mode = 1;
    m.travel_select_flight_video(0x0f);
    assert_eq!(m.active_video_id, 1);
}

#[test]
fn speaking_companion_pick() {
    assert_eq!(travel_pick_speaking_companion(-1, -1, 0), None);
    assert_eq!(travel_pick_speaking_companion(4, -1, 0), Some(4));
    assert_eq!(travel_pick_speaking_companion(4, 9, 0x80), Some(4));
    assert_eq!(travel_pick_speaking_companion(4, 9, 0x7f), Some(9));
}

#[test]
fn map_arrows_scroll_the_view() {
    let mut m = map();
    assert_eq!(m.ui_click_map_up(false), MapScroll::Ignored);
    assert_eq!(m.ui_click_map_up(true), MapScroll::Scrolled(false));
    assert_eq!(m.zoomed_latitude, -12);
    assert_eq!(m.ui_click_map_right(true), MapScroll::Scrolled(false));
    assert_eq!(m.zoomed_longitude, 0x9002);
    m.ui_click_map_left(true);
    m.ui_click_map_down(true);
    assert_eq!((m.zoomed_longitude, m.zoomed_latitude), (0x8000, 0));
    // the redraw clamps the latitude: the window keeps every row on the map
    m.zoomed_latitude = 40;
    m.ui_click_map_down(true);
    assert_eq!(m.zoomed_latitude, 0x56 - 44);
    m.mode = 0x80;
    assert_eq!(m.ui_click_map_down(true), MapScroll::Scrolled(true));
    m.zoomed_latitude = 0x48;
    m.ui_click_map_down(true);
    assert_eq!(m.zoomed_latitude, 0x4b);
    m.mode = 0xc0;
    assert_eq!(m.ui_click_map_down(true), MapScroll::Ignored);
}

#[test]
fn hostile_zone_warning_countdown() {
    let mut m = map();
    m.travel_no_location_dest = 0xff;
    let locs = vec![loc(0, 0, 0)];
    m.travel_route_hostile_zone_check(1, 0x30, &locs);
    assert_eq!((m.pending_room_action, m.skip_verb_flags, m.hostile_accum), (4, 0x40, 0xe0));
    m.pending_room_action = 0;
    m.hostile_accum = 0x20;
    m.travel_route_hostile_zone_check(1, 0x30, &locs);
    assert_eq!((m.pending_room_action, m.hostile_accum, m.pending_room_screen_request), (0, 0, 2));
    m.travel_route_hostile_zone_check(1, 0x10, &locs);
    assert_eq!((m.skip_verb_flags, m.hostile_accum), (0, 0));
    // an Atreides destination is safe
    m.travel_no_location_dest = 0;
    m.skip_verb_flags = 0x40;
    let locs = vec![loc(0, 0, 8)];
    m.travel_route_hostile_zone_check(1, 0x30, &locs);
    assert_eq!(m.skip_verb_flags, 0);
    // only an ornithopter flight checks
    m.skip_verb_flags = 0x40;
    m.travel_route_hostile_zone_check(2, 0x30, &locs);
    assert_eq!(m.skip_verb_flags, 0x40);
}

#[test]
fn pump_cadence_and_minimap_marker() {
    assert!(travel_step_due(0x0300, 0));
    assert!(!travel_step_due(0x02ff, 0));
    assert!(travel_step_due(0x0100, 0xfe00));
    assert_eq!(travel_minimap_marker(0xd0, 0x20, false), MinimapMarker::ScheduleRecenter);
    assert_eq!(travel_minimap_marker(0xe0, 0x20, false), MinimapMarker::Draw);
    assert_eq!(travel_minimap_marker(0xe0, 0x20, true), MinimapMarker::Skip);
}

#[test]
fn arming_a_flight() {
    let mut m = map();
    let locs = vec![loc(0x2000, 0, 0), loc(0x1000, -5, 0)];
    m.arm_pending_travel(0x011c, 0, 0, 0x1000, 0, 0, &locs);
    assert_eq!(
        (m.travel_no_location_dest, m.travel_destination_ptr, m.travel_heading_mode, m.travel_heading),
        (0, 0x011c, 0, 0x00)
    );
    m.arm_pending_travel(0xffff, 177, 99, 0x9000, 0, 1, &locs);
    assert_eq!(
        (m.travel_no_location_dest, m.travel_destination_ptr, m.travel_heading_mode, m.travel_heading),
        (0xff, 0x011c, 1, 0x80)
    );
}

#[test]
fn companions_spot_a_nearby_landmark() {
    let mut m = map();
    m.travel_heading = 0x40;
    let mut l = loc(0x1400, 0, 0x80);
    l.discoverable_at_phase = 3;
    let locs = vec![loc(0, 0, 0), l];
    let cells = vec![(0x00, None), (0x40, Some(0)), (0x40, Some(1))];
    assert!(m.travel_scan_nearby_location(1, 0, &cells, &locs, 5, 0x1000, 0).is_none());
    assert!(m.travel_scan_nearby_location(1, 1, &cells, &locs, 2, 0x1000, 0).is_none());
    let spot = m.travel_scan_nearby_location(1, 1, &cells, &locs, 5, 0x1000, 0).unwrap();
    assert_eq!((spot.location_index, spot.side, spot.caption), (1, 1, 0xd0));
    assert_eq!((m.travel_destination_ptr, m.travel_heading), (0x011c, 0x40));
}

#[test]
fn terrain_probe_looks_six_and_seven_steps_ahead() {
    let mut m = map();
    m.travel_heading_mode = 1;
    m.travel_heading = 0x40;
    let locs = vec![loc(0, 0, 0)];
    assert_eq!(m.travel_probe_points(0x1000, 0, &locs), Some(((0x1600, 0), (0x1700, 0))));
    // the step fraction is put back, the heading kept
    assert_eq!((m.travel_step_accum, m.travel_heading), (0x80, 0x40));
    // a start off the latitude table probes nothing and changes nothing
    m.travel_heading = 0x80;
    assert_eq!(m.travel_probe_points(0x1000, 99, &locs), None);
    assert_eq!((m.travel_step_accum, m.travel_heading), (0x80, 0x80));
    // the two bytes average in a byte
    assert_eq!(probe_terrain(0x18, 0x08), 0x10);
    assert_eq!(probe_terrain(0xf0, 0x20), 0x08);
}

#[test]
fn travel_pump_steps_every_0x300_ticks_and_arrives_on_the_cell() {
    let mut m = map();
    m.travel_heading_mode = 1;
    m.travel_heading = 0x40;
    let mut dest = loc(0x2000, 0, 0);
    dest.map_offset = 0x1234;
    let locs = vec![dest];
    let mut stamp: u16 = 0x1000;
    // not due yet, or no travel, or a room swap pending: nothing happens
    assert_eq!(m.travel_pump_step(1, false, 0x12ff, &mut stamp, 0x1000, 0, -1, &locs), PumpAction::Idle);
    assert_eq!(m.travel_pump_step(0, false, 0x2000, &mut stamp, 0x1000, 0, -1, &locs), PumpAction::Idle);
    assert_eq!(m.travel_pump_step(1, true, 0x2000, &mut stamp, 0x1000, 0, -1, &locs), PumpAction::Idle);
    assert_eq!(stamp, 0x1000);
    // due: restamped, one step east, appended to the trail
    let a = m.travel_pump_step(1, false, 0x1300, &mut stamp, 0x1000, 0, -1, &locs);
    assert_eq!(a, PumpAction::Stepped { x: 0x1100, lat: 0, run_events: false, dot: None });
    assert_eq!(stamp, 0x1300);
    assert_eq!((m.trail[0], m.trail_cursor), ((0x1100, 0), 1));
    // arrival on the destination's map cell, else the minimap upkeep
    assert_eq!(m.travel_pump_after_step(0x1234, &locs, false, 0), PumpNext::Arrive);
    assert_eq!(m.travel_pump_after_step(0x1200, &locs, true, 0), PumpNext::Paused);
    assert_eq!(
        m.travel_pump_after_step(0x1200, &locs, false, 1),
        PumpNext::Continue { recenter: true, minimap_state: 0 }
    );
    assert_eq!(
        m.travel_pump_after_step(0x1200, &locs, false, -1),
        PumpNext::Continue { recenter: false, minimap_state: -1 }
    );
}

#[test]
fn every_sixteenth_flight_step_runs_a_time_period() {
    assert_eq!(travel_step_counter_tick(0), (1, false));
    assert_eq!(travel_step_counter_tick(15), (16, true));
    assert_eq!(travel_step_counter_tick(16), (17, false));
    assert_eq!(travel_step_counter_tick(0xffff), (0, true));
    // sixteen pump steps from a fresh departure: only the last runs events
    let mut m = map();
    m.travel_heading_mode = 1;
    m.travel_heading = 0x40;
    let locs = vec![loc(0x2000, 0, 0)];
    let mut stamp: u16 = 0;
    let mut x: u16 = 0x1000;
    let mut runs = Vec::new();
    for k in 1..=16u16 {
        let now = k.wrapping_mul(0x300);
        match m.travel_pump_step(1, false, now, &mut stamp, x, 0, -1, &locs) {
            PumpAction::Stepped { x: nx, run_events, .. } => {
                x = nx;
                runs.push(run_events);
            }
            PumpAction::Idle => panic!("a due step did not run"),
        }
    }
    assert_eq!(m.travel_step_counter, 16);
    assert_eq!(runs.iter().filter(|r| **r).count(), 1);
    assert!(runs[15]);
}

#[test]
fn skip_to_destination_finishes_halts_or_steps_on() {
    let mut m = map();
    m.travel_heading_mode = 1;
    m.travel_skip_to_destination_begin();
    assert_eq!(m.travel_heading_mode, 0);
    let mut dest = loc(0x2000, 0, 0);
    dest.map_offset = 0x1234;
    let locs = vec![dest];
    let (nx, nlat, run_events) = m.travel_advance_step(0x1000, 0, &locs);
    assert_eq!((nlat, run_events, m.travel_step_counter), (0, false, 1));
    assert!(nx > 0x1000);
    // the destination's cell: land
    assert_eq!(m.travel_skip_after_step(1, 0x1234, 0x30, 1, &locs), SkipNext::Finish);
    // safe terrain: step again, the room action cleared
    m.pending_room_action = 9;
    assert_eq!(m.travel_skip_after_step(1, 0x1000, 0x10, 1, &locs), SkipNext::Continue);
    assert_eq!(m.pending_room_action, 0);
    // the 200th step without arriving still lands
    assert_eq!(m.travel_skip_after_step(200, 0x1000, 0x10, 1, &locs), SkipNext::Finish);
    // an ornithopter over fully hostile terrain with an empty countdown:
    // the warning is armed and the countdown step is put back
    m.hostile_accum = 0;
    assert_eq!(m.travel_skip_after_step(5, 0x1000, 0x30, 1, &locs), SkipNext::Halt);
    assert_eq!((m.pending_room_action, m.skip_verb_flags, m.hostile_accum), (4, 0x40, 0));
    // a running countdown only steps down: no halt
    m.pending_room_action = 0;
    m.hostile_accum = 0x40;
    assert_eq!(m.travel_skip_after_step(6, 0x1000, 0x30, 1, &locs), SkipNext::Continue);
    assert_eq!(m.hostile_accum, 0x20);
}

#[test]
fn map_verbs_re_aim_the_flight() {
    let mut m = map();
    m.travel_no_location_dest = 0xff;
    m.travel_heading_mode = 1;
    m.travel_destination_ptr = 0x0138;
    let mut hidden = loc(0x1100, 0, 0x80);
    hidden.map_offset = 1;
    let locs = vec![loc(0x5000, 0, 0), hidden, loc(0x3000, 0, 0)];
    // the nearest location that is not hidden
    let li = m.travel_towards_nearest_place(0x1000, 0, &locs);
    assert_eq!(li, 2);
    assert_eq!((m.travel_destination_ptr, m.travel_heading_mode, m.travel_no_location_dest), (0x0138, 0, 0));
    assert_eq!((m.travel_heading, m.travel_step_accum), (0x40, 0x80));
    // back home to the starting location
    m.travel_no_location_dest = 0xff;
    m.travel_back_to_starting_point(0, 0x1000, 0, &locs);
    assert_eq!((m.travel_destination_ptr, m.travel_heading_mode, m.travel_no_location_dest), (0x0100, 0, 0));
}

#[test]
fn the_view_centre_projects_back_onto_itself() {
    let m = map();
    let (cx, cy) = m.view_centre();
    assert_eq!((cx, cy), (161, 89));
    let (x, lat) = m.map_screen_to_position(cx, cy);
    assert_eq!((x, lat), (0x8000, 0));
    assert_eq!(m.map_position_to_screen(x, lat), (161, 89));
    // a short row whose cell and longitude both round well down comes back
    // two columns left
    let mut m = map();
    m.row_len = vec![9; 197];
    m.zoomed_longitude = 29127;
    let (x, lat) = m.map_screen_to_position(cx, cy);
    assert_eq!(lat, 0);
    assert_eq!(m.map_position_to_screen(x, lat), (159, 89));
}
