use dune::map_cells::{flyover_strip_shape, travel_flyover_detect, Flyover, FlyoverLatch};
use dune::map_effects::{
    floor_div16, linear_frames, orni_anim_frames, orni_anim_position, popup_outline_frames,
    xor_bracket_zoom_from_panel, xor_bracket_zoom_to_panel,
};
use dune::map_mouse::{
    dune_map_mouse_lmb, map_player_marker_blink, map_player_marker_rect, tick_map_caption,
    MapClick,
};
use dune::map_text::{map_hover_label, replace_number_at_digit_tail, LabelText};
use dune::map_travel::{MapClose, MapLocationMarker, Rect, TravelMap};
use dune::map_window::{map_draw_vegetation_marks_row, GlobeDraw};
use dune::troop_icons::{troop_icon_data, TroopIcon, TroopIconList};
use dune::world::{Location, Troop};

fn map() -> TravelMap {
    TravelMap {
        mode: 1,
        view_rect: Rect { x0: 81, y0: 45, x1: 241, y1: 134 },
        zoomed_longitude: 0x8000,
        zoomed_latitude: 0,
        row_len: vec![0x100; 197],
        lng_units_per_cell: vec![0x100; 197],
        markers: Vec::new(),
        travel_heading: 0,
        travel_step_accum: 0x80,
        travel_heading_mode: 0,
        travel_no_location_dest: 0,
        travel_destination_ptr: 0x0100,
        trail: vec![(0, 0x800); 4],
        trail_cursor: 0,
        vehicle_mode: 2,
        video_id: 2,
        active_video_id: 0,
        hostile_accum: 0,
        skip_verb_flags: 0,
        pending_room_action: 0,
        pending_room_screen_request: 0,
        travel_step_counter: 0,
    }
}

fn loc(map_x: u16, map_y: i16, status: u8) -> Location {
    Location { map_x: map_x as i16, map_y, status, ..Default::default() }
}

fn marker(location_index: u16, x: i16, y: i16, mode: u8) -> MapLocationMarker {
    MapLocationMarker { location_index, x, y, mode }
}

fn icons(list: Vec<TroopIcon>) -> TroopIconList {
    TroopIconList {
        icons: list,
        focused: vec![None, None],
        anim_phase: 0,
        draw_by_depth: false,
        data: troop_icon_data(),
        sprite_dims: Vec::new(),
    }
}

fn icon(x0: i16, y0: i16, x1: i16, y1: i16, troop_index: usize) -> TroopIcon {
    TroopIcon {
        rect: Rect { x0, y0, x1, y1 },
        sprite: 0x13,
        troop_index,
        flags: 0,
        script_cursor: 0,
        script_base: 0,
    }
}

#[test]
fn location_markers_are_rebuilt_for_the_view() {
    let mut m = map();
    let mut near = loc(0x8000, 0, 0);
    near.appearance = 0x10;
    let mut deep = loc(0x7000, 10, 0);
    deep.appearance = 0x30;
    let locs = vec![near, loc(0x8000, 0, 0x80), loc(0xf000, 0, 0), deep];
    let draws = m.map_build_location_markers(&locs, 0x8a00, 0, 5);
    assert_eq!(m.markers, vec![marker(0, 161, 89, 1), marker(3, 145, 99, 1)]);
    assert_eq!(draws.len(), 2);
    assert_eq!((draws[0].marker, draws[0].sprite_base, draws[0].distant), (marker(0, 161, 89, 1), 0x3a, true));
    assert_eq!((draws[1].sprite_base, draws[1].distant), (0x3a, false));
    // a travel pass keeps the markers of earlier passes up to its own
    m.mode = 0x41;
    m.markers = vec![marker(7, 1, 1, 1), marker(8, 2, 2, 0x41), marker(9, 3, 3, 1)];
    m.map_build_location_markers(&locs, 0x8000, 0, 5);
    assert_eq!(
        m.markers,
        vec![marker(7, 1, 1, 1), marker(0, 161, 89, 0x41), marker(3, 145, 99, 0x41)]
    );
}

#[test]
fn marker_search_in_a_given_mode() {
    let mut m = map();
    m.markers = vec![marker(0, 100, 100, 1), marker(1, 104, 100, 0x40)];
    let locs = vec![loc(0, 0, 0), loc(0, 0, 0)];
    assert_eq!(m.find_nearest_marker_in_mode(0xff, 0x40, 100, 100, &locs), (0x011c, 4));
    assert_eq!(m.find_nearest_location_marker(0xff, 100, 100, &locs), (0x0100, 0));
    assert_eq!(m.find_nearest_marker_in_mode(0xff, 0x80, 100, 100, &locs), (0, 0xffff));
}

fn landmark(map_x: u16, map_y: i16) -> Location {
    let mut l = loc(map_x, map_y, 0x80);
    l.discoverable_at_phase = 3;
    l
}

#[test]
fn the_last_landmark_spotted_wins() {
    let locs = vec![loc(0, 0, 0), landmark(0x1400, 0), landmark(0x1000, -5)];
    let mut m = map();
    m.travel_heading = 0x40;
    let cells = vec![(0x40, Some(1)), (0x40, Some(2))];
    let spot = m.travel_scan_nearby_location(1, 1, &cells, &locs, 5, 0x1000, 0).unwrap();
    assert_eq!((spot.location_index, spot.side, spot.caption), (2, 0, 0xce));
    assert_eq!((m.travel_destination_ptr, m.travel_heading, m.pending_room_action), (0x0138, 0x00, 3));
    // the other way round, the second spot is judged against the re-aimed heading
    let mut m = map();
    m.travel_heading = 0x40;
    let cells = vec![(0x40, Some(2)), (0x40, Some(1))];
    let spot = m.travel_scan_nearby_location(1, 1, &cells, &locs, 5, 0x1000, 0).unwrap();
    assert_eq!((spot.location_index, spot.side, spot.caption), (1, 1, 0xd0));
    assert_eq!((m.travel_destination_ptr, m.travel_heading), (0x011c, 0x40));
}

#[test]
fn companion_dispatch_after_a_step() {
    let locs = vec![loc(0, 0, 0), landmark(0x1400, 0), landmark(0x1000, -5)];
    let cells = vec![(0x40, Some(1)), (0x40, Some(2))];
    let mut m = map();
    m.pending_room_action = 9;
    assert!(m.travel_settle_companion_dispatch(1, 3, -1, 0, 1, 0, &cells, &locs, 5, 0x1000, 0).is_none());
    assert_eq!(m.pending_room_action, 0);
    // nobody aboard: only the hostile check, on hostile terrain it warns
    let mut m = map();
    m.travel_destination_ptr = 0x011c;
    assert!(m.travel_settle_companion_dispatch(0, -1, -1, 0, 1, 0x30, &cells, &locs, 5, 0x1000, 0).is_none());
    assert_eq!((m.pending_room_action, m.skip_verb_flags, m.hostile_accum), (4, 0x40, 0xe0));
    // a companion aboard spots the landmark and speaks
    let mut m = map();
    m.travel_heading = 0x40;
    let (who, spot) = m
        .travel_settle_companion_dispatch(0, 3, -1, 0, 1, 0, &cells, &locs, 5, 0x1000, 0)
        .unwrap();
    assert_eq!(who, 3);
    assert_eq!(spot.unwrap().location_index, 2);
    assert_eq!((m.pending_room_action, m.skip_verb_flags), (3, 0));
}

#[test]
fn trail_redraw_walks_the_ring_oldest_first() {
    let mut m = map();
    let a = (0xb000u16, (-40i16) as u16);
    let b = (0xb000u16, 0u16);
    let c = (0xb100u16, (-35i16) as u16);
    m.trail = vec![a, (0, 0x800), c, b];
    m.trail_cursor = 2;
    assert_eq!(m.travel_trail_redraw(), vec![(209, 53), (208, 48)]);
}

#[test]
fn closing_the_map_screen() {
    let mut m = map();
    m.markers = vec![marker(0, 1, 1, 1)];
    assert_eq!(m.map_screen_cleanup(5, 1), Some(MapClose { mode_flags: 5, enter_minimap: true, clear_nav_rect: true, remove_caption_typewriter: true, room_swap_pending: false }));
    assert_eq!((m.mode, m.markers.len()), (0, 0));
    assert_eq!(m.map_screen_cleanup(5, 1), None);
    let mut m = map();
    m.travel_destination_ptr = 0;
    assert_eq!(m.map_screen_cleanup(5, 0), Some(MapClose { mode_flags: 0, enter_minimap: false, clear_nav_rect: true, remove_caption_typewriter: true, room_swap_pending: false }));
}

#[test]
fn cell_blocks_round_a_position() {
    let m = map();
    let s = m.map_build_cell_strip(0x8000, 0, 3, 4);
    assert_eq!(s.len(), 12);
    assert_eq!(&s[0..4], &[(-1, 126), (-1, 127), (-1, 128), (-1, 129)]);
    assert_eq!(s[4], (0, 126));
    assert_eq!(s[11], (1, 129));
    // the run wraps round the row's end
    assert_eq!(m.map_build_cell_strip(0, 0, 1, 4), vec![(0, 254), (0, 255), (0, 0), (0, 1)]);
    // the block stops at the poles
    let s = m.map_build_cell_strip(0, -98, 3, 1);
    assert_eq!(s.iter().map(|c| c.0).collect::<Vec<_>>(), vec![-98, -97, -96]);
    let s = m.map_build_cell_strip(0, 98, 3, 1);
    assert_eq!(s.iter().map(|c| c.0).collect::<Vec<_>>(), vec![97, 98, 98]);
    // a row shorter than half the run
    let mut m = map();
    m.row_len[98] = 2;
    assert_eq!(
        m.map_build_cell_strip(0, 0, 1, 8).iter().map(|c| c.1).collect::<Vec<_>>(),
        vec![-2, -1, 0, 1, 0, 1, 0, 1]
    );
}

#[test]
fn flyover_detector() {
    assert_eq!(flyover_strip_shape(0x00), (1, 8));
    assert_eq!(flyover_strip_shape(0x20), (8, 1));
    assert_eq!(flyover_strip_shape(0x5f), (8, 1));
    assert_eq!(flyover_strip_shape(0x60), (1, 8));
    assert_eq!(flyover_strip_shape(0xe0), (1, 8));
    let locs = vec![loc(0, 0, 0), loc(0x1400, 0, 0)];
    let cells = vec![(0x00, None), (0x40, Some(1))];
    assert_eq!(
        travel_flyover_detect(3, 0x40, &cells, &locs, 0, 0x1000, 0),
        Flyover { countdown: 2, latch: None }
    );
    assert_eq!(
        travel_flyover_detect(0, 0x40, &cells, &locs, 0, 0x1000, 0),
        Flyover { countdown: 6, latch: Some(FlyoverLatch { location_index: 1, bearing: 0 }) }
    );
    assert_eq!(
        travel_flyover_detect(0, 0x30, &cells, &locs, 0, 0x1000, 0).latch,
        Some(FlyoverLatch { location_index: 1, bearing: 0x200 })
    );
    assert_eq!(
        travel_flyover_detect(0, 0x70, &cells, &locs, 0, 0x1000, 0),
        Flyover { countdown: 0, latch: None }
    );
    let mut hidden = loc(0x1400, 0, 0x80);
    hidden.discoverable_at_phase = 4;
    let locs = vec![loc(0, 0, 0), hidden];
    assert_eq!(travel_flyover_detect(0, 0x40, &cells, &locs, 3, 0x1000, 0).latch, None);
    assert!(travel_flyover_detect(0, 0x40, &cells, &locs, 4, 0x1000, 0).latch.is_some());
}

fn window_map() -> (TravelMap, Vec<u8>, Vec<u32>) {
    let mut m = map();
    m.view_rect = Rect { x0: 0, y0: 0, x1: 4, y1: 3 };
    m.row_len = vec![8; 197];
    let src: Vec<u8> = (0..197 * 8).map(|k| (k % 256) as u8).collect();
    let offsets: Vec<u32> = (0..197).map(|y| y * 8).collect();
    (m, src, offsets)
}

#[test]
fn window_rows_round_the_view_longitude() {
    let (mut m, src, offsets) = window_map();
    let (rows, w, h, top) = m.map_fill_window_rows_from(&src, &offsets);
    assert_eq!((rows.len(), w, h, top), (600, 4, 3, -1));
    assert_eq!(&rows[0..5], &[10, 11, 12, 13, 0]);
    assert_eq!(&rows[200..204], &[18, 19, 20, 21]);
    assert_eq!(&rows[400..404], &[26, 27, 28, 29]);
    // read round the row's end
    m.zoomed_longitude = 0;
    let (rows, _, _, _) = m.map_fill_window_rows_from(&src, &offsets);
    assert_eq!(&rows[0..4], &[14, 15, 8, 9]);
    // the latitude is kept so every window row has a map row
    m.zoomed_latitude = 0x60;
    let (_, _, _, top) = m.map_fill_window_rows_from(&src, &offsets);
    assert_eq!((m.zoomed_latitude, top), (0x55, 0x54));
}

#[test]
fn short_rows_are_centred_in_the_window() {
    let (mut m, src, offsets) = window_map();
    m.row_len = vec![2; 197];
    let (rows, _, _, _) = m.map_fill_window_rows_from(&src, &offsets);
    assert_eq!(&rows[0..4], &[0, src[97 * 8], src[97 * 8 + 1], 0]);
}

#[test]
fn globe_or_window() {
    let (mut m, src, offsets) = window_map();
    m.mode = 0x41;
    match m.map_draw_zoomed_globe(&src, &offsets) {
        GlobeDraw::Window { blit, rows, .. } => {
            assert!(!blit);
            assert_eq!(rows.len(), 600);
        }
        GlobeDraw::Full { .. } => panic!("windowed map expected"),
    }
    let mut m = map();
    m.mode = 0x80;
    m.zoomed_latitude = 90;
    match m.map_draw_zoomed_globe(&Vec::new(), &Vec::new()) {
        GlobeDraw::Full { longitude, latitude } => assert_eq!((longitude, latitude), (0x8000, 0x4b)),
        GlobeDraw::Window { .. } => panic!("full globe expected"),
    }
}

#[test]
fn vegetation_tufts_of_a_band() {
    let row = vec![0x10, 0x10, 0x00, 0x30, 0x10, 0x00, 0x00, 0x10];
    let stamps = map_draw_vegetation_marks_row(&row, 0, 8, 0, 100, 50, 92, 110);
    assert_eq!(stamps, vec![(0x79, 102, 50), (0x78, 106, 51), (0x79, 102, 50), (0x79, 99, 53)]);
}

#[test]
fn hover_labels() {
    let l = map_hover_label(0, false);
    assert_eq!((l.text, l.y, l.color), (LabelText::Caption, 0x22, 0xf5fe));
    assert_eq!((l.pad_past_x, l.caption_typewriter), (0xed, true));
    let l = map_hover_label(0x011c, true);
    assert_eq!((l.text, l.y, l.color), (LabelText::Location(1), 0x26, 0x20fe));
    assert!(!l.caption_typewriter);
    assert_eq!(map_hover_label(0xfff3, false).text, LabelText::Desert(Some(0xdd)));
    assert_eq!(map_hover_label(0xffff, false).text, LabelText::Desert(None));
}

#[test]
fn rallied_count_over_the_template_digits() {
    let mut t = b"troops =  0".to_vec();
    replace_number_at_digit_tail(&mut t, 12);
    assert_eq!(t, b"troops = 12".to_vec());
    let mut t = b"troops =  0".to_vec();
    replace_number_at_digit_tail(&mut t, 7);
    assert_eq!(t, b"troops =  7".to_vec());
    let mut t = b"troops =  0".to_vec();
    replace_number_at_digit_tail(&mut t, 123);
    assert_eq!(t, b"troops =123".to_vec());
    let mut t = b"n 000 x".to_vec();
    replace_number_at_digit_tail(&mut t, 5);
    assert_eq!(t, b"n 005 x".to_vec());
    let mut t = b"none".to_vec();
    replace_number_at_digit_tail(&mut t, 5);
    assert_eq!(t, b"none".to_vec());
    let mut t = b"7".to_vec();
    replace_number_at_digit_tail(&mut t, 45);
    assert_eq!(t, b"5".to_vec());
}

#[test]
fn hover_tracker_states() {
    let mut m = map();
    m.markers = vec![marker(0, 161, 89, 1)];
    let locs = vec![loc(0, 0, 0)];
    let none = Rect { x0: 0, y0: 0, x1: 0, y1: 0 };
    assert_eq!(m.map_mouse_hover_tracker(10, 10, &locs, none), 0);
    assert_eq!(m.map_mouse_hover_tracker(165, 92, &locs, none), 0x0100);
    assert_eq!(m.map_mouse_hover_tracker(170, 90, &locs, none), 0xffff);
    let marker_rect = Rect { x0: 148, y0: 70, x1: 160, y1: 80 };
    assert_eq!(m.map_mouse_hover_tracker(159, 60, &locs, marker_rect), 0xfff0);
    assert_eq!(m.map_mouse_hover_tracker(179, 80, &locs, marker_rect), 0xfff2);
    assert_eq!(m.map_mouse_hover_tracker(169, 70, &locs, marker_rect), 0xfff1);
    assert_eq!(m.map_mouse_hover_tracker(169, 60, &locs, marker_rect), 0xffff);
}

#[test]
fn left_click_on_the_full_map() {
    let mut m = map();
    m.markers = vec![marker(2, 50, 50, 1)];
    let mut locs = vec![loc(0, 0, 0), loc(0, 0, 0), loc(0, 0, 0)];
    locs[2].appearance = 0x10;
    let troops = vec![Troop::default(), Troop { occupation: 0x80, ..Default::default() }];
    let list = icons(vec![icon(100, 100, 110, 110, 0), icon(120, 100, 130, 110, 1)]);
    let popup = Some(Rect { x0: 0, y0: 0, x1: 40, y1: 40 });
    assert_eq!(dune_map_mouse_lmb(&m, &list, &troops, &locs, 5, 5, popup, None, 0), MapClick::Popup);
    assert_eq!(dune_map_mouse_lmb(&m, &list, &troops, &locs, 105, 105, popup, None, 0), MapClick::Troop(0));
    // an unrallied troop's icon does not take the click
    assert_eq!(
        dune_map_mouse_lmb(&m, &list, &troops, &locs, 125, 105, None, None, 3),
        MapClick::Empty { end_contact: true }
    );
    assert_eq!(dune_map_mouse_lmb(&m, &list, &troops, &locs, 55, 55, None, None, 0), MapClick::Location(2));
    assert_eq!(dune_map_mouse_lmb(&m, &list, &troops, &locs, 55, 55, None, Some(2), 0), MapClick::SameLocation);
    locs[2].appearance = 0x40;
    assert_eq!(
        dune_map_mouse_lmb(&m, &list, &troops, &locs, 55, 55, None, None, 0),
        MapClick::Empty { end_contact: false }
    );
}

#[test]
fn player_marker_rect_and_blink() {
    assert_eq!(
        map_player_marker_rect(Some((100, 50)), 16, 12),
        Rect { x0: 87, y0: 38, x1: 103, y1: 50 }
    );
    assert_eq!(map_player_marker_rect(None, 16, 12), Rect { x0: 0, y0: 0, x1: 0, y1: 0 });
    let view = Rect { x0: 90, y0: 40, x1: 200, y1: 100 };
    let m = Rect { x0: 87, y0: 38, x1: 103, y1: 50 };
    assert_eq!(map_player_marker_blink(0, m, view), (1, Rect { x0: 90, y0: 40, x1: 103, y1: 50 }, true));
    assert_eq!(map_player_marker_blink(1, m, view).2, false);
    assert_eq!(map_player_marker_blink(0xff, m, view).0, 0);
}

#[test]
fn caption_typewriter() {
    let text = b"  AB".to_vec();
    assert_eq!(tick_map_caption(&text, 0), (b"  A".to_vec(), 3));
    assert_eq!(tick_map_caption(&text, 3), (b"B".to_vec(), 4));
    assert_eq!(tick_map_caption(&text, 4), (Vec::new(), 4));
    let text = b"A\x80B".to_vec();
    assert_eq!(tick_map_caption(&text, 1), (Vec::new(), 1));
    assert_eq!(tick_map_caption(&b"  ".to_vec(), 0), (b"  ".to_vec(), 2));
}

#[test]
fn popup_outline_frames_grow_and_shrink() {
    assert_eq!(
        linear_frames((0, 0, 0, 0), (1, 2, 3, 4), 1, 3),
        vec![(1, 2, 3, 4), (2, 4, 6, 8), (3, 6, 9, 12)]
    );
    let panel = Rect { x0: 50, y0: 40, x1: 150, y1: 104 };
    let f = popup_outline_frames((10, 10), panel, false);
    assert_eq!(f.len(), 15);
    assert_eq!((f[0], f[14]), ((10, 10, 6, 4), (38, 38, 90, 60)));
    let f = popup_outline_frames((10, 10), panel, true);
    assert_eq!((f[0], f[14]), ((48, 38, 94, 60), (20, 10, 10, 4)));
    assert_eq!((floor_div16(-1), floor_div16(-16), floor_div16(-17), floor_div16(31)), (-1, -1, -2, 1));
}

#[test]
fn bracket_zoom_to_and_from_a_panel() {
    let panel = Rect { x0: 100, y0: 40, x1: 206, y1: 107 };
    let (trail, brackets) = xor_bracket_zoom_to_panel(panel, (20, 30));
    assert_eq!((trail.len(), brackets.len()), (8, 8));
    assert_eq!((trail[0], trail[7]), ((20, 30, 20, 20), (125, 58, 20, 20)));
    assert_eq!((brackets[0], brackets[7]), ((143, 63, 20, 20), (108, 49, 90, 48)));
    let (trail, _) = xor_bracket_zoom_to_panel(panel, (400, -5));
    assert_eq!((trail[0].0, trail[0].1), (300, 0));
    let (brackets, trail) = xor_bracket_zoom_from_panel((108, 49, 90, 48), (5, 2), (143, 63), (15, 4));
    assert_eq!((brackets[0], brackets[7]), ((108, 49, 90, 48), (143, 63, 20, 20)));
    assert_eq!((trail[0], trail[7]), ((128, 59, 20, 20), (23, 31, 20, 20)));
}

#[test]
fn ornithopter_takeoff_and_landing() {
    let up = orni_anim_frames(0, 1);
    assert_eq!((up.len(), up[0], up[32]), (33, 0, 0x20));
    let down = orni_anim_frames(0x20, -1);
    assert_eq!((down.len(), down[0], down[32]), (33, 0x20, 0));
    assert_eq!(orni_anim_frames(5, -1), vec![5, 4, 3, 2, 1, 0]);
    assert_eq!(orni_anim_position(100, 80, 0x0e, 1), (100, 80));
    assert_eq!(orni_anim_position(100, 80, 0x10, 1), (90, 78));
    assert_eq!(orni_anim_position(100, 80, 0x10, -1), (110, 78));
    assert_eq!(orni_anim_position(100, 80, 0x20, 1), (10, -82));
}

#[test]
fn map_hover_and_destination_click() {
    let mut m = map();
    m.markers = vec![marker(0, 161, 89, 1)];
    let locs = vec![loc(0, 0, 0)];
    let marker_rect = Rect { x0: 148, y0: 70, x1: 160, y1: 80 };
    // the marker is hovered
    assert_eq!(m.map_mouse_hover_tracker(162, 90, &locs, marker_rect), 0x0100);
    // due north is compass ray 0; off the rays it is plain desert
    assert_eq!(m.map_mouse_hover_tracker(159, 50, &locs, marker_rect), 0xfff0);
    assert_eq!(m.map_mouse_hover_tracker(169, 60, &locs, marker_rect), 0xffff);
    // outside the window the hover is 0, and the caption comes back
    assert_eq!(m.map_mouse_hover_tracker(20, 20, &locs, marker_rect), 0);
    assert_eq!(map_hover_label(0, true).text, LabelText::Caption);
    assert_eq!(map_hover_label(0xfff0, true).text, LabelText::Desert(Some(0xda)));
    // a click on the current location does not arm a flight, another does
    assert!(!dune::map_menus::map_destination_selectable(4, 0x0100, 0));
    assert!(dune::map_menus::map_destination_selectable(4, 0x011c, 0));
}

#[test]
fn flyover_spot_hides_minimap_and_offers_skip_to_destination() {
    let locs = vec![loc(0, 0, 0), landmark(0x1400, 0)];
    let cells = vec![(0x40, Some(1))];
    let mut m = map();
    m.travel_heading = 0x40;
    m.travel_no_location_dest = 0xff;
    m.skip_verb_flags = 0x40;
    let (_, spot) = m
        .travel_settle_companion_dispatch(0, 3, 4, 0x80, 1, 0, &cells, &locs, 5, 0x1000, 0)
        .unwrap();
    // the spot arms room action 3, homing on it
    assert_eq!((spot.unwrap().location_index, m.pending_room_action), (1, 3));
    assert_eq!((m.travel_no_location_dest, m.travel_destination_ptr), (0, 0x011c));
    // SKIP TO DESTINATION is offered again
    assert_eq!(m.skip_verb_flags, 0);
}

#[test]
fn spice_density_overlay_composes_and_restores_the_view() {
    let mut m = map();
    m.mode = 0x80;
    m.view_rect = Rect { x0: 4, y0: 4, x1: 316, y1: 148 };
    let map2: Vec<u8> = vec![7; 197 * 0x100];
    let row_offset: Vec<u32> = (0..197u32).map(|y| y * 0x100).collect();
    let locs = vec![Location::default()];
    let d = m.map_draw_spice_density_overlay(75, 15, (0x4000, 60), &map2, &row_offset, &locs, false, (0x8000, 0), 4, 0x18e9);
    // the window's rows, centred on the overlay position clamped to the window
    assert_eq!((d.width, d.height), (160, 89));
    assert_eq!(d.globe, (0x4000, 42));
    assert_eq!(d.top_lat, 42 - 44);
    assert_eq!(d.rows.len(), 0xc8 * 89);
    assert_eq!(d.xlat.len(), 256);
    assert!(d.secondary_slot);
    assert_eq!(d.panel, Rect { x0: 75, y0: 15, x1: 245, y1: 123 });
    // the map view comes back: full-map rect, own position, overlay bits set
    assert_eq!(m.mode, 0xc0);
    assert_eq!(m.view_rect, Rect { x0: 4, y0: 4, x1: 316, y1: 148 });
    assert_eq!((m.zoomed_longitude, m.zoomed_latitude), (0x8000, 0));
}
