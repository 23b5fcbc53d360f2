use dune::map_travel::{MapLocationMarker, Rect, TravelMap};
use dune::troop_icons::{
    first_marker_for, map_spawn_troop_icons, shr8_i16, troop_icon_data, TroopIcon, TroopIconList,
};
use dune::world::{Location, Troop};

fn list() -> TroopIconList {
    let mut dims = vec![(0i16, 0i16); 0x100];
    dims[0x13] = (10, 8);
    dims[0x14] = (10, 8);
    dims[0x85] = (20, 20);
    dims[0x63] = (6, 4);
    TroopIconList {
        icons: Vec::new(),
        focused: vec![None, None, None],
        anim_phase: 0,
        draw_by_depth: false,
        data: troop_icon_data(),
        sprite_dims: dims,
    }
}

fn icon(x0: i16, y0: i16, x1: i16, y1: i16, flags: u8, troop_index: usize) -> TroopIcon {
    TroopIcon {
        rect: Rect { x0, y0, x1, y1 },
        sprite: 0x13,
        troop_index,
        flags,
        script_cursor: 0,
        script_base: 0,
    }
}

fn map() -> TravelMap {
    TravelMap {
        mode: 0x80,
        view_rect: Rect { x0: 4, y0: 4, x1: 316, y1: 148 },
        zoomed_longitude: 0x1000,
        zoomed_latitude: 0,
        row_len: vec![0x100; 197],
        lng_units_per_cell: vec![0x100; 197],
        markers: Vec::new(),
        travel_heading: 0,
        travel_step_accum: 0x80,
        travel_heading_mode: 0,
        travel_no_location_dest: 0,
        travel_destination_ptr: 0x0100,
        trail: vec![(0, 0x800); 4],
        trail_cursor: 0,
        vehicle_mode: 2,
        video_id: 2,
        active_video_id: 0,
        hostile_accum: 0,
        skip_verb_flags: 0,
        pending_room_action: 0,
        pending_room_screen_request: 0,
        travel_step_counter: 0,
    }
}

fn troop(occupation: u8, position: u8, offset_of_location: u16) -> Troop {
    Troop { occupation, position, offset_of_location, ..Default::default() }
}

#[test]
fn icon_data_block_lookups() {
    let l = list();
    assert_eq!(l.icon_data(0x1672), 0x00);
    assert_eq!(l.icon_data(0x1673), 0x0d);
    assert_eq!(l.icon_data_word(0x179c), 0x16d6);
    assert_eq!(l.equipment_icon_sprite(0), 0x63);
    assert_eq!(l.equipment_icon_sprite(6), 0x77);
    assert_eq!(l.troop_icon_script_extra_steps(0x16d6), 3);
    assert_eq!(l.troop_icon_script_extra_steps(0x18fd), 7);
    assert_eq!(l.troop_icon_script_extra_steps(0x16a6), 0);
}

#[test]
fn spawning_centres_the_sprite() {
    let mut l = list();
    assert_eq!(l.troop_icon_spawn(0x13, 100, 50, 3), Some(0));
    assert_eq!(l.icons[0].rect, Rect { x0: 95, y0: 46, x1: 105, y1: 54 });
    assert_eq!((l.icons[0].flags, l.icons[0].troop_index), (0, 3));
    assert_eq!(l.troop_icon_spawn(0x40, 100, 50, 3), None);
    assert_eq!(l.icons.len(), 1);
}

#[test]
fn spawning_with_an_animation_script() {
    let mut l = list();
    assert_eq!(l.troop_icon_spawn_with_anim(0x16d6, 100, 50, 0, 2), Some(0));
    let ic = l.icons[0];
    assert_eq!((ic.sprite, ic.flags, ic.script_base, ic.script_cursor), (0x13, 1, 0x16d6, 0x16dc));
    // a one-step script stays unarmed
    assert_eq!(l.troop_icon_spawn_with_anim(0x1813, 10, 10, 1, 0), Some(1));
    assert_eq!(l.icons[1].flags, 0);
    assert_eq!(l.icons[1].sprite, 0x63);
}

#[test]
fn animation_steps_loop_back_at_the_fence() {
    let mut l = list();
    l.troop_icon_spawn_with_anim(0x16d6, 100, 50, 0, 2);
    assert_eq!(l.troop_icon_anim_step(0), Some(Rect { x0: 95, y0: 46, x1: 105, y1: 54 }));
    assert_eq!((l.icons[0].sprite, l.icons[0].script_cursor), (0x15, 0x16df));
    l.troop_icon_anim_step(0);
    assert_eq!((l.icons[0].sprite, l.icons[0].script_cursor), (0x16, 0x16e2));
    l.troop_icon_anim_step(0);
    assert_eq!((l.icons[0].sprite, l.icons[0].script_cursor), (0x13, 0x16d9));
    // the no-loop flag stops at the fence
    l.icons[0].script_cursor = 0x16e2;
    l.icons[0].flags |= 2;
    assert_eq!(l.troop_icon_anim_step(0), None);
}

#[test]
fn animation_tick_steps_the_focus_between_full_walks() {
    let mut l = list();
    l.troop_icon_spawn_with_anim(0x16d6, 100, 50, 0, 0);
    l.troop_icon_spawn_with_anim(0x16d6, 200, 50, 1, 0);
    l.focused[0] = Some(1);
    let r = l.tick_troop_icon_anim();
    assert_eq!(r.len(), 1);
    assert_eq!(l.icons[0].script_cursor, 0x16d6);
    assert_eq!(l.icons[1].script_cursor, 0x16d9);
    l.anim_phase = 3;
    let r = l.tick_troop_icon_anim();
    assert_eq!(r.len(), 2);
    assert_eq!(l.icons[0].script_cursor, 0x16d9);
}

#[test]
fn hit_test_top_most_first() {
    let mut l = list();
    l.icons = vec![icon(90, 40, 110, 60, 0, 0), icon(95, 45, 105, 55, 0, 1), icon(95, 45, 105, 55, 0x40, 2)];
    let troops = vec![troop(2, 1, 0x100), troop(2, 1, 0x100), troop(2, 1, 0x100)];
    assert_eq!(l.troop_icon_hit_test(100, 50, &troops), Some((1, 1)));
    assert_eq!(l.troop_icon_hit_test(92, 50, &troops), Some((0, 0)));
    assert_eq!(l.troop_icon_hit_test(90, 50, &troops), None);
    let troops = vec![troop(2, 1, 0x100), troop(0x80, 1, 0x100), troop(2, 1, 0x100)];
    assert_eq!(l.troop_icon_hit_test(100, 50, &troops), None);
}

#[test]
fn find_remove_and_focus_fixups() {
    let mut l = list();
    l.icons = vec![icon(0, 0, 5, 5, 0x40, 4), icon(0, 0, 5, 5, 0, 4), icon(0, 0, 5, 5, 0, 7)];
    assert_eq!(l.troop_find_icon(4), Some(1));
    assert_eq!(l.troop_find_icon(9), None);
    l.focused = vec![Some(2), Some(1), Some(0)];
    assert_eq!(l.troop_icon_remove(1), Some(Rect { x0: 0, y0: 0, x1: 5, y1: 5 }));
    assert_eq!(l.icons.len(), 2);
    assert_eq!(l.icons[1].troop_index, 7);
    assert_eq!(l.focused, vec![Some(1), Some(0), Some(0)]);
    assert_eq!(l.troop_icon_remove(0), Some(Rect { x0: 0, y0: 0, x1: 5, y1: 5 }));
    assert_eq!(l.focused, vec![Some(0), None, None]);
    assert_eq!(l.troop_icon_remove(5), None);
}

#[test]
fn move_repaints_both_places() {
    let mut l = list();
    l.icons = vec![icon(95, 46, 105, 54, 0, 0)];
    assert_eq!(l.troop_icon_move_and_redraw(0, -2, 3), Rect { x0: 93, y0: 46, x1: 105, y1: 57 });
    assert_eq!(l.icons[0].rect, Rect { x0: 93, y0: 49, x1: 103, y1: 57 });
    assert_eq!(l.troop_icon_move_and_redraw(0, 4, -1), Rect { x0: 93, y0: 48, x1: 107, y1: 57 });
}

#[test]
fn dirty_rect_repaint_orders() {
    let mut l = list();
    l.icons = vec![
        icon(10, 10, 20, 20, 0, 0),
        icon(0, 0, 15, 15, 0, 1),
        icon(12, 12, 18, 18, 0x40, 2),
        icon(100, 100, 110, 110, 0, 3),
        icon(5, 5, 25, 15, 0x80, 4),
        icon(8, 2, 22, 18, 0, 5),
    ];
    let all = Rect { x0: 0, y0: 0, x1: 320, y1: 200 };
    let r = Rect { x0: 0, y0: 0, x1: 30, y1: 30 };
    let p = l.troop_icons_update_dirty_rect(r, all, 0, false, None).unwrap();
    assert_eq!(p.clipped, r);
    assert_eq!(p.order, vec![0, 1, 2, 5]);
    assert!(!p.redraw_hud_head);
    l.draw_by_depth = true;
    let p = l.troop_icons_update_dirty_rect(r, all, 0, false, None).unwrap();
    assert_eq!(p.order, vec![1, 0, 5, 2]);
    let clip = Rect { x0: 4, y0: 4, x1: 316, y1: 148 };
    assert!(l.troop_icons_update_dirty_rect(Rect { x0: 200, y0: 150, x1: 210, y1: 160 }, clip, 0, false, None).is_none());
    let p = l.troop_icons_update_dirty_rect(Rect { x0: 130, y0: 140, x1: 150, y1: 160 }, all, 0, false, None).unwrap();
    assert!(p.redraw_hud_head);
    assert!(p.order.is_empty());
    let p = l.troop_icons_update_dirty_rect(Rect { x0: 130, y0: 140, x1: 150, y1: 160 }, all, 0, true, None).unwrap();
    assert!(!p.redraw_hud_head);
    // the view offset moves the icons down the screen
    let p = l.troop_icons_update_dirty_rect(Rect { x0: 0, y0: 0, x1: 30, y1: 10 }, all, 8, false, None).unwrap();
    assert_eq!(p.clipped, Rect { x0: 0, y0: 8, x1: 30, y1: 18 });
    assert_eq!(p.keep_popup, None);
    // an open popup keeps its pixels over the repaint, cut to the rect
    let popup = Rect { x0: 5, y0: 5, x1: 232, y1: 72 };
    let p = l.troop_icons_update_dirty_rect(Rect { x0: 0, y0: 0, x1: 260, y1: 100 }, all, 0, false, Some(popup)).unwrap();
    assert_eq!(p.keep_popup, Some(popup));
    let p = l.troop_icons_update_dirty_rect(Rect { x0: 0, y0: 0, x1: 30, y1: 30 }, all, 0, false, Some(popup)).unwrap();
    assert_eq!(p.keep_popup, Some(Rect { x0: 5, y0: 5, x1: 30, y1: 30 }));
    let p = l.troop_icons_update_dirty_rect(Rect { x0: 240, y0: 0, x1: 260, y1: 30 }, all, 0, false, Some(popup)).unwrap();
    assert_eq!(p.keep_popup, None);
}

#[test]
fn icon_scripts_of_stationed_troops() {
    let l = list();
    let locs = vec![Location::default(), Location { status: 2, ..Default::default() }];
    // awaiting orders
    assert_eq!(l.troop_icon_pick_script(&troop(2, 1, 0x100), &locs), 0x16f0);
    // spice mining with harvesters
    let mut t = troop(0, 1, 0x100);
    t.equipment = 0x80;
    assert_eq!(l.troop_icon_pick_script(&t, &locs), 0x17bc);
    t.occupation = 0x10;
    assert_eq!(l.troop_icon_pick_script(&t, &locs), 0x1813);
    // defending: position bands, or the battle script at a battle site
    assert_eq!(l.troop_icon_pick_script(&troop(6, 4, 0x100), &locs), 0x173c);
    assert_eq!(l.troop_icon_pick_script(&troop(6, 8, 0x100), &locs), 0x1750);
    assert_eq!(l.troop_icon_pick_script(&troop(6, 1, 0x11c), &locs), 0x16aa);
    assert_eq!(l.troop_icon_pick_script(&troop(0x0d, 5, 0x100), &locs), 0x1788);
    // the specialized table
    assert_eq!(l.troop_icon_pick_script(&troop(0x11, 1, 0x100), &locs), 0x16a6);
    // hidden, unrallied
    let mut h = troop(2, 1, 0x100);
    h.bitfield_10 = 0x10;
    assert_eq!(l.troop_icon_pick_script(&h, &locs), 0);
    assert_eq!(l.troop_icon_pick_script(&troop(0x80, 1, 0x100), &locs), 0);
    let locs2 = vec![Location { status: 0x10, ..Default::default() }];
    assert_eq!(l.troop_icon_pick_script(&troop(0x80, 1, 0x100), &locs2), 0x181f);
}

#[test]
fn icon_scripts_of_moving_troops() {
    let l = list();
    let east = vec![Location { map_x: 0x2000, map_y: 0, ..Default::default() }];
    let west = vec![Location { map_x: 0x0800, map_y: 0, ..Default::default() }];
    let north = vec![Location { map_x: 0x1000, map_y: -5, ..Default::default() }];
    let mut t = troop(0x40, 0, 0x100);
    t.gps_coordinates_1 = 0x1000;
    assert_eq!(l.troop_icon_pick_script(&t, &east), 0x184a);
    assert_eq!(l.troop_icon_pick_script(&t, &west), 0x1898);
    assert_eq!(l.troop_icon_pick_script(&t, &north), 0x1823);
    t.occupation = 0x44;
    assert_eq!(l.troop_icon_pick_script_moving(&t, &east), 0x1857);
    t.offset_of_location = 0x200;
    assert_eq!(l.troop_icon_pick_script_moving(&t, &east), 0);
    assert_eq!(shr8_i16(-0x800), -8);
    assert_eq!(shr8_i16(-1), -1);
}

#[test]
fn icon_positions_round_a_marker() {
    let l = list();
    let mut m = map();
    let locs = vec![Location::default(), Location { status: 2, ..Default::default() }];
    let marker = Some(MapLocationMarker { location_index: 0, x: 100, y: 50, mode: 0x80 });
    assert_eq!(l.troop_icon_screen_pos(&troop(2, 2, 0x100), marker, &locs, &m), Some((122, 63)));
    assert_eq!(l.troop_icon_screen_pos(&troop(2, 2, 0x11c), marker, &locs, &m), Some((100, 42)));
    let plain = Some(MapLocationMarker { location_index: 0, x: 100, y: 50, mode: 1 });
    assert_eq!(l.troop_icon_screen_pos(&troop(2, 2, 0x100), plain, &locs, &m), None);
    assert_eq!(l.troop_icon_screen_pos(&troop(2, 2, 0x100), None, &locs, &m), None);
    // a moving troop sits at its projected gps position
    let mut t = troop(0x40, 0, 0x100);
    t.gps_coordinates_1 = 0x1100;
    t.gps_coordinates_2 = 5;
    assert_eq!(l.troop_icon_screen_pos(&t, None, &locs, &m), Some((0xa0 + 4, 0x4c + 20)));
    assert_eq!(
        l.map_troop_icon_spawn_plan(&troop(2, 2, 0x100), marker, &locs, &m),
        Some((122, 63, 0x16f0))
    );
    m.mode = 1;
    assert_eq!(l.troop_icon_screen_pos(&t, None, &locs, &m), None);
}

#[test]
fn refreshing_an_icon() {
    let mut l = list();
    l.icons = vec![icon(0, 0, 5, 5, 0, 0)];
    let mut m = map();
    m.markers = vec![
        MapLocationMarker { location_index: 3, x: 1, y: 1, mode: 0x80 },
        MapLocationMarker { location_index: 0, x: 7, y: 8, mode: 0x80 },
    ];
    let troops = vec![troop(2, 1, 0x100), troop(0x40, 0, 0x100), troop(2, 1, 0x200)];
    let r = l.troop_refresh_icon(0, &troops, &m);
    assert_eq!(r.repaint, Some(Rect { x0: 0, y0: 0, x1: 5, y1: 5 }));
    assert!(r.respawn);
    assert_eq!(r.marker, Some(m.markers[1]));
    assert!(l.icons.is_empty());
    let r = l.troop_refresh_icon(1, &troops, &m);
    assert!(r.repaint.is_none() && r.respawn && r.marker.is_none());
    let r = l.troop_refresh_icon(2, &troops, &m);
    assert!(!r.respawn);
    assert_eq!(first_marker_for(&m, 3), Some(m.markers[0]));
    assert_eq!(first_marker_for(&m, 5), None);
}

#[test]
fn full_map_spawn_order() {
    let mut m = map();
    m.markers = vec![
        MapLocationMarker { location_index: 1, x: 1, y: 1, mode: 0x80 },
        MapLocationMarker { location_index: 0, x: 7, y: 8, mode: 0x80 },
    ];
    let mut a = troop(2, 1, 0x100);
    a.troop_id = 1;
    a.next_troop_id = 3;
    let mut b = troop(0x40, 0, 0x100);
    b.troop_id = 2;
    let mut c = troop(2, 2, 0x100);
    c.troop_id = 3;
    let mut d = troop(0x40, 0, 0x100);
    d.troop_id = 4;
    d.bitfield_10 = 0x10;
    let troops = vec![a, b, c, d];
    let locs = vec![Location { troop_id: 1, ..Default::default() }, Location::default()];
    let order = map_spawn_troop_icons(&troops, &locs, &m);
    assert_eq!(order, vec![(0, Some(m.markers[1])), (2, Some(m.markers[1])), (1, None)]);
}

#[test]
fn highlight_ring_over_a_troop() {
    let mut l = list();
    let mut m = map();
    m.markers = vec![MapLocationMarker { location_index: 0, x: 100, y: 60, mode: 0x80 }];
    let locs = vec![Location::default()];
    let stationed = troop(0, 1, 0x0100);
    let mut moving = troop(0x40, 1, 0x0100);
    moving.gps_coordinates_1 = 0x1100;
    moving.gps_coordinates_2 = 0;
    let troops = vec![stationed, moving, troop(0, 1, 0x011c)];
    // no icon on the map, no ring
    assert_eq!(l.map_focus_troop_icon(0, &troops, &locs, &m), None);
    l.icons = vec![icon(0, 0, 5, 5, 0, 0), icon(0, 0, 5, 5, 0, 1), icon(0, 0, 5, 5, 0, 2)];
    assert_eq!(
        l.map_focus_troop_icon(0, &troops, &locs, &m),
        l.troop_icon_screen_pos(&stationed, Some(m.markers[0]), &locs, &m)
    );
    assert!(l.map_focus_troop_icon(0, &troops, &locs, &m).is_some());
    assert_eq!(l.map_focus_troop_icon(1, &troops, &locs, &m), Some((164, 76)));
    // a stationed troop whose location has no marker
    assert_eq!(l.map_focus_troop_icon(2, &troops, &locs, &m), None);
    l.set_focus_ring(1);
    assert_eq!((l.icons[1].flags, l.focused[0]), (0x40, Some(1)));
}

#[test]
fn equipment_row_columns() {
    let l = list();
    assert_eq!(l.map_draw_equipment_columns(&vec![0; 7], 100, 10, 50), None);
    assert_eq!(
        l.map_draw_equipment_columns(&vec![2, 0, 0, 0, 0, 0, 1], 100, 10, 50),
        Some(vec![(0x63, 10, 50), (0x63, 10, 56)])
    );
    let squeezed = l.map_draw_equipment_columns(&vec![10, 0, 0, 0, 0, 0, 0], 70, 10, 50).unwrap();
    assert_eq!(squeezed.len(), 10);
    assert_eq!((squeezed[1], squeezed[9]), ((0x63, 10, 52), (0x63, 10, 68)));
}
