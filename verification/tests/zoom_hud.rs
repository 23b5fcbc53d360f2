use dune::game::{GameState, RoomPerson, TalkingHead};
use dune::hud_head::{hud_head_restore_rect, ui_hud_head_draw, HeadFrame, HudHead};
use dune::map_travel::Rect;
use dune::zoom::{zoom_blit, zoom_ratio, zoom_uses_full_sequence, ZoomStep};

fn state(head: Option<TalkingHead>) -> GameState {
    let mut s = GameState {
        troops: Vec::new(),
        locations: Vec::new(),
        room_persons: vec![RoomPerson::default(); 16],
        fremen2_troops: vec![None; 8],
        string_subst_id_table: vec![0; 11],
        prospector_destinations: vec![0; 4],
        lng_units_per_cell: vec![0x100; 197],
        rand_bits: Vec::new(),
        visible_location_markers: Vec::new(),
        troop_condit: Default::default(),
        location_condit: Default::default(),
        vars: Default::default(),
        events: Vec::new(),
    };
    s.vars.talking_head = head;
    s
}

#[test]
fn zoom_ratios_of_the_kernels() {
    assert_eq!(zoom_ratio(1), (8, 7));
    assert_eq!(zoom_ratio(3), (3, 2));
    assert_eq!(zoom_ratio(7), (8, 1));
    assert_eq!(zoom_ratio(0), (1, 1));
    assert!(zoom_uses_full_sequence());
}

#[test]
fn chani_reveal_pulls_back_from_a_close_up() {
    let mut s = state(Some(TalkingHead { talking_head_id: 7, speaking: false }));
    let plan = s.scene_zoom_in_reveal().expect("Chani zooms");
    assert_eq!(
        plan,
        vec![
            ZoomStep::Blit { col: 48, row: 44, scale: 6, hold: 6 },
            ZoomStep::Pause { hold: 300 },
            ZoomStep::Blit { col: 35, row: 38, scale: 5, hold: 6 },
            ZoomStep::Blit { col: 8, row: 25, scale: 4, hold: 6 },
            ZoomStep::Blit { col: 0, row: 13, scale: 3, hold: 6 },
            ZoomStep::Blit { col: 0, row: 6, scale: 2, hold: 6 },
            ZoomStep::Blit { col: 0, row: 0, scale: 1, hold: 6 },
            ZoomStep::Reveal,
        ]
    );
}

#[test]
fn no_reveal_without_a_zoomable_silent_head() {
    assert!(state(None).scene_zoom_in_reveal().is_none());
    assert!(state(Some(TalkingHead { talking_head_id: 7, speaking: true })).scene_zoom_in_reveal().is_none());
    assert!(state(Some(TalkingHead { talking_head_id: 2, speaking: false })).scene_zoom_in_reveal().is_none());
    assert!(state(Some(TalkingHead { talking_head_id: 0x11, speaking: false })).scene_zoom_in_reveal().is_none());
}

#[test]
fn zoom_blit_doubles_pixels() {
    let src: Vec<u8> = (0..320 * 200).map(|i| (i % 251) as u8).collect();
    let mut dst = vec![0u8; 320 * 200];
    zoom_blit(&src, &mut dst, 0, 10, 5, 4);
    let base = 5 * 320 + 10;
    assert_eq!(dst[0], src[base]);
    assert_eq!(dst[1], src[base]);
    assert_eq!(dst[2], src[base + 1]);
    assert_eq!(dst[321], src[base]);
    assert_eq!(dst[2 * 320 + 3], src[base + 320 + 1]);
    // below the 152-row game area nothing changes
    assert_eq!(dst[152 * 320], 0);
}

#[test]
fn zoom_blit_one_to_one_copies_the_game_area() {
    let src: Vec<u8> = (0..320 * 200).map(|i| (i % 13) as u8 + 1).collect();
    let mut dst = vec![0u8; 320 * 200];
    zoom_blit(&src, &mut dst, 8, -5, 150, 0);
    // the column clamps to 0; the source rect starts 150 rows down the area
    let base = (8 + 150) * 320;
    assert_eq!(dst[8 * 320], src[base]);
    assert_eq!(dst[8 * 320 + 319], src[base + 319]);
    assert_eq!(dst[(8 + 41) * 320 + 7], src[base + 41 * 320 + 7]);
    // rows whose source runs past the buffer stay as they were
    assert_eq!(dst[(8 + 42) * 320], 0);
    assert_eq!(dst[0], 0);
    // a source rect entirely past the buffer writes nothing
    let mut dst2 = vec![0u8; 320 * 200];
    zoom_blit(&src, &mut dst2, 8, 0, 500, 0);
    assert!(dst2.iter().all(|&p| p == 0));
}

#[test]
fn hud_head_rises_and_folds() {
    let mut h = HudHead { index: 0, animating_down: false };
    assert!(h.ui_hud_head_animate_up(1).is_empty());
    let up = h.ui_hud_head_animate_up(0);
    assert_eq!(up.len(), 10);
    assert_eq!(up[0], HeadFrame { index: 1, restore_strip: false });
    assert_eq!(up[9], HeadFrame { index: 10, restore_strip: false });
    assert_eq!(h.index, 10);
    assert!(h.ui_hud_head_animate_down(1).is_empty());
    let down = h.ui_hud_head_animate_down(0);
    assert_eq!(down.len(), 10);
    assert_eq!(down[0], HeadFrame { index: 9, restore_strip: true });
    assert_eq!(down[9], HeadFrame { index: 0, restore_strip: true });
    assert_eq!(h.index, 0);
    assert!(!h.animating_down);
    assert!(h.ui_hud_head_animate_down(0).is_empty());
}

#[test]
fn hud_head_quick_fold() {
    let mut h = HudHead { index: 10, animating_down: false };
    let f = h.ui_hud_head_animate_down_start();
    assert_eq!(
        f,
        vec![HeadFrame { index: 9, restore_strip: false }, HeadFrame { index: 8, restore_strip: false }]
    );
    assert_eq!(h.index, 8);
    let mut h = HudHead { index: 0, animating_down: false };
    assert!(h.ui_hud_head_animate_down_start().is_empty());
}

#[test]
fn hud_head_sprites_and_rects() {
    assert_eq!(ui_hud_head_draw(3), ((0x0f, 0x7e, 0x94), (0x13, 0x96, 0x89)));
    assert_eq!(hud_head_restore_rect(true), Rect { x0: 150, y0: 137, x1: 170, y1: 147 });
    assert_eq!(hud_head_restore_rect(false), Rect { x0: 150, y0: 137, x1: 170, y1: 160 });
    let h = HudHead { index: 4, animating_down: true };
    assert_eq!(h.ui_hud_head_redraw(), HeadFrame { index: 4, restore_strip: true });
}
