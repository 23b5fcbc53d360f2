//! The content of the full map's panels: the troop info panel's lines and
//! where they go, which orders the troop contact menu offers, and the
//! geometry of the spice-density overlay panel.
use vstd::prelude::*;
use crate::world::{Troop, Location, Equipment, location_index_spec, location_index_from_ptr};
use crate::game::{GameState, GameEvent, GameVars};
use crate::map_travel::Rect;
use crate::troop_icons::{TroopIconList, is_troop_icon};

verus! {

/// What a line of the troop info panel shows.
#[derive(Clone, Copy, Debug, PartialEq, Eq, Structural)]
pub enum PanelText {
    /// "Going to" (a moving troop).
    GoingTo,
    /// "Settled in".
    SettledIn,
    /// The name of the troop's location.
    LocationName,
    Captured,
    FreedPrisoner,
    /// "N men  Motiv. N%".
    MenAndMotivation,
    /// The skill caption in this string placeholder slot.
    SkillCaption(usize),
    Repairing,
    Inactive,
    SpiceRates,
    CoveredArea,
    BattleLosses,
    /// The "Equipment:" header.
    Equipment,
    /// The row of equipment icons.
    EquipmentRow,
}

/// A line of the troop info panel and its pen position.
#[derive(Clone, Copy, Debug, PartialEq, Eq, Structural)]
pub struct PanelLine {
    pub text: PanelText,
    pub x: i16,
    pub y: i16,
}

/// The status line of a stationed troop: repairing (bitfield bit 9);
/// inactive when not working (bit 8 clear) or sulking (speech bits 4-5);
/// else by occupation (spice mining, prospecting, defending); none for the
/// others.
pub open spec fn status_text(t: Troop) -> Option<PanelText> {
    if t.bitfield_10 & 0x200 != 0 {
        Some(PanelText::Repairing)
    } else if t.bitfield_10 & 0x100 == 0 || t.dissatisfaction_and_speech & 0x30 != 0 {
        Some(PanelText::Inactive)
    } else if t.occupation == 0 {
        Some(PanelText::SpiceRates)
    } else if t.occupation % 16 == 1 {
        Some(PanelText::CoveredArea)
    } else if t.occupation == 6 {
        Some(PanelText::BattleLosses)
    } else {
        None
    }
}

/// The middle lines of the panel from row `y` at column `x0`, and the row
/// after them: a captured troop's state; else the men and motivation line,
/// then (unless awaiting orders) the skill caption of its occupation class
/// and, for a stationed troop, its status.
pub open spec fn panel_middle(t: Troop, x0: int, y: int) -> (Seq<PanelLine>, int) {
    let occ = t.occupation;
    if occ & 0x20 != 0 {
        (
            seq![
                PanelLine {
                    text: if occ == 0x22 { PanelText::FreedPrisoner } else { PanelText::Captured },
                    x: x0 as i16,
                    y: y as i16,
                },
            ],
            y + 0x11,
        )
    } else {
        let first = seq![PanelLine { text: PanelText::MenAndMotivation, x: x0 as i16, y: y as i16 }];
        let y1 = y + 0x0f;
        if occ == 2 {
            (first, y1)
        } else {
            let skill = PanelLine {
                text: PanelText::SkillCaption((6 + (occ % 16) / 4) as usize),
                x: x0 as i16,
                y: y1 as i16,
            };
            let y2 = y1 + 10;
            if occ & 0x40 == 0 && status_text(t) is Some {
                (
                    first + seq![skill, PanelLine { text: status_text(t)->0, x: x0 as i16, y: y2 as i16 }],
                    y2 + 0x11,
                )
            } else {
                (first + seq![skill], y2)
            }
        }
    }
}

/// The troop info panel's lines inside panel rect `r`: the header (at
/// x0 + 12), the location name, the middle lines, the equipment header and
/// the equipment row (all at x0 + 4).
pub open spec fn info_panel_spec(t: Troop, r: Rect) -> Seq<PanelLine> {
    let x0 = r.x0 + 4;
    let y = r.y0 + 4;
    let head = seq![
        PanelLine {
            text: if t.occupation & 0x40 != 0 { PanelText::GoingTo } else { PanelText::SettledIn },
            x: (r.x0 + 12) as i16,
            y: y as i16,
        },
        PanelLine { text: PanelText::LocationName, x: x0 as i16, y: (y + 9) as i16 },
    ];
    let mid = panel_middle(t, x0, y + 19);
    let ye = mid.1 + 4;
    head + mid.0 + seq![
        PanelLine { text: PanelText::Equipment, x: x0 as i16, y: ye as i16 },
        PanelLine { text: PanelText::EquipmentRow, x: x0 as i16, y: (ye + 8) as i16 },
    ]
}

/// The occupation slot of the troop contact menu.
#[derive(Clone, Copy, Debug, PartialEq, Eq, Structural)]
pub enum OccupationSlot {
    /// CHANGE TROOP OCCUPATION, greyed.
    Greyed,
    /// CHANGE TROOP OCCUPATION.
    Change,
    /// SELECT TROOP OCCUPATION (a troop awaiting orders).
    Select,
}

/// The orders the troop contact menu offers.
#[derive(Clone, Copy, Debug, PartialEq, Eq, Structural)]
pub struct DialogMenu {
    pub occupation: OccupationSlot,
    pub modify_equipment: bool,
    pub move_troop: bool,
}

/// The equipment counts or the troop's held mask are not all zero.
pub open spec fn anything_to_hand_over(a: Equipment, held: u8) -> bool {
    (a.harvesters | a.ornithopters | a.krys_knives | a.laser_guns | a.weirding_modules | a.atomics
        | a.bulbs | held) != 0
}

/// The contact menu of troop `t`: nothing for a troop that takes no
/// orders (speech bit 10); any occupation but prospecting can change, and
/// one awaiting orders selects one instead, with nothing else; MOVE TROOP
/// from story phase 5; MODIFY EQUIPMENT from phase 4 for a troop not
/// repairing, at an Atreides-held or sietch (appearance below 0x28)
/// location, with equipment free there or held.
pub open spec fn dialog_menu_spec(
    t: Troop,
    game_phase: u8,
    loc: Option<Location>,
    available: Equipment,
) -> DialogMenu {
    let occ = t.occupation % 16;
    if t.dissatisfaction_and_speech & 0x400 != 0 {
        DialogMenu { occupation: OccupationSlot::Greyed, modify_equipment: false, move_troop: false }
    } else if occ == 2 {
        DialogMenu { occupation: OccupationSlot::Select, modify_equipment: false, move_troop: false }
    } else {
        let slot = if occ != 1 { OccupationSlot::Change } else { OccupationSlot::Greyed };
        let modify = game_phase >= 4 && t.bitfield_10 & 0x200 == 0 && (loc matches Some(l) && (
        l.status & 8 != 0 || l.appearance < 0x28)) && anything_to_hand_over(available, t.equipment);
        DialogMenu { occupation: slot, modify_equipment: modify, move_troop: game_phase >= 5 }
    }
}

/// Set up the troop contact menu for troop `t`; `available` is the free
/// equipment the engine computed for the troop's location.
pub fn map_setup_troop_dialog_menu(
    t: &Troop,
    game_phase: u8,
    locations: &Vec<Location>,
    available: Equipment,
) -> (m: DialogMenu)
    ensures
        m == dialog_menu_spec(
            *t,
            game_phase,
            if location_index_spec(t.offset_of_location) < locations@.len() {
                Some(locations@[location_index_spec(t.offset_of_location)])
            } else {
                None
            },
            available,
        ),
{
    let mut m = DialogMenu {
        occupation: OccupationSlot::Greyed,
        modify_equipment: false,
        move_troop: false,
    };
    if t.dissatisfaction_and_speech & 0x400 != 0 {
        return m;
    }
    let occ = crate::world::low_nibble(t.occupation);
    if occ != 1 {
        m.occupation = OccupationSlot::Change;
    }
    if occ == 2 {
        m.occupation = OccupationSlot::Select;
        return m;
    }
    if game_phase >= 5 {
        m.move_troop = true;
    }
    if game_phase < 4 {
        return m;
    }
    if t.bitfield_10 & 0x200 != 0 {
        return m;
    }
    let li = location_index_from_ptr(t.offset_of_location);
    if li >= locations.len() {
        return m;
    }
    let l = locations[li];
    if l.status & 8 == 0 && l.appearance >= 0x28 {
        return m;
    }
    let any = available.harvesters | available.ornithopters | available.krys_knives
        | available.laser_guns | available.weirding_modules | available.atomics | available.bulbs
        | t.equipment;
    if any == 0 {
        return m;
    }
    m.modify_equipment = true;
    m
}

/// The spice-density overlay panel at `(px, py)`: its 160x89 map window
/// (inset (5, 7)) and the panel rect round it (5 px right of the window,
/// 12 px below it).
pub fn spice_overlay_geometry(px: i16, py: i16) -> (g: (Rect, Rect))
    requires
        -0x1000 <= px <= 0x1000,
        -0x1000 <= py <= 0x1000,
    ensures
        g.0 == (Rect {
            x0: (px + 5) as i16,
            y0: (py + 7) as i16,
            x1: (px + 165) as i16,
            y1: (py + 96) as i16,
        }),
        g.1 == (Rect { x0: px, y0: py, x1: (px + 170) as i16, y1: (py + 108) as i16 }),
{
    (
        Rect { x0: px + 5, y0: py + 7, x1: px + 5 + 160, y1: py + 7 + 89 },
        Rect { x0: px, y0: py, x1: px + 5 + 160 + 5, y1: py + 7 + 89 + 0xc },
    )
}

/// The overlay's "you are here" box (see `spice_overlay_here_box`).
pub open spec fn here_box_spec(px: i16, py: i16, cx: i16, cy: i16) -> Option<Rect> {
    let cl = |v: int, lo: int, hi: int| if v < lo { lo } else if v > hi { hi } else { v };
    let x0 = cl(cx - 0x28, px + 5, px + 5 + 0x9f);
    let x1 = cl(cx + 0x27, px + 5, px + 5 + 0x9f);
    let y0 = cl(cy - 0x14, py + 7, py + 7 + 0x58);
    let y1 = cl(cy + 0x13, py + 7, py + 7 + 0x58);
    if y0 != y1 && x0 != x1 {
        Some(Rect { x0: x0 as i16, y0: y0 as i16, x1: x1 as i16, y1: y1 as i16 })
    } else {
        None::<Rect>
    }
}

/// The "you are here" box of the overlay: 0x50 x 0x28 round the player's
/// projected position `(cx, cy)`, each edge clamped into the window of the
/// panel at `(px, py)`; none when the clamp flattens it.
pub fn spice_overlay_here_box(px: i16, py: i16, cx: i16, cy: i16) -> (b: Option<Rect>)
    requires
        -0x1000 <= px <= 0x1000,
        -0x1000 <= py <= 0x1000,
        -0x1000 <= cx <= 0x1000,
        -0x1000 <= cy <= 0x1000,
    ensures
        b == here_box_spec(px, py, cx, cy),
{
    let wx0 = px + 5;
    let wx1 = px + 5 + 0x9f;
    let wy0 = py + 7;
    let wy1 = py + 7 + 0x58;
    let x0 = crate::troop_map::clamp_i16(cx - 0x28, wx0, wx1);
    let x1 = crate::troop_map::clamp_i16(cx + 0x27, wx0, wx1);
    let y0 = crate::troop_map::clamp_i16(cy - 0x14, wy0, wy1);
    let y1 = crate::troop_map::clamp_i16(cy + 0x13, wy0, wy1);
    if y0 != y1 && x0 != x1 {
        Some(Rect { x0, y0, x1, y1 })
    } else {
        None
    }
}

/// Whether the overlay takes the secondary popup slot: the primary one is
/// held by another popup (neither free nor the overlay's own record 0x4710).
pub fn spice_overlay_uses_secondary_slot(map_popup_ptr: u16) -> (b: bool)
    ensures
        b == (map_popup_ptr != 0 && map_popup_ptr != 0x4710),
{
    map_popup_ptr != 0 && map_popup_ptr != 0x4710
}

impl GameState {
    /// `self` is `old` with the troop info panel closed: with a panel open,
    /// its troop is cleared, the primary popup slot freed and the engine
    /// asked to repaint under it; with none open, nothing changes.
    pub open spec fn is_info_close_of(&self, old: &GameState) -> bool {
        if old.vars.map_info_popup_troop is None {
            *self == *old
        } else {
            &&& self.vars == GameVars { map_info_popup_troop: None, map_popup_ptr: 0, ..old.vars }
            &&& self.events@ == old.events@.push(GameEvent::InfoPanelClosed)
            &&& self.troops@ == old.troops@
            &&& self.locations@ == old.locations@
            &&& self.same_tables(old)
            &&& self.string_subst_id_table@ == old.string_subst_id_table@
            &&& self.troop_condit == old.troop_condit
            &&& self.location_condit == old.location_condit
        }
    }

    /// Close the troop info panel, if one is open (see `is_info_close_of`).
    pub fn map_close_troop_info_popup(&mut self)
        ensures
            final(self).is_info_close_of(old(self)),
    {
        if self.vars.map_info_popup_troop.is_none() {
            return;
        }
        self.vars.map_info_popup_troop = None;
        self.vars.map_popup_ptr = 0;
        self.push_event(GameEvent::InfoPanelClosed);
    }
}

impl GameState {
    /// The troop info panel of troop `ti` inside panel rect `r`: nothing
    /// (the panel closes) when the troop has no icon; otherwise the troop's
    /// dialogue data is staged (its occupation caption switched to the
    /// panel wording, placeholder 4 + 0xc) and the panel's lines come back.
    pub fn map_draw_troop_info_panel_content(
        &mut self,
        ti: usize,
        r: Rect,
        icons: &TroopIconList,
    ) -> (lines: Option<Vec<PanelLine>>)
        requires
            old(self).wf(),
            ti < old(self).troops@.len(),
            -0x1000 <= r.x0 <= 0x1000,
            -0x1000 <= r.y0 <= 0x1000,
        ensures
            (forall|j: int| 0 <= j < icons.icons@.len() ==> !is_troop_icon(#[trigger] icons.icons@[j], ti))
                ==> lines.is_none() && final(self).is_info_close_of(old(self)),
            (exists|j: int| 0 <= j < icons.icons@.len() && is_troop_icon(#[trigger] icons.icons@[j], ti))
                ==> {
                &&& lines matches Some(ls) && ls@ == info_panel_spec(final(self).troops@[ti as int], r)
                &&& final(self).string_subst_id_table@[4] == (old(self).troops@[ti as int].occupation
                    % 16 + 0x18 + 0xc)
                &&& final(self).troops@[ti as int].occupation == old(self).troops@[ti as int].occupation
            },
            final(self).wf(),
    {
        if icons.troop_find_icon(ti).is_none() {
            self.map_close_troop_info_popup();
            return None;
        }
        self.troop_prepare_troop_data_for_condit(ti);
        let v = self.string_subst_id_table[4];
        self.string_subst_id_table.set(4, v + 0xc);
        let t = self.troops[ti];
        let occ = t.occupation;
        let x0 = r.x0 + 4;
        let mut y = r.y0 + 4;
        let mut lines: Vec<PanelLine> = Vec::new();
        lines.push(
            PanelLine {
                text: if occ & 0x40 != 0 {
                    PanelText::GoingTo
                } else {
                    PanelText::SettledIn
                },
                x: r.x0 + 12,
                y,
            },
        );
        y = y + 9;
        lines.push(PanelLine { text: PanelText::LocationName, x: x0, y });
        y = y + 10;
        let ghost mid = panel_middle(t, x0 as int, y as int);
        let ghost before = lines@;
        if occ & 0x20 != 0 {
            lines.push(
                PanelLine {
                    text: if occ == 0x22 {
                        PanelText::FreedPrisoner
                    } else {
                        PanelText::Captured
                    },
                    x: x0,
                    y,
                },
            );
            y = y + 0x11;
        } else {
            lines.push(PanelLine { text: PanelText::MenAndMotivation, x: x0, y });
            y = y + 0x0f;
            if occ != 2 {
                let class = crate::world::low_nibble(occ) / 4;
                lines.push(PanelLine { text: PanelText::SkillCaption(6 + class as usize), x: x0, y });
                y = y + 10;
                if occ & 0x40 == 0 {
                    let status = if t.bitfield_10 & 0x200 != 0 {
                        Some(PanelText::Repairing)
                    } else if t.bitfield_10 & 0x100 == 0 || t.dissatisfaction_and_speech & 0x30 != 0 {
                        Some(PanelText::Inactive)
                    } else if occ == 0 {
                        Some(PanelText::SpiceRates)
                    } else if crate::world::low_nibble(occ) == 1 {
                        Some(PanelText::CoveredArea)
                    } else if occ == 6 {
                        Some(PanelText::BattleLosses)
                    } else {
                        None
                    };
                    if let Some(s) = status {
                        lines.push(PanelLine { text: s, x: x0, y });
                        y = y + 0x11;
                    }
                }
            }
        }
        proof {
            assert(lines@ =~= before + mid.0);
            assert(y == mid.1);
        }
        y = y + 4;
        lines.push(PanelLine { text: PanelText::Equipment, x: x0, y });
        y = y + 8;
        lines.push(PanelLine { text: PanelText::EquipmentRow, x: x0, y });
        proof {
            assert(lines@ =~= info_panel_spec(t, r));
        }
        Some(lines)
    }
}

/// Where the troop contact popup and its parts go: the panel, the shared
/// popup-panel origin it parks for the spice-density overlay (when the
/// troop has an icon), the subtitle's origin and the head box.
#[derive(Clone, Copy, Debug)]
pub struct ContactPopupLayout {
    pub rect: Rect,
    pub overlay_panel_pos: Option<(i16, i16)>,
    pub subtitle_pos: (i16, i16),
    pub head_rect: Rect,
}

/// The troop contact popup's layout: with the troop's icon at `icon`
/// (its top-left corner), the 0x43-row panel goes to the half of the
/// screen the icon is not in (top at row 5 for an icon in the lower half,
/// from row 0x4c, else at row 0x50) and parks the overlay origin at (0x5c,
/// 0x1e) or (0x5c, 0x0e) respectively; without an icon the panel keeps its
/// last rect `last`. The subtitle starts at the panel origin + (0x49, 3),
/// the 0x3d-square head box at + (4, 3).
pub fn troop_contact_popup_layout(last: Rect, icon: Option<(i16, i16)>) -> (l: ContactPopupLayout)
    requires
        -0x1000 <= last.x0 <= 0x1000,
        -0x1000 <= last.y0 <= 0x1000,
    ensures
        ({
            let r = match icon {
                None => last,
                Some(p) => Rect {
                    y0: if p.1 >= 0x4c { 5i16 } else { 0x50i16 },
                    y1: if p.1 >= 0x4c { 0x48i16 } else { 0x93i16 },
                    ..last
                },
            };
            &&& l.rect == r
            &&& l.overlay_panel_pos == match icon {
                None => None::<(i16, i16)>,
                Some(p) => Some((0x5ci16, if p.1 >= 0x4c { 0x1ei16 } else { 0x0ei16 })),
            }
            &&& l.subtitle_pos == ((r.x0 + 0x49) as i16, (r.y0 + 3) as i16)
            &&& l.head_rect == (Rect {
                x0: (r.x0 + 4) as i16,
                y0: (r.y0 + 3) as i16,
                x1: (r.x0 + 4 + 0x3d) as i16,
                y1: (r.y0 + 3 + 0x3d) as i16,
            })
        }),
{
    let mut r = last;
    let mut park: Option<(i16, i16)> = None;
    if let Some((_, iy)) = icon {
        let y0: i16 = if iy >= 0x4c {
            5
        } else {
            0x50
        };
        r.y0 = y0;
        r.y1 = y0 + 0x43;
        park = Some((0x5c, if iy >= 0x4c { 0x1e } else { 0x0e }));
    }
    ContactPopupLayout {
        rect: r,
        overlay_panel_pos: park,
        subtitle_pos: (r.x0 + 0x49, r.y0 + 3),
        head_rect: Rect { x0: r.x0 + 4, y0: r.y0 + 3, x1: r.x0 + 4 + 0x3d, y1: r.y0 + 3 + 0x3d },
    }
}

/// The troop info panel next to the troop's icon (its top-left corner at
/// `icon`): 0x64 rows, placed as every map popup is (see
/// `map_place_popup_panel`); none for a troop at or beyond the visibility
/// distance.
pub fn map_open_troop_info_popup(distance: u16, visibility_distance: u16, icon: (i16, i16)) -> (r:
    Option<Rect>)
    requires
        -0x1000 <= icon.0 <= 0x1000,
        -0x1000 <= icon.1 <= 0x1000,
    ensures
        r == if distance >= visibility_distance {
            None::<Rect>
        } else {
            let py0 = icon.1 - 0x32;
            let py = if py0 < 4 { 4 } else if py0 > 0x94 - 0x64 { 0x94 - 0x64 } else { py0 };
            let px0 = icon.0 + 0x0f;
            let px = if px0 >= 0xd2 { px0 - 0x82 } else { px0 };
            Some(
                Rect { x0: px as i16, y0: py as i16, x1: (px + 0x6a) as i16, y1: (py + 0x64) as i16 },
            )
        },
{
    if distance >= visibility_distance {
        return None;
    }
    Some(crate::troop_map::map_place_popup_panel(icon.0, icon.1, 0x64))
}

} // verus!
