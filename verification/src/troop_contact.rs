//! Contacting troops from the full map: which troop the NEXT TROOP verb
//! moves to, what the CONTACT FREMEN TROOPS verb and a click on a troop
//! icon do, which contact menu a troop gets, and what a right click does
//! to the troop info panel.
use vstd::prelude::*;
use crate::world::{Troop, location_index_spec, location_index_from_ptr};
use crate::game::GameState;
use crate::troop_moves::location_is_atreides_spec;
use crate::map_travel::{Rect, inside_spec};
use crate::troop_icons::{TroopIconList, TroopIcon, topmost_hit, is_troop_icon};

verus! {

/// The 8-bit id step from the selected id `selected` up to the troop of
/// icon `k`.
pub open spec fn id_step(icons: Seq<TroopIcon>, troops: Seq<Troop>, selected: u8, k: int) -> u8 {
    ((troops[icons[k].troop_index as int].troop_id - selected + 256) % 256) as u8
}

/// Icon `k` is one the NEXT TROOP verb can move to: its troop is rallied
/// and is not the selected one.
pub open spec fn icon_live(icons: Seq<TroopIcon>, troops: Seq<Troop>, selected: u8, k: int) -> bool {
    troops[icons[k].troop_index as int].occupation < 0x80 && id_step(icons, troops, selected, k) != 0
}

/// Among the first `n` icons, the one whose rallied troop's id follows
/// `selected` most closely going up (the 8-bit id difference, smallest
/// non-zero; a later icon wins a tie): the icon and that difference, or
/// none (difference 0xff).
pub open spec fn next_troop_spec(
    icons: Seq<TroopIcon>,
    troops: Seq<Troop>,
    selected: u8,
    n: int,
) -> (Option<usize>, u8)
    decreases n,
{
    if n <= 0 {
        (None, 0xff)
    } else {
        let prev = next_troop_spec(icons, troops, selected, n - 1);
        let t = troops[icons[n - 1].troop_index as int];
        let delta = ((t.troop_id - selected + 256) % 256) as u8;
        if t.occupation >= 0x80 || delta == 0 || delta > prev.1 {
            prev
        } else {
            (Some((n - 1) as usize), delta)
        }
    }
}

/// The icon the NEXT TROOP verb contacts: the rallied troop whose id comes
/// next after the selected id `selected`, wrapping round (see
/// `next_troop_spec`).
pub fn next_troop_icon(icons: &TroopIconList, troops: &Vec<Troop>, selected: u8) -> (r: Option<
    usize,
>)
    requires
        forall|k: int|
            0 <= k < icons.icons@.len() ==> (#[trigger] icons.icons@[k]).troop_index < troops@.len(),
    ensures
        r == next_troop_spec(icons.icons@, troops@, selected, icons.icons@.len() as int).0,
{
    let mut best: Option<usize> = None;
    let mut best_delta: u8 = 0xff;
    let mut i: usize = 0;
    while i < icons.icons.len()
        invariant
            i <= icons.icons@.len(),
            forall|k: int|
                0 <= k < icons.icons@.len() ==> (#[trigger] icons.icons@[k]).troop_index
                    < troops@.len(),
            (best, best_delta) == next_troop_spec(icons.icons@, troops@, selected, i as int),
        decreases icons.icons@.len() - i,
    {
        let t = troops[icons.icons[i].troop_index];
        let delta = t.troop_id.wrapping_sub(selected);
        if !(t.occupation >= 0x80 || delta == 0 || delta > best_delta) {
            best_delta = delta;
            best = Some(i);
        }
        i = i + 1;
    }
    best
}

/// What the CONTACT FREMEN TROOPS (or GIVE ORDERS TO TROOP) verb does.
#[derive(Clone, Copy, Debug, PartialEq, Eq, Structural)]
pub enum ContactAction {
    /// No Fremen have rallied yet.
    Nothing,
    /// Contact the troop of the player's own location.
    CurrentLocation,
    /// Move on to the next troop (NEXT TROOP).
    NextTroop,
    /// Take up the last contacted troop (by index) again.
    Resume(usize),
}

/// The CONTACT verb: nothing before any troop has rallied; at close range
/// (`visibility_distance` below 2) the troop where the player stands; with
/// a troop selected, the next one; else the last contacted troop (id
/// `last`) when it is one of the troops and still has an icon on the map,
/// otherwise the next troop from the start.
pub fn contact_fremen_troops_action(
    rallied: u8,
    visibility_distance: u16,
    selected: u8,
    last: u8,
    troops: &Vec<Troop>,
    icons: &TroopIconList,
) -> (a: ContactAction)
    ensures
        a == if rallied == 0 {
            ContactAction::Nothing
        } else if visibility_distance < 2 {
            ContactAction::CurrentLocation
        } else if selected != 0 || last == 0 {
            ContactAction::NextTroop
        } else if (last as int) <= troops@.len() && exists|j: int|
            0 <= j < icons.icons@.len() && is_troop_icon(
                #[trigger] icons.icons@[j],
                (last - 1) as usize,
            ) {
            ContactAction::Resume((last - 1) as usize)
        } else {
            ContactAction::NextTroop
        },
{
    if rallied == 0 {
        return ContactAction::Nothing;
    }
    if visibility_distance < 2 {
        return ContactAction::CurrentLocation;
    }
    if selected != 0 || last == 0 {
        return ContactAction::NextTroop;
    }
    let ti = (last - 1) as usize;
    if ti < troops.len() {
        if icons.troop_find_icon(ti).is_some() {
            return ContactAction::Resume(ti);
        }
    }
    ContactAction::NextTroop
}

/// The contact menu a troop gets.
#[derive(Clone, Copy, Debug, PartialEq, Eq, Structural)]
pub enum ContactMenu {
    /// Only NEXT TROOP: out of range, or held prisoner.
    NextTroop,
    /// A troop on the move only takes a new destination.
    ChangeDestination,
    /// The full order menu; its last slot reads CUT CONTACT (true) or NO
    /// MORE ORDERS (false).
    TroopDialog(bool),
}

/// The contact menu of a troop with occupation `occupation` at `distance`
/// from the player: out of the visibility range, or captured (bit 5) but
/// not a freed prisoner (0x22), it can only be cycled past; a troop on the
/// move (bit 6) takes a new destination; else the order menu, ending in CUT
/// CONTACT on a map opened from the map itself (`reentry_count` 0) and NO
/// MORE ORDERS otherwise.
pub fn troop_contact_menu(
    distance: u16,
    visibility_distance: u16,
    occupation: u8,
    reentry_count: u8,
) -> (m: ContactMenu)
    ensures
        m == if distance <= visibility_distance && (occupation & 0x20 == 0 || occupation == 0x22) {
            if occupation & 0x40 != 0 {
                ContactMenu::ChangeDestination
            } else {
                ContactMenu::TroopDialog(reentry_count == 0)
            }
        } else {
            ContactMenu::NextTroop
        },
{
    if distance <= visibility_distance && (occupation & 0x20 == 0 || occupation == 0x22) {
        if occupation & 0x40 != 0 {
            ContactMenu::ChangeDestination
        } else {
            ContactMenu::TroopDialog(reentry_count == 0)
        }
    } else {
        ContactMenu::NextTroop
    }
}

/// What a click on a troop's icon does.
#[derive(Clone, Copy, Debug, PartialEq, Eq, Structural)]
pub enum TroopClick {
    /// The troop stands where the player is, at close range: the room
    /// handles it.
    Ignore,
    /// The troop is already selected: its dialogue goes on.
    Dialogue,
    /// Select the troop (by id) and open the contact UI over it.
    Select(u8),
}

/// A click on the icon of a troop with id `troop_id` at location
/// `troop_location`: at close range (`visibility_distance` below 2) a troop
/// at the player's location `current_location` is ignored; the selected
/// troop continues its dialogue; any other is selected.
pub fn map_click_troop_icon(
    troop_id: u8,
    troop_location: usize,
    current_location: usize,
    visibility_distance: u16,
    selected: u8,
) -> (c: TroopClick)
    ensures
        c == if visibility_distance < 2 && troop_location == current_location {
            TroopClick::Ignore
        } else if troop_id == selected {
            TroopClick::Dialogue
        } else {
            TroopClick::Select(troop_id)
        },
{
    if visibility_distance < 2 && troop_location == current_location {
        TroopClick::Ignore
    } else if troop_id == selected {
        TroopClick::Dialogue
    } else {
        TroopClick::Select(troop_id)
    }
}

/// What a right click on the full map does to the troop info panel.
#[derive(Clone, Copy, Debug, PartialEq, Eq, Structural)]
pub enum InfoToggle {
    Nothing,
    Close,
    /// Open the panel of the troop (icon, troop), the other troop popups
    /// closing first.
    Open(usize, usize),
}

/// A right click at `(x, y)`: a secondary popup blocks it; with a popup
/// open, only the info panel (`info_open`, rect `info_rect`) lets it
/// through, and a click inside the panel closes it; otherwise the troop
/// icon under the pointer (see `troop_icon_hit_test`) has its panel
/// toggled: closed when it is the troop shown (`info_troop`), else opened.
pub fn dune_map_mouse_rmb(
    icons: &TroopIconList,
    troops: &Vec<Troop>,
    x: i16,
    y: i16,
    popup_open: bool,
    info_open: bool,
    popup2_open: bool,
    info_rect: Rect,
    info_troop: Option<usize>,
) -> (t: InfoToggle)
    requires
        forall|k: int|
            0 <= k < icons.icons@.len() ==> (#[trigger] icons.icons@[k]).troop_index < troops@.len(),
    ensures
        ({
            let hit = match topmost_hit(icons.icons@, x, y, icons.icons@.len() as int) {
                None => None::<(usize, usize)>,
                Some(i) => {
                    let ti = icons.icons@[i].troop_index;
                    if troops@[ti as int].occupation & 0x80 != 0 {
                        None
                    } else {
                        Some((i as usize, ti))
                    }
                },
            };
            t == if popup2_open || (popup_open && !info_open) {
                InfoToggle::Nothing
            } else if popup_open && inside_spec(info_rect, x as int, y as int) {
                InfoToggle::Close
            } else {
                match hit {
                    None => InfoToggle::Nothing,
                    Some(h) => if info_troop == Some(h.1) {
                        InfoToggle::Close
                    } else {
                        InfoToggle::Open(h.0, h.1)
                    },
                }
            }
        }),
{
    if popup2_open {
        return InfoToggle::Nothing;
    }
    if popup_open {
        if !info_open {
            return InfoToggle::Nothing;
        }
        if info_rect.x0 <= x && x < info_rect.x1 && info_rect.y0 <= y && y < info_rect.y1 {
            return InfoToggle::Close;
        }
    }
    match icons.troop_icon_hit_test(x, y, troops) {
        None => InfoToggle::Nothing,
        Some((icon, ti)) => if info_troop == Some(ti) {
            InfoToggle::Close
        } else {
            InfoToggle::Open(icon, ti)
        },
    }
}

/// The talking head of the troop contact popup.
#[derive(Clone, Copy, Debug, PartialEq, Eq, Structural)]
pub enum ContactHead {
    /// A captured troop held where there is a battle or the Atreides rule
    /// does not speak for itself: the Harkonnen head (resource 0x0c) does,
    /// on animation 0 and anchor entry 3.
    Captor,
    /// The generic Fremen head (resource 0x0f) of the troop, staged as the
    /// room's Fremen-2.
    Fremen,
}

impl GameState {
    /// Who speaks in troop `ti`'s contact popup: a captured troop (bit 5)
    /// at a battle-flagged (status bit 1) or Atreides location has the
    /// Harkonnen captor speak; any other speaks for itself through the
    /// Fremen head, staged in Fremen-2 slot 0 (which becomes the selected
    /// one).
    pub fn map_troop_contact_head(&mut self, ti: usize) -> (h: ContactHead)
        requires
            old(self).wf(),
            old(self).troop_placed(ti as int),
        ensures
            final(self).wf(),
            ({
                let t = old(self).troops@[ti as int];
                let loc = old(self).locations@[location_index_spec(t.offset_of_location)];
                let captor = t.occupation & 0x20 != 0 && (loc.status & 2 != 0
                    || location_is_atreides_spec(loc));
                if captor {
                    h == ContactHead::Captor && *final(self) == *old(self)
                } else {
                    &&& h == ContactHead::Fremen
                    &&& final(self).fremen2_troops@ == old(self).fremen2_troops@.update(0, Some(ti))
                    &&& final(self).vars == crate::game::GameVars {
                        selected_fremen2: 0,
                        ..old(self).vars
                    }
                    &&& final(self).troops@ == old(self).troops@
                    &&& final(self).locations@ == old(self).locations@
                    &&& final(self).events@ == old(self).events@
                }
            }),
    {
        let t = self.troops[ti];
        let li = location_index_from_ptr(t.offset_of_location);
        let captor = t.occupation & 0x20 != 0 && (self.locations[li].status & 2 != 0
            || self.location_is_atreides(li));
        if captor {
            return ContactHead::Captor;
        }
        self.fremen2_troops.set(0, Some(ti));
        self.vars.selected_fremen2 = 0;
        ContactHead::Fremen
    }
}

/// The animation and the anchor entry the contact popup draws its head
/// with: the captor's animation 0 at entry 3; the Fremen head's idle
/// expression `facing` - 1 at entry `head_id` - 0xe (both floored at 0).
pub fn contact_head_anim_anchor(head: ContactHead, head_id: u16, facing: u8) -> (r: (usize, usize))
    ensures
        r == match head {
            ContactHead::Captor => (0usize, 3usize),
            ContactHead::Fremen => (
                (if facing >= 1 { facing - 1 } else { 0 }) as usize,
                (if head_id >= 0x0e { head_id - 0x0e } else { 0 }) as usize,
            ),
        },
{
    match head {
        ContactHead::Captor => (0, 3),
        ContactHead::Fremen => (
            if facing >= 1 {
                (facing - 1) as usize
            } else {
                0
            },
            if head_id >= 0x0e {
                (head_id - 0x0e) as usize
            } else {
                0
            },
        ),
    }
}

/// The action code of a troop's answer to a move order towards location
/// pointer `dest_ptr`, the troop standing at `location_ptr`: 0x10 when it
/// is already there (not for the prospector, troop 2), else 0x0b (the
/// destination is then staged for the line).
pub fn move_acknowledgement_action(ti: usize, dest_ptr: u16, location_ptr: u16) -> (a: u8)
    ensures
        a == if ti != 2 && dest_ptr == location_ptr { 0x10u8 } else { 0x0bu8 },
{
    if ti != 2 && dest_ptr == location_ptr {
        0x10
    } else {
        0x0b
    }
}

} // verus!
