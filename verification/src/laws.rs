//! Properties of the library that span its functions or hold of every
//! input, each proved over the spec functions the functions' own contracts
//! use.
use vstd::prelude::*;
use crate::world::{Equipment, Location};
use crate::voc::{
    VocWalk, walk_blocks, apply_block, block_payload, next_block_pos, voc_parse_spec, empty_walk, voc_header_len, lipsync_of, first_ff_from,
};
use crate::troop_moves::{add_equipment_spec, remove_equipment_spec, first_linking_to};
use crate::game::GameState;
use crate::world::{troop_chain, location_index_spec};
use crate::troop_condit::rounded_average_spec;
use crate::troop_occupation::{mined_location_spec, mined_troop_spec, mining_ready_spec};
use crate::troop_travel::{queue_reached, queue_shift_count, queue_shifted};
use crate::map_travel::{step_from_deltas_spec, step_position_spec, TravelMap, centre_spec};
use crate::compass::{abs_int, tdiv, heading_deltas_spec};
use crate::troop_map::battle_gauge_spec;
use crate::troop_icons::{move_union, moved_rect};
use crate::map_travel::Rect;
use crate::hud_head::{frames_up, frames_down};
use crate::map_travel::{scroll_spec, scroll_ignored, view_lat_bound};
use crate::map_mouse::caption_run_end;
use crate::troop_contact::{next_troop_spec, id_step, icon_live};
use crate::troop_icons::TroopIcon;
use crate::world::Troop;
use crate::world::{signed16, unsigned16};
use crate::zoom::{zoom_ratio_spec, zoom_half_extent_spec};
use crate::map_travel::{loc_travel_dist, nearest_location_spec};
use crate::troop_icons::{moving_facing, pick_moving_spec, icon_word_spec};

verus! {

/// No byte of a lip-sync stream cut at its first 0xff is 0xff.
proof fn lemma_lipsync_of_no_ff(payload: Seq<u8>)
    requires
        payload.len() > 2,
    ensures
        forall|k: int| 0 <= k < lipsync_of(payload).len() ==> lipsync_of(payload)[k] != 0xff,
{
    let stream = payload.subrange(2, payload.len() as int);
    lemma_first_ff_from(stream, 0);
}

/// Everything before the first 0xff from `i` is not 0xff.
proof fn lemma_first_ff_from(s: Seq<u8>, i: int)
    requires
        0 <= i,
    ensures
        i <= first_ff_from(s, i) <= s.len() || (i > s.len() && first_ff_from(s, i) == s.len()),
        forall|k: int| i <= k < first_ff_from(s, i) ==> s[k] != 0xff,
    decreases s.len() - i,
{
    if i >= s.len() {
    } else if s[i] == 0xff {
    } else {
        lemma_first_ff_from(s, i + 1);
    }
}

/// The walk keeps the lip-sync stream free of 0xff and any rate it holds
/// within 3906..=1000000.
proof fn lemma_walk_keeps(data: Seq<u8>, pos: int, st: VocWalk)
    requires
        forall|k: int| 0 <= k < st.lipsync.len() ==> st.lipsync[k] != 0xff,
        st.rate matches Some(r) ==> 3906 <= r <= 1_000_000,
    ensures
        ({
            let w = walk_blocks(data, pos, st);
            &&& forall|k: int| 0 <= k < w.lipsync.len() ==> w.lipsync[k] != 0xff
            &&& w.rate matches Some(r) ==> 3906 <= r <= 1_000_000
        }),
    decreases data.len() - pos,
{
    if pos < 0 || pos + 4 > data.len() || data[pos] == 0 {
    } else {
        let payload = block_payload(data, pos);
        let st2 = apply_block(data[pos], payload, st);
        if data[pos] == 5 && payload.len() > 2 {
            lemma_lipsync_of_no_ff(payload);
        }
        if data[pos] == 1 && payload.len() > 2 {
            let tc = payload[0];
            assert(1_000_000int / (256 - tc as int) >= 3906) by (nonlinear_arith)
                requires
                    1 <= 256 - tc as int <= 256,
            ;
            assert(1_000_000int / (256 - tc as int) <= 1_000_000) by (nonlinear_arith)
                requires
                    1 <= 256 - tc as int <= 256,
            ;
        }
        lemma_walk_keeps(data, next_block_pos(data, pos), st2);
    }
}

/// A parsed voice file's lip-sync stream never holds the 0xff terminator
/// byte, and its sample rate is one a time constant can select
/// (1e6 / 256 ..= 1e6 Hz).
pub proof fn law_voc_lipsync_unterminated_and_rate_in_range(data: Seq<u8>)
    ensures
        voc_parse_spec(data) matches Some((rate, pcm, lipsync, looping)) ==> {
            &&& forall|k: int| 0 <= k < lipsync.len() ==> lipsync[k] != 0xff
            &&& 3906 <= rate <= 1_000_000
            &&& pcm.len() > 0
        },
{
    if data.len() >= voc_header_len() {
        lemma_walk_keeps(data, voc_header_len(), empty_walk());
    }
}

/// Taking a troop's equipment out of a location after counting it in gives
/// the location's counts back, provided no slot the troop holds was at 255
/// (where counting in wraps).
pub proof fn law_unregister_undoes_register(e: Equipment, mask: u8)
    requires
        forall|k: int|
            0 <= k < 7 && mask & (0x80u8 >> k as u8) != 0 ==> #[trigger] e.slot_spec(k) < 255,
    ensures
        remove_equipment_spec(add_equipment_spec(e, mask, 0), mask, 0) == e,
{
    lemma_add_remove_from(e, mask, 0);
}

/// Slots `a != b` of the counts are independent.
proof fn lemma_with_slot_facts(e: Equipment, a: int, x: u8, b: int, y: u8)
    requires
        0 <= a < 7,
        0 <= b < 7,
    ensures
        e.with_slot(a, x).slot_spec(a) == x,
        a != b ==> e.with_slot(a, x).slot_spec(b) == e.slot_spec(b),
        a != b ==> e.with_slot(a, x).with_slot(b, y) == e.with_slot(b, y).with_slot(a, x),
        e.with_slot(a, x).with_slot(a, y) == e.with_slot(a, y),
        e.with_slot(a, e.slot_spec(a)) == e,
{
}

/// Counting in from slot `j` on leaves the slots before `j` alone, and
/// commutes with changing one of them.
proof fn lemma_add_from_later(e: Equipment, mask: u8, j: int, k: int, v: u8)
    requires
        0 <= k < j,
        k < 7,
    ensures
        add_equipment_spec(e, mask, j).slot_spec(k) == e.slot_spec(k),
        add_equipment_spec(e.with_slot(k, v), mask, j) == add_equipment_spec(e, mask, j).with_slot(
            k,
            v,
        ),
    decreases 7 - j,
{
    if j < 7 && j >= 0 {
        let e2 = if mask & (0x80u8 >> j as u8) != 0 {
            e.with_slot(j, ((e.slot_spec(j) + 1) % 256) as u8)
        } else {
            e
        };
        lemma_with_slot_facts(e, k, v, j, ((e.slot_spec(j) + 1) % 256) as u8);
        lemma_with_slot_facts(e, j, ((e.slot_spec(j) + 1) % 256) as u8, k, v);
        lemma_add_from_later(e2, mask, j + 1, k, v);
    } else if j >= 7 {
        lemma_with_slot_facts(e, k, v, k, v);
    }
}

/// From slot `k` on, counting in then taking out gives `e` back.
proof fn lemma_add_remove_from(e: Equipment, mask: u8, k: int)
    requires
        0 <= k <= 7,
        forall|j: int|
            0 <= j < 7 && mask & (0x80u8 >> j as u8) != 0 ==> #[trigger] e.slot_spec(j) < 255,
    ensures
        remove_equipment_spec(add_equipment_spec(e, mask, k), mask, k) == e,
    decreases 7 - k,
{
    if k < 7 {
        let masked = mask & (0x80u8 >> k as u8) != 0;
        lemma_add_remove_from(e, mask, k + 1);
        if masked {
            let up = ((e.slot_spec(k) + 1) % 256) as u8;
            let e2 = e.with_slot(k, up);
            let x = add_equipment_spec(e2, mask, k + 1);
            lemma_add_from_later(e2, mask, k + 1, k, e.slot_spec(k));
            lemma_with_slot_facts(e, k, up, k, e.slot_spec(k));
            assert(x.slot_spec(k) == up);
            assert(up == e.slot_spec(k) + 1);
            assert(x.with_slot(k, e.slot_spec(k)) == add_equipment_spec(e, mask, k + 1));
        }
    }
}

/// The rounded average is the nearest whole number to `total / periods`
/// (halves rounding up): it is off by at most half a period.
pub proof fn law_rounded_average_is_nearest(total: u16, periods: u16)
    requires
        periods > 0,
    ensures
        2 * abs_int(rounded_average_spec(total, periods) * periods - total) <= periods,
{
    let q = total / periods;
    let r = total % periods;
    assert(total == q * periods + r) by (nonlinear_arith)
        requires
            q == total / periods,
            r == total % periods,
            periods > 0,
    ;
    if periods as int <= r as int * 2 {
        assert(q + 1 <= 0xffff) by (nonlinear_arith)
            requires
                total == q * periods + r,
                periods as int <= r as int * 2,
                r < periods,
                total <= 0xffff,
        ;
        assert(rounded_average_spec(total, periods) == q + 1);
        assert((q + 1) * periods - total == periods - r) by (nonlinear_arith)
            requires
                total == q * periods + r,
        ;
    } else {
        assert(rounded_average_spec(total, periods) == q);
        assert(q * periods - total == -(r as int)) by (nonlinear_arith)
            requires
                total == q * periods + r,
        ;
    }
}

/// Mining never adds spice to a field: the density only falls, and the
/// carried remainder stays below the field's spice amount.
pub proof fn law_mining_depletes_the_field(loc: Location, v: u16)
    ensures
        mined_location_spec(loc, v).spice_density <= loc.spice_density,
        loc.spice_amount != 0 ==> mined_location_spec(loc, v).field_13 < loc.spice_amount,
{
}

/// After the prospector's queue is synced, its head is not a destination
/// already reached: the next move order goes somewhere new (or nowhere).
pub proof fn law_synced_queue_head_not_reached(q: Seq<u16>, cur: u16, moving: bool)
    requires
        q.len() == 4,
        !queue_reached(q[3], cur, moving),
    ensures
        !queue_reached(queue_shifted(q, queue_shift_count(q, cur, moving))[0], cur, moving),
{
}

/// One flight step moves the latitude by at most one row.
pub proof fn law_flight_step_moves_at_most_one_row(
    x: u16,
    lat: i16,
    h: u8,
    per: int,
    accum: int,
)
    requires
        -98 <= lat <= 98,
        0 < per <= 0x4000,
        0 <= accum <= 0xff,
    ensures
        abs_int(step_position_spec(x, lat, h, per, accum).1 - lat) <= 1,
{
    let d = heading_deltas_spec(h);
    crate::compass::lemma_heading_deltas_bounded(h);
    let ls = tdiv(d.1 * per, 32);
    assert(abs_int(ls) <= 0x4000) by (nonlinear_arith)
        requires
            abs_int(ls) == abs_int(d.1 * per) / 32,
            -32 <= d.1 <= 32,
            0 < per <= 0x4000,
    ;
    let acc = abs_int(ls) + accum;
    assert(acc < 0x200 ==> acc / 256 <= 1);
    let ld = tdiv(per * d.0, 32);
    let st = step_from_deltas_spec(x, lat, h, ld, ls, accum);
    assert(step_position_spec(x, lat, h, per, accum) == st);
}

/// The battle gauge never leaves 0x40..=0xc0, and reads 0x80 (even) when
/// both sides average the same strength.
pub proof fn law_battle_gauge_range(s: (int, int, int, int))
    requires
        s.0 >= 0,
        s.1 >= 0,
        s.2 >= 0,
        s.3 >= 0,
    ensures
        0x40 <= battle_gauge_spec(s) <= 0xc0,
{
    let avg_e = if s.3 + s.1 == 0 { 0 } else { (s.3 * 256) / (s.3 + s.1) };
    let avg_c = if s.2 + s.0 == 0 { 0 } else { (s.2 * 256) / (s.2 + s.0) };
    if s.3 + s.1 != 0 {
        assert(0 <= avg_e) by (nonlinear_arith)
            requires
                avg_e == (s.3 * 256) / (s.3 + s.1),
                s.3 >= 0,
                s.3 + s.1 > 0,
        ;
    }
    if s.2 + s.0 != 0 {
        assert(0 <= avg_c) by (nonlinear_arith)
            requires
                avg_c == (s.2 * 256) / (s.2 + s.0),
                s.2 >= 0,
                s.2 + s.0 > 0,
        ;
    }
    let hi = if avg_e >= avg_c { avg_e } else { avg_c };
    if hi != 0 {
        let q = tdiv((avg_e - avg_c) * 0x80, hi);
        assert(-128 <= q <= 128) by (nonlinear_arith)
            requires
                abs_int(q) == abs_int((avg_e - avg_c) * 0x80) / abs_int(hi),
                abs_int(avg_e - avg_c) <= hi,
                hi > 0,
        ;
    }
}

/// The repaint rect of an icon move covers the icon both where it was and
/// where it went.
pub proof fn law_move_union_covers_both(r: Rect, dx: i16, dy: i16)
    requires
        r.x0 <= r.x1,
        r.y0 <= r.y1,
        -0x8000 <= r.x0 + dx <= 0x7fff,
        -0x8000 <= r.y0 + dy <= 0x7fff,
        -0x8000 <= r.x1 + dx <= 0x7fff,
        -0x8000 <= r.y1 + dy <= 0x7fff,
    ensures
        ({
            let u = move_union(r, dx, dy);
            let m = moved_rect(r, dx, dy);
            &&& u.x0 <= r.x0 && u.y0 <= r.y0 && r.x1 <= u.x1 && r.y1 <= u.y1
            &&& u.x0 <= m.x0 && u.y0 <= m.y0 && m.x1 <= u.x1 && m.y1 <= u.y1
        }),
{
}

/// On the windowed map, the row a screen point converts to projects back
/// onto the same screen row.
pub proof fn law_screen_row_round_trip(map: &TravelMap, x: i16, y: i16)
    requires
        map.wf(),
        map.mode & 0x80 == 0,
        0 <= x <= 320,
        0 <= y <= 200,
        -98 <= y - centre_spec(map.mode, map.view_rect).1 + map.zoomed_latitude <= 98,
    ensures
        ({
            let p = map.screen_to_position_spec(x, y);
            map.position_to_screen_spec(p.0, p.1).1 == y
        }),
{
}

/// On the windowed map, the column a screen point converts to projects
/// back to within two columns to its left (the longitude is rounded down
/// to its cell, and the view's own longitude within its cell): for a point
/// whose cell needs no wrap round the row and whose longitude lies within
/// half the globe of the view's.
pub proof fn law_screen_column_round_trip(map: &TravelMap, x: i16, y: i16)
    requires
        map.wf(),
        map.mode & 0x80 == 0,
        0 <= x <= 320,
        0 <= y <= 200,
        -98 <= y - centre_spec(map.mode, map.view_rect).1 + map.zoomed_latitude <= 98,
        ({
            let c = centre_spec(map.mode, map.view_rect);
            let lat = y - c.1 + map.zoomed_latitude;
            let len = map.row_len@[lat + 98] as int;
            0 <= (len * map.zoomed_longitude) / 0x10000 + (x - c.0) < len
        }),
        -0x8000 <= map.screen_to_position_spec(x, y).0 - map.zoomed_longitude <= 0x7fff,
    ensures
        ({
            let p = map.screen_to_position_spec(x, y);
            x - 2 <= map.position_to_screen_spec(p.0, p.1).0 <= x
        }),
{
    let c = centre_spec(map.mode, map.view_rect);
    let lat = y - c.1 + map.zoomed_latitude;
    let len = map.row_len@[lat + 98] as int;
    let z = map.zoomed_longitude as int;
    let z0 = (len * z) / 0x10000;
    let dx = x - c.0;
    let cell = z0 + dx;
    assert(0 < len < 0x1000);
    assert(cell % 0x10000 == cell);
    let lng = (cell * 0x10000) / len;
    assert(0 <= lng < 0x10000) by (nonlinear_arith)
        requires
            0 <= cell < len,
            0 < len,
            lng == (cell * 0x10000) / len,
    ;
    assert(lng % 0x10000 == lng);
    let p = map.screen_to_position_spec(x, y);
    assert(p.0 == lng);
    assert(p.1 == lat);
    let d = lng - z;
    assert(((p.0 - map.zoomed_longitude + 0x10000) % 0x10000) as u16 == (if d < 0 { d + 0x10000 } else { d }) as u16);
    assert(crate::world::signed16(((p.0 - map.zoomed_longitude + 0x10000) % 0x10000) as u16) == d);
    assert(z0 * 0x10000 <= len * z < (z0 + 1) * 0x10000) by (nonlinear_arith)
        requires
            z0 == (len * z) / 0x10000,
            0 <= len * z,
    ;
    assert(lng * len <= cell * 0x10000 < (lng + 1) * len) by (nonlinear_arith)
        requires
            lng == (cell * 0x10000) / len,
            0 < len,
            0 <= cell,
    ;
    let q = d * len;
    assert((dx - 2) * 0x10000 <= q <= dx * 0x10000) by (nonlinear_arith)
        requires
            q == d * len,
            d == lng - z,
            cell == z0 + dx,
            z0 * 0x10000 <= len * z < (z0 + 1) * 0x10000,
            lng * len <= cell * 0x10000 < (lng + 1) * len,
            0 < len < 0x1000,
    ;
    assert(dx - 2 <= q / 0x10000 <= dx) by (nonlinear_arith)
        requires
            (dx - 2) * 0x10000 <= q <= dx * 0x10000,
    ;
    assert(q * 1 == q);
}

/// On the windowed map, the view's centre point converts to the view's own
/// row, and projects back onto the centre row and onto the centre column
/// or up to two columns left of it (the centre's cell is the view
/// longitude rounded down to a cell, and the cell's longitude is rounded
/// down again): within one column exactly when the signed longitude lost,
/// scaled by the row length, is no more than 0x10000.
pub proof fn law_centre_point_round_trip(map: &TravelMap)
    requires
        map.wf(),
        map.mode & 0x80 == 0,
    ensures
        ({
            let c = centre_spec(map.mode, map.view_rect);
            let p = map.screen_to_position_spec(c.0 as i16, c.1 as i16);
            let s = map.position_to_screen_spec(p.0, p.1);
            let lost = crate::world::signed16(
                ((p.0 - map.zoomed_longitude + 0x10000) % 0x10000) as u16,
            );
            let len = map.row_len@[map.zoomed_latitude + 98] as int;
            &&& p.1 == map.zoomed_latitude
            &&& s.1 == c.1
            &&& c.0 - 2 <= s.0 <= c.0
            &&& (s.0 >= c.0 - 1 <==> lost * len >= -0x10000)
        }),
{
    let c = centre_spec(map.mode, map.view_rect);
    let lat = map.zoomed_latitude as int;
    let len = map.row_len@[lat + 98] as int;
    let z = map.zoomed_longitude as int;
    let z0 = (len * z) / 0x10000;
    assert(0 < len < 0x1000);
    assert(0 <= z0 < len && z0 * 0x10000 <= len * z < (z0 + 1) * 0x10000) by (nonlinear_arith)
        requires
            z0 == (len * z) / 0x10000,
            0 < len,
            0 <= z < 0x10000,
    ;
    assert(z0 % 0x10000 == z0);
    let lng = (z0 * 0x10000) / len;
    assert(0 <= lng < 0x10000 && lng * len <= z0 * 0x10000 < (lng + 1) * len) by (nonlinear_arith)
        requires
            0 <= z0 < len,
            0 < len,
            lng == (z0 * 0x10000) / len,
    ;
    assert(lng % 0x10000 == lng);
    let p = map.screen_to_position_spec(c.0 as i16, c.1 as i16);
    assert(p.0 == lng);
    assert(p.1 == lat);
    let lost = crate::world::signed16(((p.0 - map.zoomed_longitude + 0x10000) % 0x10000) as u16);
    let d = lng - z;
    assert(d * len <= 0 && d * len > -0x10000 - len) by (nonlinear_arith)
        requires
            d == lng - z,
            lng * len <= z0 * 0x10000 < (lng + 1) * len,
            z0 * 0x10000 <= len * z < (z0 + 1) * 0x10000,
    ;
    if len >= 2 {
        assert(d >= -0x8000 && d <= 0) by (nonlinear_arith)
            requires
                d * len <= 0,
                d * len > -0x10000 - len,
                len >= 2,
        ;
        assert(lost == d);
    } else {
        assert(len == 1);
        assert(-0x8000 <= lost <= 0x7fff);
        assert(lost * len == lost) by (nonlinear_arith)
            requires
                len == 1,
        ;
    }
    let q = lost * len;
    assert(-0x10000 - len < q <= 0x7fff);
    assert(q / 0x10000 == (if q >= 0 { 0 } else if q >= -0x10000 { -1 } else { -2 }));
}

/// `c` is a list of troops linked one to the next (each link names the
/// next troop's id, slot + 1), ending with a cleared link, with no troop
/// twice.
pub open spec fn links_along(troops: Seq<Troop>, c: Seq<usize>) -> bool {
    &&& forall|k: int| 0 <= k < c.len() ==> (#[trigger] c[k] as int) < troops.len() && c[k] < 255
    &&& forall|k: int|
        0 <= k < c.len() - 1 ==> troops[#[trigger] c[k] as int].next_troop_id as int == c[k + 1] + 1
    &&& c.len() > 0 ==> troops[c.last() as int].next_troop_id == 0
    &&& c.no_duplicates()
}

/// The id that heads list `c` (0 for an empty list).
pub open spec fn chain_head(c: Seq<usize>) -> int {
    if c.len() == 0 {
        0
    } else {
        c[0] + 1
    }
}

/// Walking the links from the head of a linked list gives the list back.
pub proof fn lemma_walk_of_links(troops: Seq<Troop>, c: Seq<usize>, fuel: nat)
    requires
        links_along(troops, c),
        fuel >= c.len(),
    ensures
        troop_chain(troops, chain_head(c) as u8, fuel) == c,
    decreases c.len(),
{
    if c.len() > 0 {
        let rest = c.drop_first();
        assert(links_along(troops, rest)) by {
            assert forall|k: int| 0 <= k < rest.len() - 1 implies troops[#[trigger] rest[k] as int].next_troop_id as int
                == rest[k + 1] + 1 by {
                assert(rest[k] == c[k + 1] && rest[k + 1] == c[k + 2]);
            }
            assert forall|k: int| 0 <= k < rest.len() implies (#[trigger] rest[k] as int) < troops.len()
                && rest[k] < 255 by {
                assert(rest[k] == c[k + 1]);
            }
            if rest.len() > 0 {
                assert(rest.last() == c.last());
            }
            assert forall|i: int, j: int| 0 <= i < rest.len() && 0 <= j < rest.len() && i != j implies rest[i]
                != rest[j] by {
                assert(rest[i] == c[i + 1] && rest[j] == c[j + 1]);
            }
        }
        let c0 = c[0];
        assert((c0 as int) < troops.len() && c0 < 255);
        let next = troops[c0 as int].next_troop_id;
        if c.len() == 1 {
            assert(next == 0);
        } else {
            assert(next as int == c[1] + 1);
        }
        assert(next as int == chain_head(rest));
        lemma_walk_of_links(troops, rest, (fuel - 1) as nat);
        assert(troop_chain(troops, chain_head(c) as u8, fuel) == seq![c0] + troop_chain(
            troops,
            next,
            (fuel - 1) as nat,
        ));
        assert(seq![c0] + rest =~= c);
    }
}

/// The first troop of a linked list whose link names `id` is the one at
/// `p`, where the links before it name other troops.
pub proof fn lemma_first_linking(troops: Seq<Troop>, c: Seq<usize>, id: u8, p: int)
    requires
        0 <= p < c.len(),
        troops[c[p] as int].next_troop_id == id,
        forall|k: int| 0 <= k < p ==> troops[#[trigger] c[k] as int].next_troop_id != id,
    ensures
        first_linking_to(troops, c, id) == Some(c[p]),
    decreases p,
{
    if p > 0 {
        let rest = c.drop_first();
        assert forall|k: int| 0 <= k < p - 1 implies troops[#[trigger] rest[k] as int].next_troop_id != id by {
            assert(rest[k] == c[k + 1]);
        }
        assert(rest[p - 1] == c[p]);
        lemma_first_linking(troops, rest, id, p - 1);
    }
}

/// No troop of `c` links to `id`: none links to it first.
proof fn lemma_none_linking(troops: Seq<Troop>, c: Seq<usize>, id: u8)
    requires
        forall|k: int| 0 <= k < c.len() ==> troops[#[trigger] c[k] as int].next_troop_id != id,
    ensures
        first_linking_to(troops, c, id) is None,
    decreases c.len(),
{
    if c.len() > 0 {
        let rest = c.drop_first();
        assert forall|k: int| 0 <= k < rest.len() implies troops[#[trigger] rest[k] as int].next_troop_id != id by {
            assert(rest[k] == c[k + 1]);
        }
        lemma_none_linking(troops, rest, id);
    }
}

/// Unlinking a stationed troop that is on its location's (sound) list
/// leaves the list without it, the other troops in their order.
#[verifier::rlimit(40)]
#[verifier::spinoff_prover]
proof fn lemma_unlink_listed(old: GameState, new: GameState, ti: int)
    requires
        0 <= ti < old.troops@.len() <= 255,
        old.troops@[ti].troop_id == ti + 1,
        old.troops@[ti].occupation & 0x40 == 0,
        location_index_spec(old.troops@[ti].offset_of_location) < old.locations@.len(),
        ({
            let li = location_index_spec(old.troops@[ti].offset_of_location);
            let c = troop_chain(old.troops@, old.locations@[li].troop_id, old.troops@.len() as nat);
            &&& links_along(old.troops@, c)
            &&& chain_head(c) == old.locations@[li].troop_id
            &&& c.contains(ti as usize)
        }),
        new.is_unlink_of(&old, ti),
    ensures
        ({
            let li = location_index_spec(old.troops@[ti].offset_of_location);
            let c = troop_chain(old.troops@, old.locations@[li].troop_id, old.troops@.len() as nat);
            troop_chain(new.troops@, new.locations@[li].troop_id, old.troops@.len() as nat) == c.remove(
                c.index_of(ti as usize),
            )
        }),
{
    let t = old.troops@[ti];
    let li = location_index_spec(t.offset_of_location);
    let n = old.troops@.len();
    let c = troop_chain(old.troops@, old.locations@[li].troop_id, n as nat);
    let p = c.index_of(ti as usize);
    assert(0 <= p < c.len() && c[p] == ti as usize);
    let c2 = c.remove(p);
    let head = old.locations@[li].troop_id;
    assert(t.troop_id == ti + 1);
    assert(c.len() <= n) by {
        crate::world::lemma_troop_chain_in_range(old.troops@, head, n as nat);
    }
    assert forall|k: int| 0 <= k < c.len() && k != p implies c[k] != ti as usize by {}
    if p == 0 {
        assert(head == t.troop_id);
        assert(new.locations@[li].troop_id == t.next_troop_id);
        assert(new.troops@ =~= old.troops@.update(ti, Troop { next_troop_id: 0, ..t }));
        assert(c2 =~= c.drop_first());
        assert(links_along(new.troops@, c2)) by {
            assert forall|k: int| 0 <= k < c2.len() - 1 implies new.troops@[#[trigger] c2[k] as int].next_troop_id
                as int == c2[k + 1] + 1 by {
                assert(c2[k] == c[k + 1] && c2[k + 1] == c[k + 2]);
                assert(c[k + 1] != ti as usize);
            }
            assert forall|k: int| 0 <= k < c2.len() implies (#[trigger] c2[k] as int) < new.troops@.len()
                && c2[k] < 255 by {
                assert(c2[k] == c[k + 1]);
            }
            if c2.len() > 0 {
                assert(c2.last() == c.last());
                assert(c.last() != ti as usize);
            }
            assert forall|i: int, j: int| 0 <= i < c2.len() && 0 <= j < c2.len() && i != j implies c2[i]
                != c2[j] by {
                assert(c2[i] == c[i + 1] && c2[j] == c[j + 1]);
            }
        }
        if c.len() == 1 {
            assert(t.next_troop_id == 0);
        } else {
            assert(t.next_troop_id as int == c[1] + 1);
        }
        assert(chain_head(c2) == t.next_troop_id);
        lemma_walk_of_links(new.troops@, c2, n as nat);
    } else {
        assert(c[0] != ti as usize);
        assert(head as int == c[0] + 1);
        assert(head != t.troop_id);
        let pred = c[p - 1];
        assert forall|k: int| 0 <= k < p - 1 implies old.troops@[#[trigger] c[k] as int].next_troop_id != t.troop_id by {
            assert(old.troops@[c[k] as int].next_troop_id as int == c[k + 1] + 1);
            assert(c[k + 1] != ti as usize);
        }
        assert(old.troops@[c[p - 1] as int].next_troop_id as int == c[p] + 1);
        lemma_first_linking(old.troops@, c, t.troop_id, p - 1);
        assert(pred != ti as usize);
        let t2 = old.troops@.update(
            pred as int,
            Troop { next_troop_id: t.next_troop_id, ..old.troops@[pred as int] },
        ).update(ti, Troop { next_troop_id: 0, ..t });
        assert(new.troops@ == t2);
        assert(new.locations@ == old.locations@);
        assert forall|k: int| 0 <= k < c.len() && k != p - 1 implies c[k] != pred by {}
        assert(links_along(new.troops@, c2)) by {
            assert forall|k: int| 0 <= k < c2.len() - 1 implies new.troops@[#[trigger] c2[k] as int].next_troop_id
                as int == c2[k + 1] + 1 by {
                if k < p - 1 {
                    assert(c2[k] == c[k] && c2[k + 1] == c[k + 1]);
                } else if k == p - 1 {
                    assert(c2[k] == pred && c2[k + 1] == c[p + 1]);
                    assert(t.next_troop_id as int == c[p + 1] + 1);
                } else {
                    assert(c2[k] == c[k + 1] && c2[k + 1] == c[k + 2]);
                }
            }
            assert forall|k: int| 0 <= k < c2.len() implies (#[trigger] c2[k] as int) < new.troops@.len()
                && c2[k] < 255 by {
                if k < p {
                    assert(c2[k] == c[k]);
                } else {
                    assert(c2[k] == c[k + 1]);
                }
            }
            if c2.len() > 0 {
                if p == c.len() - 1 {
                    assert(c2.last() == pred);
                    assert(t.next_troop_id == 0);
                } else {
                    assert(c2.last() == c.last());
                }
            }
            assert forall|i: int, j: int| 0 <= i < c2.len() && 0 <= j < c2.len() && i != j implies c2[i]
                != c2[j] by {
                let ii = if i < p { i } else { i + 1 };
                let jj = if j < p { j } else { j + 1 };
                assert(c2[i] == c[ii] && c2[j] == c[jj]);
            }
        }
        assert(c2[0] == c[0]);
        assert(chain_head(c2) == head);
        lemma_walk_of_links(new.troops@, c2, n as nat);
    }
}

/// Unlinking a stationed troop from its location's list: for a sound list
/// (each troop on it once, linked one to the next, the last link cleared),
/// the list loses the troop, the other troops kept in their order (a troop
/// not on it leaves it as it was); the troop's own link is cleared; no
/// other location's head changes; and the only other troop that changes is
/// the one of the list that linked to it.
#[verifier::rlimit(80)]
#[verifier::spinoff_prover]
pub proof fn law_unlink_removes_from_the_list(old: GameState, new: GameState, ti: int)
    requires
        0 <= ti < old.troops@.len() <= 255,
        old.troops@[ti].troop_id == ti + 1,
        old.troops@[ti].occupation & 0x40 == 0,
        location_index_spec(old.troops@[ti].offset_of_location) < old.locations@.len(),
        ({
            let li = location_index_spec(old.troops@[ti].offset_of_location);
            let c = troop_chain(old.troops@, old.locations@[li].troop_id, old.troops@.len() as nat);
            &&& links_along(old.troops@, c)
            &&& chain_head(c) == old.locations@[li].troop_id
        }),
        new.is_unlink_of(&old, ti),
    ensures
        ({
            let li = location_index_spec(old.troops@[ti].offset_of_location);
            let c = troop_chain(old.troops@, old.locations@[li].troop_id, old.troops@.len() as nat);
            &&& troop_chain(new.troops@, new.locations@[li].troop_id, old.troops@.len() as nat) == if c.contains(
                ti as usize,
            ) {
                c.remove(c.index_of(ti as usize))
            } else {
                c
            }
            &&& new.troops@[ti].next_troop_id == 0
            &&& forall|l: int|
                0 <= l < old.locations@.len() && l != li ==> #[trigger] new.locations@[l]
                    == old.locations@[l]
            &&& forall|j: int|
                0 <= j < old.troops@.len() && j != ti && #[trigger] new.troops@[j] != old.troops@[j]
                    ==> c.contains(j as usize) && old.troops@[j].next_troop_id == ti + 1
        }),
{
    let t = old.troops@[ti];
    let li = location_index_spec(t.offset_of_location);
    let n = old.troops@.len();
    let head = old.locations@[li].troop_id;
    let c = troop_chain(old.troops@, head, n as nat);
    lemma_unlink_chain(old, new, ti);
    lemma_first_linking_found(old.troops@, c, t.troop_id);
    assert forall|j: int|
        0 <= j < old.troops@.len() && j != ti && #[trigger] new.troops@[j] != old.troops@[j]
            implies c.contains(j as usize) && old.troops@[j].next_troop_id == ti + 1 by {
        if head != t.troop_id {
            match first_linking_to(old.troops@, c, t.troop_id) {
                Some(q) => {
                    assert(j == q as int);
                },
                None => {},
            }
        }
    }
}

/// The troop `first_linking_to` finds is on the list and links to `id`.
proof fn lemma_first_linking_found(troops: Seq<Troop>, c: Seq<usize>, id: u8)
    ensures
        first_linking_to(troops, c, id) matches Some(q) ==> c.contains(q) && troops[q as int].next_troop_id
            == id,
    decreases c.len(),
{
    if c.len() > 0 && troops[c[0] as int].next_troop_id != id {
        let rest = c.drop_first();
        lemma_first_linking_found(troops, rest, id);
        if let Some(q) = first_linking_to(troops, rest, id) {
            let k = choose|k: int| 0 <= k < rest.len() && rest[k] == q;
            assert(c[k + 1] == q);
        }
    } else if c.len() > 0 {
        assert(c[0] == c[0]);
    }
}

/// The list clause of `law_unlink_removes_from_the_list`.
#[verifier::rlimit(40)]
#[verifier::spinoff_prover]
proof fn lemma_unlink_chain(old: GameState, new: GameState, ti: int)
    requires
        0 <= ti < old.troops@.len() <= 255,
        old.troops@[ti].troop_id == ti + 1,
        old.troops@[ti].occupation & 0x40 == 0,
        location_index_spec(old.troops@[ti].offset_of_location) < old.locations@.len(),
        ({
            let li = location_index_spec(old.troops@[ti].offset_of_location);
            let c = troop_chain(old.troops@, old.locations@[li].troop_id, old.troops@.len() as nat);
            &&& links_along(old.troops@, c)
            &&& chain_head(c) == old.locations@[li].troop_id
        }),
        new.is_unlink_of(&old, ti),
    ensures
        ({
            let li = location_index_spec(old.troops@[ti].offset_of_location);
            let c = troop_chain(old.troops@, old.locations@[li].troop_id, old.troops@.len() as nat);
            troop_chain(new.troops@, new.locations@[li].troop_id, old.troops@.len() as nat) == if c.contains(
                ti as usize,
            ) {
                c.remove(c.index_of(ti as usize))
            } else {
                c
            }
        }),
{
    let t = old.troops@[ti];
    let li = location_index_spec(t.offset_of_location);
    let head = old.locations@[li].troop_id;
    let c = troop_chain(old.troops@, head, old.troops@.len() as nat);
    if c.contains(ti as usize) {
        lemma_unlink_listed(old, new, ti);
    } else {
        lemma_unlink_unlisted(old, new, ti);
    }
}

/// Unlinking a stationed troop that is not on its location's (sound) list
/// leaves the list as it was.
#[verifier::rlimit(40)]
#[verifier::spinoff_prover]
proof fn lemma_unlink_unlisted(old: GameState, new: GameState, ti: int)
    requires
        0 <= ti < old.troops@.len() <= 255,
        old.troops@[ti].troop_id == ti + 1,
        old.troops@[ti].occupation & 0x40 == 0,
        location_index_spec(old.troops@[ti].offset_of_location) < old.locations@.len(),
        ({
            let li = location_index_spec(old.troops@[ti].offset_of_location);
            let c = troop_chain(old.troops@, old.locations@[li].troop_id, old.troops@.len() as nat);
            &&& links_along(old.troops@, c)
            &&& chain_head(c) == old.locations@[li].troop_id
            &&& !c.contains(ti as usize)
        }),
        new.is_unlink_of(&old, ti),
    ensures
        ({
            let li = location_index_spec(old.troops@[ti].offset_of_location);
            let c = troop_chain(old.troops@, old.locations@[li].troop_id, old.troops@.len() as nat);
            troop_chain(new.troops@, new.locations@[li].troop_id, old.troops@.len() as nat) == c
        }),
{
    let t = old.troops@[ti];
    let li = location_index_spec(t.offset_of_location);
    let n = old.troops@.len();
    let head = old.locations@[li].troop_id;
    let c = troop_chain(old.troops@, head, n as nat);
    lemma_unlisted_troop(old.troops@, c, ti, head);
    crate::world::lemma_troop_chain_in_range(old.troops@, head, n as nat);
    assert(new.troops@ == old.troops@.update(ti, Troop { next_troop_id: 0, ..t }));
    lemma_chain_past_an_unlisted_troop(old.troops@, c, ti, Troop { next_troop_id: 0, ..t });
}

/// A troop not on a sound list heads it not and no troop of it links to
/// it.
proof fn lemma_unlisted_troop(troops: Seq<Troop>, c: Seq<usize>, ti: int, head: u8)
    requires
        0 <= ti < troops.len(),
        troops[ti].troop_id == ti + 1,
        links_along(troops, c),
        chain_head(c) == head,
        !c.contains(ti as usize),
    ensures
        head != troops[ti].troop_id,
        first_linking_to(troops, c, troops[ti].troop_id) is None,
{
    let id = troops[ti].troop_id;
    if head == id {
        assert(c.len() > 0);
        assert(c[0] == ti as usize);
    }
    assert forall|k: int| 0 <= k < c.len() implies troops[#[trigger] c[k] as int].next_troop_id != id by {
        if k < c.len() - 1 {
            assert(troops[c[k] as int].next_troop_id as int == c[k + 1] + 1);
            assert(c[k + 1] != ti as usize);
        }
    }
    lemma_none_linking(troops, c, id);
}

/// Changing a troop that is not on a sound list leaves the walk of the
/// list as it was.
proof fn lemma_chain_past_an_unlisted_troop(troops: Seq<Troop>, c: Seq<usize>, ti: int, x: Troop)
    requires
        0 <= ti < troops.len(),
        links_along(troops, c),
        c.len() <= troops.len(),
        !c.contains(ti as usize),
    ensures
        troop_chain(troops.update(ti, x), chain_head(c) as u8, troops.len() as nat) == c,
{
    let t2 = troops.update(ti, x);
    assert forall|k: int| 0 <= k < c.len() implies t2[#[trigger] c[k] as int] == troops[c[k] as int] by {
        assert(c[k] != ti as usize);
    }
    assert(links_along(t2, c));
    lemma_walk_of_links(t2, c, troops.len() as nat);
}

/// Unlinking a moving troop clears its own link and changes no list: no
/// location's head and no other troop's link.
pub proof fn law_unlink_of_a_moving_troop_changes_no_list(old: GameState, new: GameState, ti: int)
    requires
        0 <= ti < old.troops@.len(),
        old.troops@[ti].occupation & 0x40 != 0,
        new.is_unlink_of(&old, ti),
    ensures
        new.troops@[ti].next_troop_id == 0,
        new.locations@ == old.locations@,
        forall|j: int| 0 <= j < old.troops@.len() && j != ti ==> #[trigger] new.troops@[j] == old.troops@[j],
{
}

/// Raising the HUD head from `index` plays one frame per step and ends
/// fully raised; folding it from there plays one frame per step back to
/// folded.
pub proof fn law_hud_head_up_then_down(index: u8, strip: bool)
    requires
        index < 10,
    ensures
        frames_up(index, strip).len() == 10 - index,
        frames_up(index, strip).last().index == 10,
        frames_down(10).len() == 10,
        frames_down(10).last().index == 0,
{
}

/// A map arrow click followed by the opposite arrow gives back the view it
/// started from: up then down, down then up, right then left, left then
/// right, as long as the view stays a scroll away from its latitude bound
/// (where the clamp stops it).
#[verifier::rlimit(60)]
#[verifier::spinoff_prover]
pub proof fn law_opposite_arrows_undo(tm: TravelMap)
    requires
        !scroll_ignored(tm, true),
        -view_lat_bound(tm) + 0x0c <= tm.zoomed_latitude <= view_lat_bound(tm) - 0x0c,
    ensures
        scroll_spec(scroll_spec(tm, 0, -0x0ci16, true), 0, 0x0ci16, true) == tm,
        scroll_spec(scroll_spec(tm, 0, 0x0ci16, true), 0, -0x0ci16, true) == tm,
        scroll_spec(scroll_spec(tm, 0x1002, 0, true), 0xeffe, 0, true) == tm,
        scroll_spec(scroll_spec(tm, 0xeffe, 0, true), 0x1002, 0, true) == tm,
{
}

/// The "you are here" marker shows on every other blink: two blinks in a
/// row never both draw it, nor both leave it off.
pub proof fn law_player_marker_blinks_alternate(phase: u8)
    ensures
        (((phase + 1) % 256) % 2 == 1) != (((((phase + 1) % 256) + 1) % 256) % 2 == 1),
{
}

/// The caption typewriter keeps typing until the terminator: a firing on
/// a glyph moves on (and never past the text), and at the terminator it
/// stays put.
pub proof fn law_caption_types_until_the_terminator(text: Seq<u8>, pos: int)
    requires
        0 <= pos < text.len(),
    ensures
        text[pos] & 0x80 == 0 ==> pos < caption_run_end(text, pos) <= text.len(),
        text[pos] & 0x80 != 0 ==> caption_run_end(text, pos) == pos,
    decreases text.len() - pos,
{
    if text[pos] & 0x80 == 0 && text[pos] == 0x20 {
        if pos + 1 < text.len() {
            law_caption_types_until_the_terminator(text, pos + 1);
        } else {
            assert(caption_run_end(text, pos + 1) == pos + 1);
        }
    }
}

/// The NEXT TROOP verb moves to the rallied troop with the next id up from
/// the selected one (wrapping round): the icon it picks has the smallest
/// non-zero id step among the rallied troops' icons, and it picks one
/// whenever such an icon exists.
pub proof fn law_next_troop_is_the_next_id_up(
    icons: Seq<TroopIcon>,
    troops: Seq<Troop>,
    selected: u8,
    n: int,
)
    requires
        0 <= n <= icons.len(),
        icons.len() <= usize::MAX,
        forall|k: int| 0 <= k < icons.len() ==> (#[trigger] icons[k]).troop_index < troops.len(),
    ensures
        ({
            let r = next_troop_spec(icons, troops, selected, n);
            &&& (forall|k: int|
                0 <= k < n && #[trigger] icon_live(icons, troops, selected, k) ==> r.1 <= id_step(
                    icons,
                    troops,
                    selected,
                    k,
                ))
            &&& (r.0 is Some <==> exists|k: int|
                0 <= k < n && #[trigger] icon_live(icons, troops, selected, k))
            &&& (r.0 matches Some(i) ==> 0 <= i < n && icon_live(icons, troops, selected, i as int)
                && r.1 == id_step(icons, troops, selected, i as int))
            &&& (r.0 is None ==> r.1 == 0xff)
        }),
    decreases n,
{
    if n > 0 {
        law_next_troop_is_the_next_id_up(icons, troops, selected, n - 1);
        let prev = next_troop_spec(icons, troops, selected, n - 1);
        let r = next_troop_spec(icons, troops, selected, n);
        let last = n - 1;
        if icon_live(icons, troops, selected, last) && id_step(icons, troops, selected, last)
            <= prev.1 {
            assert(r == (Some(last as usize), id_step(icons, troops, selected, last)));
        } else {
            assert(r == prev);
        }
        assert forall|k: int|
            0 <= k < n && #[trigger] icon_live(icons, troops, selected, k) implies r.1 <= id_step(
            icons,
            troops,
            selected,
            k,
        ) by {
            if k < last {
                assert(prev.1 <= id_step(icons, troops, selected, k));
            }
        }
        if r.0 is None {
            assert forall|k: int| 0 <= k < n implies !#[trigger] icon_live(
                icons,
                troops,
                selected,
                k,
            ) by {
                if k == last && icon_live(icons, troops, selected, k) {
                    assert(id_step(icons, troops, selected, k) <= 0xff);
                }
            }
        }
    }
}

/// The flight's step clock after `n` steps from `c`, each step moving it on
/// as `travel_step_counter_tick` does.
pub open spec fn step_clock_after(c: u16, n: nat) -> u16
    decreases n,
{
    if n == 0 {
        c
    } else {
        ((step_clock_after(c, (n - 1) as nat) + 1) % 0x10000) as u16
    }
}

/// From a departure (the clock reset to 0), the clock after `n` steps reads
/// `n` (16-bit), and the `n`-th step runs a time period of events exactly
/// when `n` is a multiple of 16.
pub proof fn law_every_sixteenth_step_runs_events(n: nat)
    ensures
        step_clock_after(0, n) == n % 0x10000,
        (step_clock_after(0, n) % 16 == 0) <==> (n % 16 == 0),
    decreases n,
{
    if n > 0 {
        law_every_sixteenth_step_runs_events((n - 1) as nat);
        assert(((n - 1) % 0x10000 + 1) % 0x10000 == n % 0x10000) by (nonlinear_arith)
            requires
                n > 0,
        ;
    }
    assert((n % 0x10000) % 16 == n % 16) by (nonlinear_arith);
}

/// A harvest of `v` kg grows the troop's running total by `v` (16-bit),
/// and the troop's spice skill rises by exactly one point (never past
/// 0x5f) when the total crossed a multiple of 128 kg, and stays otherwise.
pub proof fn law_mining_skill_point_per_128_kg(t: Troop, v: u16)
    requires
        t.spice_skill != 0xff,
    ensures
        ({
            let n = mined_troop_spec(t, v);
            let crossed = n.harvest_total / 128 != t.harvest_total / 128;
            &&& n.harvest_total == (t.harvest_total + v) % 0x10000
            &&& n.spice_skill == if crossed {
                if t.spice_skill + 1 > 0x5f {
                    0x5f
                } else {
                    t.spice_skill + 1
                }
            } else {
                t.spice_skill as int
            }
        }),
{
    let t3 = Troop { bitfield_10: t.bitfield_10 | 0x100, ..t };
    let old_total = t3.harvest_total;
    let total = ((t3.harvest_total + v) % 0x10000) as u16;
    assert(((total ^ old_total) & 0xff80 != 0) == (total / 128 != old_total / 128)) by (bit_vector);
}

/// In a period in which a troop mines, its spice skill (at most 0x5f)
/// rises by at most one point.
pub proof fn law_mining_period_raises_skill_at_most_one(old: GameState, new: GameState, ti: int)
    requires
        0 <= ti < old.troops@.len(),
        0 <= old.troop_loc(ti) < old.locations@.len(),
        old.troops@[ti].spice_skill <= 0x5f,
        mining_ready_spec(
            old.troops@[ti],
            old.locations@[old.troop_loc(ti)],
            old.vars.game_time,
        ) is Some,
        new.is_mining_period_of(&old, ti),
    ensures
        new.troops@[ti].spice_skill == old.troops@[ti].spice_skill || new.troops@[ti].spice_skill
            == old.troops@[ti].spice_skill + 1,
{
    let t = old.troops@[ti];
    let t2 = mining_ready_spec(t, old.locations@[old.troop_loc(ti)], old.vars.game_time)->0;
    assert(t2.spice_skill == t.spice_skill);
    let v = crate::troop_occupation::troop_harvest_spec(t, old.locations@[old.troop_loc(ti)], old.vars);
    law_mining_skill_point_per_128_kg(t2, v);
}

/// The zoom kernels push in: each scale selector 1..7 magnifies strictly
/// more than the one before, from 8/7 up to 8x.
pub proof fn law_zoom_ratios_push_in(a: u8, b: u8)
    requires
        1 <= a < b <= 7,
    ensures
        zoom_ratio_spec(a).0 * zoom_ratio_spec(b).1 < zoom_ratio_spec(b).0 * zoom_ratio_spec(a).1,
        zoom_ratio_spec(1) == (8int, 7int),
        zoom_ratio_spec(7) == (8int, 1int),
{
}

/// Each zoom step's source rect (twice its half extent each way), blown
/// up by the step's kernel ratio, fills the 320x152 game area: never past
/// it, and short of it by less than two source pixels.
pub proof fn law_zoom_step_fills_the_game_area(scale: u8)
    requires
        1 <= scale <= 7,
    ensures
        ({
            let (num, den) = zoom_ratio_spec(scale);
            let h = zoom_half_extent_spec(scale as int);
            &&& 320 * den - 2 * num < 2 * h.0 * num <= 320 * den
            &&& 152 * den - 2 * num < 2 * h.1 * num <= 152 * den
        }),
{
    let (num, den) = zoom_ratio_spec(scale);
    let h = zoom_half_extent_spec(scale as int);
    if scale == 1 {
        assert(num == 8 && den == 7 && h.0 == 140 && h.1 == 66);
    } else if scale == 2 {
        assert(num == 4 && den == 3 && h.0 == 120 && h.1 == 57);
    } else if scale == 3 {
        assert(num == 3 && den == 2 && h.0 == 106 && h.1 == 50);
    } else if scale == 4 {
        assert(num == 2 && den == 1 && h.0 == 80 && h.1 == 38);
    } else if scale == 5 {
        assert(num == 3 && den == 1 && h.0 == 53 && h.1 == 25);
    } else if scale == 6 {
        assert(num == 4 && den == 1 && h.0 == 40 && h.1 == 19);
    } else {
        assert(num == 8 && den == 1 && h.0 == 20 && h.1 == 9);
    }
}

/// A location's travel distance is at least its latitude gap's low byte
/// and at least its longitude gap in whole 256-unit cells, and it is one
/// of the two gaps (the cells, or the whole latitude gap): a location many
/// rows away is never nearer than one a few cells away.
pub proof fn law_travel_distance_bounds_both_gaps(loc: Location, x: u16, lat: i16)
    ensures
        ({
            let dlng = abs_int(signed16(((unsigned16(loc.map_x) - x + 0x10000) % 0x10000) as u16) as int);
            let dlat = abs_int(
                signed16(((unsigned16(loc.map_y) - unsigned16(lat) + 0x10000) % 0x10000) as u16) as int,
            );
            let d = loc_travel_dist(loc, x, lat);
            &&& d >= dlng / 256
            &&& d >= dlat % 256
            &&& (d == dlng / 256 || d == dlat)
        }),
{
    let dlat = abs_int(
        signed16(((unsigned16(loc.map_y) - unsigned16(lat) + 0x10000) % 0x10000) as u16) as int,
    );
    assert(dlat >= 0);
    assert(dlat >= dlat % 256);
}

/// The place TOWARDS NEAREST PLACE picks among the first `n` locations is
/// one that is not hidden, and no location that is not hidden is nearer
/// by travel distance (the first of equals wins); with every one hidden it
/// is the first.
pub proof fn law_nearest_place_is_nearest(locations: Seq<Location>, x: u16, lat: i16, n: int)
    requires
        0 <= n <= locations.len(),
    ensures
        ({
            let r = nearest_location_spec(locations, x, lat, n);
            &&& (exists|j: int| 0 <= j < n && locations[j].status & 0x80 == 0) ==> {
                &&& 0 <= r.0 < n
                &&& locations[r.0].status & 0x80 == 0
                &&& r.1 == loc_travel_dist(locations[r.0], x, lat)
                &&& forall|j: int|
                    0 <= j < n && locations[j].status & 0x80 == 0 ==> r.1 <= #[trigger] loc_travel_dist(
                        locations[j],
                        x,
                        lat,
                    )
            }
            &&& (forall|j: int| 0 <= j < n ==> locations[j].status & 0x80 != 0) ==> r == (0int, 0xffffint)
        }),
    decreases n,
{
    if n > 0 {
        law_nearest_place_is_nearest(locations, x, lat, n - 1);
        law_travel_distance_bounds_both_gaps(locations[n - 1], x, lat);
        let prev = nearest_location_spec(locations, x, lat, n - 1);
        assert(loc_travel_dist(locations[n - 1], x, lat) < 0xffff) by {
            let l = locations[n - 1];
            let dlng = abs_int(signed16(((unsigned16(l.map_x) - x + 0x10000) % 0x10000) as u16) as int);
            let dlat = abs_int(
                signed16(((unsigned16(l.map_y) - unsigned16(lat) + 0x10000) % 0x10000) as u16) as int,
            );
            assert(dlng <= 0x8000 && dlat <= 0x8000);
        }
        if exists|j: int| 0 <= j < n - 1 && locations[j].status & 0x80 == 0 {
        } else {
            assert(prev == (0int, 0xffffint));
        }
    }
}

/// The compass step of facing `f` (0 = north, 1 = east, 2 = south, 3 =
/// west), latitude growing southward.
pub open spec fn facing_step(f: int) -> (int, int) {
    if f == 0 {
        (0, -1)
    } else if f == 1 {
        (1, 0)
    } else if f == 2 {
        (0, 1)
    } else {
        (-1, 0)
    }
}

/// A moving troop's icon faces its destination: the facing's compass step
/// points along the larger of the coarse longitude gap (whole 256-unit
/// cells) and the latitude gap from the troop to the location, toward it
/// (the longitude wins a tie), and the icon is that facing's entry of the
/// moving table for the troop's occupation class.
pub proof fn law_moving_icon_faces_its_destination(t: Troop, l: Location)
    ensures
        ({
            let dx = (signed16(((unsigned16(l.map_x) - t.gps_coordinates_1 + 0x10000) % 0x10000) as u16)
                as int) / 256;
            let dy = signed16(((unsigned16(l.map_y) - t.gps_coordinates_2 + 0x10000) % 0x10000) as u16)
                as int;
            let f = moving_facing(t, l);
            let step = facing_step(f);
            &&& 0 <= f < 4
            &&& step.0 * dx + step.1 * dy == if abs_int(dx) >= abs_int(dy) {
                abs_int(dx)
            } else {
                abs_int(dy)
            }
            &&& (abs_int(dx) >= abs_int(dy) ==> step.1 == 0)
            &&& pick_moving_spec(t, Some(l)) == icon_word_spec(
                0x18bf + 2 * (f + 4 * ((t.occupation / 4) % 4)),
            )
        }),
{
    let dx = (signed16(((unsigned16(l.map_x) - t.gps_coordinates_1 + 0x10000) % 0x10000) as u16)
        as int) / 256;
    let dy = signed16(((unsigned16(l.map_y) - t.gps_coordinates_2 + 0x10000) % 0x10000) as u16)
        as int;
    let f = moving_facing(t, l);
    if abs_int(dx) >= abs_int(dy) {
        if dx < 0 {
            assert(f == 3);
            assert(facing_step(f) == (-1int, 0int));
        } else {
            assert(f == 1);
            assert(facing_step(f) == (1int, 0int));
        }
    } else if dy < 0 {
        assert(f == 0);
        assert(facing_step(f) == (0int, -1int));
    } else {
        assert(f == 2);
        assert(facing_step(f) == (0int, 1int));
    }
}

} // verus!
