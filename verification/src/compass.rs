//! Compass arithmetic of the map and the flight: the angle of a screen or
//! map delta (0 = north, growing clockwise, 0x40 per quarter turn), and the
//! per-step travel deltas of a heading.
use vstd::prelude::*;
use crate::world::{abs_i16, signed16};

verus! {

/// The magnitude of an integer.
pub open spec fn abs_int(v: int) -> int {
    if v >= 0 {
        v
    } else {
        -v
    }
}

/// Integer division truncating toward zero (the 8086 `idiv`).
pub open spec fn tdiv(a: int, b: int) -> int {
    if (a >= 0) == (b > 0) {
        abs_int(a) / abs_int(b)
    } else {
        -(abs_int(a) / abs_int(b))
    }
}

/// A byte read as signed.
pub open spec fn signed8_spec(v: int) -> int {
    if v >= 128 {
        v - 256
    } else {
        v
    }
}

/// The compass angle of a delta (`dx` right, `dy` down): 0 due north,
/// growing clockwise, 0x40 per quarter turn, interpolated inside each
/// octant as 0x20 times the minor over the major delta (truncated); a zero
/// delta gives 0.
pub open spec fn compass_angle_spec(dx: i16, dy: i16) -> u8 {
    if abs_int(dx as int) >= abs_int(dy as int) {
        if dx == 0 {
            0
        } else {
            ((tdiv(0x20 * dy, dx as int) + if dx >= 0 { 0x40int } else { 0xc0int }) % 256) as u8
        }
    } else {
        let q = tdiv(0x20 * dx, dy as int);
        ((-(if dy >= 0 { q - 0x80 } else { q })) % 256) as u8
    }
}

/// The per-step travel deltas `(dlng, dlat)` of a heading: the major axis
/// of the heading's quadrant gets one full step (0x20, signed), the minor
/// axis the signed offset of the heading from the quadrant's axis.
pub open spec fn heading_deltas_spec(h: u8) -> (i16, i16) {
    let bl = (h + 0x20) % 256;
    if bl % 128 >= 64 {
        if bl >= 128 {
            (-32i16, signed8_spec((256 - (h - 0xc0 + 256) % 256) % 256) as i16)
        } else {
            (32, signed8_spec((h - 0x40 + 256) % 256) as i16)
        }
    } else {
        if bl >= 128 {
            (signed8_spec((256 - (h - 0x80 + 256) % 256) % 256) as i16, 32)
        } else {
            (signed8_spec(h as int) as i16, -32i16)
        }
    }
}

/// The compass angle from map position `(x, lat)` to `(target_x,
/// target_lat)`: the wrapped longitude delta (16-bit) and the latitude
/// delta, both halved once (arithmetically) when the latitude delta is
/// outside -0x80..0x80, the latitude then scaled by 256 onto the longitude
/// scale.
pub open spec fn compass_to_position_spec(target_x: u16, target_lat: i16, x: u16, lat: i16) -> u8 {
    let dlat0 = signed16(((target_lat - lat + 0x10000) % 0x10000) as u16);
    let dx0 = signed16(((target_x - x + 0x10000) % 0x10000) as u16);
    let halve = !(-0x80 <= dlat0 < 0x80);
    let dlat: int = if halve { (dlat0 as int) / 2 } else { dlat0 as int };
    let dx: int = if halve { (dx0 as int) / 2 } else { dx0 as int };
    compass_angle_spec(dx as i16, (signed8_spec((dlat + 256) % 256) * 256) as i16)
}

/// A byte read as signed, widened.
pub fn signed8(v: u8) -> (r: i16)
    ensures
        r == signed8_spec(v as int),
{
    if v >= 128 {
        (v as i16) - 256
    } else {
        v as i16
    }
}

/// The compass angle of a screen delta (`dx` right, `dy` down).
pub fn compass_angle_from_delta(dx: i16, dy: i16) -> (a: u8)
    ensures
        a == compass_angle_spec(dx, dy),
{
    let adx = abs_i16(dx) as u32;
    let ady = abs_i16(dy) as u32;
    if adx >= ady {
        if dx == 0 {
            return 0;
        }
        let mag = (0x20 * ady) / adx;
        assert(mag <= 0x20) by (nonlinear_arith)
            requires
                mag == (0x20 * ady) as int / adx as int,
                ady <= adx,
                adx > 0,
        ;
        let q: i32 = if (dy >= 0) == (dx > 0) {
            mag as i32
        } else {
            -(mag as i32)
        };
        let base: i32 = if dx >= 0 {
            0x40
        } else {
            0xc0
        };
        proof {
            assert(abs_int(0x20 * dy) == 0x20 * ady);
            assert(q == tdiv(0x20 * dy, dx as int));
            assert(0 <= q + base < 256);
        }
        (q + base) as u8
    } else {
        let mag = (0x20 * adx) / ady;
        assert(mag < 0x20) by (nonlinear_arith)
            requires
                mag == (0x20 * adx) as int / ady as int,
                adx < ady,
        ;
        let q: i32 = if (dx >= 0) == (dy > 0) {
            mag as i32
        } else {
            -(mag as i32)
        };
        proof {
            assert(abs_int(0x20 * dx) == 0x20 * adx);
            assert(q == tdiv(0x20 * dx, dy as int));
        }
        let al: i32 = if dy >= 0 {
            q - 0x80
        } else {
            q
        };
        let v: i32 = -al;
        if v < 0 {
            (v + 256) as u8
        } else {
            v as u8
        }
    }
}

/// Split a compass heading into per-step travel deltas.
pub fn travel_heading_deltas(heading: u8) -> (d: (i16, i16))
    ensures
        d == heading_deltas_spec(heading),
{
    let bl = heading.wrapping_add(0x20);
    assert(bl & 0x7f == bl % 128 && bl & 0x80 == (if bl >= 128 { 0x80u8 } else { 0u8 }))
        by (bit_vector);
    if bl & 0x7f >= 0x40 {
        let mut dlng: i16 = 0x20;
        let mut al = heading.wrapping_sub(0x40);
        if bl & 0x80 != 0 {
            dlng = -0x20;
            al = 0u8.wrapping_sub(al.wrapping_sub(0x80));
        }
        (dlng, signed8(al))
    } else {
        let mut dlat: i16 = -0x20;
        let mut al = heading;
        if bl & 0x80 != 0 {
            al = 0u8.wrapping_sub(al.wrapping_sub(0x80));
            dlat = 0x20;
        }
        (signed8(al), dlat)
    }
}

/// The compass angle from map position `(x, lat)` to `(target_x,
/// target_lat)`.
pub fn compass_angle_to_map_position(target_x: u16, target_lat: i16, x: u16, lat: i16) -> (a: u8)
    ensures
        a == compass_to_position_spec(target_x, target_lat, x, lat),
{
    let mut dlat = target_lat.wrapping_sub(lat);
    let mut dx = crate::world::as_signed16(target_x.wrapping_sub(x));
    proof {
        assert(dlat == signed16(((target_lat - lat + 0x10000) % 0x10000) as u16));
    }
    if !(-0x80 <= dlat && dlat < 0x80) {
        dlat = half_i16(dlat);
        dx = half_i16(dx);
    }
    let lo = crate::world::low_byte_u8(crate::world::as_unsigned16(dlat));
    assert(lo as int == (dlat as int + 256) % 256);
    compass_angle_from_delta(dx, signed8(lo) * 256)
}

/// An arithmetic right shift by one (floor of half).
pub fn half_i16(v: i16) -> (r: i16)
    ensures
        r == (v as int) / 2,
{
    if v >= 0 {
        v / 2
    } else {
        -((1 - (v as i32)) / 2) as i16
    }
}

/// A heading's travel deltas are at most one full step on either axis.
pub proof fn lemma_heading_deltas_bounded(h: u8)
    ensures
        -32 <= heading_deltas_spec(h).0 <= 32,
        -32 <= heading_deltas_spec(h).1 <= 32,
{
}

/// A multiple of 32 divided by 32 (either sign) gives the factor back.
pub proof fn lemma_tdiv_by_32(m: int)
    ensures
        tdiv(32 * m, 32) == m,
        tdiv(32 * m, -32) == -m,
{
    assert(abs_int(32 * m) == 32 * abs_int(m));
    assert((32 * abs_int(m)) / 32 == abs_int(m)) by (nonlinear_arith);
}

/// Walking a heading's travel deltas and taking their compass angle gives
/// the heading back.
pub proof fn law_heading_deltas_compass_roundtrip(h: u8)
    ensures
        compass_angle_spec(heading_deltas_spec(h).0, heading_deltas_spec(h).1) == h,
{
    let d = heading_deltas_spec(h);
    let bl = (h + 0x20) % 256;
    if bl % 128 >= 64 {
        if bl >= 128 {
            assert(160 <= h <= 223);
            assert(d.1 == 192 - h);
            lemma_tdiv_by_32(d.1 as int);
        } else {
            assert(32 <= h <= 95);
            assert(d.1 == h - 64);
            lemma_tdiv_by_32(d.1 as int);
        }
    } else {
        if bl >= 128 {
            assert(96 <= h <= 159);
            assert(d.0 == 128 - h);
            lemma_tdiv_by_32(d.0 as int);
        } else {
            assert(h >= 224 || h <= 31);
            assert(d.0 == signed8_spec(h as int));
            lemma_tdiv_by_32(d.0 as int);
        }
    }
}

} // verus!
