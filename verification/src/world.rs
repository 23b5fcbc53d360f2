//! The records of the game world the simulation reads and writes: the troop
//! table, the location table with its equipment counts, and the pointer
//! encoding the troop records use to name their location.
use vstd::prelude::*;

verus! {

/// One entry of the troop table. The troops of a location form a linked
/// list: `Location::troop_id` is the head and `next_troop_id` the link, both
/// 1-based (0 ends the list), so troop id `n` is table index `n - 1`.
#[derive(Clone, Copy, Default, Debug)]
pub struct Troop {
    pub troop_id: u8,
    pub next_troop_id: u8,
    pub position: u8,
    pub occupation: u8,
    pub offset_of_location: u16,
    pub gps_coordinates_1: u16,
    pub gps_coordinates_2: u16,
    pub time_period_of_ralliement: u16,
    /// The first occupation accumulator: the spice-mining rate of this
    /// period (for a moving troop, its home location pointer).
    pub harvest_rate: u16,
    /// The second occupation accumulator: the running spice total (for a
    /// moving troop, the equipment it goes to fetch: slot low, bit high).
    pub harvest_total: u16,
    pub bitfield_10: u16,
    pub dissatisfaction_and_speech: u16,
    pub game_day_of_ralliement: u8,
    pub motivation: u8,
    pub spice_skill: u8,
    pub army_skill: u8,
    pub ecology_skill: u8,
    /// The held-equipment bitmask, bit 7 = harvesters .. bit 1 = bulbs.
    pub equipment: u8,
    pub population: u8,
}

/// The seven equipment counts of a location, in slot order (slot 0 =
/// harvesters .. slot 6 = bulbs; slot `k` matches troop equipment bit
/// `0x80 >> k`).
#[derive(Clone, Copy, Default, Debug)]
pub struct Equipment {
    pub harvesters: u8,
    pub ornithopters: u8,
    pub krys_knives: u8,
    pub laser_guns: u8,
    pub weirding_modules: u8,
    pub atomics: u8,
    pub bulbs: u8,
}

/// One entry of the location table.
#[derive(Clone, Copy, Default, Debug)]
pub struct Location {
    pub first_name: u8,
    pub last_name: u8,
    pub appearance: u8,
    /// Head of the location's troop list (1-based, 0 = none).
    pub troop_id: u8,
    pub status: u8,
    pub discoverable_at_phase: u8,
    pub map_x: i16,
    pub map_y: i16,
    pub map_offset: u16,
    pub spice_field_id: u8,
    pub spice_amount: u8,
    pub spice_density: u8,
    pub field_13: u8,
    pub water: u8,
    pub equipment: Equipment,
}

impl Equipment {
    /// The count in slot `slot` (0 = harvesters .. 6 = bulbs).
    pub open spec fn slot_spec(self, slot: int) -> u8 {
        if slot == 0 {
            self.harvesters
        } else if slot == 1 {
            self.ornithopters
        } else if slot == 2 {
            self.krys_knives
        } else if slot == 3 {
            self.laser_guns
        } else if slot == 4 {
            self.weirding_modules
        } else if slot == 5 {
            self.atomics
        } else {
            self.bulbs
        }
    }

    /// The counts with slot `slot` replaced by `v`.
    pub open spec fn with_slot(self, slot: int, v: u8) -> Equipment {
        if slot == 0 {
            Equipment { harvesters: v, ..self }
        } else if slot == 1 {
            Equipment { ornithopters: v, ..self }
        } else if slot == 2 {
            Equipment { krys_knives: v, ..self }
        } else if slot == 3 {
            Equipment { laser_guns: v, ..self }
        } else if slot == 4 {
            Equipment { weirding_modules: v, ..self }
        } else if slot == 5 {
            Equipment { atomics: v, ..self }
        } else {
            Equipment { bulbs: v, ..self }
        }
    }

    /// The count in slot `slot`.
    pub fn slot(&self, slot: usize) -> (v: u8)
        requires
            slot < 7,
        ensures
            v == self.slot_spec(slot as int),
    {
        match slot {
            0 => self.harvesters,
            1 => self.ornithopters,
            2 => self.krys_knives,
            3 => self.laser_guns,
            4 => self.weirding_modules,
            5 => self.atomics,
            _ => self.bulbs,
        }
    }

    /// Replace the count in slot `slot`.
    pub fn set_slot(&mut self, slot: usize, v: u8)
        requires
            slot < 7,
        ensures
            *final(self) == old(self).with_slot(slot as int, v),
    {
        match slot {
            0 => self.harvesters = v,
            1 => self.ornithopters = v,
            2 => self.krys_knives = v,
            3 => self.laser_guns = v,
            4 => self.weirding_modules = v,
            5 => self.atomics = v,
            _ => self.bulbs = v,
        }
    }

    /// True when any of the seven counts is nonzero.
    pub fn any(&self) -> (b: bool)
        ensures
            b == (exists|k: int| 0 <= k < 7 && self.slot_spec(k) != 0),
    {
        let b = self.harvesters | self.ornithopters | self.krys_knives | self.laser_guns
            | self.weirding_modules | self.atomics | self.bulbs != 0;
        proof {
            let (a0, a1, a2, a3, a4, a5, a6) = (
                self.harvesters,
                self.ornithopters,
                self.krys_knives,
                self.laser_guns,
                self.weirding_modules,
                self.atomics,
                self.bulbs,
            );
            assert((a0 | a1 | a2 | a3 | a4 | a5 | a6 != 0) == (a0 != 0 || a1 != 0 || a2 != 0 || a3
                != 0 || a4 != 0 || a5 != 0 || a6 != 0)) by (bit_vector);
            if b {
                if self.harvesters != 0 {
                    assert(self.slot_spec(0) != 0);
                } else if self.ornithopters != 0 {
                    assert(self.slot_spec(1) != 0);
                } else if self.krys_knives != 0 {
                    assert(self.slot_spec(2) != 0);
                } else if self.laser_guns != 0 {
                    assert(self.slot_spec(3) != 0);
                } else if self.weirding_modules != 0 {
                    assert(self.slot_spec(4) != 0);
                } else if self.atomics != 0 {
                    assert(self.slot_spec(5) != 0);
                } else {
                    assert(self.slot_spec(6) != 0);
                }
            }
        }
        b
    }
}

/// The data-segment pointer of location `index` (16-bit arithmetic).
pub open spec fn location_ptr_spec(index: int) -> u16 {
    ((0x0100 + 0x1c * index) % 0x10000) as u16
}

/// The location index a data-segment pointer names (the pointer arithmetic
/// wraps below the table, giving an index past any real table).
pub open spec fn location_index_spec(ptr: u16) -> int {
    ((ptr as int - 0x0100 + 0x10000) % 0x10000) / 0x1c
}

/// A location's pointer names the location again.
pub proof fn lemma_location_ptr_roundtrip(index: int)
    requires
        0 <= index < 0x800,
    ensures
        location_index_spec(location_ptr_spec(index)) == index,
{
    assert(location_index_spec(location_ptr_spec(index)) == index) by (nonlinear_arith)
        requires
            0 <= index < 0x800,
            location_ptr_spec(index) == ((0x0100 + 0x1c * index) % 0x10000) as u16,
            location_index_spec(location_ptr_spec(index)) == ((location_ptr_spec(index) as int
                - 0x0100 + 0x10000) % 0x10000) / 0x1c,
    ;
}

/// The data-segment pointer of location `index`.
pub fn location_ptr(index: u16) -> (ptr: u16)
    ensures
        ptr == location_ptr_spec(index as int),
        index < 0x800 ==> location_index_spec(ptr) == index,
{
    let ptr = 0x0100u16.wrapping_add(0x1cu16.wrapping_mul(index));
    assert(ptr == location_ptr_spec(index as int)) by (nonlinear_arith)
        requires
            ptr == (0x0100 + (0x1c * index) % 0x10000) % 0x10000,
    ;
    if index < 0x800 {
        assert(location_index_spec(ptr) == index) by (nonlinear_arith)
            requires
                index < 0x800,
                ptr == (0x0100 + 0x1c * index) % 0x10000,
        ;
    }
    ptr
}

/// The location index a data-segment pointer names.
pub fn location_index_from_ptr(ptr: u16) -> (index: usize)
    ensures
        index == location_index_spec(ptr),
        index < 0x925,
{
    (ptr.wrapping_sub(0x0100) / 0x1c) as usize
}

/// The high byte of a 16-bit word.
pub fn high_byte(v: u16) -> (h: u16)
    ensures
        h == v / 256,
        h <= 255,
{
    let h = v >> 8;
    assert(h == v / 256 && h <= 255) by (bit_vector)
        requires
            h == v >> 8,
    ;
    h
}

/// The low byte of a 16-bit word.
pub fn low_byte(v: u16) -> (l: u16)
    ensures
        l == v % 256,
{
    let l = v & 0xff;
    assert(l == v % 256) by (bit_vector)
        requires
            l == v & 0xff,
    ;
    l
}

/// The high nibble of a byte, kept in place (`v & 0xf0`).
pub fn high_nibble(v: u8) -> (r: u8)
    ensures
        r == v / 16 * 16,
        r <= 0xf0,
{
    let r = v & 0xf0;
    assert(r == v / 16 * 16 && r <= 0xf0) by (bit_vector)
        requires
            r == v & 0xf0,
    ;
    r
}

/// The low nibble of a byte (`v & 0x0f`).
pub fn low_nibble(v: u8) -> (r: u8)
    ensures
        r == v % 16,
        r <= 0x0f,
{
    let r = v & 0x0f;
    assert(r == v % 16) by (bit_vector)
        requires
            r == v & 0x0f,
    ;
    r
}

/// The low byte of a 16-bit word, as a byte.
pub fn low_byte_u8(v: u16) -> (l: u8)
    ensures
        l == v % 256,
{
    let l = v & 0xff;
    assert(l == v % 256) by (bit_vector)
        requires
            l == v & 0xff,
    ;
    l as u8
}

/// A 16-bit word read as signed (two's complement).
pub open spec fn signed16(v: u16) -> i16 {
    if v > 32767 {
        (v - 65536) as i16
    } else {
        v as i16
    }
}

/// A signed 16-bit value's bit pattern read as unsigned.
pub open spec fn unsigned16(v: i16) -> u16 {
    if v < 0 {
        (v + 65536) as u16
    } else {
        v as u16
    }
}

/// A 16-bit word read as signed.
pub fn as_signed16(v: u16) -> (r: i16)
    ensures
        r == signed16(v),
{
    if v <= 32767 {
        v as i16
    } else {
        ((v as i32) - 65536) as i16
    }
}

/// A signed 16-bit value's bit pattern read as unsigned.
pub fn as_unsigned16(v: i16) -> (r: u16)
    ensures
        r == unsigned16(v),
{
    if v < 0 {
        ((v as i32) + 65536) as u16
    } else {
        v as u16
    }
}

/// The magnitude of a signed 16-bit value.
pub fn abs_i16(v: i16) -> (r: u16)
    ensures
        r == (if v >= 0 { v as int } else { -(v as int) }),
{
    if v >= 0 {
        v as u16
    } else {
        (0 - (v as i32)) as u16
    }
}

/// The table indices of the troops on a location's list, head first: follow
/// `next_troop_id` from `id` while it names a troop of the table, at most
/// `fuel` links.
pub open spec fn troop_chain(troops: Seq<Troop>, id: u8, fuel: nat) -> Seq<usize>
    decreases fuel,
{
    if fuel == 0 || id == 0 || id as int > troops.len() {
        Seq::empty()
    } else {
        seq![(id - 1) as usize] + troop_chain(troops, troops[id - 1].next_troop_id, (fuel - 1) as nat)
    }
}

/// Every index a chain walk yields names a troop of the table.
pub proof fn lemma_troop_chain_in_range(troops: Seq<Troop>, id: u8, fuel: nat)
    ensures
        forall|k: int|
            0 <= k < troop_chain(troops, id, fuel).len() ==> (#[trigger] troop_chain(
                troops,
                id,
                fuel,
            )[k] as int) < troops.len(),
        troop_chain(troops, id, fuel).len() <= fuel,
    decreases fuel,
{
    if fuel == 0 || id == 0 || id as int > troops.len() {
    } else {
        lemma_troop_chain_in_range(troops, troops[id - 1].next_troop_id, (fuel - 1) as nat);
        let rest = troop_chain(troops, troops[id - 1].next_troop_id, (fuel - 1) as nat);
        assert forall|k: int|
            0 <= k < troop_chain(troops, id, fuel).len() implies (#[trigger] troop_chain(
            troops,
            id,
            fuel,
        )[k] as int) < troops.len() by {
            if k > 0 {
                assert(troop_chain(troops, id, fuel)[k] == rest[k - 1]);
            }
        }
    }
}

/// The troops on the list that starts at troop id `head`, head first; the
/// walk follows at most as many links as the table has troops.
pub fn collect_troop_chain(troops: &Vec<Troop>, head: u8) -> (chain: Vec<usize>)
    ensures
        chain@ == troop_chain(troops@, head, troops@.len() as nat),
        forall|k: int| 0 <= k < chain@.len() ==> (#[trigger] chain@[k] as int) < troops@.len(),
{
    proof {
        lemma_troop_chain_in_range(troops@, head, troops@.len() as nat);
    }
    let mut chain: Vec<usize> = Vec::new();
    let mut id = head;
    let mut fuel: usize = troops.len();
    let ghost total = troop_chain(troops@, head, troops@.len() as nat);
    while fuel > 0 && id != 0 && (id as usize) <= troops.len()
        invariant
            fuel <= troops@.len(),
            chain@ + troop_chain(troops@, id, fuel as nat) == total,
        ensures
            chain@ == total,
        decreases fuel,
    {
        let ti = (id - 1) as usize;
        chain.push(ti);
        let ghost before = chain@;
        id = troops[ti].next_troop_id;
        fuel = fuel - 1;
        proof {
            assert(chain@ + troop_chain(troops@, id, fuel as nat) =~= total);
        }
    }
    proof {
        assert(troop_chain(troops@, id, fuel as nat) =~= Seq::<usize>::empty());
        assert(chain@ =~= chain@ + Seq::<usize>::empty());
    }
    chain
}

} // verus!
