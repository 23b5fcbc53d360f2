//! The troop icons of the full map: the list of sprites clustered round the
//! location markers (and the moving troops), their animation scripts, the
//! hit test, and the repaint plan of a dirty rect (which icons to draw back
//! over the restored background, in which order).
use vstd::prelude::*;
use crate::map_travel::{Rect, MapLocationMarker, TravelMap};
use crate::world::{Troop, Location, location_index_spec, location_index_from_ptr, signed16, unsigned16};

verus! {

/// The icon data block: the 16 marker-slot offsets, the animation scripts
/// (3-byte (sprite, dx, dy) steps, sprite 0 ending a script) and the three
/// 16-entry script tables (specialized, basic, moving), then the seven
/// equipment sprites.
#[verifier::opaque]
pub open spec fn troop_icon_data_spec() -> Seq<u8> {
    seq![
        0x00u8, 0x0du8, 0x16u8, 0x0du8, 0xeau8, 0x0du8, 0x16u8, 0x00u8, 0xeau8, 0x00u8,
        0x16u8, 0xf2u8, 0xeau8, 0xf2u8, 0x00u8, 0xf2u8, 0xfau8, 0xf8u8, 0x00u8, 0xf8u8,
        0xf4u8, 0xf8u8, 0x06u8, 0xf8u8, 0xeeu8, 0xf8u8, 0xf7u8, 0xf6u8, 0x03u8, 0xf6u8,
        0xf1u8, 0xf6u8, 0x02u8, 0x02u8, 0x00u8, 0x00u8, 0x02u8, 0x02u8, 0x01u8, 0x00u8,
        0x02u8, 0x01u8, 0x00u8, 0x00u8, 0x00u8, 0x00u8, 0x00u8, 0x00u8, 0x00u8, 0x00u8,
        0x00u8, 0x00u8, 0x1au8, 0x00u8, 0x00u8, 0x00u8, 0x01u8, 0x00u8, 0x00u8, 0x00u8,
        0x02u8, 0x00u8, 0x00u8, 0x00u8, 0x4fu8, 0x00u8, 0x00u8, 0x00u8, 0xa2u8, 0x16u8,
        0xa6u8, 0x16u8, 0xa2u8, 0x16u8, 0xa2u8, 0x16u8, 0xaau8, 0x16u8, 0xaau8, 0x16u8,
        0xaau8, 0x16u8, 0xaau8, 0x16u8, 0xaeu8, 0x16u8, 0xaeu8, 0x16u8, 0xaeu8, 0x16u8,
        0xaeu8, 0x16u8, 0xb2u8, 0x16u8, 0xb2u8, 0x16u8, 0xb2u8, 0x16u8, 0xb2u8, 0x16u8,
        0x13u8, 0x00u8, 0x00u8, 0x14u8, 0x00u8, 0x00u8, 0x15u8, 0x00u8, 0x00u8, 0x16u8,
        0x00u8, 0x00u8, 0x00u8, 0x17u8, 0x00u8, 0x00u8, 0x18u8, 0x00u8, 0x00u8, 0x19u8,
        0x00u8, 0x00u8, 0x1au8, 0x00u8, 0x00u8, 0x00u8, 0x00u8, 0x00u8, 0x00u8, 0x00u8,
        0x2bu8, 0x00u8, 0x00u8, 0x2cu8, 0x00u8, 0x00u8, 0x2du8, 0x00u8, 0x00u8, 0x2eu8,
        0x00u8, 0x00u8, 0x2fu8, 0x00u8, 0x00u8, 0x30u8, 0x00u8, 0x00u8, 0x31u8, 0x00u8,
        0x00u8, 0x32u8, 0x00u8, 0x00u8, 0x33u8, 0x00u8, 0x00u8, 0x34u8, 0x00u8, 0x00u8,
        0x35u8, 0x00u8, 0x00u8, 0x36u8, 0x00u8, 0x00u8, 0x00u8, 0x31u8, 0x00u8, 0x00u8,
        0x31u8, 0x00u8, 0x00u8, 0x30u8, 0x00u8, 0x00u8, 0x31u8, 0x00u8, 0x00u8, 0x31u8,
        0x00u8, 0x00u8, 0x31u8, 0x00u8, 0x00u8, 0x30u8, 0x00u8, 0x00u8, 0x30u8, 0x00u8,
        0x00u8, 0x00u8, 0x1bu8, 0x00u8, 0x00u8, 0x1bu8, 0x00u8, 0xffu8, 0x1bu8, 0x00u8,
        0x01u8, 0x00u8, 0x27u8, 0x00u8, 0x00u8, 0x27u8, 0xffu8, 0xffu8, 0x27u8, 0x01u8,
        0x01u8, 0x00u8, 0x1fu8, 0x00u8, 0x00u8, 0x1fu8, 0xffu8, 0xffu8, 0x1fu8, 0x01u8,
        0x01u8, 0x00u8, 0x23u8, 0x00u8, 0x00u8, 0x23u8, 0x00u8, 0xffu8, 0x23u8, 0x00u8,
        0x01u8, 0x00u8, 0x47u8, 0x00u8, 0x00u8, 0x48u8, 0x00u8, 0x00u8, 0x49u8, 0x00u8,
        0x00u8, 0x4au8, 0x00u8, 0x00u8, 0x00u8, 0x4bu8, 0x00u8, 0x00u8, 0x4cu8, 0x00u8,
        0x00u8, 0x4du8, 0x00u8, 0x00u8, 0x4eu8, 0x00u8, 0x00u8, 0x00u8, 0x50u8, 0x00u8,
        0x00u8, 0x50u8, 0x00u8, 0xffu8, 0x50u8, 0x00u8, 0x01u8, 0x00u8, 0x5cu8, 0x00u8,
        0x00u8, 0x5cu8, 0xffu8, 0xffu8, 0x5cu8, 0x01u8, 0x01u8, 0x00u8, 0x54u8, 0x00u8,
        0x00u8, 0x54u8, 0xffu8, 0xffu8, 0x54u8, 0x01u8, 0x01u8, 0x00u8, 0x58u8, 0x00u8,
        0x00u8, 0x58u8, 0x00u8, 0xffu8, 0x58u8, 0x00u8, 0x01u8, 0x00u8, 0xd6u8, 0x16u8,
        0xe3u8, 0x16u8, 0xf0u8, 0x16u8, 0xd6u8, 0x16u8, 0xf4u8, 0x16u8, 0x19u8, 0x17u8,
        0x32u8, 0x17u8, 0x19u8, 0x17u8, 0x5au8, 0x17u8, 0x67u8, 0x17u8, 0x67u8, 0x17u8,
        0x67u8, 0x17u8, 0xb2u8, 0x16u8, 0x74u8, 0x17u8, 0xb2u8, 0x16u8, 0xb2u8, 0x16u8,
        0x64u8, 0x00u8, 0x00u8, 0x65u8, 0x00u8, 0x00u8, 0x66u8, 0x00u8, 0x00u8, 0x67u8,
        0x00u8, 0x00u8, 0x00u8, 0x69u8, 0x00u8, 0x00u8, 0x68u8, 0x00u8, 0x00u8, 0x69u8,
        0x00u8, 0x00u8, 0x6au8, 0x00u8, 0x00u8, 0x69u8, 0x00u8, 0x00u8, 0x68u8, 0x00u8,
        0x00u8, 0x69u8, 0x00u8, 0x00u8, 0x6au8, 0x00u8, 0x00u8, 0x69u8, 0x00u8, 0x01u8,
        0x68u8, 0x00u8, 0x01u8, 0x69u8, 0x00u8, 0x00u8, 0x6au8, 0x00u8, 0x00u8, 0x69u8,
        0x00u8, 0x00u8, 0x68u8, 0xffu8, 0xffu8, 0x69u8, 0x00u8, 0x00u8, 0x6au8, 0x00u8,
        0x00u8, 0x69u8, 0x00u8, 0x00u8, 0x68u8, 0x01u8, 0x00u8, 0x69u8, 0x00u8, 0x00u8,
        0x6au8, 0x00u8, 0xffu8, 0x00u8, 0x6cu8, 0x00u8, 0x00u8, 0x6du8, 0x00u8, 0x00u8,
        0x6eu8, 0x00u8, 0x00u8, 0x6fu8, 0x00u8, 0x00u8, 0x00u8, 0x63u8, 0x00u8, 0x00u8,
        0x00u8, 0x68u8, 0x00u8, 0x00u8, 0x00u8, 0x6bu8, 0x00u8, 0x00u8, 0x00u8, 0x60u8,
        0x00u8, 0x00u8, 0x00u8, 0x03u8, 0x00u8, 0x00u8, 0x04u8, 0x00u8, 0x00u8, 0x05u8,
        0x00u8, 0x00u8, 0x06u8, 0x00u8, 0x00u8, 0x00u8, 0x1bu8, 0x00u8, 0x00u8, 0x1cu8,
        0x00u8, 0x00u8, 0x1du8, 0x00u8, 0x00u8, 0x1eu8, 0x00u8, 0x00u8, 0x00u8, 0x37u8,
        0x00u8, 0x00u8, 0x38u8, 0x00u8, 0x00u8, 0x39u8, 0x00u8, 0x00u8, 0x3au8, 0x00u8,
        0x00u8, 0x00u8, 0x07u8, 0x00u8, 0x00u8, 0x08u8, 0x00u8, 0x00u8, 0x09u8, 0x00u8,
        0x00u8, 0x0au8, 0x00u8, 0x00u8, 0x00u8, 0x1fu8, 0x00u8, 0x00u8, 0x20u8, 0x00u8,
        0x00u8, 0x21u8, 0x00u8, 0x00u8, 0x22u8, 0x00u8, 0x00u8, 0x00u8, 0x3bu8, 0x00u8,
        0x00u8, 0x3cu8, 0x00u8, 0x00u8, 0x3du8, 0x00u8, 0x00u8, 0x3eu8, 0x00u8, 0x00u8,
        0x00u8, 0x0bu8, 0x00u8, 0x00u8, 0x0cu8, 0x00u8, 0x00u8, 0x0du8, 0x00u8, 0x00u8,
        0x0eu8, 0x00u8, 0x00u8, 0x00u8, 0x23u8, 0x00u8, 0x00u8, 0x24u8, 0x00u8, 0x00u8,
        0x25u8, 0x00u8, 0x00u8, 0x26u8, 0x00u8, 0x00u8, 0x00u8, 0x3fu8, 0x00u8, 0x00u8,
        0x40u8, 0x00u8, 0x00u8, 0x41u8, 0x00u8, 0x00u8, 0x42u8, 0x00u8, 0x00u8, 0x00u8,
        0x0fu8, 0x00u8, 0x00u8, 0x10u8, 0x00u8, 0x00u8, 0x11u8, 0x00u8, 0x00u8, 0x12u8,
        0x00u8, 0x00u8, 0x00u8, 0x27u8, 0x00u8, 0x00u8, 0x28u8, 0x00u8, 0x00u8, 0x29u8,
        0x00u8, 0x00u8, 0x2au8, 0x00u8, 0x00u8, 0x00u8, 0x43u8, 0x00u8, 0x00u8, 0x44u8,
        0x00u8, 0x00u8, 0x45u8, 0x00u8, 0x00u8, 0x46u8, 0x00u8, 0x00u8, 0x00u8, 0x23u8,
        0x18u8, 0x4au8, 0x18u8, 0x71u8, 0x18u8, 0x98u8, 0x18u8, 0x30u8, 0x18u8, 0x57u8,
        0x18u8, 0x7eu8, 0x18u8, 0xa5u8, 0x18u8, 0x3du8, 0x18u8, 0x64u8, 0x18u8, 0x8bu8,
        0x18u8, 0xb2u8, 0x18u8, 0x30u8, 0x18u8, 0x57u8, 0x18u8, 0x7eu8, 0x18u8, 0xa5u8,
        0x18u8, 0x00u8, 0x00u8, 0x00u8, 0x00u8, 0x00u8, 0x00u8, 0x00u8, 0x00u8, 0xfbu8,
        0xf0u8, 0x05u8, 0x00u8, 0x05u8, 0x00u8, 0xe8u8, 0x00u8, 0x48u8, 0x00u8, 0xf5u8,
        0xfbu8, 0x00u8, 0x00u8, 0x00u8, 0x00u8, 0x00u8, 0x00u8, 0x00u8, 0x00u8, 0xf5u8,
        0xe4u8, 0x85u8, 0x00u8, 0x00u8, 0x86u8, 0x00u8, 0x00u8, 0x87u8, 0x00u8, 0x00u8,
        0x88u8, 0x00u8, 0x00u8, 0x89u8, 0x00u8, 0x00u8, 0x8au8, 0x00u8, 0x00u8, 0x8bu8,
        0x00u8, 0x00u8, 0x8cu8, 0x00u8, 0x00u8, 0x00u8, 0x85u8, 0x00u8, 0x00u8, 0x85u8,
        0x00u8, 0x00u8, 0x86u8, 0x00u8, 0x00u8, 0x86u8, 0x00u8, 0x00u8, 0x87u8, 0x00u8,
        0x00u8, 0x87u8, 0x00u8, 0x00u8, 0x88u8, 0x00u8, 0x00u8, 0x88u8, 0x00u8, 0x00u8,
        0x00u8, 0x63u8, 0x68u8, 0x71u8, 0x72u8, 0x73u8, 0x74u8, 0x77u8,
    ]
}

/// The byte at data-segment offset `ofs` of the icon data block.
pub open spec fn icon_data_spec(ofs: int) -> u8 {
    troop_icon_data_spec()[ofs - 0x1672]
}

/// The little-endian word at `ofs`.
pub open spec fn icon_word_spec(ofs: int) -> u16 {
    (icon_data_spec(ofs) + 256 * icon_data_spec(ofs + 1)) as u16
}

/// The icon data block.
pub fn troop_icon_data() -> (v: Vec<u8>)
    ensures
        v@ == troop_icon_data_spec(),
        v@.len() == 0x2c4,
{
    let v: Vec<u8> = vec![
        0x00, 0x0d, 0x16, 0x0d, 0xea, 0x0d, 0x16, 0x00, 0xea, 0x00,
        0x16, 0xf2, 0xea, 0xf2, 0x00, 0xf2, 0xfa, 0xf8, 0x00, 0xf8,
        0xf4, 0xf8, 0x06, 0xf8, 0xee, 0xf8, 0xf7, 0xf6, 0x03, 0xf6,
        0xf1, 0xf6, 0x02, 0x02, 0x00, 0x00, 0x02, 0x02, 0x01, 0x00,
        0x02, 0x01, 0x00, 0x00, 0x00, 0x00, 0x00, 0x00, 0x00, 0x00,
        0x00, 0x00, 0x1a, 0x00, 0x00, 0x00, 0x01, 0x00, 0x00, 0x00,
        0x02, 0x00, 0x00, 0x00, 0x4f, 0x00, 0x00, 0x00, 0xa2, 0x16,
        0xa6, 0x16, 0xa2, 0x16, 0xa2, 0x16, 0xaa, 0x16, 0xaa, 0x16,
        0xaa, 0x16, 0xaa, 0x16, 0xae, 0x16, 0xae, 0x16, 0xae, 0x16,
        0xae, 0x16, 0xb2, 0x16, 0xb2, 0x16, 0xb2, 0x16, 0xb2, 0x16,
        0x13, 0x00, 0x00, 0x14, 0x00, 0x00, 0x15, 0x00, 0x00, 0x16,
        0x00, 0x00, 0x00, 0x17, 0x00, 0x00, 0x18, 0x00, 0x00, 0x19,
        0x00, 0x00, 0x1a, 0x00, 0x00, 0x00, 0x00, 0x00, 0x00, 0x00,
        0x2b, 0x00, 0x00, 0x2c, 0x00, 0x00, 0x2d, 0x00, 0x00, 0x2e,
        0x00, 0x00, 0x2f, 0x00, 0x00, 0x30, 0x00, 0x00, 0x31, 0x00,
        0x00, 0x32, 0x00, 0x00, 0x33, 0x00, 0x00, 0x34, 0x00, 0x00,
        0x35, 0x00, 0x00, 0x36, 0x00, 0x00, 0x00, 0x31, 0x00, 0x00,
        0x31, 0x00, 0x00, 0x30, 0x00, 0x00, 0x31, 0x00, 0x00, 0x31,
        0x00, 0x00, 0x31, 0x00, 0x00, 0x30, 0x00, 0x00, 0x30, 0x00,
        0x00, 0x00, 0x1b, 0x00, 0x00, 0x1b, 0x00, 0xff, 0x1b, 0x00,
        0x01, 0x00, 0x27, 0x00, 0x00, 0x27, 0xff, 0xff, 0x27, 0x01,
        0x01, 0x00, 0x1f, 0x00, 0x00, 0x1f, 0xff, 0xff, 0x1f, 0x01,
        0x01, 0x00, 0x23, 0x00, 0x00, 0x23, 0x00, 0xff, 0x23, 0x00,
        0x01, 0x00, 0x47, 0x00, 0x00, 0x48, 0x00, 0x00, 0x49, 0x00,
        0x00, 0x4a, 0x00, 0x00, 0x00, 0x4b, 0x00, 0x00, 0x4c, 0x00,
        0x00, 0x4d, 0x00, 0x00, 0x4e, 0x00, 0x00, 0x00, 0x50, 0x00,
        0x00, 0x50, 0x00, 0xff, 0x50, 0x00, 0x01, 0x00, 0x5c, 0x00,
        0x00, 0x5c, 0xff, 0xff, 0x5c, 0x01, 0x01, 0x00, 0x54, 0x00,
        0x00, 0x54, 0xff, 0xff, 0x54, 0x01, 0x01, 0x00, 0x58, 0x00,
        0x00, 0x58, 0x00, 0xff, 0x58, 0x00, 0x01, 0x00, 0xd6, 0x16,
        0xe3, 0x16, 0xf0, 0x16, 0xd6, 0x16, 0xf4, 0x16, 0x19, 0x17,
        0x32, 0x17, 0x19, 0x17, 0x5a, 0x17, 0x67, 0x17, 0x67, 0x17,
        0x67, 0x17, 0xb2, 0x16, 0x74, 0x17, 0xb2, 0x16, 0xb2, 0x16,
        0x64, 0x00, 0x00, 0x65, 0x00, 0x00, 0x66, 0x00, 0x00, 0x67,
        0x00, 0x00, 0x00, 0x69, 0x00, 0x00, 0x68, 0x00, 0x00, 0x69,
        0x00, 0x00, 0x6a, 0x00, 0x00, 0x69, 0x00, 0x00, 0x68, 0x00,
        0x00, 0x69, 0x00, 0x00, 0x6a, 0x00, 0x00, 0x69, 0x00, 0x01,
        0x68, 0x00, 0x01, 0x69, 0x00, 0x00, 0x6a, 0x00, 0x00, 0x69,
        0x00, 0x00, 0x68, 0xff, 0xff, 0x69, 0x00, 0x00, 0x6a, 0x00,
        0x00, 0x69, 0x00, 0x00, 0x68, 0x01, 0x00, 0x69, 0x00, 0x00,
        0x6a, 0x00, 0xff, 0x00, 0x6c, 0x00, 0x00, 0x6d, 0x00, 0x00,
        0x6e, 0x00, 0x00, 0x6f, 0x00, 0x00, 0x00, 0x63, 0x00, 0x00,
        0x00, 0x68, 0x00, 0x00, 0x00, 0x6b, 0x00, 0x00, 0x00, 0x60,
        0x00, 0x00, 0x00, 0x03, 0x00, 0x00, 0x04, 0x00, 0x00, 0x05,
        0x00, 0x00, 0x06, 0x00, 0x00, 0x00, 0x1b, 0x00, 0x00, 0x1c,
        0x00, 0x00, 0x1d, 0x00, 0x00, 0x1e, 0x00, 0x00, 0x00, 0x37,
        0x00, 0x00, 0x38, 0x00, 0x00, 0x39, 0x00, 0x00, 0x3a, 0x00,
        0x00, 0x00, 0x07, 0x00, 0x00, 0x08, 0x00, 0x00, 0x09, 0x00,
        0x00, 0x0a, 0x00, 0x00, 0x00, 0x1f, 0x00, 0x00, 0x20, 0x00,
        0x00, 0x21, 0x00, 0x00, 0x22, 0x00, 0x00, 0x00, 0x3b, 0x00,
        0x00, 0x3c, 0x00, 0x00, 0x3d, 0x00, 0x00, 0x3e, 0x00, 0x00,
        0x00, 0x0b, 0x00, 0x00, 0x0c, 0x00, 0x00, 0x0d, 0x00, 0x00,
        0x0e, 0x00, 0x00, 0x00, 0x23, 0x00, 0x00, 0x24, 0x00, 0x00,
        0x25, 0x00, 0x00, 0x26, 0x00, 0x00, 0x00, 0x3f, 0x00, 0x00,
        0x40, 0x00, 0x00, 0x41, 0x00, 0x00, 0x42, 0x00, 0x00, 0x00,
        0x0f, 0x00, 0x00, 0x10, 0x00, 0x00, 0x11, 0x00, 0x00, 0x12,
        0x00, 0x00, 0x00, 0x27, 0x00, 0x00, 0x28, 0x00, 0x00, 0x29,
        0x00, 0x00, 0x2a, 0x00, 0x00, 0x00, 0x43, 0x00, 0x00, 0x44,
        0x00, 0x00, 0x45, 0x00, 0x00, 0x46, 0x00, 0x00, 0x00, 0x23,
        0x18, 0x4a, 0x18, 0x71, 0x18, 0x98, 0x18, 0x30, 0x18, 0x57,
        0x18, 0x7e, 0x18, 0xa5, 0x18, 0x3d, 0x18, 0x64, 0x18, 0x8b,
        0x18, 0xb2, 0x18, 0x30, 0x18, 0x57, 0x18, 0x7e, 0x18, 0xa5,
        0x18, 0x00, 0x00, 0x00, 0x00, 0x00, 0x00, 0x00, 0x00, 0xfb,
        0xf0, 0x05, 0x00, 0x05, 0x00, 0xe8, 0x00, 0x48, 0x00, 0xf5,
        0xfb, 0x00, 0x00, 0x00, 0x00, 0x00, 0x00, 0x00, 0x00, 0xf5,
        0xe4, 0x85, 0x00, 0x00, 0x86, 0x00, 0x00, 0x87, 0x00, 0x00,
        0x88, 0x00, 0x00, 0x89, 0x00, 0x00, 0x8a, 0x00, 0x00, 0x8b,
        0x00, 0x00, 0x8c, 0x00, 0x00, 0x00, 0x85, 0x00, 0x00, 0x85,
        0x00, 0x00, 0x86, 0x00, 0x00, 0x86, 0x00, 0x00, 0x87, 0x00,
        0x00, 0x87, 0x00, 0x00, 0x88, 0x00, 0x00, 0x88, 0x00, 0x00,
        0x00, 0x63, 0x68, 0x71, 0x72, 0x73, 0x74, 0x77,
    ];
    assert(v@ =~= troop_icon_data_spec()) by {
        reveal(troop_icon_data_spec);
    }
    v
}

/// One icon of the list: its screen rect, ONMAP sprite, owning troop, flags
/// (bit 0 = animation armed, bit 1 = no loop, bit 6 = the focus ring,
/// bit 7 = hidden) and its animation script cursor and base (offsets into
/// the icon data block).
#[derive(Clone, Copy, Debug)]
pub struct TroopIcon {
    pub rect: Rect,
    pub sprite: u16,
    pub troop_index: usize,
    pub flags: u8,
    pub script_cursor: u16,
    pub script_base: u16,
}

/// The troop icon list of the full map.
pub struct TroopIconList {
    pub icons: Vec<TroopIcon>,
    /// Icons singled out (slot 0 animates on every tick).
    pub focused: Vec<Option<usize>>,
    pub anim_phase: u8,
    /// Repaint back to front by depth (the full map) instead of in list
    /// order.
    pub draw_by_depth: bool,
    /// The icon data block.
    pub data: Vec<u8>,
    /// The ONMAP sprite sizes `(w, h)` by sprite id; a zero width means no
    /// such sprite.
    pub sprite_dims: Vec<(i16, i16)>,
}

/// The icon rect a sprite of size `(w, h)` centred on `(cx, cy)` covers.
pub open spec fn centred_rect(cx: i16, cy: i16, w: i16, h: i16) -> Rect {
    let x0 = cx - w / 2;
    let y0 = cy - h / 2;
    Rect { x0: x0 as i16, y0: y0 as i16, x1: (x0 + w) as i16, y1: (y0 + h) as i16 }
}

/// The sprite size the list knows for `sprite`; (0, 0) when none.
pub open spec fn dims_spec(dims: Seq<(i16, i16)>, sprite: u16) -> (i16, i16) {
    if (sprite as int) < dims.len() {
        dims[sprite as int]
    } else {
        (0, 0)
    }
}

/// A script's extra steps: how many 3-byte steps follow the first before
/// the sprite-0 fence, counting from step `k`, stopping past 0x40.
pub open spec fn script_extra_spec(script: int, k: int) -> int
    decreases 0x41 - k,
{
    if k > 0x40 || icon_data_spec(script + 3 + 3 * k) == 0 {
        k
    } else {
        script_extra_spec(script, k + 1)
    }
}

/// The extra-step walk of a script stays inside the data block.
pub open spec fn script_walk_ok(script: int, k: int) -> bool
    decreases 0x41 - k,
{
    let o = script + 3 + 3 * k;
    k > 0x40 || (0x1672 <= o < 0x1936 && (icon_data_spec(o) == 0 || script_walk_ok(script, k + 1)))
}

/// A screen point strictly inside an icon's rect.
pub open spec fn strictly_inside(r: Rect, x: i16, y: i16) -> bool {
    r.x0 < x && r.y0 < y && x < r.x1 && y < r.y1
}

/// An icon the hit test can report (not the focus ring) under `(x, y)`.
pub open spec fn icon_hit(ic: TroopIcon, x: i16, y: i16) -> bool {
    ic.flags & 0x40 == 0 && strictly_inside(ic.rect, x, y)
}

/// The top-most (last-listed) icon among the first `n` under `(x, y)`.
pub open spec fn topmost_hit(icons: Seq<TroopIcon>, x: i16, y: i16, n: int) -> Option<int>
    decreases n,
{
    if n <= 0 {
        None
    } else if icon_hit(icons[n - 1], x, y) {
        Some(n - 1)
    } else {
        topmost_hit(icons, x, y, n - 1)
    }
}

/// The plain (not focus-ring) icon of troop `ti`.
pub open spec fn is_troop_icon(ic: TroopIcon, ti: usize) -> bool {
    ic.troop_index == ti && ic.flags & 0x40 == 0
}

/// A focus slot after the icon at `index` left the list: a slot at or past
/// it moves down one, a slot on icon 0 empties.
pub open spec fn focus_fixup(slot: Option<usize>, index: usize) -> Option<usize> {
    match slot {
        Some(j) => if j >= index {
            if j == 0 {
                None
            } else {
                Some((j - 1) as usize)
            }
        } else {
            Some(j)
        },
        None => None,
    }
}

/// The rect covering an icon's rect before and after a move by `(dx, dy)`.
pub open spec fn move_union(old: Rect, dx: i16, dy: i16) -> Rect {
    Rect {
        x0: if dx >= 0 { old.x0 } else { (old.x0 + dx) as i16 },
        y0: if dy >= 0 { old.y0 } else { (old.y0 + dy) as i16 },
        x1: if dx >= 0 { (old.x1 + dx) as i16 } else { old.x1 },
        y1: if dy >= 0 { (old.y1 + dy) as i16 } else { old.y1 },
    }
}

/// The rect moved by `(dx, dy)`.
pub open spec fn moved_rect(r: Rect, dx: i16, dy: i16) -> Rect {
    Rect {
        x0: (r.x0 + dx) as i16,
        y0: (r.y0 + dy) as i16,
        x1: (r.x1 + dx) as i16,
        y1: (r.y1 + dy) as i16,
    }
}

/// Moving the rect by `(dx, dy)` stays inside 16 bits.
pub open spec fn move_fits(r: Rect, dx: i16, dy: i16) -> bool {
    &&& -0x8000 <= r.x0 + dx <= 0x7fff
    &&& -0x8000 <= r.y0 + dy <= 0x7fff
    &&& -0x8000 <= r.x1 + dx <= 0x7fff
    &&& -0x8000 <= r.y1 + dy <= 0x7fff
}

/// Icon coordinates stay well inside 16 bits.
pub open spec fn rect_bounded(r: Rect) -> bool {
    -0x2000 <= r.x0 <= 0x2000 && -0x2000 <= r.y0 <= 0x2000 && -0x2000 <= r.x1 <= 0x2000
        && -0x2000 <= r.y1 <= 0x2000
}

/// One animation step of icon `ic` (see `troop_icon_anim_step`): the icon
/// afterwards and the rect to repaint, if it stepped.
pub open spec fn anim_step_spec(ic: TroopIcon) -> (TroopIcon, Option<Rect>) {
    let c = ic.script_cursor as int;
    let at_fence = 0x1672 <= c < 0x1936 && icon_data_spec(c) == 0;
    let cur = if at_fence { ic.script_base as int } else { c };
    let dx = crate::compass::signed8_spec(icon_data_spec(cur + 1) as int) as i16;
    let dy = crate::compass::signed8_spec(icon_data_spec(cur + 2) as int) as i16;
    let steps = ic.flags & 1 != 0 && 0x1672 <= c < 0x1936 && !(at_fence && ic.flags & 2 != 0)
        && 0x1672 <= cur && cur + 3 < 0x1936 && move_fits(ic.rect, dx, dy);
    if steps {
        (
            TroopIcon {
                sprite: icon_data_spec(cur) as u16,
                script_cursor: (cur + 3) as u16,
                rect: moved_rect(ic.rect, dx, dy),
                ..ic
            },
            Some(move_union(ic.rect, dx, dy)),
        )
    } else {
        (ic, None)
    }
}

/// The icon in focus slot 0, when it names an icon of the list.
pub open spec fn focused_icon(focused: Seq<Option<usize>>, n: nat) -> Option<usize> {
    if focused.len() > 0 {
        match focused[0] {
            Some(i) => if i < n { Some(i) } else { None },
            None => None,
        }
    } else {
        None
    }
}

/// The repaint rects of stepping the first `n` icons, in icon order.
pub open spec fn stepped_rects(icons: Seq<TroopIcon>, n: int) -> Seq<Rect>
    decreases n,
{
    if n <= 0 {
        Seq::empty()
    } else {
        let prev = stepped_rects(icons, n - 1);
        match anim_step_spec(icons[n - 1]).1 {
            Some(r) => prev.push(r),
            None => prev,
        }
    }
}

impl TroopIconList {
    /// The data block is the icon data, sprite sizes are screen-sized.
    pub open spec fn wf(&self) -> bool {
        &&& self.data@ == troop_icon_data_spec()
        &&& self.data@.len() == 0x2c4
        &&& forall|k: int|
            0 <= k < self.sprite_dims@.len() ==> 0 <= (#[trigger] self.sprite_dims@[k]).0 <= 320
                && 0 <= self.sprite_dims@[k].1 <= 200
    }

    /// The byte at data-segment offset `ofs` of the icon data block.
    pub fn icon_data(&self, ofs: u16) -> (b: u8)
        requires
            self.wf(),
            0x1672 <= ofs < 0x1936,
        ensures
            b == icon_data_spec(ofs as int),
    {
        self.data[(ofs - 0x1672) as usize]
    }

    /// The little-endian word at `ofs`.
    pub fn icon_data_word(&self, ofs: u16) -> (w: u16)
        requires
            self.wf(),
            0x1672 <= ofs < 0x1935,
        ensures
            w == icon_word_spec(ofs as int),
    {
        let lo = self.icon_data(ofs) as u16;
        let hi = self.icon_data(ofs + 1) as u16;
        lo + 256 * hi
    }

    /// The ONMAP sprite of equipment slot `slot` (0 = harvesters .. 6 =
    /// bulbs).
    pub fn equipment_icon_sprite(&self, slot: usize) -> (s: u16)
        requires
            self.wf(),
            slot < 7,
        ensures
            s == icon_data_spec(0x192f + slot),
    {
        self.icon_data(0x192f + slot as u16) as u16
    }

    /// Append an icon of `sprite` centred on `(cx, cy)` for troop
    /// `troop_index` (no flags, no script); `None` and no icon for an
    /// unknown sprite.
    pub fn troop_icon_spawn(&mut self, sprite: u16, cx: i16, cy: i16, troop_index: usize) -> (r:
        Option<usize>)
        requires
            old(self).wf(),
            -0x1000 <= cx <= 0x1000,
            -0x1000 <= cy <= 0x1000,
        ensures
            final(self).wf(),
            final(self).focused@ == old(self).focused@,
            final(self).anim_phase == old(self).anim_phase,
            final(self).draw_by_depth == old(self).draw_by_depth,
            ({
                let d = dims_spec(old(self).sprite_dims@, sprite);
                if d.0 == 0 {
                    &&& r.is_none()
                    &&& final(self).icons@ == old(self).icons@
                } else {
                    &&& r matches Some(i) && i as int == old(self).icons@.len()
                    &&& final(self).icons@ == old(self).icons@.push(
                        TroopIcon {
                            rect: centred_rect(cx, cy, d.0, d.1),
                            sprite,
                            troop_index,
                            flags: 0,
                            script_cursor: 0,
                            script_base: 0,
                        },
                    )
                }
            }),
    {
        let (w, h) = if (sprite as usize) < self.sprite_dims.len() {
            self.sprite_dims[sprite as usize]
        } else {
            (0, 0)
        };
        if w == 0 {
            return None;
        }
        let x0 = cx - w / 2;
        let y0 = cy - h / 2;
        self.icons.push(
            TroopIcon {
                rect: Rect { x0, y0, x1: x0 + w, y1: y0 + h },
                sprite,
                troop_index,
                flags: 0,
                script_cursor: 0,
                script_base: 0,
            },
        );
        Some(self.icons.len() - 1)
    }

    /// How many steps follow a script's first before its sprite-0 fence
    /// (the walk gives up past 0x40).
    pub fn troop_icon_script_extra_steps(&self, script: u16) -> (n: u16)
        requires
            self.wf(),
            script_walk_ok(script as int, 0),
            0x1672 <= script,
        ensures
            n == script_extra_spec(script as int, 0),
            n <= 0x41,
    {
        let mut extra: u16 = 0;
        while self.icon_data(script + 3 + 3 * extra) != 0
            invariant_except_break
                extra <= 0x40,
                script_walk_ok(script as int, extra as int),
            invariant
                self.wf(),
                extra <= 0x41,
                0x1672 <= script,
                script_extra_spec(script as int, extra as int) == script_extra_spec(
                    script as int,
                    0,
                ),
            ensures
                extra == script_extra_spec(script as int, 0),
            decreases 0x41 - extra,
        {
            extra = extra + 1;
            if extra > 0x40 {
                assert(script_extra_spec(script as int, 0x41) == 0x41);
                break;
            }
        }
        extra
    }

    /// Spawn the icon of an animation script (byte 0 = the sprite): a
    /// script with a second step is attached at step `step` (the engine's
    /// random pick among its steps) and armed (flag bit 0).
    pub fn troop_icon_spawn_with_anim(
        &mut self,
        script: u16,
        cx: i16,
        cy: i16,
        troop_index: usize,
        step: u16,
    ) -> (r: Option<usize>)
        requires
            old(self).wf(),
            0x1672 <= script,
            script + 3 < 0x1936,
            script_walk_ok(script as int, 0),
            step <= script_extra_spec(script as int, 0),
            -0x1000 <= cx <= 0x1000,
            -0x1000 <= cy <= 0x1000,
        ensures
            final(self).wf(),
            final(self).focused@ == old(self).focused@,
            ({
                let sprite = icon_data_spec(script as int) as u16;
                let d = dims_spec(old(self).sprite_dims@, sprite);
                let plain = TroopIcon {
                    rect: centred_rect(cx, cy, d.0, d.1),
                    sprite,
                    troop_index,
                    flags: 0,
                    script_cursor: 0,
                    script_base: 0,
                };
                if d.0 == 0 {
                    &&& r.is_none()
                    &&& final(self).icons@ == old(self).icons@
                } else {
                    &&& r matches Some(i) && i as int == old(self).icons@.len()
                    &&& final(self).icons@ == old(self).icons@.push(
                        if icon_data_spec(script + 3) == 0 {
                            plain
                        } else {
                            TroopIcon {
                                flags: 1,
                                script_base: script,
                                script_cursor: (script + 3 * step) as u16,
                                ..plain
                            }
                        },
                    )
                }
            }),
    {
        let sprite = self.icon_data(script) as u16;
        let i = match self.troop_icon_spawn(sprite, cx, cy, troop_index) {
            None => {
                return None;
            },
            Some(i) => i,
        };
        if self.icon_data(script + 3) == 0 {
            return Some(i);
        }
        let extra = self.troop_icon_script_extra_steps(script);
        let mut ic = self.icons[i];
        ic.script_base = script;
        ic.script_cursor = script + 3 * step;
        assert(0u8 | 1u8 == 1u8) by (bit_vector);
        ic.flags = ic.flags | 1;
        let ghost before = self.icons@;
        self.icons.set(i, ic);
        proof {
            assert(self.icons@ =~= before.take(i as int).push(ic));
            assert(before.take(i as int) =~= old(self).icons@);
        }
        Some(i)
    }

    /// The icon under screen point `(x, y)`, top-most first, ignoring the
    /// focus ring: `(icon, troop)`; a hit on an unrallied troop (occupation
    /// bit 7) counts as a miss.
    pub fn troop_icon_hit_test(&self, x: i16, y: i16, troops: &Vec<Troop>) -> (r: Option<
        (usize, usize),
    >)
        requires
            forall|k: int|
                0 <= k < self.icons@.len() ==> (#[trigger] self.icons@[k]).troop_index
                    < troops@.len(),
        ensures
            r == match topmost_hit(self.icons@, x, y, self.icons@.len() as int) {
                None => None::<(usize, usize)>,
                Some(i) => {
                    let ti = self.icons@[i].troop_index;
                    if troops@[ti as int].occupation & 0x80 != 0 {
                        None
                    } else {
                        Some((i as usize, ti))
                    }
                },
            },
    {
        let mut i = self.icons.len();
        while i > 0
            invariant
                i <= self.icons@.len(),
                topmost_hit(self.icons@, x, y, self.icons@.len() as int) == topmost_hit(
                    self.icons@,
                    x,
                    y,
                    i as int,
                ),
                forall|k: int|
                    0 <= k < self.icons@.len() ==> (#[trigger] self.icons@[k]).troop_index
                        < troops@.len(),
            decreases i,
        {
            let ic = self.icons[i - 1];
            if ic.flags & 0x40 == 0 && ic.rect.x0 < x && ic.rect.y0 < y && x < ic.rect.x1 && y
                < ic.rect.y1 {
                let ti = ic.troop_index;
                if troops[ti].occupation & 0x80 != 0 {
                    return None;
                }
                return Some((i - 1, ti));
            }
            i = i - 1;
        }
        None
    }

    /// The first plain (not focus-ring) icon of troop `ti`.
    pub fn troop_find_icon(&self, ti: usize) -> (r: Option<usize>)
        ensures
            match r {
                Some(i) => i < self.icons@.len() && is_troop_icon(self.icons@[i as int], ti)
                    && forall|j: int| 0 <= j < i ==> !is_troop_icon(#[trigger] self.icons@[j], ti),
                None => forall|j: int|
                    0 <= j < self.icons@.len() ==> !is_troop_icon(#[trigger] self.icons@[j], ti),
            },
    {
        let mut i: usize = 0;
        while i < self.icons.len()
            invariant
                i <= self.icons@.len(),
                forall|j: int| 0 <= j < i ==> !is_troop_icon(#[trigger] self.icons@[j], ti),
            decreases self.icons@.len() - i,
        {
            let ic = self.icons[i];
            if ic.troop_index == ti && ic.flags & 0x40 == 0 {
                return Some(i);
            }
            i = i + 1;
        }
        None
    }

    /// Take the icon at `index` out of the list (later icons move down one,
    /// the focus slots follow) and give back the rect to repaint; `None`
    /// and no change for an index past the list.
    pub fn troop_icon_remove(&mut self, index: usize) -> (r: Option<Rect>)
        ensures
            index >= old(self).icons@.len() ==> r.is_none() && final(self).icons@ == old(
                self,
            ).icons@ && final(self).focused@ == old(self).focused@,
            index < old(self).icons@.len() ==> {
                &&& r == Some(old(self).icons@[index as int].rect)
                &&& final(self).icons@ == old(self).icons@.remove(index as int)
                &&& final(self).focused@ == Seq::new(
                    old(self).focused@.len(),
                    |k: int| focus_fixup(old(self).focused@[k], index),
                )
            },
            final(self).data@ == old(self).data@,
            final(self).sprite_dims@ == old(self).sprite_dims@,
            final(self).anim_phase == old(self).anim_phase,
            final(self).draw_by_depth == old(self).draw_by_depth,
    {
        if index >= self.icons.len() {
            return None;
        }
        let r = self.icons[index].rect;
        self.icons.remove(index);
        let mut k: usize = 0;
        let ghost f0 = self.focused@;
        while k < self.focused.len()
            invariant
                k <= self.focused@.len(),
                self.focused@.len() == f0.len(),
                self.icons@ == old(self).icons@.remove(index as int),
                self.data@ == old(self).data@,
                self.sprite_dims@ == old(self).sprite_dims@,
                self.anim_phase == old(self).anim_phase,
                self.draw_by_depth == old(self).draw_by_depth,
                f0 == old(self).focused@,
                forall|j: int| 0 <= j < k ==> self.focused@[j] == focus_fixup(f0[j], index),
                forall|j: int| k <= j < f0.len() ==> self.focused@[j] == f0[j],
            decreases self.focused@.len() - k,
        {
            let slot = self.focused[k];
            let nslot = match slot {
                Some(j) => if j >= index {
                    if j == 0 {
                        None
                    } else {
                        Some(j - 1)
                    }
                } else {
                    Some(j)
                },
                None => None,
            };
            self.focused.set(k, nslot);
            k = k + 1;
        }
        proof {
            assert(self.focused@ =~= Seq::new(f0.len(), |j: int| focus_fixup(f0[j], index)));
        }
        Some(r)
    }

    /// Move the icon at `index` by `(dx, dy)` and give back the rect to
    /// repaint: its old and new rects together.
    pub fn troop_icon_move_and_redraw(&mut self, index: usize, dx: i16, dy: i16) -> (u: Rect)
        requires
            index < old(self).icons@.len(),
            move_fits(old(self).icons@[index as int].rect, dx, dy),
        ensures
            ({
                let ic = old(self).icons@[index as int];
                &&& u == move_union(ic.rect, dx, dy)
                &&& final(self).icons@ == old(self).icons@.update(
                    index as int,
                    TroopIcon { rect: moved_rect(ic.rect, dx, dy), ..ic },
                )
            }),
            final(self).focused@ == old(self).focused@,
            final(self).data@ == old(self).data@,
            final(self).sprite_dims@ == old(self).sprite_dims@,
            final(self).anim_phase == old(self).anim_phase,
            final(self).draw_by_depth == old(self).draw_by_depth,
    {
        let mut ic = self.icons[index];
        let old_r = ic.rect;
        let new_r = Rect {
            x0: old_r.x0 + dx,
            y0: old_r.y0 + dy,
            x1: old_r.x1 + dx,
            y1: old_r.y1 + dy,
        };
        ic.rect = new_r;
        self.icons.set(index, ic);
        Rect {
            x0: if dx >= 0 {
                old_r.x0
            } else {
                new_r.x0
            },
            y0: if dy >= 0 {
                old_r.y0
            } else {
                new_r.y0
            },
            x1: if dx >= 0 {
                new_r.x1
            } else {
                old_r.x1
            },
            y1: if dy >= 0 {
                new_r.y1
            } else {
                old_r.y1
            },
        }
    }

    /// One animation step of icon `i`: an armed icon (flag bit 0) reads
    /// (sprite, dx, dy) at its script cursor; at the sprite-0 fence it
    /// loops back to the script base, unless flag bit 1 stops it there. The
    /// sprite is stored, the cursor advances and the icon moves; gives the
    /// rect to repaint. A cursor outside the data block, or a move that
    /// would leave 16 bits, leaves the icon alone.
    pub fn troop_icon_anim_step(&mut self, i: usize) -> (r: Option<Rect>)
        requires
            old(self).wf(),
            i < old(self).icons@.len(),
        ensures
            final(self).wf(),
            final(self).icons@.len() == old(self).icons@.len(),
            final(self).focused@ == old(self).focused@,
            final(self).anim_phase == old(self).anim_phase,
            final(self).draw_by_depth == old(self).draw_by_depth,
            forall|j: int|
                0 <= j < old(self).icons@.len() && j != i ==> #[trigger] final(self).icons@[j]
                    == old(self).icons@[j],
            ({
                let st = anim_step_spec(old(self).icons@[i as int]);
                &&& r == st.1
                &&& final(self).icons@ == old(self).icons@.update(i as int, st.0)
            }),
    {
        let ic = self.icons[i];
        if ic.flags & 1 == 0 {
            return None;
        }
        let mut cur = ic.script_cursor;
        if !(0x1672 <= cur && cur < 0x1936) {
            return None;
        }
        let mut sprite = self.icon_data(cur);
        if sprite == 0 {
            if ic.flags & 2 != 0 {
                return None;
            }
            cur = ic.script_base;
        }
        if !(0x1672 <= cur && cur < 0x1936 - 3) {
            return None;
        }
        sprite = self.icon_data(cur);
        let dx = crate::compass::signed8(self.icon_data(cur + 1));
        let dy = crate::compass::signed8(self.icon_data(cur + 2));
        let rr = ic.rect;
        let fits = -0x8000 <= rr.x0 as i32 + dx as i32 && rr.x0 as i32 + dx as i32 <= 0x7fff
            && -0x8000 <= rr.y0 as i32 + dy as i32 && rr.y0 as i32 + dy as i32 <= 0x7fff
            && -0x8000 <= rr.x1 as i32 + dx as i32 && rr.x1 as i32 + dx as i32 <= 0x7fff
            && -0x8000 <= rr.y1 as i32 + dy as i32 && rr.y1 as i32 + dy as i32 <= 0x7fff;
        if !fits {
            return None;
        }
        let mut w = ic;
        w.sprite = sprite as u16;
        w.script_cursor = cur + 3;
        self.icons.set(i, w);
        Some(self.troop_icon_move_and_redraw(i, dx, dy))
    }

    /// The icon animation tick: every fourth tick steps every icon, the
    /// others only the icon in focus slot 0; gives the rects to repaint, in
    /// step order.
    pub fn tick_troop_icon_anim(&mut self) -> (rects: Vec<Rect>)
        requires
            old(self).wf(),
        ensures
            final(self).wf(),
            final(self).anim_phase == ((old(self).anim_phase + 1) % 256) as u8,
            final(self).icons@.len() == old(self).icons@.len(),
            final(self).focused@ == old(self).focused@,
            final(self).draw_by_depth == old(self).draw_by_depth,
            ({
                let icons = old(self).icons@;
                let f = old(self).focused@;
                if final(self).anim_phase % 4 != 0 {
                    match focused_icon(f, icons.len()) {
                        Some(i) => {
                            let st = anim_step_spec(icons[i as int]);
                            &&& final(self).icons@ == icons.update(i as int, st.0)
                            &&& rects@ == match st.1 {
                                Some(r) => seq![r],
                                None => Seq::<Rect>::empty(),
                            }
                        },
                        None => {
                            &&& final(self).icons@ == icons
                            &&& rects@ == Seq::<Rect>::empty()
                        },
                    }
                } else {
                    &&& final(self).icons@ == Seq::new(icons.len(), |j: int| anim_step_spec(icons[j]).0)
                    &&& rects@ == stepped_rects(icons, icons.len() as int)
                }
            }),
    {
        let mut rects: Vec<Rect> = Vec::new();
        self.anim_phase = self.anim_phase.wrapping_add(1);
        let ph = self.anim_phase;
        assert(ph & 3 == ph % 4) by (bit_vector);
        if self.anim_phase & 3 != 0 {
            if self.focused.len() > 0 {
                if let Some(i) = self.focused[0] {
                    if i < self.icons.len() {
                        if let Some(r) = self.troop_icon_anim_step(i) {
                            rects.push(r);
                        }
                    }
                }
            }
            return rects;
        }
        let mut i: usize = 0;
        while i < self.icons.len()
            invariant
                self.wf(),
                i <= self.icons@.len(),
                self.icons@.len() == old(self).icons@.len(),
                self.focused@ == old(self).focused@,
                self.draw_by_depth == old(self).draw_by_depth,
                self.anim_phase == ((old(self).anim_phase + 1) % 256) as u8,
                self.anim_phase % 4 == 0,
                forall|j: int|
                    0 <= j < self.icons@.len() ==> #[trigger] self.icons@[j] == if j < i {
                        anim_step_spec(old(self).icons@[j]).0
                    } else {
                        old(self).icons@[j]
                    },
                rects@ == stepped_rects(old(self).icons@, i as int),
            decreases self.icons@.len() - i,
        {
            if let Some(r) = self.troop_icon_anim_step(i) {
                rects.push(r);
            }
            i = i + 1;
        }
        proof {
            assert(self.icons@ =~= Seq::new(
                old(self).icons@.len(),
                |j: int| anim_step_spec(old(self).icons@[j]).0,
            ));
        }
        rects
    }
}

/// The repaint of a dirty rect: the rect clipped to the view, the icons to
/// draw back over the restored background in draw order, whether the HUD
/// head must be redrawn too, and the part of the open popup inside the
/// clipped rect, whose pixels are kept over the repaint (grabbed before the
/// background restore, laid back after the icons).
pub struct DirtyRepaint {
    pub clipped: Rect,
    pub order: Vec<usize>,
    pub redraw_hud_head: bool,
    pub keep_popup: Option<Rect>,
}

/// The part of the open popup `popup` (view coordinates) inside the
/// clipped rect `c`, if any.
pub open spec fn kept_popup_spec(popup: Option<Rect>, c: Rect, yoff: i16) -> Option<Rect> {
    match popup {
        None => None,
        Some(pp) => {
            let pr = clip_dirty_spec(pp, c, yoff);
            if pr.x1 <= pr.x0 || pr.y1 <= pr.y0 {
                None
            } else {
                Some(pr)
            }
        },
    }
}

/// The dirty rect `r` (in view coordinates, `yoff` rows above the screen)
/// clipped to `clip` (screen coordinates).
pub open spec fn clip_dirty_spec(r: Rect, clip: Rect, yoff: i16) -> Rect {
    Rect {
        x0: if r.x0 >= clip.x0 { r.x0 } else { clip.x0 },
        y0: if r.y0 + yoff >= clip.y0 { (r.y0 + yoff) as i16 } else { clip.y0 },
        x1: if r.x1 <= clip.x1 { r.x1 } else { clip.x1 },
        y1: if r.y1 + yoff <= clip.y1 { (r.y1 + yoff) as i16 } else { clip.y1 },
    }
}

/// A visible icon overlapping the clipped rect.
pub open spec fn icon_touches(ic: TroopIcon, c: Rect, yoff: i16) -> bool {
    ic.flags & 0x80 == 0 && ic.rect.x0 < c.x1 && ic.rect.y0 + yoff < c.y1 && ic.rect.x1 > c.x0
        && ic.rect.y1 + yoff > c.y0
}

/// The indices among the first `n` icons that touch the clipped rect, in
/// list order.
pub open spec fn icons_touching(icons: Seq<TroopIcon>, c: Rect, yoff: i16, n: int) -> Seq<usize>
    decreases n,
{
    if n <= 0 {
        Seq::empty()
    } else if icon_touches(icons[n - 1], c, yoff) {
        icons_touching(icons, c, yoff, n - 1).push((n - 1) as usize)
    } else {
        icons_touching(icons, c, yoff, n - 1)
    }
}

/// The depth of an icon on the full map: the focus ring last, the others
/// by their bottom-right corner (x1 + y1).
pub open spec fn depth_key(ic: TroopIcon) -> int {
    if ic.flags & 0x40 != 0 {
        0x7fff_ffff
    } else {
        ic.rect.x1 + ic.rect.y1
    }
}

/// Icon `a` is drawn before icon `b`: smaller depth, equal depths in list
/// order.
pub open spec fn depth_before(icons: Seq<TroopIcon>, a: usize, b: usize) -> bool {
    depth_key(icons[a as int]) < depth_key(icons[b as int]) || (depth_key(icons[a as int])
        == depth_key(icons[b as int]) && a < b)
}

/// A draw order sorted back to front (each icon before the next).
pub open spec fn depth_sorted(icons: Seq<TroopIcon>, order: Seq<usize>) -> bool {
    forall|j: int, k: int|
        0 <= j < k < order.len() ==> depth_before(icons, #[trigger] order[j], #[trigger] order[k])
}

/// Every icon rect stays well inside 16 bits.
pub open spec fn icons_bounded(icons: Seq<TroopIcon>) -> bool {
    forall|k: int| 0 <= k < icons.len() ==> rect_bounded(#[trigger] icons[k].rect)
}

impl TroopIconList {
    /// The depth of an icon.
    pub fn icon_depth(&self, i: usize) -> (d: i32)
        requires
            i < self.icons@.len(),
            rect_bounded(self.icons@[i as int].rect),
        ensures
            d == depth_key(self.icons@[i as int]),
    {
        let ic = self.icons[i];
        if ic.flags & 0x40 != 0 {
            0x7fff_ffff
        } else {
            ic.rect.x1 as i32 + ic.rect.y1 as i32
        }
    }

    /// Sort `list` (increasing indices) back to front by depth, equal
    /// depths keeping list order.
    pub fn sort_by_depth(&self, list: &Vec<usize>) -> (order: Vec<usize>)
        requires
            icons_bounded(self.icons@),
            forall|k: int| 0 <= k < list@.len() ==> (#[trigger] list@[k] as int) < self.icons@.len(),
            forall|j: int, k: int| 0 <= j < k < list@.len() ==> #[trigger] list@[j] < #[trigger] list@[k],
        ensures
            order@.len() == list@.len(),
            forall|x: usize| order@.contains(x) <==> list@.contains(x),
            depth_sorted(self.icons@, order@),
    {
        let mut order: Vec<usize> = Vec::new();
        let mut k: usize = 0;
        while k < list.len()
            invariant
                k <= list@.len(),
                icons_bounded(self.icons@),
                forall|q: int| 0 <= q < list@.len() ==> (#[trigger] list@[q] as int) < self.icons@.len(),
                forall|j: int, q: int| 0 <= j < q < list@.len() ==> #[trigger] list@[j] < #[trigger] list@[q],
                order@.len() == k,
                forall|x: usize| order@.contains(x) <==> list@.subrange(0, k as int).contains(x),
                forall|q: int| 0 <= q < order@.len() ==> (#[trigger] order@[q] as int) < self.icons@.len(),
                depth_sorted(self.icons@, order@),
            decreases list@.len() - k,
        {
            let x = list[k];
            proof {
                assert forall|q: int| 0 <= q < order@.len() implies #[trigger] order@[q] < x by {
                    assert(order@.contains(order@[q]));
                    assert(list@.subrange(0, k as int).contains(order@[q]));
                    let p = choose|p: int| 0 <= p < k && #[trigger] list@.subrange(0, k as int)[p] == order@[q];
                    assert(list@[p] == order@[q]);
                }
            }
            let kx = self.icon_depth(x);
            let mut pos: usize = 0;
            while pos < order.len() && self.icon_depth(order[pos]) <= kx
                invariant
                    pos <= order@.len(),
                    icons_bounded(self.icons@),
                    forall|q: int| 0 <= q < order@.len() ==> (#[trigger] order@[q] as int) < self.icons@.len(),
                    forall|q: int| 0 <= q < pos ==> depth_key(self.icons@[#[trigger] order@[q] as int]) <= kx,
                    kx == depth_key(self.icons@[x as int]),
                decreases order@.len() - pos,
            {
                pos = pos + 1;
            }
            let ghost before = order@;
            order.insert(pos, x);
            proof {
                assert(order@ =~= before.insert(pos as int, x));
                before.insert_ensures(pos as int, x);
                assert(list@.subrange(0, k + 1) =~= list@.subrange(0, k as int).push(x));
                assert forall|y: usize| order@.contains(y) <==> list@.subrange(0, k + 1).contains(y) by {
                    if order@.contains(y) {
                        let p = choose|p: int| 0 <= p < order@.len() && #[trigger] order@[p] == y;
                        if p == pos {
                            assert(list@.subrange(0, k + 1)[k as int] == x);
                        } else {
                            if p < pos {
                                assert(before.insert(pos as int, x)[p] == before[p]);
                                assert(before[p] == y);
                            } else {
                                assert(before.insert(pos as int, x)[(p - 1) + 1] == before[p - 1]);
                                assert(before[p - 1] == y);
                            }
                            assert(before.contains(y));
                            assert(list@.subrange(0, k as int).contains(y));
                            let q = choose|q: int| 0 <= q < k && #[trigger] list@.subrange(0, k as int)[q] == y;
                            assert(list@.subrange(0, k + 1)[q] == y);
                        }
                    }
                    if list@.subrange(0, k + 1).contains(y) {
                        if y == x {
                            assert(order@[pos as int] == x);
                        } else {
                            assert(list@.subrange(0, k as int).contains(y)) by {
                                let p = choose|p: int| 0 <= p < k + 1 && #[trigger] list@.subrange(0, k + 1)[p] == y;
                                assert(p < k);
                                assert(list@.subrange(0, k as int)[p] == y);
                            }
                            assert(before.contains(y));
                            let p = choose|p: int| 0 <= p < before.len() && #[trigger] before[p] == y;
                            if p < pos {
                                assert(before.insert(pos as int, x)[p] == before[p]);
                                assert(order@[p] == y);
                            } else {
                                assert(before.insert(pos as int, x)[p + 1] == before[p]);
                                assert(order@[p + 1] == y);
                            }
                        }
                    }
                }
                assert forall|j: int, q: int| 0 <= j < q < order@.len() implies depth_before(
                    self.icons@,
                    #[trigger] order@[j],
                    #[trigger] order@[q],
                ) by {
                    if q < pos {
                        assert(order@[j] == before[j] && order@[q] == before[q]);
                    } else if j > pos {
                        assert(order@[j] == before[j - 1] && order@[q] == before[q - 1]);
                    } else if j == pos {
                        assert(order@[q] == before[q - 1]);
                        assert(depth_key(self.icons@[before[q - 1] as int]) > kx);
                    } else if q == pos {
                        assert(order@[j] == before[j]);
                        assert(before[j] < x);
                    } else {
                        assert(order@[j] == before[j] && order@[q] == before[q - 1]);
                    }
                }
            }
            k = k + 1;
        }
        proof {
            assert(list@.subrange(0, list@.len() as int) =~= list@);
        }
        order
    }

    /// The repaint plan of dirty rect `r` (view coordinates, the view
    /// `yoff` rows down the screen) against the view clip rect `clip`:
    /// nothing when they do not overlap; otherwise the clipped rect, the
    /// visible icons touching it (in list order, or back to front by depth
    /// on the full map), whether the HUD head box (bottom 137, x
    /// 126..194) is touched while the head is shown, and the part of the
    /// open popup (`popup`, its rect in view coordinates) kept over the
    /// repaint.
    pub fn troop_icons_update_dirty_rect(
        &self,
        r: Rect,
        clip: Rect,
        yoff: i16,
        hud_head_hidden: bool,
        popup: Option<Rect>,
    ) -> (p: Option<DirtyRepaint>)
        requires
            icons_bounded(self.icons@),
            rect_bounded(r),
            rect_bounded(clip),
            popup matches Some(pp) ==> rect_bounded(pp),
            0 <= yoff <= 200,
        ensures
            ({
                let c = clip_dirty_spec(r, clip, yoff);
                let touching = icons_touching(self.icons@, c, yoff, self.icons@.len() as int);
                if c.x1 <= c.x0 || c.y1 <= c.y0 {
                    p.is_none()
                } else {
                    p matches Some(d) && {
                        &&& d.clipped == c
                        &&& d.keep_popup == kept_popup_spec(popup, c, yoff)
                        &&& d.redraw_hud_head == (!hud_head_hidden && c.y1 >= 137 && c.x1 >= 126
                            && c.x0 < 194)
                        &&& if self.draw_by_depth {
                            &&& d.order@.len() == touching.len()
                            &&& forall|x: usize| d.order@.contains(x) <==> touching.contains(x)
                            &&& depth_sorted(self.icons@, d.order@)
                        } else {
                            d.order@ == touching
                        }
                    }
                }
            }),
    {
        let c = Rect {
            x0: if r.x0 >= clip.x0 {
                r.x0
            } else {
                clip.x0
            },
            y0: if r.y0 + yoff >= clip.y0 {
                r.y0 + yoff
            } else {
                clip.y0
            },
            x1: if r.x1 <= clip.x1 {
                r.x1
            } else {
                clip.x1
            },
            y1: if r.y1 + yoff <= clip.y1 {
                r.y1 + yoff
            } else {
                clip.y1
            },
        };
        if c.x1 <= c.x0 || c.y1 <= c.y0 {
            return None;
        }
        let mut list: Vec<usize> = Vec::new();
        let mut i: usize = 0;
        while i < self.icons.len()
            invariant
                i <= self.icons@.len(),
                icons_bounded(self.icons@),
                0 <= yoff <= 200,
                list@ == icons_touching(self.icons@, c, yoff, i as int),
                forall|k: int| 0 <= k < list@.len() ==> (#[trigger] list@[k] as int) < i,
                forall|j: int, k: int| 0 <= j < k < list@.len() ==> #[trigger] list@[j] < #[trigger] list@[k],
            decreases self.icons@.len() - i,
        {
            let ic = self.icons[i];
            proof {
                assert(rect_bounded(self.icons@[i as int].rect));
            }
            if ic.flags & 0x80 == 0 && ic.rect.x0 < c.x1 && ic.rect.y0 + yoff < c.y1 && ic.rect.x1
                > c.x0 && ic.rect.y1 + yoff > c.y0 {
                list.push(i);
            }
            i = i + 1;
        }
        let order = if self.draw_by_depth {
            self.sort_by_depth(&list)
        } else {
            list
        };
        let redraw = !hud_head_hidden && c.y1 >= 137 && c.x1 >= 126 && c.x0 < 194;
        let keep_popup = match popup {
            None => None,
            Some(pp) => {
                let pr = Rect {
                    x0: if pp.x0 >= c.x0 {
                        pp.x0
                    } else {
                        c.x0
                    },
                    y0: if pp.y0 + yoff >= c.y0 {
                        pp.y0 + yoff
                    } else {
                        c.y0
                    },
                    x1: if pp.x1 <= c.x1 {
                        pp.x1
                    } else {
                        c.x1
                    },
                    y1: if pp.y1 + yoff <= c.y1 {
                        pp.y1 + yoff
                    } else {
                        c.y1
                    },
                };
                if pr.x1 <= pr.x0 || pr.y1 <= pr.y0 {
                    None
                } else {
                    Some(pr)
                }
            },
        };
        Some(DirtyRepaint { clipped: c, order, redraw_hud_head: redraw, keep_popup })
    }
}

/// The location record a troop's pointer names, if the table has it.
pub open spec fn troop_location(t: Troop, locations: Seq<Location>) -> Option<Location> {
    let li = location_index_spec(t.offset_of_location);
    if li < locations.len() {
        Some(locations[li])
    } else {
        None
    }
}

/// The facing of a moving troop's icon (0 = north, 1 = east, 2 = south,
/// 3 = west) toward its destination: the dominant axis of the coarse
/// longitude gap (in 256-unit cells, floored) against the latitude gap,
/// flipped for a negative gap.
pub open spec fn moving_facing(t: Troop, l: Location) -> int {
    let dlng = (signed16(((unsigned16(l.map_x) - t.gps_coordinates_1 + 0x10000) % 0x10000) as u16)
        as int) / 256;
    let dlat = signed16(((unsigned16(l.map_y) - t.gps_coordinates_2 + 0x10000) % 0x10000) as u16)
        as int;
    if crate::compass::abs_int(dlng) >= crate::compass::abs_int(dlat) {
        if dlng < 0 {
            3
        } else {
            1
        }
    } else if dlat < 0 {
        0
    } else {
        2
    }
}

/// The icon script of a moving troop: the moving table's entry for its
/// facing and occupation class (bits 2-3); 0 when its destination is not a
/// location of the table.
pub open spec fn pick_moving_spec(t: Troop, loc: Option<Location>) -> u16 {
    match loc {
        None => 0,
        Some(l) => icon_word_spec(0x18bf + 2 * (moving_facing(t, l) + 4 * ((t.occupation / 4) % 4))),
    }
}

/// The position band of a basic script: (position - 1) & 7 below 3 adds
/// nothing, 3 adds 10, 4 adds 20, more adds 30.
pub open spec fn position_band(position: u8) -> int {
    let b = ((position + 255) % 256) % 8;
    if b <= 2 {
        0
    } else if b == 3 {
        0x0a
    } else if b == 4 {
        0x14
    } else {
        0x1e
    }
}

/// The icon script of a troop (0 = no icon): hidden troops (bitfield bit
/// 4) have none; an unrallied Fremen troop shows 0x181f only where the
/// location status has bit 4; a moving troop its moving script; a troop
/// with speech-class bits 4-5 the specialized table's entry (spice mining
/// with harvesters/ornithopters routed to 0x1813/0x1817/0x181b); the rest
/// the basic table's entry (spice mining with vehicles: 0x17bc/0x17c9/
/// 0x1806), where script 0x1732 becomes 0x16aa at a battle-flagged location
/// and 0x1732/0x1774 step by the position band.
pub open spec fn pick_script_spec(t: Troop, loc: Option<Location>) -> u16 {
    let occ = t.occupation;
    let low = occ % 16;
    let eq = t.equipment & 0xc0;
    if t.bitfield_10 & 0x10 != 0 {
        0
    } else if t.bitfield_10 & 0x80 == 0 && occ & 0x80 != 0 {
        if loc matches Some(l) && l.status & 0x10 != 0 {
            0x181f
        } else {
            0
        }
    } else if occ & 0x40 != 0 {
        pick_moving_spec(t, loc)
    } else if occ & 0x30 != 0 {
        if low == 0 && eq == 0x80 {
            0x1813
        } else if low == 0 && eq == 0x40 {
            0x1817
        } else if low == 0 && eq == 0xc0 {
            0x181b
        } else {
            icon_word_spec(0x16b6 + 2 * low)
        }
    } else if low == 0 && eq == 0x80 {
        0x17bc
    } else if low == 0 && eq == 0x40 {
        0x17c9
    } else if low == 0 && eq == 0xc0 {
        0x1806
    } else {
        let script = icon_word_spec(0x179c + 2 * low);
        if script == 0x1732 && (loc matches Some(l) && l.status & 2 != 0) {
            0x16aa
        } else if script != 0x1732 && script != 0x1774 {
            script
        } else {
            (script + position_band(t.position)) as u16
        }
    }
}

/// The slot of a stationed troop's icon round its location marker:
/// position - 1, in the mirrored bank (XOR 8) at a battle-flagged location.
pub open spec fn icon_slot(t: Troop, loc: Option<Location>) -> int {
    let s = ((t.position + 255) % 256) as u8;
    let s2 = if loc matches Some(l) && l.status & 2 != 0 { s ^ 8 } else { s };
    (s2 % 16) as int
}

/// Where troop `t`'s icon goes on the full map (`None` = no icon): a
/// moving troop at its projected gps position while that is within
/// -15..327 x -15..159; a stationed one at its marker (built under the
/// full map) plus its slot's offset.
pub open spec fn icon_pos_spec(
    map: &TravelMap,
    t: Troop,
    marker: Option<MapLocationMarker>,
    loc: Option<Location>,
) -> Option<(i16, i16)> {
    if map.mode < 0x80 {
        None
    } else if t.occupation & 0x40 != 0 {
        let p = map.position_to_screen_spec(t.gps_coordinates_1, signed16(t.gps_coordinates_2));
        if p.0 > -16 && p.1 > -16 && p.0 < 0x148 && p.1 < 0xa0 {
            Some(p)
        } else {
            None
        }
    } else {
        match marker {
            None => None,
            Some(m) => if m.mode & 0x80 == 0 {
                None
            } else {
                let ofs = 0x1672 + 2 * icon_slot(t, loc);
                let dx = crate::compass::signed8_spec(icon_data_spec(ofs) as int);
                let dy = crate::compass::signed8_spec(icon_data_spec(ofs + 1) as int);
                Some(((m.x + dx) as i16, (m.y + dy) as i16))
            },
        }
    }
}

/// What a troop icon refresh did: the rect its old icon leaves to repaint,
/// and whether to spawn it anew, at which marker.
pub struct IconRefresh {
    pub repaint: Option<Rect>,
    pub respawn: bool,
    pub marker: Option<MapLocationMarker>,
}

/// `v` shifted right 8 bits arithmetically (floor of `v / 256`).
pub fn shr8_i16(v: i16) -> (r: i16)
    ensures
        r == (v as int) / 256,
{
    if v >= 0 {
        v / 256
    } else {
        -((255 - (v as i32)) / 256) as i16
    }
}

/// The first marker of the view that belongs to location `li`.
pub fn first_marker_for(map: &TravelMap, li: usize) -> (r: Option<MapLocationMarker>)
    ensures
        match r {
            Some(m) => m.location_index as int == li && exists|k: int|
                0 <= k < map.markers@.len() && #[trigger] map.markers@[k] == m && forall|j: int|
                    0 <= j < k ==> (#[trigger] map.markers@[j]).location_index as int != li,
            None => forall|k: int|
                0 <= k < map.markers@.len() ==> (#[trigger] map.markers@[k]).location_index as int
                    != li,
        },
{
    let mut k: usize = 0;
    while k < map.markers.len()
        invariant
            k <= map.markers@.len(),
            forall|j: int| 0 <= j < k ==> (#[trigger] map.markers@[j]).location_index as int != li,
        decreases map.markers@.len() - k,
    {
        let m = map.markers[k];
        if m.location_index as usize == li {
            assert(map.markers@[k as int] == m);
            return Some(m);
        }
        k = k + 1;
    }
    None
}

impl TroopIconList {
    /// The icon script of a moving troop (see `pick_moving_spec`).
    pub fn troop_icon_pick_script_moving(&self, t: &Troop, locations: &Vec<Location>) -> (s: u16)
        requires
            self.wf(),
        ensures
            s == pick_moving_spec(*t, troop_location(*t, locations@)),
    {
        let li = location_index_from_ptr(t.offset_of_location);
        if li >= locations.len() {
            return 0;
        }
        let l = locations[li];
        let u = crate::world::as_unsigned16(l.map_x).wrapping_sub(t.gps_coordinates_1);
        assert(u == ((unsigned16(l.map_x) - t.gps_coordinates_1 + 0x10000) % 0x10000) as u16);
        let dlng = shr8_i16(crate::world::as_signed16(u));
        let v = crate::world::as_unsigned16(l.map_y).wrapping_sub(t.gps_coordinates_2);
        assert(v == ((unsigned16(l.map_y) - t.gps_coordinates_2 + 0x10000) % 0x10000) as u16);
        let dlat = crate::world::as_signed16(v);
        let mut facing: u16 = 2;
        let dominant = if crate::world::abs_i16(dlng) >= crate::world::abs_i16(dlat) {
            facing = facing - 1;
            dlng
        } else {
            dlat
        };
        if dominant < 0 {
            facing = facing ^ 2;
            assert((1u16 ^ 2u16) == 3u16 && (2u16 ^ 2u16) == 0u16) by (bit_vector);
        }
        let occ = t.occupation;
        let class = ((occ >> 2) & 3) as u16;
        assert((occ >> 2) & 3 == (occ / 4) % 4) by (bit_vector);
        self.icon_data_word(0x18bf + 2 * (facing + 4 * class))
    }

    /// The icon script of a troop (see `pick_script_spec`; 0 = no icon).
    pub fn troop_icon_pick_script(&self, t: &Troop, locations: &Vec<Location>) -> (s: u16)
        requires
            self.wf(),
        ensures
            s == pick_script_spec(*t, troop_location(*t, locations@)),
    {
        if t.bitfield_10 & 0x10 != 0 {
            return 0;
        }
        let occ = t.occupation;
        let li = location_index_from_ptr(t.offset_of_location);
        if t.bitfield_10 & 0x80 == 0 && occ & 0x80 != 0 {
            if li < locations.len() && locations[li].status & 0x10 != 0 {
                return 0x181f;
            }
            return 0;
        }
        if occ & 0x40 != 0 {
            return self.troop_icon_pick_script_moving(t, locations);
        }
        let low = crate::world::low_nibble(occ) as u16;
        let eq = t.equipment & 0xc0;
        if occ & 0x30 != 0 {
            if low == 0 {
                if eq == 0x80 {
                    return 0x1813;
                } else if eq == 0x40 {
                    return 0x1817;
                } else if eq == 0xc0 {
                    return 0x181b;
                }
            }
            return self.icon_data_word(0x16b6 + 2 * low);
        }
        if low == 0 {
            if eq == 0x80 {
                return 0x17bc;
            } else if eq == 0x40 {
                return 0x17c9;
            } else if eq == 0xc0 {
                return 0x1806;
            }
        }
        let script = self.icon_data_word(0x179c + 2 * low);
        if script == 0x1732 {
            if li < locations.len() && locations[li].status & 2 != 0 {
                return 0x16aa;
            }
        } else if script != 0x1774 {
            return script;
        }
        let p = t.position.wrapping_sub(1);
        let b = p & 7;
        assert(b == p % 8) by (bit_vector)
            requires
                b == p & 7,
        ;
        let band: u16 = if b <= 2 {
            0
        } else if b == 3 {
            0x0a
        } else if b == 4 {
            0x14
        } else {
            0x1e
        };
        script + band
    }

    /// Where troop `t`'s icon goes on the full map (see `icon_pos_spec`);
    /// `marker` is the marker of its location.
    pub fn troop_icon_screen_pos(
        &self,
        t: &Troop,
        marker: Option<MapLocationMarker>,
        locations: &Vec<Location>,
        map: &TravelMap,
    ) -> (p: Option<(i16, i16)>)
        requires
            self.wf(),
            map.wf(),
            t.occupation & 0x40 != 0 ==> -98 <= signed16(t.gps_coordinates_2) <= 98,
            marker matches Some(m) ==> -0x4000 <= m.x <= 0x4000 && -0x4000 <= m.y <= 0x4000,
        ensures
            p == icon_pos_spec(map, *t, marker, troop_location(*t, locations@)),
    {
        if map.mode < 0x80 {
            return None;
        }
        if t.occupation & 0x40 != 0 {
            let (sx, sy) = map.map_position_to_screen(
                t.gps_coordinates_1,
                crate::world::as_signed16(t.gps_coordinates_2),
            );
            if sx > -16 && sy > -16 && sx < 0x148 && sy < 0xa0 {
                return Some((sx, sy));
            }
            return None;
        }
        let m = match marker {
            None => {
                return None;
            },
            Some(m) => m,
        };
        if m.mode & 0x80 == 0 {
            return None;
        }
        let mut slot = t.position.wrapping_sub(1);
        let li = location_index_from_ptr(t.offset_of_location);
        if li < locations.len() && locations[li].status & 2 != 0 {
            slot = slot ^ 8;
        }
        let sl = slot & 0xf;
        assert(sl == slot % 16) by (bit_vector)
            requires
                sl == slot & 0xf,
        ;
        let ofs = 0x1672 + 2 * (sl as u16);
        let dx = crate::compass::signed8(self.icon_data(ofs));
        let dy = crate::compass::signed8(self.icon_data(ofs + 1));
        Some((m.x + dx, m.y + dy))
    }

    /// Where and with which script troop `t`'s icon would spawn on the full
    /// map; `None` when it gets no icon.
    pub fn map_troop_icon_spawn_plan(
        &self,
        t: &Troop,
        marker: Option<MapLocationMarker>,
        locations: &Vec<Location>,
        map: &TravelMap,
    ) -> (p: Option<(i16, i16, u16)>)
        requires
            self.wf(),
            map.wf(),
            t.occupation & 0x40 != 0 ==> -98 <= signed16(t.gps_coordinates_2) <= 98,
            marker matches Some(m) ==> -0x4000 <= m.x <= 0x4000 && -0x4000 <= m.y <= 0x4000,
        ensures
            ({
                let loc = troop_location(*t, locations@);
                p == match icon_pos_spec(map, *t, marker, loc) {
                    None => None::<(i16, i16, u16)>,
                    Some(xy) => if pick_script_spec(*t, loc) == 0 {
                        None
                    } else {
                        Some((xy.0, xy.1, pick_script_spec(*t, loc)))
                    },
                }
            }),
    {
        let (x, y) = match self.troop_icon_screen_pos(t, marker, locations, map) {
            None => {
                return None;
            },
            Some(xy) => xy,
        };
        let script = self.troop_icon_pick_script(t, locations);
        if script == 0 {
            return None;
        }
        Some((x, y, script))
    }

    /// Refresh troop `ti`'s icon (its sprite and script follow its
    /// occupation): its old icon leaves the list, and it is to be spawned
    /// anew: a moving troop always (at its gps position), a stationed one
    /// only when its location has a marker on the view (the first such).
    pub fn troop_refresh_icon(
        &mut self,
        ti: usize,
        troops: &Vec<Troop>,
        map: &TravelMap,
    ) -> (r: IconRefresh)
        requires
            ti < troops@.len(),
        ensures
            ({
                let t = troops@[ti as int];
                let li = location_index_spec(t.offset_of_location);
                &&& r.repaint.is_some() <==> exists|j: int|
                    0 <= j < old(self).icons@.len() && is_troop_icon(
                        #[trigger] old(self).icons@[j],
                        ti,
                    )
                &&& if t.occupation & 0x40 != 0 {
                    r.respawn && r.marker.is_none()
                } else {
                    &&& r.respawn == exists|k: int|
                        0 <= k < map.markers@.len() && (#[trigger] map.markers@[k]).location_index
                            as int == li
                    &&& r.respawn ==> (r.marker matches Some(m) && m.location_index as int == li)
                }
            }),
            final(self).data@ == old(self).data@,
            final(self).sprite_dims@ == old(self).sprite_dims@,
    {
        let repaint = match self.troop_find_icon(ti) {
            Some(i) => self.troop_icon_remove(i),
            None => None,
        };
        let t = troops[ti];
        if t.occupation & 0x40 != 0 {
            return IconRefresh { repaint, respawn: true, marker: None };
        }
        let li = location_index_from_ptr(t.offset_of_location);
        match first_marker_for(map, li) {
            Some(m) => IconRefresh { repaint, respawn: true, marker: Some(m) },
            None => IconRefresh { repaint, respawn: false, marker: None },
        }
    }
}

/// The icons the full map spawns for the first `n` markers: each marker's
/// location list, head first, at that marker.
pub open spec fn marker_pass_spec(
    markers: Seq<MapLocationMarker>,
    troops: Seq<Troop>,
    locations: Seq<Location>,
    n: int,
) -> Seq<(usize, Option<MapLocationMarker>)>
    decreases n,
{
    if n <= 0 {
        Seq::empty()
    } else {
        let prev = marker_pass_spec(markers, troops, locations, n - 1);
        let m = markers[n - 1];
        if (m.location_index as int) < locations.len() {
            let chain = crate::world::troop_chain(
                troops,
                locations[m.location_index as int].troop_id,
                troops.len() as nat,
            );
            prev + Seq::new(chain.len(), |i: int| (chain[i], Some(m)))
        } else {
            prev
        }
    }
}

/// The moving troops among the first `n` (not hidden, occupation bit 6),
/// which sit at their gps position rather than at a marker.
pub open spec fn moving_pass_spec(troops: Seq<Troop>, n: int) -> Seq<
    (usize, Option<MapLocationMarker>),
>
    decreases n,
{
    if n <= 0 {
        Seq::empty()
    } else {
        let prev = moving_pass_spec(troops, n - 1);
        let t = troops[n - 1];
        if t.bitfield_10 & 0x10 == 0 && t.occupation & 0x40 != 0 {
            prev.push(((n - 1) as usize, None))
        } else {
            prev
        }
    }
}

/// The troops whose icons the full map spawns, in spawn order, each with
/// the marker it clusters round (none for a moving troop): every marker's
/// location list, then the moving troops.
pub fn map_spawn_troop_icons(troops: &Vec<Troop>, locations: &Vec<Location>, map: &TravelMap) -> (r:
    Vec<(usize, Option<MapLocationMarker>)>)
    ensures
        r@ == marker_pass_spec(map.markers@, troops@, locations@, map.markers@.len() as int)
            + moving_pass_spec(troops@, troops@.len() as int),
{
    let mut out: Vec<(usize, Option<MapLocationMarker>)> = Vec::new();
    let mut k: usize = 0;
    while k < map.markers.len()
        invariant
            k <= map.markers@.len(),
            out@ == marker_pass_spec(map.markers@, troops@, locations@, k as int),
        decreases map.markers@.len() - k,
    {
        let m = map.markers[k];
        let li = m.location_index as usize;
        if li < locations.len() {
            let chain = crate::world::collect_troop_chain(troops, locations[li].troop_id);
            let ghost prev = out@;
            let mut j: usize = 0;
            while j < chain.len()
                invariant
                    j <= chain@.len(),
                    out@ == prev + Seq::new(j as nat, |i: int| (chain@[i], Some(m))),
                decreases chain@.len() - j,
            {
                out.push((chain[j], Some(m)));
                proof {
                    assert(out@ =~= prev + Seq::new((j + 1) as nat, |i: int| (chain@[i], Some(m))));
                }
                j = j + 1;
            }
        }
        k = k + 1;
    }
    let ghost first = out@;
    let mut ti: usize = 0;
    while ti < troops.len()
        invariant
            ti <= troops@.len(),
            out@ == first + moving_pass_spec(troops@, ti as int),
        decreases troops@.len() - ti,
    {
        let t = troops[ti];
        if t.bitfield_10 & 0x10 == 0 && t.occupation & 0x40 != 0 {
            out.push((ti, None));
        }
        proof {
            assert(out@ =~= first + moving_pass_spec(troops@, ti + 1));
        }
        ti = ti + 1;
    }
    out
}

impl TroopIconList {
    /// Where the highlight ring over troop `ti` spawns (the animation
    /// script 0x18fd): only over a troop with a plain icon on the map,
    /// moving or stationed at a location with a marker on the view (the
    /// first), at its icon position (see `icon_pos_spec`); `None` leaves the
    /// ring off.
    pub fn map_focus_troop_icon(
        &self,
        ti: usize,
        troops: &Vec<Troop>,
        locations: &Vec<Location>,
        map: &TravelMap,
    ) -> (p: Option<(i16, i16)>)
        requires
            self.wf(),
            map.wf(),
            ti < troops@.len(),
            troops@[ti as int].occupation & 0x40 != 0 ==> -98 <= signed16(
                troops@[ti as int].gps_coordinates_2,
            ) <= 98,
            forall|k: int|
                0 <= k < map.markers@.len() ==> -0x4000 <= (#[trigger] map.markers@[k]).x <= 0x4000
                    && -0x4000 <= map.markers@[k].y <= 0x4000,
        ensures
            ({
                let t = troops@[ti as int];
                let li = location_index_spec(t.offset_of_location);
                let has_icon = exists|j: int|
                    0 <= j < self.icons@.len() && is_troop_icon(#[trigger] self.icons@[j], ti);
                let has_marker = exists|k: int|
                    0 <= k < map.markers@.len() && (#[trigger] map.markers@[k]).location_index
                        as int == li;
                if !has_icon || (t.occupation & 0x40 == 0 && !has_marker) {
                    p.is_none()
                } else if t.occupation & 0x40 != 0 {
                    p == icon_pos_spec(map, t, None, troop_location(t, locations@))
                } else {
                    exists|k: int|
                        0 <= k < map.markers@.len() && (#[trigger] map.markers@[k]).location_index
                            as int == li && (forall|j: int|
                            0 <= j < k ==> (#[trigger] map.markers@[j]).location_index as int
                                != li) && p == icon_pos_spec(
                            map,
                            t,
                            Some(map.markers@[k]),
                            troop_location(t, locations@),
                        )
                }
            }),
    {
        if self.troop_find_icon(ti).is_none() {
            return None;
        }
        let t = troops[ti];
        let li = location_index_from_ptr(t.offset_of_location);
        let marker = first_marker_for(map, li);
        if t.occupation & 0x40 == 0 && marker.is_none() {
            return None;
        }
        if t.occupation & 0x40 != 0 {
            return self.troop_icon_screen_pos(&t, None, locations, map);
        }
        self.troop_icon_screen_pos(&t, marker, locations, map)
    }

    /// Make icon `i` the highlight ring: it draws last and never
    /// hit-tests (flag bit 6), and takes focus slot 0.
    pub fn set_focus_ring(&mut self, i: usize)
        requires
            old(self).wf(),
            i < old(self).icons@.len(),
            old(self).focused@.len() >= 1,
        ensures
            final(self).wf(),
            final(self).icons@ == old(self).icons@.update(
                i as int,
                TroopIcon { flags: old(self).icons@[i as int].flags | 0x40, ..old(self).icons@[i as int] },
            ),
            final(self).focused@ == old(self).focused@.update(0, Some(i)),
            final(self).data@ == old(self).data@,
            final(self).sprite_dims@ == old(self).sprite_dims@,
    {
        let mut ic = self.icons[i];
        ic.flags = ic.flags | 0x40;
        self.icons.set(i, ic);
        self.focused.set(0, Some(i));
    }
}

/// The icons of equipment slots `0..n` in the row at `(x0, y)` over the
/// panel bottom `bottom`, and the column after them: each slot with a
/// count and a known sprite stacks its icons in a column (see
/// `column_layout_spec`), the next column starting the sprite's width
/// further right.
pub open spec fn columns_spec(
    dims: Seq<(i16, i16)>,
    counts: Seq<u8>,
    bottom: i16,
    x0: int,
    y: i16,
    n: int,
) -> (Seq<(u16, i16, i16)>, int)
    decreases n,
{
    if n <= 0 {
        (Seq::empty(), x0)
    } else {
        let prev = columns_spec(dims, counts, bottom, x0, y, n - 1);
        let c = counts[n - 1];
        let sprite = icon_data_spec(0x192f + n - 1) as u16;
        let d = dims_spec(dims, sprite);
        if c == 0 || d.0 == 0 {
            prev
        } else {
            let l = crate::troop_map::column_layout_spec(c, (bottom - y) as i16, d.1);
            (
                prev.0 + Seq::new(
                    l.0 as nat,
                    |j: int| (sprite, prev.1 as i16, (y + j * l.1) as i16),
                ),
                prev.1 + d.0,
            )
        }
    }
}

impl TroopIconList {
    /// The equipment row at `(x0, y)` of a panel with bottom `bottom`, from
    /// the seven per-slot `counts` (harvesters .. bulbs): `None` when
    /// nothing is owned (the "none" phrase goes 12 px in, 5 down), else the
    /// icons to draw (see `columns_spec`).
    pub fn map_draw_equipment_columns(&self, counts: &Vec<u8>, bottom: i16, x0: i16, y: i16) -> (r:
        Option<Vec<(u16, i16, i16)>>)
        requires
            self.wf(),
            counts@.len() == 7,
            0 <= y <= bottom <= 0x1000,
            -0x1000 <= x0 <= 0x1000,
        ensures
            (forall|k: int| 0 <= k < 7 ==> counts@[k] == 0) ==> r.is_none(),
            (exists|k: int| 0 <= k < 7 && counts@[k] != 0) ==> (r matches Some(v) && v@
                == columns_spec(self.sprite_dims@, counts@, bottom, x0 as int, y, 7).0),
    {
        let mut any = false;
        let mut k: usize = 0;
        while k < 7
            invariant
                k <= 7,
                counts@.len() == 7,
                any == exists|j: int| 0 <= j < k && counts@[j] != 0,
            decreases 7 - k,
        {
            if counts[k] != 0 {
                any = true;
            }
            k = k + 1;
        }
        if !any {
            return None;
        }
        let mut stamps: Vec<(u16, i16, i16)> = Vec::new();
        let mut x = x0;
        let mut slot: usize = 0;
        while slot < 7
            invariant
                self.wf(),
                slot <= 7,
                counts@.len() == 7,
                0 <= y <= bottom <= 0x1000,
                -0x1000 <= x0 <= 0x1000,
                x0 <= x <= x0 + 320 * slot,
                (stamps@, x as int) == columns_spec(
                    self.sprite_dims@,
                    counts@,
                    bottom,
                    x0 as int,
                    y,
                    slot as int,
                ),
            decreases 7 - slot,
        {
            let c = counts[slot];
            let sprite = self.equipment_icon_sprite(slot);
            let (w, h) = if (sprite as usize) < self.sprite_dims.len() {
                self.sprite_dims[sprite as usize]
            } else {
                (0, 0)
            };
            if c != 0 && w != 0 {
                let (n, step) = crate::troop_map::equipment_column_layout(c, bottom - y, h);
                let ghost before = stamps@;
                let ghost col = Seq::new(
                    n as nat,
                    |j: int| (sprite, x, (y + j * step) as i16),
                );
                let mut j: i16 = 0;
                let mut iy = y;
                while j < n
                    invariant
                        0 <= j <= n,
                        1 <= n <= c,
                        step >= 2,
                        n * step <= bottom - y + 2,
                        0 <= y <= bottom <= 0x1000,
                        iy == y + j * step,
                        col == Seq::new(n as nat, |i: int| (sprite, x, (y + i * step) as i16)),
                        stamps@ == before + col.take(j as int),
                    decreases n - j,
                {
                    assert(j * step <= n * step) by (nonlinear_arith)
                        requires
                            0 <= j <= n,
                            step >= 2,
                    ;
                    stamps.push((sprite, x, iy));
                    proof {
                        assert(col.take(j + 1) == col.take(j as int).push(col[j as int]));
                    }
                    assert((j + 1) * step == j * step + step) by (nonlinear_arith);
                    assert((j + 1) * step <= n * step) by (nonlinear_arith)
                        requires
                            j + 1 <= n,
                            step >= 2,
                    ;
                    iy = iy + step;
                    j = j + 1;
                }
                proof {
                    assert(col.take(n as int) == col);
                }
                x = x + w;
            }
            slot = slot + 1;
        }
        Some(stamps)
    }
}

} // verus!
