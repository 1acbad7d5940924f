//! The header that this crate puts in front of a program binary, to remember which optional
//! shader stages the program has.
//!
//! The header is one byte: bit 0 is set for a tessellation evaluation shader, bit 1 for a
//! tessellation control shader, bit 2 for a geometry shader; the other bits are clear.

use vstd::prelude::*;

verus! {

const MASK_HAS_TESS_EVAL: u8 = 0b00000001;

const MASK_HAS_TESS_CONTROL: u8 = 0b00000010;

const MASK_HAS_GEOMETRY: u8 = 0b00000100;

/// The header byte for a program with the given optional stages.
pub open spec fn header_byte(
    has_geometry_shader: bool,
    has_tessellation_control_shader: bool,
    has_tessellation_evaluation_shader: bool,
) -> u8 {
    ((if has_geometry_shader {
        4int
    } else {
        0int
    }) + (if has_tessellation_control_shader {
        2int
    } else {
        0int
    }) + (if has_tessellation_evaluation_shader {
        1int
    } else {
        0int
    })) as u8
}

/// The flags (geometry, tessellation control, tessellation evaluation) that a header byte
/// stands for, or `None` if it is not a valid header.
pub open spec fn header_flags(byte: u8) -> Option<(bool, bool, bool)> {
    if byte < 8 {
        Some(((byte / 4) % 2 == 1, (byte / 2) % 2 == 1, byte % 2 == 1))
    } else {
        None
    }
}

/// Puts in front of `data` the header byte of a program with the given optional stages.
pub fn attach_glium_header(
    has_geometry_shader: bool,
    has_tessellation_control_shader: bool,
    has_tessellation_evaluation_shader: bool,
    data: &mut Vec<u8>,
)
    ensures
        final(data)@ == seq![
            header_byte(
                has_geometry_shader,
                has_tessellation_control_shader,
                has_tessellation_evaluation_shader,
            ),
        ] + old(data)@,
{
    let mut header: u8 = 0;
    if has_tessellation_evaluation_shader {
        assert(0u8 ^ 1u8 == 1u8) by (bit_vector);
        header = header ^ MASK_HAS_TESS_EVAL;
    }
    if has_tessellation_control_shader {
        assert(0u8 ^ 2u8 == 2u8 && 1u8 ^ 2u8 == 3u8) by (bit_vector);
        header = header ^ MASK_HAS_TESS_CONTROL;
    }
    if has_geometry_shader {
        assert(0u8 ^ 4u8 == 4u8 && 1u8 ^ 4u8 == 5u8 && 2u8 ^ 4u8 == 6u8 && 3u8 ^ 4u8 == 7u8)
            by (bit_vector);
        header = header ^ MASK_HAS_GEOMETRY;
    }
    data.reserve(1);
    data.insert(0, header);
    assert(final(data)@ =~= seq![header] + old(data)@);
}

/// Reads the first byte of the data (the header) and returns the corresponding shader flags:
/// geometry, tessellation control and tessellation evaluation. If the header is not valid,
/// returns `None`.
pub fn process_glium_header(data: &[u8]) -> (r: Option<(bool, bool, bool)>)
    requires
        data@.len() > 0,
    ensures
        r == header_flags(data@[0]),
{
    let header = data[0];
    assert(header >> 3u8 == 0u8 <==> header < 8u8) by (bit_vector);
    if header >> 3u8 == 0 {
        assert((header & 4u8 != 0u8) == ((header / 4u8) % 2u8 == 1u8)) by (bit_vector);
        assert((header & 2u8 != 0u8) == ((header / 2u8) % 2u8 == 1u8)) by (bit_vector);
        assert((header & 1u8 != 0u8) == (header % 2u8 == 1u8)) by (bit_vector);
        Some(
            (
                (header & MASK_HAS_GEOMETRY) != 0,
                (header & MASK_HAS_TESS_CONTROL) != 0,
                (header & MASK_HAS_TESS_EVAL) != 0,
            ),
        )
    } else {
        None
    }
}

/// Reading the header of a binary gives back the flags with which the header was attached.
pub proof fn lemma_header_roundtrip(
    has_geometry_shader: bool,
    has_tessellation_control_shader: bool,
    has_tessellation_evaluation_shader: bool,
)
    ensures
        header_flags(
            header_byte(
                has_geometry_shader,
                has_tessellation_control_shader,
                has_tessellation_evaluation_shader,
            ),
        ) == Some(
            (
                has_geometry_shader,
                has_tessellation_control_shader,
                has_tessellation_evaluation_shader,
            ),
        ),
{
}

} // verus!
