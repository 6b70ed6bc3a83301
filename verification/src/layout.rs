//! How the vertex stage reads the instance buffer.
//!
//! The layout is a contract with the shader: a record is stepped once for each instance and
//! read as five vectors of four 32-bit numbers at consecutive shader locations, the four
//! columns of the transform first, the colour last.

use vstd::prelude::*;
use crate::record::RECORD_BYTES;

verus! {

/// The number of vertex attributes that one record feeds.
pub const ATTRIBUTE_COUNT: usize = 5;

/// The bytes of one attribute: four 32-bit numbers.
pub const ATTRIBUTE_BYTES: u64 = 16;

/// The shader location of the first attribute of a record.
pub const FIRST_SHADER_LOCATION: u32 = 5;

/// One vertex attribute of the instance buffer: a vector of four 32-bit numbers.
#[derive(Clone, Copy, Debug, PartialEq, Eq)]
pub struct InstanceAttribute {
    /// Where the attribute starts in a record, in bytes.
    pub offset: u64,
    /// Where the shader reads it.
    pub shader_location: u32,
}

/// The layout of the instance buffer, stepped once for each instance.
#[derive(Clone, Copy, Debug, PartialEq, Eq)]
pub struct InstanceLayout {
    /// The distance between two records, in bytes.
    pub array_stride: u64,
    /// The attributes of a record, in the order in which they lie.
    pub attributes: [InstanceAttribute; 5],
}

/// The `row`-th attribute of a record.
pub open spec fn attribute_at(row: int) -> InstanceAttribute {
    InstanceAttribute {
        offset: (ATTRIBUTE_BYTES * row) as u64,
        shader_location: (FIRST_SHADER_LOCATION + row) as u32,
    }
}

/// The layout of the instance buffer: records lie back to back, and the attributes of a record
/// fill it without gaps.
pub fn desc() -> (layout: InstanceLayout)
    ensures
        layout.array_stride == RECORD_BYTES,
        layout.array_stride == ATTRIBUTE_COUNT * ATTRIBUTE_BYTES,
        forall|row: int| 0 <= row < ATTRIBUTE_COUNT ==> layout.attributes[row] == attribute_at(row),
{
    InstanceLayout {
        array_stride: 80,
        attributes: [
            InstanceAttribute { offset: 0, shader_location: 5 },
            InstanceAttribute { offset: 16, shader_location: 6 },
            InstanceAttribute { offset: 32, shader_location: 7 },
            InstanceAttribute { offset: 48, shader_location: 8 },
            InstanceAttribute { offset: 64, shader_location: 9 },
        ],
    }
}

} // verus!
