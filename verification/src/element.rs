//! Element-type descriptors: the closed set of scalar representations a
//! kernel can be specialized for, each with a name tag and a byte size.
//!
//! Device memory is modelled as 32-bit slots holding exact integral scalars;
//! a floating-point slot is represented by the integral value it stores, so
//! conversions are exact wherever the target type represents the value.

use vstd::prelude::*;

verus! {

/// A scalar element type a kernel can read or write.
///
/// Identity is by tag: two element types are interchangeable exactly when
/// they are the same variant. Boolean tensors are stored as `U32` words in
/// which any non-zero word means true.
#[derive(Clone, Copy, PartialEq, Eq, Structural, Debug, Hash)]
pub enum ElementType {
    F32,
    I32,
    U32,
}

impl ElementType {
    /// The name tag substituted into kernel source templates.
    pub open spec fn spec_name_tag(self) -> Seq<char> {
        match self {
            ElementType::F32 => "f32"@,
            ElementType::I32 => "i32"@,
            ElementType::U32 => "u32"@,
        }
    }

    /// The size in bytes of one stored element.
    pub open spec fn spec_byte_size(self) -> nat {
        4
    }

    pub fn name_tag(&self) -> (r: &'static str)
        ensures
            r@ == self.spec_name_tag(),
    {
        match self {
            ElementType::F32 => "f32",
            ElementType::I32 => "i32",
            ElementType::U32 => "u32",
        }
    }

    pub fn byte_size(&self) -> (r: usize)
        ensures
            r == self.spec_byte_size(),
    {
        4
    }
}

/// The value stored when the scalar `v` is converted into an element of
/// type `to`: values outside the target's integral range saturate at its
/// bounds, and a floating target keeps the integral value itself.
pub open spec fn spec_cast_scalar(v: int, to: ElementType) -> int {
    match to {
        ElementType::F32 => v,
        ElementType::I32 => if v < i32::MIN {
            i32::MIN as int
        } else if v > i32::MAX {
            i32::MAX as int
        } else {
            v
        },
        ElementType::U32 => if v < 0 {
            0
        } else if v > u32::MAX {
            u32::MAX as int
        } else {
            v
        },
    }
}

/// The canonical value a boolean word maps to: `1` for any non-zero word,
/// `0` otherwise, whatever the original bit pattern was.
pub open spec fn spec_bool_canonical(w: int) -> int {
    if w != 0 {
        1
    } else {
        0
    }
}

/// Converts one scalar into the given element type.
pub fn cast_scalar(v: i64, to: ElementType) -> (r: i64)
    ensures
        r == spec_cast_scalar(v as int, to),
{
    match to {
        ElementType::F32 => v,
        ElementType::I32 => {
            if v < i32::MIN as i64 {
                i32::MIN as i64
            } else if v > i32::MAX as i64 {
                i32::MAX as i64
            } else {
                v
            }
        },
        ElementType::U32 => {
            if v < 0 {
                0
            } else if v > u32::MAX as i64 {
                u32::MAX as i64
            } else {
                v
            }
        },
    }
}

/// Canonicalizes one boolean word.
pub fn bool_canonical(w: i64) -> (r: i64)
    ensures
        r == spec_bool_canonical(w as int),
{
    if w != 0 {
        1
    } else {
        0
    }
}

/// Boolean canonicalization is independent of the bit pattern: every
/// non-zero word maps to exactly `1`, and the zero word to exactly `0`.
pub proof fn lemma_bool_canonical_pattern_independent(w1: int, w2: int)
    requires
        w1 != 0,
        w2 != 0,
    ensures
        spec_bool_canonical(w1) == 1,
        spec_bool_canonical(w2) == 1,
        spec_bool_canonical(0) == 0,
{
}

} // verus!
