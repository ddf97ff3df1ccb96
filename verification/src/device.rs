//! Device-level selection logic.
//!
//! The logical device itself lives with the embedding application; the
//! memory-type search it performs on allocation is plain arithmetic on
//! the values the device reports, and is verified here.

use vstd::prelude::*;

verus! {

/// Whether memory type `i` is acceptable: the allocation's type filter
/// names it and its property flags include every required flag.
pub open spec fn spec_memory_type_suitable(
    memory_type_bits: u32,
    property_flags: Seq<u32>,
    required_properties: u32,
    i: int,
) -> bool {
    &&& memory_type_bits & (1u32 << i as u32) != 0
    &&& property_flags[i] & required_properties == required_properties
}

/// The lowest memory type index that the allocation's type filter names
/// and whose property flags include every required flag.
///
/// `property_flags[i]` holds the property flags of memory type `i`; a
/// device reports at most 32 memory types.
pub fn find_memory_type(
    memory_type_bits: u32,
    property_flags: &Vec<u32>,
    required_properties: u32,
) -> (index: u32)
    requires
        property_flags@.len() <= 32,
        exists|i: int|
            0 <= i < property_flags@.len() && spec_memory_type_suitable(
                memory_type_bits,
                property_flags@,
                required_properties,
                i,
            ),
    ensures
        index < property_flags@.len(),
        spec_memory_type_suitable(
            memory_type_bits,
            property_flags@,
            required_properties,
            index as int,
        ),
        forall|j: int|
            0 <= j < index ==> !spec_memory_type_suitable(
                memory_type_bits,
                property_flags@,
                required_properties,
                j,
            ),
{
    let mut k: u32 = 0;
    let count = property_flags.len() as u32;
    while k < count
        invariant
            count == property_flags@.len(),
            count <= 32,
            k <= count,
            exists|i: int|
                0 <= i < property_flags@.len() && spec_memory_type_suitable(
                    memory_type_bits,
                    property_flags@,
                    required_properties,
                    i,
                ),
            forall|j: int|
                0 <= j < k ==> !spec_memory_type_suitable(
                    memory_type_bits,
                    property_flags@,
                    required_properties,
                    j,
                ),
        decreases count - k,
    {
        if memory_type_bits & (1u32 << k) != 0 && property_flags[k as usize] & required_properties
            == required_properties {
            return k;
        }
        k = k + 1;
    }
    // The required witness lies below `count`, and every index below
    // `count` was ruled out; this point is unreachable.
    assert(false);
    0
}

} // verus!
