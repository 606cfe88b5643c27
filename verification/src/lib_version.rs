use vstd::prelude::*;

verus! {

/// A C `int` as the `u64` that it is converted to: itself where it is not
/// negative, and else the number that has the same 64 bits in two's
/// complement.
pub open spec fn widen(n: i32) -> u64 {
    if n >= 0 {
        n as u64
    } else {
        (n + 0x1_0000_0000_0000_0000) as u64
    }
}

/// Return LibYAML version as a `(major, minor, patch)` tuple, given the
/// three numbers that `yaml_get_version` reported.
pub fn lib_version(major: i32, minor: i32, patch: i32) -> (version: (u64, u64, u64))
    ensures
        version == (widen(major), widen(minor), widen(patch)),
{
    assert forall|n: i32| n as u64 == #[trigger] widen(n) by {
        assert(n < 0 ==> n as u64 == (n + 0x1_0000_0000_0000_0000) as u64) by (bit_vector);
    }
    (
        #[verifier::truncate]
        (major as u64),
        #[verifier::truncate]
        (minor as u64),
        #[verifier::truncate]
        (patch as u64),
    )
}

} // verus!
