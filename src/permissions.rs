use vstd::prelude::*;

verus! {

/// Owner read and execute: what a lifecycle script must allow.
pub const PERMISSIONS_RX: u32 = 0b101;

/// Owner read: what a declared resource must allow.
pub const PERMISSIONS_R: u32 = 0b100;

/// The owner triad of a file mode.
pub open spec fn owner_bits(mode: u32) -> u32 {
    mode >> 6u32
}

/// Whether every bit of `desired` is set in the owner triad of `mode`.
pub open spec fn permits(mode: u32, desired: u32) -> bool {
    (owner_bits(mode) & desired) == desired
}

/// Checks that the owner of a file with permission bits `mode` has at least
/// the access in `desired` (a mask of read 0b100, write 0b010, execute 0b001).
pub fn check_permissions(mode: u32, desired: u32) -> (r: bool)
    ensures
        r == permits(mode, desired),
{
    ((mode >> 6) & desired) == desired
}

/// The check holds exactly when no bit asked for is missing from the owner
/// triad; and where it holds, each single bit asked for is granted.
pub proof fn lemma_permits_bitwise(mode: u32, desired: u32)
    ensures
        permits(mode, desired) <==> (desired & !owner_bits(mode)) == 0u32,
        permits(mode, desired) ==> (forall|i: u32|
            i < 32 && #[trigger] ((desired >> i) & 1u32) == 1u32 ==> ((owner_bits(mode) >> i)
                & 1u32) == 1u32),
{
    let o = owner_bits(mode);
    assert(((o & desired) == desired) <==> (desired & !o) == 0u32) by (bit_vector);
    if permits(mode, desired) {
        assert forall|i: u32|
            i < 32 && #[trigger] ((desired >> i) & 1u32) == 1u32 implies ((o >> i) & 1u32)
            == 1u32 by {
            assert((o & desired) == desired && i < 32 && ((desired >> i) & 1u32) == 1u32 ==> ((o
                >> i) & 1u32) == 1u32) by (bit_vector);
        }
    }
}

} // verus!
