use vstd::prelude::*;

use crate::encoder::ScalarType;

verus! {

/// The plaintext parameter signature the wheel-spin circuit declares: one
/// 8-bit segment count, following the implicit public-key and nonce header.
pub fn spin_param_types() -> (t: Vec<ScalarType>)
    ensures
        t@ == seq![ScalarType::U8],
{
    let mut t: Vec<ScalarType> = Vec::new();
    t.push(ScalarType::U8);
    proof {
        assert(t@ =~= seq![ScalarType::U8]);
    }
    t
}

/// The wheel-spin circuit: maps a fair random draw to a 1-based wheel
/// segment.
///
/// The MPC cluster evaluates this function over secret-shared inputs; the
/// random draw is produced inside the cluster (a fair value in `[0, 7]`) and
/// is taken here as an argument, so the mapping itself holds for every value
/// the cluster may draw. The result is the segment number, from `1` to
/// `num_segments` inclusive.
pub fn spin(random: u8, num_segments: u8) -> (result: u8)
    requires
        num_segments >= 1,
    ensures
        result == random % num_segments + 1,
        1 <= result <= num_segments,
{
    random % num_segments + 1
}

} // verus!
