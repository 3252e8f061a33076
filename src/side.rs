//! Side correction of joint angles: landmark axis conventions are mirrored
//! between left and right limbs, so each side negates a fixed set of the
//! three Euler angles.
use vstd::prelude::*;
use crate::anatomy::Side;

verus! {

/// Which of the angles about x, y and z are negated.
#[derive(Clone, Copy, Debug, PartialEq, Eq, Structural)]
pub struct SideSigns {
    pub negate_x: bool,
    pub negate_y: bool,
    pub negate_z: bool,
}

/// The sign table: a right limb negates x only, a left limb all three.
pub open spec fn signs_of(side: Side) -> SideSigns {
    match side {
        Side::Right => SideSigns { negate_x: true, negate_y: false, negate_z: false },
        Side::Left => SideSigns { negate_x: true, negate_y: true, negate_z: true },
    }
}

/// The angles that `side` negates.
pub fn side_signs(side: Side) -> (r: SideSigns)
    ensures
        r == signs_of(side),
        r.negate_x,
        r.negate_y == (side == Side::Left),
        r.negate_z == (side == Side::Left),
{
    match side {
        Side::Right => SideSigns { negate_x: true, negate_y: false, negate_z: false },
        Side::Left => SideSigns { negate_x: true, negate_y: true, negate_z: true },
    }
}

/// The two sides agree on the angle about x and disagree on the angles
/// about y and z: the right side gives (-x, y, z) where the left gives
/// (-x, -y, -z).
pub proof fn lemma_sides_mirror()
    ensures
        signs_of(Side::Left).negate_x == signs_of(Side::Right).negate_x,
        signs_of(Side::Left).negate_y == !signs_of(Side::Right).negate_y,
        signs_of(Side::Left).negate_z == !signs_of(Side::Right).negate_z,
{
}

} // verus!
