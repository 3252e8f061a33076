//! Anatomical vocabulary: body side, bone and landmark role, and what a
//! digitised landmark tells the frame builder.
use vstd::prelude::*;

verus! {

/// The body side of the limb.
#[derive(Clone, Copy, Debug, PartialEq, Eq, Structural)]
pub enum Side {
    Left,
    Right,
}

/// The bone a landmark belongs to.
#[derive(Clone, Copy, Debug, PartialEq, Eq, Structural)]
pub enum Bone {
    Tibia,
    Femur,
    Patella,
}

/// The anatomical role of a landmark; the six roles are mutually exclusive.
#[derive(Clone, Copy, Debug, PartialEq, Eq, Structural)]
pub enum Position {
    Medial,
    Lateral,
    Posterior,
    Anterior,
    Distal,
    Proximal,
}

/// What the frame builder reads of a digitised landmark: its bone, its
/// (first) role, its side, and whether probe samples were recorded for it.
#[derive(Clone, Copy, Debug, PartialEq, Eq, Structural)]
pub struct LandmarkInfo {
    pub bone: Bone,
    pub position: Position,
    pub side: Side,
    pub has_probe: bool,
}

impl LandmarkInfo {
    pub fn new(bone: Bone, position: Position, side: Side, has_probe: bool) -> (r: LandmarkInfo)
        ensures
            r.bone == bone,
            r.position == position,
            r.side == side,
            r.has_probe == has_probe,
    {
        LandmarkInfo { bone, position, side, has_probe }
    }
}

} // verus!
