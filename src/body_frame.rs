//! The choice of landmarks and axis rules that define a bone's anatomical
//! frame. The origin is the midpoint of the medial and lateral means; the
//! first axis points from `axis_from` to `axis_to`; the longitudinal helper
//! vector depends on the bone.
use vstd::prelude::*;
use crate::anatomy::{Bone, LandmarkInfo, Position, Side};
use crate::locations::{last_with, BoneLocations};

verus! {

/// How the longitudinal helper vector of a bone frame is formed.
#[derive(Clone, Copy, Debug, PartialEq, Eq, Structural)]
pub enum Longitudinal {
    /// The origin minus the mean of this landmark (a tibia's distal point).
    FromOrigin(usize),
    /// The mean of this landmark itself (a femur's proximal point).
    Direct(usize),
}

/// Indices into the landmark list, and the rules, that define a bone frame.
#[derive(Clone, Copy, Debug, PartialEq, Eq, Structural)]
pub struct FramePlan {
    pub medial: usize,
    pub lateral: usize,
    pub axis_from: usize,
    pub axis_to: usize,
    pub longitudinal: Longitudinal,
}

/// The landmark that fills role `p`, if probe samples were recorded for it.
pub open spec fn probe_at(s: Seq<Option<LandmarkInfo>>, p: Position) -> Option<usize> {
    match last_with(s, p) {
        Some(i) => if s[i as int]->Some_0.has_probe {
            Some(i)
        } else {
            None
        },
        None => None,
    }
}

/// The landmarks call for the patella rule, for which no anatomical
/// convention is defined.
pub open spec fn undefined_convention(s: Seq<Option<LandmarkInfo>>) -> bool {
    &&& probe_at(s, Position::Medial) is Some
    &&& probe_at(s, Position::Lateral) is Some
    &&& s.len() > 0
    &&& s[0] is Some
    &&& s[0]->Some_0.bone == Bone::Patella
}

/// The frame plan of a landmark list: side and bone come from its first
/// entry; right limbs point the first axis from medial to lateral, left
/// limbs from lateral to medial.
pub open spec fn plan_of(s: Seq<Option<LandmarkInfo>>) -> Option<FramePlan> {
    match (probe_at(s, Position::Medial), probe_at(s, Position::Lateral)) {
        (Some(m), Some(l)) => {
            if s.len() == 0 || s[0] is None {
                None
            } else {
                let first = s[0]->Some_0;
                let (from, to) = match first.side {
                    Side::Right => (m, l),
                    Side::Left => (l, m),
                };
                let longitudinal = match first.bone {
                    Bone::Tibia => match probe_at(s, Position::Distal) {
                        Some(d) => Some(Longitudinal::FromOrigin(d)),
                        None => None,
                    },
                    Bone::Femur => match probe_at(s, Position::Proximal) {
                        Some(p) => Some(Longitudinal::Direct(p)),
                        None => None,
                    },
                    Bone::Patella => None,
                };
                match longitudinal {
                    Some(k) => Some(
                        FramePlan { medial: m, lateral: l, axis_from: from, axis_to: to, longitudinal: k },
                    ),
                    None => None,
                }
            }
        },
        _ => None,
    }
}

/// A role found by `last_with` is held by a present landmark of that role.
pub proof fn lemma_last_with_found(s: Seq<Option<LandmarkInfo>>, p: Position)
    requires
        s.len() <= usize::MAX,
    ensures
        last_with(s, p) matches Some(i) ==> i < s.len() && s[i as int] is Some
            && s[i as int]->Some_0.position == p,
    decreases s.len(),
{
    if s.len() > 0 {
        lemma_last_with_found(s.drop_last(), p);
        if let Some(i) = last_with(s.drop_last(), p) {
            assert(s.drop_last()[i as int] == s[i as int]);
        }
    }
}

/// A landmark list without a medial landmark that has probe samples yields
/// no frame.
pub proof fn lemma_missing_medial_no_frame(s: Seq<Option<LandmarkInfo>>)
    requires
        probe_at(s, Position::Medial) is None,
    ensures
        plan_of(s) is None,
{
}

/// The landmark of the slot `slot`, if it has probe samples.
fn probe_in(landmarks: &[Option<LandmarkInfo>], slot: Option<usize>, Ghost(p): Ghost<Position>) -> (r:
    Option<usize>)
    requires
        slot == last_with(landmarks@, p),
    ensures
        r == probe_at(landmarks@, p),
{
    let n = landmarks.len();
    proof {
        lemma_last_with_found(landmarks@, p);
    }
    match slot {
        Some(i) => match landmarks[i] {
            Some(l) => if l.has_probe {
                Some(i)
            } else {
                None
            },
            None => None,
        },
        None => None,
    }
}

/// Whether the landmarks call for the patella rule, which is undefined.
pub fn has_undefined_convention(landmarks: &[Option<LandmarkInfo>]) -> (r: bool)
    ensures
        r == undefined_convention(landmarks@),
{
    let locs = BoneLocations::resolve(landmarks);
    let m = probe_in(landmarks, locs.get(Position::Medial), Ghost(Position::Medial));
    let l = probe_in(landmarks, locs.get(Position::Lateral), Ghost(Position::Lateral));
    if m.is_none() || l.is_none() || landmarks.len() == 0 {
        return false;
    }
    match landmarks[0] {
        Some(first) => first.bone == Bone::Patella,
        None => false,
    }
}

/// The plan of the bone frame defined by `landmarks`, or `None` when a
/// required landmark or its probe samples are missing.
pub fn plan_body_frame(landmarks: &[Option<LandmarkInfo>]) -> (r: Option<FramePlan>)
    requires
        !undefined_convention(landmarks@),
    ensures
        r == plan_of(landmarks@),
{
    let locs = BoneLocations::resolve(landmarks);
    let m = match probe_in(landmarks, locs.get(Position::Medial), Ghost(Position::Medial)) {
        Some(m) => m,
        None => return None,
    };
    let l = match probe_in(landmarks, locs.get(Position::Lateral), Ghost(Position::Lateral)) {
        Some(l) => l,
        None => return None,
    };
    if landmarks.len() == 0 {
        return None;
    }
    let first = match landmarks[0] {
        Some(first) => first,
        None => return None,
    };
    let (axis_from, axis_to) = match first.side {
        Side::Right => (m, l),
        Side::Left => (l, m),
    };
    let longitudinal = match first.bone {
        Bone::Tibia => match probe_in(landmarks, locs.get(Position::Distal), Ghost(Position::Distal)) {
            Some(d) => Longitudinal::FromOrigin(d),
            None => return None,
        },
        Bone::Femur => match probe_in(
            landmarks,
            locs.get(Position::Proximal),
            Ghost(Position::Proximal),
        ) {
            Some(p) => Longitudinal::Direct(p),
            None => return None,
        },
        Bone::Patella => return None,
    };
    Some(FramePlan { medial: m, lateral: l, axis_from, axis_to, longitudinal })
}

} // verus!
