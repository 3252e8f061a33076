//! Resolution of a bone's landmarks into its six role slots.
use vstd::prelude::*;
use crate::anatomy::{LandmarkInfo, Position};

verus! {

/// The index of the last present landmark of `s` whose role is `p`.
pub open spec fn last_with(s: Seq<Option<LandmarkInfo>>, p: Position) -> Option<usize>
    decreases s.len(),
{
    if s.len() == 0 {
        None
    } else if s.last() is Some && s.last()->Some_0.position == p {
        Some((s.len() - 1) as usize)
    } else {
        last_with(s.drop_last(), p)
    }
}

/// For each of the six roles, the index of the landmark that fills it.
#[derive(Clone, Copy, Debug, PartialEq, Eq, Structural)]
pub struct BoneLocations {
    pub medial: Option<usize>,
    pub lateral: Option<usize>,
    pub posterior: Option<usize>,
    pub anterior: Option<usize>,
    pub distal: Option<usize>,
    pub proximal: Option<usize>,
}

impl BoneLocations {
    /// The slot of role `p`.
    pub open spec fn slot(self, p: Position) -> Option<usize> {
        match p {
            Position::Medial => self.medial,
            Position::Lateral => self.lateral,
            Position::Posterior => self.posterior,
            Position::Anterior => self.anterior,
            Position::Distal => self.distal,
            Position::Proximal => self.proximal,
        }
    }

    /// All six slots empty.
    pub fn empty() -> (r: BoneLocations)
        ensures
            forall|p: Position| r.slot(p) is None,
    {
        BoneLocations {
            medial: None,
            lateral: None,
            posterior: None,
            anterior: None,
            distal: None,
            proximal: None,
        }
    }

    /// The slot of role `p`.
    pub fn get(&self, p: Position) -> (r: Option<usize>)
        ensures
            r == self.slot(p),
    {
        match p {
            Position::Medial => self.medial,
            Position::Lateral => self.lateral,
            Position::Posterior => self.posterior,
            Position::Anterior => self.anterior,
            Position::Distal => self.distal,
            Position::Proximal => self.proximal,
        }
    }

    /// Puts landmark `i` in the slot of role `p`, replacing what was there.
    pub fn assign(&mut self, p: Position, i: usize)
        ensures
            forall|q: Position|
                #[trigger] final(self).slot(q) == if q == p {
                    Some(i)
                } else {
                    old(self).slot(q)
                },
    {
        match p {
            Position::Medial => self.medial = Some(i),
            Position::Lateral => self.lateral = Some(i),
            Position::Posterior => self.posterior = Some(i),
            Position::Anterior => self.anterior = Some(i),
            Position::Distal => self.distal = Some(i),
            Position::Proximal => self.proximal = Some(i),
        }
    }

    /// Scans the landmarks once; where several share a role, the last wins.
    pub fn resolve(landmarks: &[Option<LandmarkInfo>]) -> (r: BoneLocations)
        ensures
            forall|p: Position| #[trigger] r.slot(p) == last_with(landmarks@, p),
    {
        let mut r = BoneLocations::empty();
        let n = landmarks.len();
        let mut i: usize = 0;
        while i < n
            invariant
                n == landmarks@.len(),
                i <= n,
                forall|p: Position| #[trigger] r.slot(p) == last_with(landmarks@.take(i as int), p),
            decreases n - i,
        {
            proof {
                assert(landmarks@.take(i as int + 1).drop_last() =~= landmarks@.take(i as int));
            }
            if let Some(l) = landmarks[i] {
                r.assign(l.position, i);
            }
            i = i + 1;
        }
        proof {
            assert(landmarks@.take(n as int) =~= landmarks@);
        }
        r
    }
}

} // verus!
