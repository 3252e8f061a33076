//! The sample count of a tracker recording: parallel sequences of
//! quaternion components and positions, one entry per captured instant.
use vstd::prelude::*;

verus! {

/// The number of complete quaternions: the shortest component sequence.
pub open spec fn quaternion_count(q0: nat, qx: nat, qy: nat, qz: nat) -> nat {
    let a = if q0 <= qx { q0 } else { qx };
    let b = if qy <= qz { qy } else { qz };
    if a <= b { a } else { b }
}

/// The number of poses of a tracker recording: one per complete quaternion,
/// or `None` when the recording holds no sample or a position sequence is
/// shorter than the quaternions.
pub fn tracker_samples<Q, P>(
    q0: &[Q],
    qx: &[Q],
    qy: &[Q],
    qz: &[Q],
    x: &[P],
    y: &[P],
    z: &[P],
) -> (r: Option<usize>)
    ensures
        ({
            let n = quaternion_count(q0@.len(), qx@.len(), qy@.len(), qz@.len());
            r == if n == 0 || x@.len() < n || y@.len() < n || z@.len() < n {
                None
            } else {
                Some(n as usize)
            }
        }),
{
    let a = if q0.len() <= qx.len() { q0.len() } else { qx.len() };
    let b = if qy.len() <= qz.len() { qy.len() } else { qz.len() };
    let n = if a <= b { a } else { b };
    if n == 0 || x.len() < n || y.len() < n || z.len() < n {
        None
    } else {
        Some(n)
    }
}

} // verus!
