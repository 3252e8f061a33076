//! Frame tags. A pose is typed by the frame it defines and the frame it is
//! expressed in; the tags carry no data, so mismatched compositions are
//! rejected at compile time.
use std::marker::PhantomData;
use vstd::prelude::*;

verus! {

/// A coordinate frame that a pose can define or be expressed in.
pub trait Reference: Sized {
}

/// The laboratory frame.
pub struct Global;

/// The anatomical frame of the tibia.
pub struct Tibia;

/// The anatomical frame of the femur.
pub struct Femur;

/// The anatomical frame of the patella.
pub struct Patella;

/// The frame of the tracker pinned to the tibia.
pub struct Pin1;

/// The frame of the tracker pinned to the femur.
pub struct Pin2;

/// A generic tracker frame.
pub struct Tracker;

impl Reference for Global {
}

impl Reference for Tibia {
}

impl Reference for Femur {
}

impl Reference for Patella {
}

impl Reference for Pin1 {
}

impl Reference for Pin2 {
}

impl Reference for Tracker {
}

/// The pair of frames of a pose: the frame `D` it defines, expressed relative
/// to the frame `R`. It has no runtime content.
pub struct Frames<D: Reference, R: Reference> {
    defines: PhantomData<D>,
    relative_to: PhantomData<R>,
}

impl<D: Reference, R: Reference> Frames<D, R> {
    /// The tag of a pose of `D` relative to `R`.
    pub fn new() -> (r: Frames<D, R>) {
        Frames { defines: PhantomData, relative_to: PhantomData }
    }

    /// The tag of the composition of this pose with a pose of `R` relative
    /// to `X`: the result defines `D` relative to `X`.
    pub fn then<X: Reference>(&self, outer: &Frames<R, X>) -> (r: Frames<D, X>) {
        Frames::new()
    }

    /// The tag of the inverse pose: `R` relative to `D`.
    pub fn inverse(&self) -> (r: Frames<R, D>) {
        Frames::new()
    }
}

} // verus!
