//! Rigid-body reference frames for knee kinematics: frame tags that keep
//! compositions well typed, landmark role resolution, the choice of the
//! landmarks and axis rules that define a bone frame, tracker series checks,
//! the left/right sign table of joint angles, the fixed-length history window
//! of the recursive smoothing filter, and the command-line decisions.
pub mod frame;
pub mod anatomy;
pub mod locations;
pub mod body_frame;
pub mod history;
pub mod side;
pub mod tracker;
pub mod cli;
