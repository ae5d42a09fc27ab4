//! Engine-independent core of a small toolbox for scripted 3D scenes:
//! tween playback, a cooperative script scheduler, the part handle table
//! that links script objects to scene entities, and camera input gating.

pub mod scripting;
pub mod tools_3d;
