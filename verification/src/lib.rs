//! Grid, input and hit logic of a small ray-casting shooter: the level map,
//! the held-key state, the wall scan of each ray and the bullet's collisions.
//! Everything here works on integers; the renderer around it supplies the
//! positions, angles and distances, which are floating point.
use vstd::prelude::*;

pub mod level;
pub mod raycast;
pub mod controls;
pub mod combat;
