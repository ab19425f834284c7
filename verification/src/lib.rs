//! The rules of a platform game: how bodies move, what springs do to them, how peers talk to each
//! other, and how a match is set up.
//!
//! Numbers in floating point, the collision engine, the transport and the user interface belong to
//! the host. The rules say what the host is to do, and take what came of it.

pub mod body;
pub mod body_course;
pub mod body_laws;
pub mod body_update;
pub mod controls;
pub mod ecs;
pub mod geometry;
pub mod id;
pub mod kinematic_frame;
pub mod kinematics;
pub mod map_select;
pub mod map_select_laws;
pub mod map_select_page;
pub mod net_id;
pub mod networking;
pub mod physics;
pub mod session;
pub mod sproinger;
pub mod wire;
