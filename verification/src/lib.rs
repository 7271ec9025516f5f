//! Per-tick motion-control decisions for a legged robot: the fall-protection
//! state machine and the scripted-motion player, stated over integer models
//! of time and joint values.

pub mod fall_protector;
pub mod joints;
pub mod keeper_jump_right;
pub mod motion;
pub mod parameters;
pub mod scalar;
pub mod time;
