//! Inputs and request plans for the VRChat remote API.

pub mod input;
pub mod worlds;
