//! The rules of a block-game server, stated as contracts and proved.
//!
//! Every function here takes plain values and returns plain values. What a
//! function asks the world to do comes back as a plan: a list of effects that
//! the surrounding program carries out in order.
#![allow(unused_imports)]

pub mod command;
pub mod data;
pub mod entity;
pub mod net;
pub mod plan;
pub mod random;
pub mod server;
pub mod text;
