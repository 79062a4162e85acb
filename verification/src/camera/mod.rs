//! The orbit camera's input side: what the pointer and the wheel ask of it.

pub mod controller;
