//! The model of a scene editor's physics and of two of its panels.
//!
//! The bodies, colliders and joints of a scene live in generational pools of
//! the engine, one for each kind. The commands in `commands` put objects into
//! these pools, take them out and set their properties, each in a way that
//! can be undone and done again; `pool` says what the pools do, and `physics`
//! holds them together. `terrain` decides what the terrain section of the
//! sidebar shows and what it asks for, and `camera` what a change in the
//! inspector means for a camera. Nothing here touches a widget or a scene
//! node: both panels take plain values and say what is to be done.

pub mod camera;
pub mod commands;
pub mod handle;
pub mod math;
pub mod physics;
pub mod pool;
pub mod terrain;
pub mod text;
