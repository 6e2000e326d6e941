//! Core logic for a character-sprite animation system: an eight-way facing
//! direction, a movement-intent signal, a four-state presentation state
//! machine that changes state only at animation loop boundaries, and a
//! completion barrier that lets a dynamically growing set of asynchronous
//! load operations signal "all done" exactly once.

pub mod animation;
pub mod character_input;
pub mod character_state;
pub mod direction;
pub mod input;
pub mod load_sync;
pub mod sprite_set;
pub mod sprite_state;
