//! Dream: consolidation of a conversation session into user memory.

pub mod dream_laws;
pub mod dreamer;
pub mod mini_dream;
pub mod operation_laws;
pub mod persist;
pub mod response;
