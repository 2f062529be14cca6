pub mod a2a;
pub mod agent;
pub mod auth;
pub mod dream;
pub mod error;
pub mod ids;
pub mod json;
pub mod memory;
pub mod message;
pub mod order;
pub mod record;
pub mod text;
