//! Memory: topics, sessions, extractions, tasks and devices, and the schema that keeps them.

pub mod backend;
pub mod devices;
pub mod embedding;
pub mod extractions;
pub mod kv;
pub mod migration;
pub mod operation_laws;
pub mod record_laws;
pub mod schema;
pub mod schema_laws;
pub mod session_laws;
pub mod sessions;
pub mod statement_laws;
pub mod substrate;
pub mod substrate_laws;
pub mod table;
pub mod task_laws;
pub mod task_queue;
pub mod time;
pub mod topic_laws;
pub mod user_agent_memory;
pub mod user_memory;
pub mod user_memory_laws;
