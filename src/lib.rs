//! A task tracker's core: tasks, the repository contract that storage
//! backends meet, an in-memory backend, and the service that validates
//! requests and reports errors in its own vocabulary.
pub mod entities;
pub mod repositories;
pub mod in_memory;
pub mod services;
pub mod lemmas;
pub mod dto;
pub mod sql_outcomes;
