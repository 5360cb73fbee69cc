//! An orchestration engine for a team of cooperating agents that turn a
//! natural-language project request into generated, built and probed web
//! artifacts by calling an external text-generation service and an external
//! build toolchain.
//!
//! The engine itself is free of I/O: every agent is a finite state machine
//! that asks its caller to perform one outside action at a time (a generative
//! call, a file read or write, a build, a network probe, a confirmation
//! prompt) and is stepped with the outcome. All decisions — bounded retries,
//! structured decoding, endpoint filtering, URL exclusion — are made here and
//! carry contracts.

pub mod agent_architect;
pub mod agent_backend;
pub mod agent_frontend;
pub mod agent_frontend_comp;
pub mod agent_trait;
pub mod basic_agent;
pub mod command_line;
pub mod decode;
pub mod errors;
pub mod events;
pub mod laws;
pub mod llm;
pub mod managing_agent;
pub mod utils;
