//! Producing, signing, publishing and gossip-verifying inclusion lists.
//!
//! The services that the work leans on (the slot clock, the duties cache, the
//! beacon nodes, the key store) are asynchronous. This library holds what is
//! decided between two of their answers: each task is a value that names the
//! one outside call it waits for, and is resumed with that call's reply.

pub mod chain_spec;
pub mod duration;
pub mod inclusion_list_service;
pub mod inclusion_list_verification;
pub mod laws;
pub mod produce;
pub mod publish;
pub mod sign_and_publish;
pub mod tasks;
pub mod text;
pub mod types;
pub mod wait;
