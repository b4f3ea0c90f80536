//! Mirrors the repositories of an account onto local disk: the decisions of
//! enumeration, filtering, fork resolution and cloning, each proved against
//! its contract. The caller performs the network, filesystem and process work
//! that the decisions ask for.

pub mod repo;
pub mod enumerate;
pub mod filter;
pub mod orchestrate;
pub mod world;
