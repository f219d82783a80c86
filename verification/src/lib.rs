//! A single-request orchestrator for driving a remote rendering engine:
//! it renders one URL and extracts either the serialized document or a
//! rendered image, under a fixed deadline, with guaranteed teardown.
//!
//! The orchestration decisions live here as a verified state machine
//! (`session`); the surrounding process launching, protocol transport and
//! invocation plumbing are outside collaborators driven by an unverified
//! shell that performs each `session::Action` and feeds back the resulting
//! `session::Event`.

pub mod config;
pub mod encode;
pub mod errors;
pub mod mode;
pub mod response;
pub mod script;
pub mod session;
pub mod title;
