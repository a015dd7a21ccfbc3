//! Decision logic of a network reconnaissance agent: which scanner to run
//! next, how a model's reply is read as an action, how requests to the model
//! are shaped, and how the scanners are invoked.
//!
//! Everything here works on plain values. Sending requests and spawning
//! programs is left to the caller.

pub mod text;
pub mod json;
pub mod action;
pub mod llm;
pub mod tools;
pub mod agent;
