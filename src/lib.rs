//! A safe, ownership-checked core for an arena-allocated native text-to-speech engine.
//!
//! The native engine is reached through a fixed C-style handle API. This crate holds
//! everything around those calls that can be decided without them: translating status
//! codes into errors, the fixed-capacity buffers the engine writes strings into, the
//! validation of names and paths handed to it, the ownership graph of systems,
//! resources, voices and engines with its teardown order, and the streaming
//! text-in/audio-out protocol. Handles are carried as plain integers, zero meaning null.

pub mod status;
pub mod text;
pub mod system;
pub mod resource;
pub mod voice;
pub mod engine;
pub mod protocol;
