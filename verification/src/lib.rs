//! Polls a video platform for the upcoming broadcasts of a roster of channels.
//!
//! The crate holds the decisions of one polling cycle: the conditional-request
//! cache, the bounded fetch engine, the batching of detail requests, the content
//! filter and the mapping to the messages of the storage service. It sends
//! nothing and keeps no file: a driver sends the requests that the engine hands
//! out and feeds the responses back, and reads and writes what a store is built
//! from and hands out. Of the world around it the crate reads the local clock
//! and the environment, and it matches titles with the regex crate.

pub mod clock;
pub mod entry;
pub mod ids;
pub mod models;
pub mod repository;
pub mod sequences;
pub mod settings;
pub mod text;
