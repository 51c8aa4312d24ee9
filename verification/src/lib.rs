//! The serving core of a text-summarization service: one expensive inference
//! engine, built lazily and at most once, reached by one caller at a time, with
//! every failure sorted into one of two kinds before it is answered.

pub mod bridge;
pub mod error;
pub mod handle;
pub mod reply;
pub mod service;
pub mod settings;
pub mod shutdown;
