//! A safe layer in front of the VOICEVOX text-to-speech engine.
//!
//! The engine speaks through integer status codes and buffers it allocates
//! itself. This crate holds the decisions around that boundary: the closed
//! table of status codes (`result_code`), the single owner of each
//! engine-allocated buffer (`foreign`), the engine handle with its lifecycle
//! and loaded speakers, and the checks that each stage of text-to-speech
//! makes before a call is allowed to cross (`engine`). The calls themselves
//! are made by the caller, who hands each status code back.

pub mod engine;
pub mod foreign;
pub mod options;
pub mod result_code;
