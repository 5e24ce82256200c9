//! Core of a terminal multi-track audio recorder: a real-time audio pipeline
//! (per-frame mixing into lock-free ring buffers), background file-writer
//! planning, and an external-clock-driven recording state machine.
//!
//! Audio levels, pans and samples are carried as fixed-point integers in
//! millionths (see [`units`]), so every mixing step has an exact contract.

pub mod callback;
pub mod clock;
pub mod config;
pub mod device;
pub mod listener;
pub mod nav;
pub mod playback;
pub mod ring;
pub mod session;
pub mod text;
pub mod track;
pub mod types;
pub mod writer;
pub mod units;
