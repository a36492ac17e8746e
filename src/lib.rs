//! Capture-match-trigger logic: a positional byte matcher for packet
//! payloads, the timed pin burst it fires, and the engine's decisions between
//! packet reads. The I/O (capture sessions, pin writes, sleeping) is done by
//! the caller, who hands the outcomes back as plain values.
use vstd::prelude::*;

pub mod config;
pub mod matcher;
pub mod pwm;
pub mod trigger;
