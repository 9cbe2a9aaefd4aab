//! Core logic of a minimal interactive renderer: multisample negotiation,
//! surface configuration, framebuffer sizing, render-pass planning, and the
//! event-driven session state machine. Window, device and queue plumbing is
//! left to a thin unverified shell that consults this library for every
//! decision.

pub mod sample;
pub mod surface;
pub mod target;
pub mod mesh;
pub mod texture;
pub mod pipeline;
pub mod session;
pub mod pass;
