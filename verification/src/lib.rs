//! A verified orchestrator for a danmaku (live-stream chat message)
//! processing pipeline.
//!
//! The pipeline classifies the intent of an incoming message, generates a
//! textual reply (for drawing requests, with an image sub-pipeline), then
//! synthesizes speech audio, emitting progress events throughout. The
//! external capabilities (intent classifier, response generator, image
//! backend, speech backend) are performed by the caller: the library is a
//! step machine that decides, after each external outcome, which events to
//! emit, which action to perform next, and how to assemble the final result.
//! Image and audio failures degrade gracefully (the corresponding field is
//! left absent); validation, classification and generation failures are
//! fatal.

pub mod models;
pub mod trace;
pub mod workflows;
