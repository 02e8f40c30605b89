//! A guided idea-capture session library.
//!
//! The library models the whole lifecycle of one interactive session: the
//! fixed script of prompts, the text that each completed step appends to the
//! dated artifact, and the cancellation guard that decides whether an
//! interrupt may delete the in-progress artifact.

pub mod date;
pub mod guard;
pub mod parse;
pub mod script;
pub mod session;
pub mod text;
