//! The decisions of a build runner that watches paths and reruns `elm make`
//! on every change.
//!
//! The library neither watches, nor builds, nor draws. It says what a batch
//! of filesystem events changed ([`change`]), what is shown of a build
//! ([`output`], [`frame`]), and what is done next ([`orchestrator`]); what
//! holds of every run is proved in [`run`]. A program drives it by performing
//! each action that the orchestrator answers with and reporting the outcome
//! as the next event.

pub mod change;
pub mod config;
pub mod frame;
pub mod orchestrator;
pub mod output;
pub mod path;
pub mod run;
pub mod text;
