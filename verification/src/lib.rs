//! Core logic of the uDESK control plane: the uCODE command protocol
//! (grammar, parsing, routing, error semantics) and the container
//! lifecycle registry, with the decisions around the external engine
//! expressed as pure, verified functions.

pub mod text;
pub mod ucode;
pub mod route;
pub mod registry;
pub mod engine;
pub mod maint;
pub mod info;
pub mod simple;
pub mod setup;
