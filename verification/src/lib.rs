//! Interaction core of a terminal calculator: a cursor-split line editor,
//! a scrollable query history and the modal key dispatcher that drives them.

pub mod app;
pub mod cli;
pub mod context;
pub mod engine;
pub mod expr;
pub mod func;
pub mod history;
pub mod input;
pub mod laws;
pub mod rounding;
pub mod text;
