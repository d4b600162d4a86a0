//! The core of a modal text editor: text buffers with a cursor, windows that
//! show them, the editor that owns both, and the tables that turn key input
//! and queued events into actions.
//!
//! Every function here is verified against a mathematical model of the value
//! it works on; see the `view` of each type.

pub mod config;
pub mod edit;
pub mod input;
pub mod keys;
pub mod text;
pub mod viewport;
