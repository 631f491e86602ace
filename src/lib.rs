//! A toolkit of terminal widgets built on a message-passing update loop.
pub mod text;
pub mod scroll;
pub mod style;
pub mod runtime;
pub mod layout;
pub mod components;
