//! An in-memory task list driven by one-line text commands.
//!
//! A line of input is brought into its normal form ([`normalize`]), read as
//! a command ([`parser`]) and applied to the list ([`executor`]), which
//! also says what the user is shown ([`text`]). Nothing here reads or
//! prints: what is shown is appended to a `String` that the caller prints.
//!
//! [`laws`] states what holds of the list whatever the user types.

pub mod command;
pub mod decimal;
pub mod executor;
pub mod item;
pub mod laws;
pub mod normalize;
pub mod parser;
pub mod text;
