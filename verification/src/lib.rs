//! Front-end command processor for an interactive database shell.
//!
//! A line of input is either a meta-command (it begins, after trimming, with
//! the sentinel character `.`) or a statement. Meta-commands are handled by
//! [`meta_command`], statements are prepared into a typed [`statement::Statement`]
//! and executed, and [`session`] ties the two together: it decides, for one
//! line, whether the session ends, stays silent, or answers with a message.
//! All input/output and the process lifetime stay with the caller.

pub mod input;
pub mod meta_command;
pub mod session;
pub mod statement;
pub mod text;
