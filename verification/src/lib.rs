//! A verified core for a chat-room command bot.
//!
//! The library holds the logic that decides everything the bot does: it
//! filters incoming room messages, splits a message body into a command and
//! its arguments, dispatches on the command name, and drives each handler as
//! a small state machine whose external fetches are performed by the caller.
//! All network and chat-protocol I/O lives outside the library; the library
//! receives plain values and returns plain values.

pub mod dispatch;
pub mod handlers;
pub mod model;
pub mod text;
