//! The data the bot works on: incoming messages, parsed commands, fetched
//! records, and the single outgoing response a handler may produce.

use vstd::prelude::*;

verus! {

/// Unknown-command policy: what the bot does with a message whose first
/// token matches no enabled command.
#[derive(Clone, Copy, PartialEq, Eq, Structural, Debug)]
pub enum UnknownPolicy {
    /// Produce no response at all.
    Silent,
    /// Answer with a fixed "no such command" text.
    Explicit,
}

/// The injected per-deployment configuration of the dispatcher: the bot's
/// own identity (for self-message loop prevention), the unknown-command
/// policy, and which commands are enabled.
pub struct BotConfig {
    /// The sender identity of the bot's own account; messages from it are
    /// dropped before any parsing.
    pub bot_identity: String,
    pub unknown_policy: UnknownPolicy,
    pub enable_uptime: bool,
    pub enable_xkcd: bool,
    pub enable_quote: bool,
    pub enable_latex: bool,
    pub enable_md2html: bool,
}

/// One text message as delivered by the chat session. Non-text room events
/// never become an `IncomingMessage`.
pub struct IncomingMessage {
    pub sender: String,
    pub body: String,
    /// Whether the room the message arrived in is in joined state.
    pub room_joined: bool,
}

/// A parsed command: the first whitespace-delimited token of a message body
/// and the remaining tokens in order.
pub struct Command {
    pub name: String,
    pub args: Vec<String>,
}

/// One comic's metadata record.
pub struct Comic {
    /// The year in which the comic was published.
    pub year: String,
    /// The month in which the comic was published (1-indexed).
    pub month: String,
    /// The day of the month when the comic was published (1-indexed).
    pub day: String,
    /// The number ID of the comic.
    pub num: usize,
    pub link: String,
    pub news: String,
    /// The text in the comic, transcribed.
    pub transcript: String,
    /// Alt text for the comic.
    pub alt: String,
    /// The title of the comic.
    pub title: String,
    /// The non-explicit (SFW) title of the comic.
    pub safe_title: String,
    /// A link to the comic's image.
    pub img: String,
}

/// A comic record paired with the bytes of its image: a record is never
/// emitted as an attachment without them.
pub struct Data {
    pub comic: Comic,
    pub imgcontent: Vec<u8>,
}

/// One quotation record.
pub struct Quote {
    pub content: String,
    pub author: String,
}

/// The single response a handler may produce for one incoming message.
pub enum OutgoingResponse {
    PlainText { text: String },
    Attachment {
        filename: String,
        mime_type: String,
        bytes: Vec<u8>,
        caption: Option<String>,
    },
}

} // verus!
