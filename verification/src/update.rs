//! Inbound events: what the chat platform delivers, reduced to the parts
//! this library reads.

use vstd::prelude::*;

verus! {

/// The sender of a message, as known when the message arrived.
#[derive(Debug, PartialEq, Eq)]
pub struct User {
    pub id: i64,
    pub is_bot: bool,
    pub first_name: String,
    pub last_name: Option<String>,
    pub username: Option<String>,
    pub language_code: Option<String>,
}

/// One resolution of a photo.
#[derive(Debug, PartialEq, Eq)]
pub struct PhotoSize {
    pub file_id: String,
    pub width: i64,
    pub height: i64,
    pub file_size: Option<i64>,
}

/// An audio file.
#[derive(Debug, PartialEq, Eq)]
pub struct Audio {
    pub file_id: String,
    pub duration: i64,
    pub performer: Option<String>,
    pub title: Option<String>,
    pub mime_type: Option<String>,
    pub file_size: Option<i64>,
}

/// A general file.
#[derive(Debug, PartialEq, Eq)]
pub struct Document {
    pub file_id: String,
    pub file_name: Option<String>,
    pub mime_type: Option<String>,
    pub file_size: Option<i64>,
}

/// A sticker.
#[derive(Debug, PartialEq, Eq)]
pub struct Sticker {
    pub file_id: String,
    pub emoji: Option<String>,
    pub set_name: Option<String>,
    pub file_size: Option<i64>,
}

/// A video file.
#[derive(Debug, PartialEq, Eq)]
pub struct Video {
    pub file_id: String,
    pub duration: i64,
    pub mime_type: Option<String>,
    pub file_size: Option<i64>,
}

/// A voice note.
#[derive(Debug, PartialEq, Eq)]
pub struct Voice {
    pub file_id: String,
    pub duration: i64,
    pub mime_type: Option<String>,
    pub file_size: Option<i64>,
}

/// A round video message.
#[derive(Debug, PartialEq, Eq)]
pub struct VideoNote {
    pub file_id: String,
    pub duration: i64,
    pub file_size: Option<i64>,
}

/// A shared phone contact.
#[derive(Debug, PartialEq, Eq)]
pub struct Contact {
    pub phone_number: String,
    pub first_name: String,
    pub last_name: Option<String>,
    pub user_id: Option<i64>,
}

/// A point on the map. The coordinates pass through this library untouched,
/// so each is carried as the IEEE-754 bit pattern of its single-precision
/// value.
#[derive(Debug, Clone, Copy, PartialEq, Eq)]
pub struct Location {
    pub longitude: u32,
    pub latitude: u32,
}

/// A named place.
#[derive(Debug, PartialEq, Eq)]
pub struct Venue {
    pub location: Location,
    pub title: String,
    pub address: String,
}

/// What a message carries, by kind.
#[allow(inconsistent_fields)]
#[derive(Debug, PartialEq, Eq)]
pub enum MessageKind {
    Text { data: String },
    Audio { data: Audio },
    Document { data: Document, caption: Option<String> },
    /// The resolutions are listed as the platform sent them.
    Photo { data: Vec<PhotoSize>, caption: Option<String> },
    Sticker { data: Sticker },
    Video { data: Video, caption: Option<String> },
    Voice { data: Voice },
    VideoNote { data: VideoNote },
    Contact { data: Contact },
    Location { data: Location },
    Venue { data: Venue },
    /// The chat was given a new title.
    ChatTitleChanged { data: String },
    /// Any kind this library has no mapping for.
    Unhandled,
}

/// A message in a chat.
#[derive(Debug, PartialEq, Eq)]
pub struct Message {
    pub from: User,
    pub chat_id: i64,
    pub kind: MessageKind,
}

/// One event of the update stream.
#[derive(Debug, PartialEq, Eq)]
pub enum Update {
    Message(Message),
    /// An event that is not a message in a chat.
    Unhandled,
}

} // verus!
