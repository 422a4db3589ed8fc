//! The event normaliser: from a message to the record that the backend
//! stores, and from that record to the document that is sent.

use vstd::prelude::*;
use crate::update::{
    Audio, Contact, Document, Location, Message, MessageKind, PhotoSize, Sticker, User, Venue, Video,
    VideoNote, Voice,
};

verus! {

/// The sender as embedded in every outbound record.
pub type UserRecord = User;

/// The kind-specific part of an [`Envelope`].
#[derive(Debug, PartialEq, Eq)]
pub enum Content {
    Text { text: String },
    Audio { audio: Audio },
    Document { document: Document, caption: Option<String> },
    Photo { photo: PhotoSize, caption: Option<String> },
    Sticker { sticker: Sticker },
    Video { video: Video, caption: Option<String> },
    Voice { voice: Voice },
    VideoNote { video_note: VideoNote },
    Contact { contact: Contact },
    Location { location: Location },
    Venue { venue: Venue },
}

/// The `message` part of an [`Envelope`]: the type code and the content.
#[derive(Debug, PartialEq, Eq)]
pub struct Body {
    pub type_code: u8,
    pub content: Content,
}

/// The record forwarded to the backend for one message.
#[derive(Debug, PartialEq, Eq)]
pub struct Envelope {
    pub chat_id: i64,
    pub user: UserRecord,
    pub message: Body,
}

/// The record forwarded to the backend when a chat changes its title.
#[derive(Debug, PartialEq, Eq)]
pub struct TitleUpdate {
    pub chat_id: i64,
    pub user: UserRecord,
    pub title: String,
}

/// The code under which the backend files each kind of content. The codes
/// 3 and 4 are reserved and never produced.
pub open spec fn code_of(content: Content) -> u8 {
    match content {
        Content::Text { .. } => 0,
        Content::Audio { .. } => 1,
        Content::Document { .. } => 2,
        Content::Photo { .. } => 5,
        Content::Sticker { .. } => 6,
        Content::Video { .. } => 7,
        Content::Voice { .. } => 8,
        Content::VideoNote { .. } => 9,
        Content::Contact { .. } => 10,
        Content::Location { .. } => 11,
        Content::Venue { .. } => 12,
    }
}

/// The content forwarded for each kind of message: the payload as it came,
/// and of a photo its first-listed resolution. A title change, an unhandled
/// kind and a photo without any resolution have none.
pub open spec fn content_of(kind: MessageKind) -> Option<Content> {
    match kind {
        MessageKind::Text { data } => Some(Content::Text { text: data }),
        MessageKind::Audio { data } => Some(Content::Audio { audio: data }),
        MessageKind::Document { data, caption } => Some(
            Content::Document { document: data, caption },
        ),
        MessageKind::Photo { data, caption } => if data@.len() > 0 {
            Some(Content::Photo { photo: data@[0], caption })
        } else {
            None
        },
        MessageKind::Sticker { data } => Some(Content::Sticker { sticker: data }),
        MessageKind::Video { data, caption } => Some(Content::Video { video: data, caption }),
        MessageKind::Voice { data } => Some(Content::Voice { voice: data }),
        MessageKind::VideoNote { data } => Some(Content::VideoNote { video_note: data }),
        MessageKind::Contact { data } => Some(Content::Contact { contact: data }),
        MessageKind::Location { data } => Some(Content::Location { location: data }),
        MessageKind::Venue { data } => Some(Content::Venue { venue: data }),
        MessageKind::ChatTitleChanged { .. } => None,
        MessageKind::Unhandled => None,
    }
}

/// The envelope that wraps `content` for the given chat and sender.
pub open spec fn envelope_with(chat_id: i64, user: UserRecord, content: Content) -> Envelope {
    Envelope { chat_id, user, message: Body { type_code: code_of(content), content } }
}

/// The envelope of a message, if its kind has one.
pub open spec fn envelope_of(message: Message) -> Option<Envelope> {
    match content_of(message.kind) {
        Some(content) => Some(envelope_with(message.chat_id, message.from, content)),
        None => None,
    }
}

/// The title-update record of a message, if it announces a new title.
pub open spec fn title_update_of(message: Message) -> Option<TitleUpdate> {
    match message.kind {
        MessageKind::ChatTitleChanged { data } => Some(
            TitleUpdate { chat_id: message.chat_id, user: message.from, title: data },
        ),
        _ => None,
    }
}

impl Content {
    /// The type code of this content.
    pub fn type_code(&self) -> (code: u8)
        ensures
            code == code_of(*self),
    {
        match self {
            Content::Text { .. } => 0,
            Content::Audio { .. } => 1,
            Content::Document { .. } => 2,
            Content::Photo { .. } => 5,
            Content::Sticker { .. } => 6,
            Content::Video { .. } => 7,
            Content::Voice { .. } => 8,
            Content::VideoNote { .. } => 9,
            Content::Contact { .. } => 10,
            Content::Location { .. } => 11,
            Content::Venue { .. } => 12,
        }
    }

    /// The content forwarded for a message of the given kind.
    pub fn from_kind(kind: MessageKind) -> (r: Option<Content>)
        ensures
            r == content_of(kind),
    {
        match kind {
            MessageKind::Text { data } => Some(Content::Text { text: data }),
            MessageKind::Audio { data } => Some(Content::Audio { audio: data }),
            MessageKind::Document { data, caption } => Some(
                Content::Document { document: data, caption },
            ),
            MessageKind::Photo { data, caption } => {
                let mut sizes = data;
                if sizes.len() > 0 {
                    let first = sizes.remove(0);
                    Some(Content::Photo { photo: first, caption })
                } else {
                    None
                }
            },
            MessageKind::Sticker { data } => Some(Content::Sticker { sticker: data }),
            MessageKind::Video { data, caption } => Some(Content::Video { video: data, caption }),
            MessageKind::Voice { data } => Some(Content::Voice { voice: data }),
            MessageKind::VideoNote { data } => Some(Content::VideoNote { video_note: data }),
            MessageKind::Contact { data } => Some(Content::Contact { contact: data }),
            MessageKind::Location { data } => Some(Content::Location { location: data }),
            MessageKind::Venue { data } => Some(Content::Venue { venue: data }),
            MessageKind::ChatTitleChanged { .. } => None,
            MessageKind::Unhandled => None,
        }
    }
}

impl Envelope {
    /// Whether the type code is the one that belongs to the content.
    pub open spec fn well_formed(&self) -> bool {
        self.message.type_code == code_of(self.message.content)
    }

    /// Wraps `content` for the given chat and sender, under the content's
    /// type code.
    pub fn new(chat_id: i64, user: UserRecord, content: Content) -> (e: Envelope)
        ensures
            e == envelope_with(chat_id, user, content),
            e.well_formed(),
    {
        let type_code: u8 = content.type_code();
        Envelope { chat_id, user, message: Body { type_code, content } }
    }
}

/// Builds the envelope of a message. Every field is taken over as it came;
/// kinds without a mapping give `None`.
pub fn normalize(message: Message) -> (r: Option<Envelope>)
    ensures
        r == envelope_of(message),
        r matches Some(e) ==> e.well_formed(),
{
    let Message { from, chat_id, kind } = message;
    match Content::from_kind(kind) {
        Some(content) => Some(Envelope::new(chat_id, from, content)),
        None => None,
    }
}

/// Builds the title-update record of a message that announces a new chat
/// title; any other message gives `None`.
pub fn title_update(message: Message) -> (r: Option<TitleUpdate>)
    ensures
        r == title_update_of(message),
{
    let Message { from, chat_id, kind } = message;
    match kind {
        MessageKind::ChatTitleChanged { data } => Some(
            TitleUpdate { chat_id, user: from, title: data },
        ),
        _ => None,
    }
}

/// The type code of each kind of message; a title change and an unhandled
/// kind have none.
pub open spec fn kind_code(kind: MessageKind) -> Option<u8> {
    match kind {
        MessageKind::Text { .. } => Some(0u8),
        MessageKind::Audio { .. } => Some(1u8),
        MessageKind::Document { .. } => Some(2u8),
        MessageKind::Photo { .. } => Some(5u8),
        MessageKind::Sticker { .. } => Some(6u8),
        MessageKind::Video { .. } => Some(7u8),
        MessageKind::Voice { .. } => Some(8u8),
        MessageKind::VideoNote { .. } => Some(9u8),
        MessageKind::Contact { .. } => Some(10u8),
        MessageKind::Location { .. } => Some(11u8),
        MessageKind::Venue { .. } => Some(12u8),
        MessageKind::ChatTitleChanged { .. } => None,
        MessageKind::Unhandled => None,
    }
}

/// Whether a message is a photo without a single resolution, the one
/// message of a kind with a type code that still has nothing to forward.
pub open spec fn is_empty_photo(kind: MessageKind) -> bool {
    kind matches MessageKind::Photo { data, .. } && data@.len() == 0
}

/// A message of a kind with a type code has exactly one envelope, which is a
/// function of the message alone: it carries that code, the chat and the
/// sender of the message, and is well formed. A message of any other kind,
/// and a photo without resolutions, has none.
pub proof fn law_envelope_per_kind(message: Message)
    ensures
        match kind_code(message.kind) {
            Some(code) if !is_empty_photo(message.kind) => {
                &&& envelope_of(message) matches Some(envelope)
                &&& envelope.message.type_code == code
                &&& envelope.chat_id == message.chat_id
                &&& envelope.user == message.from
                &&& envelope.well_formed()
            },
            _ => envelope_of(message) is None,
        },
{
}

/// The envelope depends on nothing but the message: equal messages have
/// equal envelopes.
pub proof fn law_envelope_deterministic(first: Message, second: Message)
    requires
        first == second,
    ensures
        envelope_of(first) == envelope_of(second),
{
}

/// Every type code lies between 0 and 12 and is neither of the reserved
/// codes 3 and 4.
pub proof fn law_type_codes(content: Content)
    ensures
        code_of(content) <= 12,
        code_of(content) != 3,
        code_of(content) != 4,
{
}

/// A photo is forwarded as its first-listed resolution, with its caption.
pub proof fn law_photo_first_resolution(message: Message)
    requires
        message.kind is Photo,
        !is_empty_photo(message.kind),
    ensures
        envelope_of(message) matches Some(envelope) && envelope.message.content == (
        Content::Photo {
            photo: message.kind->Photo_data@[0],
            caption: message.kind->Photo_caption,
        }),
{
}

/// A message has a title-update record exactly when it announces a new
/// title, and then it has no envelope.
pub proof fn law_title_update_apart(message: Message)
    ensures
        title_update_of(message) is Some <==> message.kind is ChatTitleChanged,
        title_update_of(message) is Some ==> envelope_of(message) is None,
{
}

} // verus!
