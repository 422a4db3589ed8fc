//! The documents sent to the backend: which members each record has, under
//! which names, and what stands for an absent field.
//!
//! An optional field that is absent is left out of the document. Where the
//! backend expects a member that the platform never supplies (the caption of
//! an audio file or of a voice note, the vCard of a contact), the member is
//! the empty text.

use vstd::prelude::*;
use crate::envelope::{Body, Content, Envelope, TitleUpdate};
use crate::json::{
    lemma_add_optional_integer, lemma_add_optional_text, lemma_no_names, lemma_push_name,
    lemma_record_unambiguous, members_view, no_members, object, optional_integer, optional_text,
    push_member, push_optional_integer, push_optional_text, text, tidy, unambiguous, Json,
    JsonView, MembersView,
};
use crate::update::{
    Audio, Contact, Document, Location, PhotoSize, Sticker, User, Venue, Video, VideoNote, Voice,
};

verus! {

/// The members of a sender's document.
pub open spec fn user_members(user: User) -> MembersView {
    seq![
        ("id"@, JsonView::Integer(user.id as int)),
        ("is_bot"@, JsonView::Bool(user.is_bot)),
        ("first_name"@, JsonView::Text(user.first_name@)),
    ] + optional_text("last_name"@, user.last_name) + optional_text("username"@, user.username)
        + optional_text("language_code"@, user.language_code)
}

/// The members of the document of one photo resolution.
pub open spec fn photo_size_members(photo: PhotoSize) -> MembersView {
    seq![
        ("file_id"@, JsonView::Text(photo.file_id@)),
        ("width"@, JsonView::Integer(photo.width as int)),
        ("height"@, JsonView::Integer(photo.height as int)),
    ] + optional_integer("file_size"@, photo.file_size)
}

/// The members of the document of a point on the map.
pub open spec fn location_members(location: Location) -> MembersView {
    seq![
        ("longitude"@, JsonView::Real(location.longitude)),
        ("latitude"@, JsonView::Real(location.latitude)),
    ]
}

/// The members of the document of a text message.
pub open spec fn text_members(text: String) -> MembersView {
    seq![("text"@, JsonView::Text(text@))]
}

/// The members of the document of an audio file; its caption is always
/// empty.
pub open spec fn audio_members(audio: Audio) -> MembersView {
    seq![
        ("caption"@, JsonView::Text(Seq::empty())),
        ("file_id"@, JsonView::Text(audio.file_id@)),
        ("duration"@, JsonView::Integer(audio.duration as int)),
    ] + optional_text("performer"@, audio.performer) + optional_text("title"@, audio.title)
        + optional_text("mime_type"@, audio.mime_type) + optional_integer(
        "file_size"@,
        audio.file_size,
    )
}

/// The members of the document of a general file with its caption.
pub open spec fn document_members(document: Document, caption: Option<String>) -> MembersView {
    optional_text("caption"@, caption) + seq![("file_id"@, JsonView::Text(document.file_id@))]
        + optional_text("file_name"@, document.file_name) + optional_text(
        "mime_type"@,
        document.mime_type,
    ) + optional_integer("file_size"@, document.file_size)
}

/// The members of the document of a photo: the caption, if any, and the one
/// resolution that is forwarded.
pub open spec fn photo_members(photo: PhotoSize, caption: Option<String>) -> MembersView {
    optional_text("caption"@, caption) + seq![
        ("photo"@, JsonView::Object(photo_size_members(photo))),
    ]
}

/// The members of the document of a sticker.
pub open spec fn sticker_members(sticker: Sticker) -> MembersView {
    seq![("file_id"@, JsonView::Text(sticker.file_id@))] + optional_text("emoji"@, sticker.emoji)
        + optional_text("set_name"@, sticker.set_name) + optional_integer(
        "file_size"@,
        sticker.file_size,
    )
}

/// The members of the document of a video with its caption.
pub open spec fn video_members(video: Video, caption: Option<String>) -> MembersView {
    optional_text("caption"@, caption) + seq![
        ("file_id"@, JsonView::Text(video.file_id@)),
        ("duration"@, JsonView::Integer(video.duration as int)),
    ] + optional_text("mime_type"@, video.mime_type) + optional_integer(
        "file_size"@,
        video.file_size,
    )
}

/// The members of the document of a voice note; its caption is always
/// empty.
pub open spec fn voice_members(voice: Voice) -> MembersView {
    seq![
        ("caption"@, JsonView::Text(Seq::empty())),
        ("file_id"@, JsonView::Text(voice.file_id@)),
        ("duration"@, JsonView::Integer(voice.duration as int)),
    ] + optional_text("mime_type"@, voice.mime_type) + optional_integer(
        "file_size"@,
        voice.file_size,
    )
}

/// The members of the document of a round video message.
pub open spec fn video_note_members(note: VideoNote) -> MembersView {
    seq![
        ("file_id"@, JsonView::Text(note.file_id@)),
        ("duration"@, JsonView::Integer(note.duration as int)),
    ] + optional_integer("file_size"@, note.file_size)
}

/// The members of the document of a shared contact; its vCard is always
/// empty.
pub open spec fn contact_members(contact: Contact) -> MembersView {
    seq![
        ("phone_number"@, JsonView::Text(contact.phone_number@)),
        ("first_name"@, JsonView::Text(contact.first_name@)),
    ] + optional_text("last_name"@, contact.last_name) + optional_integer(
        "user_id"@,
        contact.user_id,
    ) + seq![("vcard"@, JsonView::Text(Seq::empty()))]
}

/// The members of the document of a named place.
pub open spec fn venue_members(venue: Venue) -> MembersView {
    seq![
        ("location"@, JsonView::Object(location_members(venue.location))),
        ("title"@, JsonView::Text(venue.title@)),
        ("address"@, JsonView::Text(venue.address@)),
    ]
}

/// The members of the document of the kind-specific content.
pub open spec fn content_members(content: Content) -> MembersView {
    match content {
        Content::Text { text } => text_members(text),
        Content::Audio { audio } => audio_members(audio),
        Content::Document { document, caption } => document_members(document, caption),
        Content::Photo { photo, caption } => photo_members(photo, caption),
        Content::Sticker { sticker } => sticker_members(sticker),
        Content::Video { video, caption } => video_members(video, caption),
        Content::Voice { voice } => voice_members(voice),
        Content::VideoNote { video_note } => video_note_members(video_note),
        Content::Contact { contact } => contact_members(contact),
        Content::Location { location } => location_members(location),
        Content::Venue { venue } => venue_members(venue),
    }
}

/// The members of the `message` part of an envelope.
pub open spec fn body_members(body: Body) -> MembersView {
    seq![
        ("type"@, JsonView::Integer(body.type_code as int)),
        ("content"@, JsonView::Object(content_members(body.content))),
    ]
}

/// The document of an envelope.
pub open spec fn envelope_json(envelope: Envelope) -> JsonView {
    JsonView::Object(
        seq![
            ("chat_id"@, JsonView::Integer(envelope.chat_id as int)),
            ("user"@, JsonView::Object(user_members(envelope.user))),
            ("message"@, JsonView::Object(body_members(envelope.message))),
        ],
    )
}

/// The document of a title-update record.
pub open spec fn title_update_json(update: TitleUpdate) -> JsonView {
    JsonView::Object(
        seq![
            ("chat_id"@, JsonView::Integer(update.chat_id as int)),
            ("user"@, JsonView::Object(user_members(update.user))),
            ("title"@, JsonView::Text(update.title@)),
        ],
    )
}

/// Renders a sender.
pub fn user_to_json(user: User) -> (j: Json)
    ensures
        j@ == JsonView::Object(user_members(user)),
{
    let mut members = no_members();
    push_member(&mut members, "id", Json::Integer(user.id));
    push_member(&mut members, "is_bot", Json::Bool(user.is_bot));
    push_member(&mut members, "first_name", Json::Text(user.first_name));
    push_optional_text(&mut members, "last_name", user.last_name);
    push_optional_text(&mut members, "username", user.username);
    push_optional_text(&mut members, "language_code", user.language_code);
    assert(members_view(members@) =~= user_members(user));
    object(members)
}

/// Renders one photo resolution.
pub fn photo_size_to_json(photo: PhotoSize) -> (j: Json)
    ensures
        j@ == JsonView::Object(photo_size_members(photo)),
{
    let mut members = no_members();
    push_member(&mut members, "file_id", Json::Text(photo.file_id));
    push_member(&mut members, "width", Json::Integer(photo.width));
    push_member(&mut members, "height", Json::Integer(photo.height));
    push_optional_integer(&mut members, "file_size", photo.file_size);
    assert(members_view(members@) =~= photo_size_members(photo));
    object(members)
}

/// Renders a point on the map.
pub fn location_to_json(location: Location) -> (j: Json)
    ensures
        j@ == JsonView::Object(location_members(location)),
{
    let mut members = no_members();
    push_member(&mut members, "longitude", Json::Real(location.longitude));
    push_member(&mut members, "latitude", Json::Real(location.latitude));
    assert(members_view(members@) =~= location_members(location));
    object(members)
}

/// Renders the content of a text message.
pub fn text_to_json(data: String) -> (j: Json)
    ensures
        j@ == JsonView::Object(text_members(data)),
{
    let mut members = no_members();
    push_member(&mut members, "text", Json::Text(data));
    assert(members_view(members@) =~= text_members(data));
    object(members)
}

/// Renders the content of an audio message.
pub fn audio_to_json(audio: Audio) -> (j: Json)
    ensures
        j@ == JsonView::Object(audio_members(audio)),
{
    let mut members = no_members();
    push_member(&mut members, "caption", text(""));
    push_member(&mut members, "file_id", Json::Text(audio.file_id));
    push_member(&mut members, "duration", Json::Integer(audio.duration));
    push_optional_text(&mut members, "performer", audio.performer);
    push_optional_text(&mut members, "title", audio.title);
    push_optional_text(&mut members, "mime_type", audio.mime_type);
    push_optional_integer(&mut members, "file_size", audio.file_size);
    proof {
        reveal_strlit("");
        assert(""@ =~= Seq::<char>::empty());
        assert(members_view(members@) =~= audio_members(audio));
    }
    object(members)
}

/// Renders the content of a document message.
pub fn document_to_json(document: Document, caption: Option<String>) -> (j: Json)
    ensures
        j@ == JsonView::Object(document_members(document, caption)),
{
    let mut members = no_members();
    push_optional_text(&mut members, "caption", caption);
    push_member(&mut members, "file_id", Json::Text(document.file_id));
    push_optional_text(&mut members, "file_name", document.file_name);
    push_optional_text(&mut members, "mime_type", document.mime_type);
    push_optional_integer(&mut members, "file_size", document.file_size);
    assert(members_view(members@) =~= document_members(document, caption));
    object(members)
}

/// Renders the content of a photo message.
pub fn photo_to_json(photo: PhotoSize, caption: Option<String>) -> (j: Json)
    ensures
        j@ == JsonView::Object(photo_members(photo, caption)),
{
    let mut members = no_members();
    push_optional_text(&mut members, "caption", caption);
    push_member(&mut members, "photo", photo_size_to_json(photo));
    assert(members_view(members@) =~= photo_members(photo, caption));
    object(members)
}

/// Renders the content of a sticker message.
pub fn sticker_to_json(sticker: Sticker) -> (j: Json)
    ensures
        j@ == JsonView::Object(sticker_members(sticker)),
{
    let mut members = no_members();
    push_member(&mut members, "file_id", Json::Text(sticker.file_id));
    push_optional_text(&mut members, "emoji", sticker.emoji);
    push_optional_text(&mut members, "set_name", sticker.set_name);
    push_optional_integer(&mut members, "file_size", sticker.file_size);
    assert(members_view(members@) =~= sticker_members(sticker));
    object(members)
}

/// Renders the content of a video message.
pub fn video_to_json(video: Video, caption: Option<String>) -> (j: Json)
    ensures
        j@ == JsonView::Object(video_members(video, caption)),
{
    let mut members = no_members();
    push_optional_text(&mut members, "caption", caption);
    push_member(&mut members, "file_id", Json::Text(video.file_id));
    push_member(&mut members, "duration", Json::Integer(video.duration));
    push_optional_text(&mut members, "mime_type", video.mime_type);
    push_optional_integer(&mut members, "file_size", video.file_size);
    assert(members_view(members@) =~= video_members(video, caption));
    object(members)
}

/// Renders the content of a voice message.
pub fn voice_to_json(voice: Voice) -> (j: Json)
    ensures
        j@ == JsonView::Object(voice_members(voice)),
{
    let mut members = no_members();
    push_member(&mut members, "caption", text(""));
    push_member(&mut members, "file_id", Json::Text(voice.file_id));
    push_member(&mut members, "duration", Json::Integer(voice.duration));
    push_optional_text(&mut members, "mime_type", voice.mime_type);
    push_optional_integer(&mut members, "file_size", voice.file_size);
    proof {
        reveal_strlit("");
        assert(""@ =~= Seq::<char>::empty());
        assert(members_view(members@) =~= voice_members(voice));
    }
    object(members)
}

/// Renders the content of a video-note message.
pub fn video_note_to_json(note: VideoNote) -> (j: Json)
    ensures
        j@ == JsonView::Object(video_note_members(note)),
{
    let mut members = no_members();
    push_member(&mut members, "file_id", Json::Text(note.file_id));
    push_member(&mut members, "duration", Json::Integer(note.duration));
    push_optional_integer(&mut members, "file_size", note.file_size);
    assert(members_view(members@) =~= video_note_members(note));
    object(members)
}

/// Renders the content of a contact message.
pub fn contact_to_json(contact: Contact) -> (j: Json)
    ensures
        j@ == JsonView::Object(contact_members(contact)),
{
    let mut members = no_members();
    push_member(&mut members, "phone_number", Json::Text(contact.phone_number));
    push_member(&mut members, "first_name", Json::Text(contact.first_name));
    push_optional_text(&mut members, "last_name", contact.last_name);
    push_optional_integer(&mut members, "user_id", contact.user_id);
    push_member(&mut members, "vcard", text(""));
    proof {
        reveal_strlit("");
        assert(""@ =~= Seq::<char>::empty());
        assert(members_view(members@) =~= contact_members(contact));
    }
    object(members)
}

/// Renders the content of a venue message.
pub fn venue_to_json(venue: Venue) -> (j: Json)
    ensures
        j@ == JsonView::Object(venue_members(venue)),
{
    let mut members = no_members();
    push_member(&mut members, "location", location_to_json(venue.location));
    push_member(&mut members, "title", Json::Text(venue.title));
    push_member(&mut members, "address", Json::Text(venue.address));
    assert(members_view(members@) =~= venue_members(venue));
    object(members)
}

impl Content {
    /// Renders the kind-specific content.
    pub fn to_json(self) -> (j: Json)
        ensures
            j@ == JsonView::Object(content_members(self)),
    {
        match self {
            Content::Text { text } => text_to_json(text),
            Content::Audio { audio } => audio_to_json(audio),
            Content::Document { document, caption } => document_to_json(document, caption),
            Content::Photo { photo, caption } => photo_to_json(photo, caption),
            Content::Sticker { sticker } => sticker_to_json(sticker),
            Content::Video { video, caption } => video_to_json(video, caption),
            Content::Voice { voice } => voice_to_json(voice),
            Content::VideoNote { video_note } => video_note_to_json(video_note),
            Content::Contact { contact } => contact_to_json(contact),
            Content::Location { location } => location_to_json(location),
            Content::Venue { venue } => venue_to_json(venue),
        }
    }
}

impl Body {
    /// Renders the `message` part of an envelope.
    pub fn to_json(self) -> (j: Json)
        ensures
            j@ == JsonView::Object(body_members(self)),
    {
        let mut members = no_members();
        push_member(&mut members, "type", Json::Integer(self.type_code as i64));
        push_member(&mut members, "content", self.content.to_json());
        assert(members_view(members@) =~= body_members(self));
        object(members)
    }
}

impl Envelope {
    /// Renders the envelope as the document that is posted to the backend.
    pub fn to_json(self) -> (j: Json)
        ensures
            j@ == envelope_json(self),
    {
        let mut members = no_members();
        push_member(&mut members, "chat_id", Json::Integer(self.chat_id));
        push_member(&mut members, "user", user_to_json(self.user));
        push_member(&mut members, "message", self.message.to_json());
        assert(members_view(members@) =~= envelope_json(self)->Object_0);
        object(members)
    }
}

impl TitleUpdate {
    /// Renders the record as the document that is posted to the backend.
    pub fn to_json(self) -> (j: Json)
        ensures
            j@ == title_update_json(self),
    {
        let mut members = no_members();
        push_member(&mut members, "chat_id", Json::Integer(self.chat_id));
        push_member(&mut members, "user", user_to_json(self.user));
        push_member(&mut members, "title", Json::Text(self.title));
        assert(members_view(members@) =~= title_update_json(self)->Object_0);
        object(members)
    }
}

/// In the document of a sender no two members share a name.
proof fn lemma_user_names(user: User)
    ensures
        tidy(user_members(user)),
{
    reveal_strlit("id");
    reveal_strlit("is_bot");
    reveal_strlit("first_name");
    reveal_strlit("last_name");
    reveal_strlit("username");
    reveal_strlit("language_code");
    assert("id"@.len() == 2);
    assert("is_bot"@.len() == 6);
    assert("first_name"@.len() == 10);
    assert("last_name"@.len() == 9);
    assert("username"@.len() == 8);
    assert("language_code"@.len() == 13);
    lemma_no_names();
    let m0 = MembersView::empty();
    lemma_push_name(m0, "id"@, JsonView::Integer(user.id as int));
    let m1 = m0.push(("id"@, JsonView::Integer(user.id as int)));
    lemma_push_name(m1, "is_bot"@, JsonView::Bool(user.is_bot));
    let m2 = m1.push(("is_bot"@, JsonView::Bool(user.is_bot)));
    lemma_push_name(m2, "first_name"@, JsonView::Text(user.first_name@));
    let m3 = m2.push(("first_name"@, JsonView::Text(user.first_name@)));
    lemma_add_optional_text(m3, "last_name"@, user.last_name);
    let m4 = m3 + optional_text("last_name"@, user.last_name);
    lemma_add_optional_text(m4, "username"@, user.username);
    let m5 = m4 + optional_text("username"@, user.username);
    lemma_add_optional_text(m5, "language_code"@, user.language_code);
    let m6 = m5 + optional_text("language_code"@, user.language_code);
    assert(m6 =~= user_members(user));
}

/// In the document of a photo resolution no two members share a name.
proof fn lemma_photo_size_names(photo: PhotoSize)
    ensures
        tidy(photo_size_members(photo)),
{
    reveal_strlit("file_id");
    reveal_strlit("width");
    reveal_strlit("height");
    reveal_strlit("file_size");
    assert("file_id"@.len() == 7);
    assert("width"@.len() == 5);
    assert("height"@.len() == 6);
    assert("file_size"@.len() == 9);
    lemma_no_names();
    let m0 = MembersView::empty();
    lemma_push_name(m0, "file_id"@, JsonView::Text(photo.file_id@));
    let m1 = m0.push(("file_id"@, JsonView::Text(photo.file_id@)));
    lemma_push_name(m1, "width"@, JsonView::Integer(photo.width as int));
    let m2 = m1.push(("width"@, JsonView::Integer(photo.width as int)));
    lemma_push_name(m2, "height"@, JsonView::Integer(photo.height as int));
    let m3 = m2.push(("height"@, JsonView::Integer(photo.height as int)));
    lemma_add_optional_integer(m3, "file_size"@, photo.file_size);
    let m4 = m3 + optional_integer("file_size"@, photo.file_size);
    assert(m4 =~= photo_size_members(photo));
}

/// In the document of a point on the map no two members share a name.
proof fn lemma_location_names(location: Location)
    ensures
        tidy(location_members(location)),
{
    reveal_strlit("longitude");
    reveal_strlit("latitude");
    assert("longitude"@.len() == 9);
    assert("latitude"@.len() == 8);
    lemma_no_names();
    let m0 = MembersView::empty();
    lemma_push_name(m0, "longitude"@, JsonView::Real(location.longitude));
    let m1 = m0.push(("longitude"@, JsonView::Real(location.longitude)));
    lemma_push_name(m1, "latitude"@, JsonView::Real(location.latitude));
    let m2 = m1.push(("latitude"@, JsonView::Real(location.latitude)));
    assert(m2 =~= location_members(location));
}

/// In the document of a text message no two members share a name.
proof fn lemma_text_names(text: String)
    ensures
        tidy(text_members(text)),
{
    reveal_strlit("text");
    assert("text"@.len() == 4);
    lemma_no_names();
    let m0 = MembersView::empty();
    lemma_push_name(m0, "text"@, JsonView::Text(text@));
    let m1 = m0.push(("text"@, JsonView::Text(text@)));
    assert(m1 =~= text_members(text));
}

/// In the document of an audio file no two members share a name.
proof fn lemma_audio_names(audio: Audio)
    ensures
        tidy(audio_members(audio)),
{
    reveal_strlit("caption");
    reveal_strlit("file_id");
    reveal_strlit("duration");
    reveal_strlit("performer");
    reveal_strlit("title");
    reveal_strlit("mime_type");
    reveal_strlit("file_size");
    assert("caption"@.len() == 7);
    assert("caption"@[0] == 'c');
    assert("file_id"@.len() == 7);
    assert("file_id"@[0] == 'f');
    assert("duration"@.len() == 8);
    assert("performer"@.len() == 9);
    assert("performer"@[0] == 'p');
    assert("title"@.len() == 5);
    assert("mime_type"@.len() == 9);
    assert("mime_type"@[0] == 'm');
    assert("file_size"@.len() == 9);
    assert("file_size"@[0] == 'f');
    lemma_no_names();
    let m0 = MembersView::empty();
    lemma_push_name(m0, "caption"@, JsonView::Text(Seq::empty()));
    let m1 = m0.push(("caption"@, JsonView::Text(Seq::empty())));
    lemma_push_name(m1, "file_id"@, JsonView::Text(audio.file_id@));
    let m2 = m1.push(("file_id"@, JsonView::Text(audio.file_id@)));
    lemma_push_name(m2, "duration"@, JsonView::Integer(audio.duration as int));
    let m3 = m2.push(("duration"@, JsonView::Integer(audio.duration as int)));
    lemma_add_optional_text(m3, "performer"@, audio.performer);
    let m4 = m3 + optional_text("performer"@, audio.performer);
    lemma_add_optional_text(m4, "title"@, audio.title);
    let m5 = m4 + optional_text("title"@, audio.title);
    lemma_add_optional_text(m5, "mime_type"@, audio.mime_type);
    let m6 = m5 + optional_text("mime_type"@, audio.mime_type);
    lemma_add_optional_integer(m6, "file_size"@, audio.file_size);
    let m7 = m6 + optional_integer("file_size"@, audio.file_size);
    assert(m7 =~= audio_members(audio));
}

/// In the document of a general file no two members share a name.
proof fn lemma_document_names(document: Document, caption: Option<String>)
    ensures
        tidy(document_members(document, caption)),
{
    reveal_strlit("caption");
    reveal_strlit("file_id");
    reveal_strlit("file_name");
    reveal_strlit("mime_type");
    reveal_strlit("file_size");
    assert("caption"@.len() == 7);
    assert("caption"@[0] == 'c');
    assert("file_id"@.len() == 7);
    assert("file_id"@[0] == 'f');
    assert("file_name"@.len() == 9);
    assert("file_name"@[5] == 'n');
    assert("mime_type"@.len() == 9);
    assert("mime_type"@[5] == 't');
    assert("file_size"@.len() == 9);
    assert("file_size"@[5] == 's');
    lemma_no_names();
    let m0 = MembersView::empty();
    lemma_add_optional_text(m0, "caption"@, caption);
    let m1 = m0 + optional_text("caption"@, caption);
    lemma_push_name(m1, "file_id"@, JsonView::Text(document.file_id@));
    let m2 = m1.push(("file_id"@, JsonView::Text(document.file_id@)));
    lemma_add_optional_text(m2, "file_name"@, document.file_name);
    let m3 = m2 + optional_text("file_name"@, document.file_name);
    lemma_add_optional_text(m3, "mime_type"@, document.mime_type);
    let m4 = m3 + optional_text("mime_type"@, document.mime_type);
    lemma_add_optional_integer(m4, "file_size"@, document.file_size);
    let m5 = m4 + optional_integer("file_size"@, document.file_size);
    assert(m5 =~= document_members(document, caption));
}

/// In the document of a photo no two members share a name.
proof fn lemma_photo_names(photo: PhotoSize, caption: Option<String>)
    ensures
        tidy(photo_members(photo, caption)),
{
    reveal_strlit("caption");
    reveal_strlit("photo");
    assert("caption"@.len() == 7);
    assert("photo"@.len() == 5);
    lemma_photo_size_names(photo);
    lemma_record_unambiguous(photo_size_members(photo));
    lemma_no_names();
    let m0 = MembersView::empty();
    lemma_add_optional_text(m0, "caption"@, caption);
    let m1 = m0 + optional_text("caption"@, caption);
    lemma_push_name(m1, "photo"@, JsonView::Object(photo_size_members(photo)));
    let m2 = m1.push(("photo"@, JsonView::Object(photo_size_members(photo))));
    assert(m2 =~= photo_members(photo, caption));
}

/// In the document of a sticker no two members share a name.
proof fn lemma_sticker_names(sticker: Sticker)
    ensures
        tidy(sticker_members(sticker)),
{
    reveal_strlit("file_id");
    reveal_strlit("emoji");
    reveal_strlit("set_name");
    reveal_strlit("file_size");
    assert("file_id"@.len() == 7);
    assert("emoji"@.len() == 5);
    assert("set_name"@.len() == 8);
    assert("file_size"@.len() == 9);
    lemma_no_names();
    let m0 = MembersView::empty();
    lemma_push_name(m0, "file_id"@, JsonView::Text(sticker.file_id@));
    let m1 = m0.push(("file_id"@, JsonView::Text(sticker.file_id@)));
    lemma_add_optional_text(m1, "emoji"@, sticker.emoji);
    let m2 = m1 + optional_text("emoji"@, sticker.emoji);
    lemma_add_optional_text(m2, "set_name"@, sticker.set_name);
    let m3 = m2 + optional_text("set_name"@, sticker.set_name);
    lemma_add_optional_integer(m3, "file_size"@, sticker.file_size);
    let m4 = m3 + optional_integer("file_size"@, sticker.file_size);
    assert(m4 =~= sticker_members(sticker));
}

/// In the document of a video no two members share a name.
proof fn lemma_video_names(video: Video, caption: Option<String>)
    ensures
        tidy(video_members(video, caption)),
{
    reveal_strlit("caption");
    reveal_strlit("file_id");
    reveal_strlit("duration");
    reveal_strlit("mime_type");
    reveal_strlit("file_size");
    assert("caption"@.len() == 7);
    assert("caption"@[0] == 'c');
    assert("file_id"@.len() == 7);
    assert("file_id"@[0] == 'f');
    assert("duration"@.len() == 8);
    assert("mime_type"@.len() == 9);
    assert("mime_type"@[0] == 'm');
    assert("file_size"@.len() == 9);
    assert("file_size"@[0] == 'f');
    lemma_no_names();
    let m0 = MembersView::empty();
    lemma_add_optional_text(m0, "caption"@, caption);
    let m1 = m0 + optional_text("caption"@, caption);
    lemma_push_name(m1, "file_id"@, JsonView::Text(video.file_id@));
    let m2 = m1.push(("file_id"@, JsonView::Text(video.file_id@)));
    lemma_push_name(m2, "duration"@, JsonView::Integer(video.duration as int));
    let m3 = m2.push(("duration"@, JsonView::Integer(video.duration as int)));
    lemma_add_optional_text(m3, "mime_type"@, video.mime_type);
    let m4 = m3 + optional_text("mime_type"@, video.mime_type);
    lemma_add_optional_integer(m4, "file_size"@, video.file_size);
    let m5 = m4 + optional_integer("file_size"@, video.file_size);
    assert(m5 =~= video_members(video, caption));
}

/// In the document of a voice note no two members share a name.
proof fn lemma_voice_names(voice: Voice)
    ensures
        tidy(voice_members(voice)),
{
    reveal_strlit("caption");
    reveal_strlit("file_id");
    reveal_strlit("duration");
    reveal_strlit("mime_type");
    reveal_strlit("file_size");
    assert("caption"@.len() == 7);
    assert("caption"@[0] == 'c');
    assert("file_id"@.len() == 7);
    assert("file_id"@[0] == 'f');
    assert("duration"@.len() == 8);
    assert("mime_type"@.len() == 9);
    assert("mime_type"@[0] == 'm');
    assert("file_size"@.len() == 9);
    assert("file_size"@[0] == 'f');
    lemma_no_names();
    let m0 = MembersView::empty();
    lemma_push_name(m0, "caption"@, JsonView::Text(Seq::empty()));
    let m1 = m0.push(("caption"@, JsonView::Text(Seq::empty())));
    lemma_push_name(m1, "file_id"@, JsonView::Text(voice.file_id@));
    let m2 = m1.push(("file_id"@, JsonView::Text(voice.file_id@)));
    lemma_push_name(m2, "duration"@, JsonView::Integer(voice.duration as int));
    let m3 = m2.push(("duration"@, JsonView::Integer(voice.duration as int)));
    lemma_add_optional_text(m3, "mime_type"@, voice.mime_type);
    let m4 = m3 + optional_text("mime_type"@, voice.mime_type);
    lemma_add_optional_integer(m4, "file_size"@, voice.file_size);
    let m5 = m4 + optional_integer("file_size"@, voice.file_size);
    assert(m5 =~= voice_members(voice));
}

/// In the document of a round video message no two members share a name.
proof fn lemma_video_note_names(note: VideoNote)
    ensures
        tidy(video_note_members(note)),
{
    reveal_strlit("file_id");
    reveal_strlit("duration");
    reveal_strlit("file_size");
    assert("file_id"@.len() == 7);
    assert("duration"@.len() == 8);
    assert("file_size"@.len() == 9);
    lemma_no_names();
    let m0 = MembersView::empty();
    lemma_push_name(m0, "file_id"@, JsonView::Text(note.file_id@));
    let m1 = m0.push(("file_id"@, JsonView::Text(note.file_id@)));
    lemma_push_name(m1, "duration"@, JsonView::Integer(note.duration as int));
    let m2 = m1.push(("duration"@, JsonView::Integer(note.duration as int)));
    lemma_add_optional_integer(m2, "file_size"@, note.file_size);
    let m3 = m2 + optional_integer("file_size"@, note.file_size);
    assert(m3 =~= video_note_members(note));
}

/// In the document of a shared contact no two members share a name.
proof fn lemma_contact_names(contact: Contact)
    ensures
        tidy(contact_members(contact)),
{
    reveal_strlit("phone_number");
    reveal_strlit("first_name");
    reveal_strlit("last_name");
    reveal_strlit("user_id");
    reveal_strlit("vcard");
    assert("phone_number"@.len() == 12);
    assert("first_name"@.len() == 10);
    assert("last_name"@.len() == 9);
    assert("user_id"@.len() == 7);
    assert("vcard"@.len() == 5);
    lemma_no_names();
    let m0 = MembersView::empty();
    lemma_push_name(m0, "phone_number"@, JsonView::Text(contact.phone_number@));
    let m1 = m0.push(("phone_number"@, JsonView::Text(contact.phone_number@)));
    lemma_push_name(m1, "first_name"@, JsonView::Text(contact.first_name@));
    let m2 = m1.push(("first_name"@, JsonView::Text(contact.first_name@)));
    lemma_add_optional_text(m2, "last_name"@, contact.last_name);
    let m3 = m2 + optional_text("last_name"@, contact.last_name);
    lemma_add_optional_integer(m3, "user_id"@, contact.user_id);
    let m4 = m3 + optional_integer("user_id"@, contact.user_id);
    lemma_push_name(m4, "vcard"@, JsonView::Text(Seq::empty()));
    let m5 = m4.push(("vcard"@, JsonView::Text(Seq::empty())));
    assert(m5 =~= contact_members(contact));
}

/// In the document of a named place no two members share a name.
proof fn lemma_venue_names(venue: Venue)
    ensures
        tidy(venue_members(venue)),
{
    reveal_strlit("location");
    reveal_strlit("title");
    reveal_strlit("address");
    assert("location"@.len() == 8);
    assert("title"@.len() == 5);
    assert("address"@.len() == 7);
    lemma_location_names(venue.location);
    lemma_record_unambiguous(location_members(venue.location));
    lemma_no_names();
    let m0 = MembersView::empty();
    lemma_push_name(m0, "location"@, JsonView::Object(location_members(venue.location)));
    let m1 = m0.push(("location"@, JsonView::Object(location_members(venue.location))));
    lemma_push_name(m1, "title"@, JsonView::Text(venue.title@));
    let m2 = m1.push(("title"@, JsonView::Text(venue.title@)));
    lemma_push_name(m2, "address"@, JsonView::Text(venue.address@));
    let m3 = m2.push(("address"@, JsonView::Text(venue.address@)));
    assert(m3 =~= venue_members(venue));
}

/// In the document of any content no two members share a name.
proof fn lemma_content_names(content: Content)
    ensures
        tidy(content_members(content)),
{
    match content {
        Content::Text { text } => lemma_text_names(text),
        Content::Audio { audio } => lemma_audio_names(audio),
        Content::Document { document, caption } => lemma_document_names(document, caption),
        Content::Photo { photo, caption } => lemma_photo_names(photo, caption),
        Content::Sticker { sticker } => lemma_sticker_names(sticker),
        Content::Video { video, caption } => lemma_video_names(video, caption),
        Content::Voice { voice } => lemma_voice_names(voice),
        Content::VideoNote { video_note } => lemma_video_note_names(video_note),
        Content::Contact { contact } => lemma_contact_names(contact),
        Content::Location { location } => lemma_location_names(location),
        Content::Venue { venue } => lemma_venue_names(venue),
    }
}

/// The document of an envelope is unambiguous: nowhere in it does a record
/// have two members of the same name, whichever optional fields are
/// present.
pub proof fn law_envelope_unambiguous(envelope: Envelope)
    ensures
        unambiguous(envelope_json(envelope)),
{
    reveal_strlit("type");
    reveal_strlit("content");
    assert("type"@.len() == 4);
    assert("content"@.len() == 7);
    reveal_strlit("chat_id");
    reveal_strlit("user");
    reveal_strlit("message");
    assert("chat_id"@.len() == 7);
    assert("chat_id"@[0] == 'c');
    assert("user"@.len() == 4);
    assert("message"@.len() == 7);
    assert("message"@[0] == 'm');
    lemma_no_names();
    lemma_content_names(envelope.message.content);
    lemma_record_unambiguous(content_members(envelope.message.content));
    let content = JsonView::Object(content_members(envelope.message.content));
    let code = JsonView::Integer(envelope.message.type_code as int);
    let b0 = MembersView::empty();
    lemma_push_name(b0, "type"@, code);
    let b1 = b0.push(("type"@, code));
    lemma_push_name(b1, "content"@, content);
    let b2 = b1.push(("content"@, content));
    assert(b2 =~= body_members(envelope.message));
    lemma_record_unambiguous(body_members(envelope.message));
    lemma_user_names(envelope.user);
    lemma_record_unambiguous(user_members(envelope.user));
    let chat = JsonView::Integer(envelope.chat_id as int);
    let user = JsonView::Object(user_members(envelope.user));
    let body = JsonView::Object(body_members(envelope.message));
    let m0 = MembersView::empty();
    lemma_push_name(m0, "chat_id"@, chat);
    let m1 = m0.push(("chat_id"@, chat));
    lemma_push_name(m1, "user"@, user);
    let m2 = m1.push(("user"@, user));
    lemma_push_name(m2, "message"@, body);
    let m3 = m2.push(("message"@, body));
    lemma_record_unambiguous(m3);
    assert(m3 =~= envelope_json(envelope)->Object_0);
}

/// The document of a title-update record is unambiguous.
pub proof fn law_title_update_unambiguous(update: TitleUpdate)
    ensures
        unambiguous(title_update_json(update)),
{
    reveal_strlit("chat_id");
    reveal_strlit("user");
    reveal_strlit("title");
    assert("chat_id"@.len() == 7);
    assert("user"@.len() == 4);
    assert("title"@.len() == 5);
    lemma_no_names();
    lemma_user_names(update.user);
    lemma_record_unambiguous(user_members(update.user));
    let chat = JsonView::Integer(update.chat_id as int);
    let user = JsonView::Object(user_members(update.user));
    let title = JsonView::Text(update.title@);
    let m0 = MembersView::empty();
    lemma_push_name(m0, "chat_id"@, chat);
    let m1 = m0.push(("chat_id"@, chat));
    lemma_push_name(m1, "user"@, user);
    let m2 = m1.push(("user"@, user));
    lemma_push_name(m2, "title"@, title);
    let m3 = m2.push(("title"@, title));
    lemma_record_unambiguous(m3);
    assert(m3 =~= title_update_json(update)->Object_0);
}

} // verus!

