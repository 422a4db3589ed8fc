use relay_bot::envelope::{normalize, title_update, Body, Content, Envelope, TitleUpdate};
use relay_bot::update::{
    Audio, Contact, Document, Location, Message, MessageKind, PhotoSize, Sticker, User, Venue,
    Video, VideoNote, Voice,
};

fn sender() -> User {
    User {
        id: 42,
        is_bot: false,
        first_name: "Ada".to_string(),
        last_name: Some("Lovelace".to_string()),
        username: None,
        language_code: Some("en".to_string()),
    }
}

fn message_of(kind: MessageKind) -> Message {
    Message { from: sender(), chat_id: -1001, kind }
}

fn small_photo() -> PhotoSize {
    PhotoSize { file_id: "small".to_string(), width: 90, height: 60, file_size: Some(1200) }
}

fn large_photo() -> PhotoSize {
    PhotoSize { file_id: "large".to_string(), width: 1280, height: 853, file_size: None }
}

fn code_of_kind(kind: MessageKind) -> Option<u8> {
    normalize(message_of(kind)).map(|envelope| envelope.message.type_code)
}

#[test]
fn text_envelope_carries_chat_sender_and_text() {
    let envelope = normalize(message_of(MessageKind::Text { data: "hi there".to_string() }));
    assert_eq!(
        envelope,
        Some(Envelope {
            chat_id: -1001,
            user: sender(),
            message: Body { type_code: 0, content: Content::Text { text: "hi there".to_string() } },
        })
    );
}

#[test]
fn type_codes_follow_the_table() {
    assert_eq!(code_of_kind(MessageKind::Text { data: String::new() }), Some(0));
    assert_eq!(
        code_of_kind(MessageKind::Audio {
            data: Audio {
                file_id: "a".to_string(),
                duration: 1,
                performer: None,
                title: None,
                mime_type: None,
                file_size: None,
            },
        }),
        Some(1)
    );
    assert_eq!(
        code_of_kind(MessageKind::Document {
            data: Document {
                file_id: "d".to_string(),
                file_name: None,
                mime_type: None,
                file_size: None,
            },
            caption: None,
        }),
        Some(2)
    );
    assert_eq!(
        code_of_kind(MessageKind::Photo { data: vec![small_photo()], caption: None }),
        Some(5)
    );
    assert_eq!(
        code_of_kind(MessageKind::Sticker {
            data: Sticker {
                file_id: "s".to_string(),
                emoji: None,
                set_name: None,
                file_size: None,
            },
        }),
        Some(6)
    );
    assert_eq!(
        code_of_kind(MessageKind::Video {
            data: Video { file_id: "v".to_string(), duration: 3, mime_type: None, file_size: None },
            caption: None,
        }),
        Some(7)
    );
    assert_eq!(
        code_of_kind(MessageKind::Voice {
            data: Voice { file_id: "o".to_string(), duration: 3, mime_type: None, file_size: None },
        }),
        Some(8)
    );
    assert_eq!(
        code_of_kind(MessageKind::VideoNote {
            data: VideoNote { file_id: "n".to_string(), duration: 3, file_size: None },
        }),
        Some(9)
    );
    assert_eq!(
        code_of_kind(MessageKind::Contact {
            data: Contact {
                phone_number: "+1".to_string(),
                first_name: "Bo".to_string(),
                last_name: None,
                user_id: None,
            },
        }),
        Some(10)
    );
    assert_eq!(
        code_of_kind(MessageKind::Location { data: Location { longitude: 0, latitude: 0 } }),
        Some(11)
    );
    assert_eq!(
        code_of_kind(MessageKind::Venue {
            data: Venue {
                location: Location { longitude: 0, latitude: 0 },
                title: "t".to_string(),
                address: "a".to_string(),
            },
        }),
        Some(12)
    );
}

#[test]
fn content_type_codes_skip_the_reserved_ones() {
    assert_eq!(Content::Text { text: String::new() }.type_code(), 0);
    assert_eq!(Content::Photo { photo: small_photo(), caption: None }.type_code(), 5);
    assert_eq!(
        Content::Location { location: Location { longitude: 1, latitude: 2 } }.type_code(),
        11
    );
}

#[test]
fn photo_envelope_takes_the_first_resolution() {
    let envelope = normalize(message_of(MessageKind::Photo {
        data: vec![small_photo(), large_photo()],
        caption: None,
    }));
    assert_eq!(
        envelope,
        Some(Envelope {
            chat_id: -1001,
            user: sender(),
            message: Body {
                type_code: 5,
                content: Content::Photo { photo: small_photo(), caption: None },
            },
        })
    );
}

#[test]
fn photo_envelope_keeps_the_caption() {
    let envelope = normalize(message_of(MessageKind::Photo {
        data: vec![large_photo()],
        caption: Some("sunset".to_string()),
    }))
    .unwrap();
    assert_eq!(
        envelope.message.content,
        Content::Photo { photo: large_photo(), caption: Some("sunset".to_string()) }
    );
}

#[test]
fn photo_without_resolutions_has_no_envelope() {
    assert_eq!(normalize(message_of(MessageKind::Photo { data: vec![], caption: None })), None);
    assert_eq!(
        normalize(message_of(MessageKind::Photo {
            data: Vec::new(),
            caption: Some("nothing".to_string()),
        })),
        None
    );
}

#[test]
fn payload_is_taken_over_as_it_came() {
    let audio = || Audio {
        file_id: "AwADBAAD".to_string(),
        duration: 215,
        performer: Some("Nina".to_string()),
        title: None,
        mime_type: Some("audio/mpeg".to_string()),
        file_size: Some(3_400_000),
    };
    let envelope = normalize(message_of(MessageKind::Audio { data: audio() })).unwrap();
    assert_eq!(envelope.message.content, Content::Audio { audio: audio() });
    assert_eq!(envelope.chat_id, -1001);
    assert_eq!(envelope.user, sender());
}

#[test]
fn document_and_video_keep_their_captions() {
    let document = || Document {
        file_id: "doc".to_string(),
        file_name: Some("notes.pdf".to_string()),
        mime_type: None,
        file_size: Some(5),
    };
    let envelope = normalize(message_of(MessageKind::Document {
        data: document(),
        caption: Some("read me".to_string()),
    }))
    .unwrap();
    assert_eq!(
        envelope.message.content,
        Content::Document { document: document(), caption: Some("read me".to_string()) }
    );
    let video =
        || Video { file_id: "vid".to_string(), duration: 9, mime_type: None, file_size: None };
    let envelope =
        normalize(message_of(MessageKind::Video { data: video(), caption: None })).unwrap();
    assert_eq!(envelope.message.content, Content::Video { video: video(), caption: None });
}

#[test]
fn kinds_without_mapping_have_no_envelope() {
    assert_eq!(normalize(message_of(MessageKind::Unhandled)), None);
    assert_eq!(
        normalize(message_of(MessageKind::ChatTitleChanged { data: "New name".to_string() })),
        None
    );
}

#[test]
fn normalizing_twice_gives_the_same_envelope() {
    let build = || {
        message_of(MessageKind::Contact {
            data: Contact {
                phone_number: "+31201234567".to_string(),
                first_name: "Grace".to_string(),
                last_name: Some("Hopper".to_string()),
                user_id: Some(77),
            },
        })
    };
    assert_eq!(normalize(build()), normalize(build()));
}

#[test]
fn new_envelope_sets_the_code_of_its_content() {
    let envelope = Envelope::new(
        5,
        sender(),
        Content::Venue {
            venue: Venue {
                location: Location { longitude: 3, latitude: 4 },
                title: "Café".to_string(),
                address: "Main St 1".to_string(),
            },
        },
    );
    assert_eq!(envelope.message.type_code, 12);
    assert_eq!(envelope.chat_id, 5);
}

#[test]
fn title_change_gives_a_title_update() {
    let update =
        title_update(message_of(MessageKind::ChatTitleChanged { data: "Weekend".to_string() }));
    assert_eq!(
        update,
        Some(TitleUpdate { chat_id: -1001, user: sender(), title: "Weekend".to_string() })
    );
}

#[test]
fn other_kinds_give_no_title_update() {
    assert_eq!(title_update(message_of(MessageKind::Text { data: "Weekend".to_string() })), None);
    assert_eq!(title_update(message_of(MessageKind::Unhandled)), None);
}
