use relay_bot::action::{Action, Style, Target};
use relay_bot::config::Config;
use relay_bot::envelope::{Content, Envelope};
use relay_bot::gateway::{GatewayError, Reply, Transfer};
use relay_bot::json::{Json, Member};
use relay_bot::router::{
    archive, conclude, forward, handle, handle_message, handle_text, handle_title, resume, retitle,
    Handling, Pending,
};
use relay_bot::update::{Location, Message, MessageKind, PhotoSize, Update, User};
use relay_bot::envelope::TitleUpdate;

fn ann() -> User {
    User {
        id: 42,
        is_bot: false,
        first_name: "Ann".to_string(),
        last_name: None,
        username: Some("ann".to_string()),
        language_code: None,
    }
}

fn node(members: Vec<(&str, Json)>) -> Json {
    Json::Object(
        members
            .into_iter()
            .map(|(name, value)| Member { name: name.to_string(), value })
            .collect(),
    )
}

fn ann_json() -> Json {
    node(vec![
        ("id", Json::Integer(42)),
        ("is_bot", Json::Bool(false)),
        ("first_name", Json::Text("Ann".to_string())),
        ("username", Json::Text("ann".to_string())),
    ])
}

fn text_message(chat_id: i64, text: &str) -> Message {
    Message { from: ann(), chat_id, kind: MessageKind::Text { data: text.to_string() } }
}

fn text_update(chat_id: i64, text: &str) -> Update {
    Update::Message(text_message(chat_id, text))
}

fn text_envelope(chat_id: i64, text: &str) -> Envelope {
    Envelope::new(chat_id, ann(), Content::Text { text: text.to_string() })
}

fn text_archive(chat_id: i64, text: &str) -> Action {
    Action::Post {
        path: "message".to_string(),
        payload: node(vec![
            ("chat_id", Json::Integer(chat_id)),
            ("user", ann_json()),
            (
                "message",
                node(vec![
                    ("type", Json::Integer(0)),
                    ("content", node(vec![("text", Json::Text(text.to_string()))])),
                ]),
            ),
        ]),
    }
}

fn settings_with_dashboard() -> Config {
    Config {
        root_url: "https://backend.example".to_string(),
        cobalt_root_url: "https://dash.example".to_string(),
        bot_token: "123:bot".to_string(),
        api_token: "abcdef".to_string(),
    }
}

fn count_posts(actions: &[Action]) -> usize {
    actions.iter().filter(|action| matches!(action, Action::Post { .. })).count()
}

fn count_sends(actions: &[Action]) -> usize {
    actions.iter().filter(|action| matches!(action, Action::Send { .. })).count()
}

fn count_gets(actions: &[Action]) -> usize {
    actions.iter().filter(|action| matches!(action, Action::Get { .. })).count()
}

#[test]
fn plain_text_is_archived() {
    assert_eq!(
        handle(text_update(7, "good morning")),
        Handling { actions: vec![text_archive(7, "good morning")], pending: None }
    );
}

#[test]
fn echo_replies_and_archives() {
    let handling = handle(text_update(7, "/echo hello world"));
    assert_eq!(
        handling,
        Handling {
            actions: vec![
                Action::Send {
                    target: Target::Chat(7),
                    text: "hello world".to_string(),
                    style: Style::Markdown,
                },
                text_archive(7, "/echo hello world"),
            ],
            pending: None,
        }
    );
}

#[test]
fn info_replies_and_archives() {
    let handling = handle(text_update(-100, "/info"));
    assert_eq!(
        handling.actions,
        vec![
            Action::Send {
                target: Target::Chat(-100),
                text: "userid: 42\nchatid: -100".to_string(),
                style: Style::Plain,
            },
            text_archive(-100, "/info"),
        ]
    );
    assert_eq!(handling.pending, None);
}

#[test]
fn unknown_command_is_archived_without_reply() {
    assert_eq!(
        handle(text_update(7, "/help me")),
        Handling { actions: vec![text_archive(7, "/help me")], pending: None }
    );
    assert_eq!(
        handle(text_update(7, "/start wrong")),
        Handling { actions: vec![text_archive(7, "/start wrong")], pending: None }
    );
}

#[test]
fn malformed_command_is_archived_as_text() {
    assert_eq!(
        handle(text_update(7, "/echo@bot hi")),
        Handling { actions: vec![text_archive(7, "/echo@bot hi")], pending: None }
    );
}

#[test]
fn token_leaves_the_archive_pending_behind_a_lookup() {
    let handling = handle(text_update(7, "/token"));
    assert_eq!(
        handling,
        Handling {
            actions: vec![Action::Get { path: "generate_token/42".to_string() }],
            pending: Some(Pending { envelope: text_envelope(7, "/token") }),
        }
    );
}

#[test]
fn token_scenario_sends_the_link_to_the_user() {
    let handling = handle(text_update(-1001, "/token"));
    assert_eq!(handling.actions, vec![Action::Get { path: "generate_token/42".to_string() }]);
    let pending = handling.pending.unwrap();
    let answer = Transfer::Completed { status: 200, body: "{\"token\":\"abc123\"}".to_string() };
    let rest = resume(&settings_with_dashboard(), pending, &answer);
    assert_eq!(
        rest,
        vec![
            Action::Send {
                target: Target::User(42),
                text: "Click [here](https://dash.example/#abc123) to go to the dashboard"
                    .to_string(),
                style: Style::Markdown,
            },
            text_archive(-1001, "/token"),
        ]
    );
}

#[test]
fn start_with_the_secret_runs_the_token_flow() {
    let handling = handle(text_update(42, "/start HELLOGIMMETOKENPLS"));
    assert_eq!(handling.actions, vec![Action::Get { path: "generate_token/42".to_string() }]);
    let rest = conclude(
        &settings_with_dashboard(),
        handling.pending.unwrap(),
        Ok(Reply { token: Some("t0k".to_string()) }),
    );
    assert_eq!(
        rest,
        vec![
            Action::Send {
                target: Target::User(42),
                text: "Click [here](https://dash.example/#t0k) to go to the dashboard".to_string(),
                style: Style::Markdown,
            },
            text_archive(42, "/start HELLOGIMMETOKENPLS"),
        ]
    );
}

#[test]
fn failed_lookup_apologises_and_still_archives() {
    let apology = |chat_id: i64| Action::Send {
        target: Target::Chat(chat_id),
        text: "couldn't fetch your token, try again".to_string(),
        style: Style::Plain,
    };
    let outcomes = vec![
        Transfer::Failed,
        Transfer::Completed { status: 500, body: "{\"token\":\"abc123\"}".to_string() },
        Transfer::Completed { status: 200, body: "<html>".to_string() },
        Transfer::Completed { status: 200, body: "{\"error\":\"no\"}".to_string() },
    ];
    for outcome in outcomes {
        let pending = handle(text_update(-5, "/token")).pending.unwrap();
        assert_eq!(
            resume(&settings_with_dashboard(), pending, &outcome),
            vec![apology(-5), text_archive(-5, "/token")]
        );
    }
}

#[test]
fn conclude_handles_every_gateway_outcome() {
    let outcomes: Vec<Result<Reply, GatewayError>> = vec![
        Ok(Reply { token: Some("abc".to_string()) }),
        Ok(Reply { token: None }),
        Err(GatewayError::Connection),
        Err(GatewayError::Status(404)),
        Err(GatewayError::Malformed("bad".to_string())),
    ];
    for outcome in outcomes {
        let pending = Pending { envelope: text_envelope(1, "/token") };
        let rest = conclude(&settings_with_dashboard(), pending, outcome);
        assert_eq!(rest.len(), 2);
        assert_eq!(count_sends(&rest), 1);
        assert_eq!(rest[1], text_archive(1, "/token"));
    }
}

#[test]
fn command_and_archive_happen_once_each() {
    let texts = ["/echo hi", "/info", "/token", "/start HELLOGIMMETOKENPLS", "/ECHO", "/Info x"];
    for text in texts {
        let handling = handle(text_update(3, text));
        let mut all = handling.actions;
        if let Some(pending) = handling.pending {
            let answer =
                Transfer::Completed { status: 200, body: "{\"token\":\"abc123\"}".to_string() };
            all.extend(resume(&settings_with_dashboard(), pending, &answer));
        }
        assert_eq!(count_sends(&all), 1);
        assert_eq!(count_posts(&all), 1);
        assert!(count_gets(&all) <= 1);
        assert_eq!(all.last(), Some(&text_archive(3, text)));
    }
}

#[test]
fn title_change_goes_to_the_title_path_only() {
    let update = Update::Message(Message {
        from: ann(),
        chat_id: -77,
        kind: MessageKind::ChatTitleChanged { data: "Weekend".to_string() },
    });
    let handling = handle(update);
    assert_eq!(
        handling,
        Handling {
            actions: vec![Action::Post {
                path: "chat_update/new_title".to_string(),
                payload: node(vec![
                    ("chat_id", Json::Integer(-77)),
                    ("user", ann_json()),
                    ("title", Json::Text("Weekend".to_string())),
                ]),
            }],
            pending: None,
        }
    );
    for action in &handling.actions {
        assert!(!matches!(action, Action::Post { path, .. } if path == "message"));
    }
}

#[test]
fn title_that_looks_like_a_command_is_no_command() {
    let update = Update::Message(Message {
        from: ann(),
        chat_id: -77,
        kind: MessageKind::ChatTitleChanged { data: "/echo hi".to_string() },
    });
    let handling = handle(update);
    assert_eq!(handling.actions.len(), 1);
    assert_eq!(count_sends(&handling.actions), 0);
    assert_eq!(handling.pending, None);
}

#[test]
fn unhandled_kind_calls_for_nothing() {
    let update =
        Update::Message(Message { from: ann(), chat_id: 7, kind: MessageKind::Unhandled });
    assert_eq!(handle(update), Handling { actions: vec![], pending: None });
}

#[test]
fn update_that_is_no_message_calls_for_nothing() {
    assert_eq!(handle(Update::Unhandled), Handling { actions: vec![], pending: None });
}

#[test]
fn photo_without_resolutions_calls_for_nothing() {
    let update = Update::Message(Message {
        from: ann(),
        chat_id: 7,
        kind: MessageKind::Photo { data: vec![], caption: None },
    });
    assert_eq!(handle(update), Handling { actions: vec![], pending: None });
}

#[test]
fn photo_is_archived_with_its_first_resolution() {
    let sizes = vec![
        PhotoSize { file_id: "first".to_string(), width: 90, height: 60, file_size: None },
        PhotoSize { file_id: "second".to_string(), width: 900, height: 600, file_size: Some(5) },
    ];
    let update = Update::Message(Message {
        from: ann(),
        chat_id: 7,
        kind: MessageKind::Photo { data: sizes, caption: None },
    });
    assert_eq!(
        handle(update),
        Handling {
            actions: vec![Action::Post {
                path: "message".to_string(),
                payload: node(vec![
                    ("chat_id", Json::Integer(7)),
                    ("user", ann_json()),
                    (
                        "message",
                        node(vec![
                            ("type", Json::Integer(5)),
                            (
                                "content",
                                node(vec![(
                                    "photo",
                                    node(vec![
                                        ("file_id", Json::Text("first".to_string())),
                                        ("width", Json::Integer(90)),
                                        ("height", Json::Integer(60)),
                                    ])
                                )])
                            ),
                        ]),
                    ),
                ]),
            }],
            pending: None,
        }
    );
}

#[test]
fn other_kinds_are_archived_without_command_handling() {
    let update = Update::Message(Message {
        from: ann(),
        chat_id: 7,
        kind: MessageKind::Location { data: Location { longitude: 11, latitude: 22 } },
    });
    let handling = handle(update);
    assert_eq!(handling.pending, None);
    assert_eq!(
        handling.actions,
        vec![Action::Post {
            path: "message".to_string(),
            payload: node(vec![
                ("chat_id", Json::Integer(7)),
                ("user", ann_json()),
                (
                    "message",
                    node(vec![
                        ("type", Json::Integer(11)),
                        (
                            "content",
                            node(vec![("longitude", Json::Real(11)), ("latitude", Json::Real(22))])
                        ),
                    ]),
                ),
            ]),
        }]
    );
}

#[test]
fn handle_message_agrees_with_handle() {
    assert_eq!(handle_message(text_message(7, "/echo a")), handle(text_update(7, "/echo a")));
}

#[test]
fn handle_text_on_a_text_message() {
    assert_eq!(
        handle_text(text_message(7, "/echo a")),
        Handling {
            actions: vec![
                Action::Send {
                    target: Target::Chat(7),
                    text: "a".to_string(),
                    style: Style::Markdown
                },
                text_archive(7, "/echo a"),
            ],
            pending: None,
        }
    );
}

#[test]
fn handle_text_on_another_kind_only_forwards() {
    let title = || Message {
        from: ann(),
        chat_id: 7,
        kind: MessageKind::ChatTitleChanged { data: "/echo a".to_string() },
    };
    assert_eq!(handle_text(title()), Handling { actions: vec![], pending: None });
    let place = || Message {
        from: ann(),
        chat_id: 7,
        kind: MessageKind::Location { data: Location { longitude: 1, latitude: 2 } },
    };
    assert_eq!(handle_text(place()), forward(place()));
}

#[test]
fn handle_title_on_another_kind_does_nothing() {
    assert_eq!(handle_title(text_message(7, "hi")), Handling { actions: vec![], pending: None });
}

#[test]
fn forward_skips_commands() {
    assert_eq!(
        forward(text_message(7, "/echo a")),
        Handling { actions: vec![text_archive(7, "/echo a")], pending: None }
    );
}

#[test]
fn archive_posts_to_the_message_path() {
    assert_eq!(archive(text_envelope(7, "x")), text_archive(7, "x"));
}

#[test]
fn retitle_posts_to_the_title_path() {
    let action = retitle(TitleUpdate { chat_id: 1, user: ann(), title: "T".to_string() });
    assert!(matches!(action, Action::Post { ref path, .. } if path == "chat_update/new_title"));
}
