//! The update router: what is to be done for one inbound update.
//!
//! The router never performs anything itself. [`handle`] answers with the
//! actions that an update calls for, in order. A command that needs a token
//! from the backend leaves the handling open: the one action is the
//! lookup, and [`resume`] takes its outcome and answers with the rest.
//! Whatever the outcome, a text message is archived exactly once.

use vstd::prelude::*;
use vstd::string::StringExecFns;
use crate::action::{
    actions_view, gets, no_actions, posts, posts_to, push_action, sends, Action, ActionView,
};
use crate::command::{parse, parsed};
use crate::config::{Config, ConfigView};
use crate::dispatcher::{delivered, dispatch, dispatched, recognised, deliver, Dispatch, DispatchView};
use crate::envelope::{
    envelope_of, normalize, title_update, title_update_of, Envelope, TitleUpdate,
};
use crate::gateway::{
    address_of, interpret, interpreted, law_address_tells_paths_apart, outcome_view, GatewayError,
    GatewayFailure, Reply, Transfer,
};
use crate::update::{Message, MessageKind, Update};
use crate::wire::{envelope_json, title_update_json};

verus! {

/// A token lookup in flight, and the archive entry still owed for the
/// message that asked for it.
#[derive(Debug, PartialEq, Eq)]
pub struct Pending {
    pub envelope: Envelope,
}

/// What one update calls for.
#[derive(Debug, PartialEq, Eq)]
pub struct Handling {
    /// The actions to carry out, in order.
    pub actions: Vec<Action>,
    /// Set when the last action is a lookup whose outcome [`resume`] is to
    /// be given.
    pub pending: Option<Pending>,
}

/// The mathematical content of a [`Handling`].
pub struct HandlingView {
    pub actions: Seq<ActionView>,
    pub pending: Option<Envelope>,
}

impl View for Handling {
    type V = HandlingView;

    open spec fn view(&self) -> HandlingView {
        HandlingView {
            actions: actions_view(self.actions@),
            pending: match self.pending {
                Some(pending) => Some(pending.envelope),
                None => None,
            },
        }
    }
}

/// The backend path that archives a message.
pub open spec fn message_path() -> Seq<char> {
    "message"@
}

/// The backend path that records a new chat title.
pub open spec fn title_path() -> Seq<char> {
    "chat_update/new_title"@
}

/// The action that archives an envelope.
pub open spec fn archive_of(envelope: Envelope) -> ActionView {
    ActionView::Post { path: message_path(), payload: envelope_json(envelope) }
}

/// The action that records a new chat title.
pub open spec fn retitle_of(update: TitleUpdate) -> ActionView {
    ActionView::Post { path: title_path(), payload: title_update_json(update) }
}

/// Nothing to do.
pub open spec fn idle() -> HandlingView {
    HandlingView { actions: Seq::empty(), pending: None }
}

/// What the command in a message calls for; only a text message can hold
/// one.
pub open spec fn command_dispatched(message: Message) -> DispatchView {
    match message.kind {
        MessageKind::Text { data } => match parsed(data@) {
            Some(command) => dispatched(message.from.id, message.chat_id, command),
            None => DispatchView::Ignore,
        },
        _ => DispatchView::Ignore,
    }
}

/// What a text message calls for: the command it holds, if any, comes
/// first, and the archive entry follows, unless a lookup leaves it pending.
pub open spec fn text_handled(message: Message) -> HandlingView {
    match envelope_of(message) {
        Some(envelope) => match command_dispatched(message) {
            DispatchView::Ignore => HandlingView {
                actions: seq![archive_of(envelope)],
                pending: None,
            },
            DispatchView::Respond(action) => HandlingView {
                actions: seq![action, archive_of(envelope)],
                pending: None,
            },
            DispatchView::Lookup(action) => HandlingView {
                actions: seq![action],
                pending: Some(envelope),
            },
        },
        None => idle(),
    }
}

/// What a message without a command calls for: its archive entry, if its
/// kind has an envelope.
pub open spec fn forwarded(message: Message) -> HandlingView {
    match envelope_of(message) {
        Some(envelope) => HandlingView { actions: seq![archive_of(envelope)], pending: None },
        None => idle(),
    }
}

/// What a change of title calls for: its record, posted to the title path.
pub open spec fn title_handled(message: Message) -> HandlingView {
    match title_update_of(message) {
        Some(update) => HandlingView { actions: seq![retitle_of(update)], pending: None },
        None => idle(),
    }
}

/// What a message calls for, by kind.
pub open spec fn message_handled(message: Message) -> HandlingView {
    match message.kind {
        MessageKind::Text { .. } => text_handled(message),
        MessageKind::ChatTitleChanged { .. } => title_handled(message),
        _ => forwarded(message),
    }
}

/// What an update calls for.
pub open spec fn handled(update: Update) -> HandlingView {
    match update {
        Update::Message(message) => message_handled(message),
        Update::Unhandled => idle(),
    }
}

/// What follows a token lookup: the chat message that its outcome calls
/// for, then the archive entry that was owed.
pub open spec fn concluded(
    config: ConfigView,
    envelope: Envelope,
    outcome: Result<Option<Seq<char>>, GatewayFailure>,
) -> Seq<ActionView> {
    seq![
        delivered(config, envelope.user.id, envelope.chat_id, outcome),
        archive_of(envelope),
    ]
}

/// Builds the action that archives an envelope.
pub fn archive(envelope: Envelope) -> (action: Action)
    ensures
        action@ == archive_of(envelope),
{
    Action::Post { path: String::from_str("message"), payload: envelope.to_json() }
}

/// Builds the action that records a new chat title.
pub fn retitle(update: TitleUpdate) -> (action: Action)
    ensures
        action@ == retitle_of(update),
{
    Action::Post { path: String::from_str("chat_update/new_title"), payload: update.to_json() }
}

/// Handles a text message: the command it holds, if any, and its archive
/// entry. A message of another kind holds no command and is handled as by
/// [`forward`].
pub fn handle_text(message: Message) -> (r: Handling)
    ensures
        r@ == text_handled(message),
{
    let command = match &message.kind {
        MessageKind::Text { data } => parse(data.as_str()),
        _ => None,
    };
    let respond = match command {
        Some(command) => dispatch(message.from.id, message.chat_id, command),
        None => Dispatch::Ignore,
    };
    let mut actions = no_actions();
    match normalize(message) {
        Some(envelope) => match respond {
            Dispatch::Ignore => {
                push_action(&mut actions, archive(envelope));
                Handling { actions, pending: None }
            },
            Dispatch::Respond(action) => {
                push_action(&mut actions, action);
                push_action(&mut actions, archive(envelope));
                assert(actions_view(actions@) =~= seq![action@, archive_of(envelope)]);
                Handling { actions, pending: None }
            },
            Dispatch::Lookup(action) => {
                push_action(&mut actions, action);
                Handling { actions, pending: Some(Pending { envelope }) }
            },
        },
        None => Handling { actions, pending: None },
    }
}

/// Handles a message that announces a new chat title.
pub fn handle_title(message: Message) -> (r: Handling)
    ensures
        r@ == title_handled(message),
{
    let mut actions = no_actions();
    match title_update(message) {
        Some(update) => {
            push_action(&mut actions, retitle(update));
        },
        None => {},
    }
    Handling { actions, pending: None }
}

/// Archives a message, if its kind has an envelope.
pub fn forward(message: Message) -> (r: Handling)
    ensures
        r@ == forwarded(message),
{
    let mut actions = no_actions();
    match normalize(message) {
        Some(envelope) => {
            push_action(&mut actions, archive(envelope));
        },
        None => {},
    }
    Handling { actions, pending: None }
}

/// Handles one message.
pub fn handle_message(message: Message) -> (r: Handling)
    ensures
        r@ == message_handled(message),
{
    match message.kind {
        MessageKind::Text { .. } => handle_text(message),
        MessageKind::ChatTitleChanged { .. } => handle_title(message),
        _ => forward(message),
    }
}

/// Handles one update of the stream.
pub fn handle(update: Update) -> (r: Handling)
    ensures
        r@ == handled(update),
{
    match update {
        Update::Message(message) => handle_message(message),
        Update::Unhandled => Handling { actions: no_actions(), pending: None },
    }
}

/// Finishes a handling that a token lookup left open, given what the
/// gateway made of the lookup.
pub fn conclude(
    config: &Config,
    pending: Pending,
    outcome: Result<Reply, GatewayError>,
) -> (r: Vec<Action>)
    ensures
        actions_view(r@) == concluded(config@, pending.envelope, outcome_view(outcome)),
{
    let envelope = pending.envelope;
    let mut actions = no_actions();
    push_action(&mut actions, deliver(config, envelope.user.id, envelope.chat_id, outcome));
    push_action(&mut actions, archive(envelope));
    actions
}

/// Finishes a handling that a token lookup left open, given how the
/// exchange with the backend ended.
pub fn resume(config: &Config, pending: Pending, transfer: &Transfer) -> (r: Vec<Action>)
    ensures
        actions_view(r@) == concluded(config@, pending.envelope, interpreted(*transfer)),
{
    conclude(config, pending, interpret(transfer))
}

/// Everything that is carried out for an update: the actions of its
/// handling and, where a lookup was left pending, those that follow its
/// outcome.
pub open spec fn carried_out(
    config: ConfigView,
    update: Update,
    outcome: Result<Option<Seq<char>>, GatewayFailure>,
) -> Seq<ActionView> {
    let handling = handled(update);
    match handling.pending {
        Some(envelope) => handling.actions + concluded(config, envelope, outcome),
        None => handling.actions,
    }
}

/// Whether an update is a text message that holds a command the bot acts
/// on.
pub open spec fn holds_command(update: Update) -> bool {
    &&& update matches Update::Message(message)
    &&& message.kind matches MessageKind::Text { data }
    &&& parsed(data@) matches Some(command)
    &&& recognised(command) is Some
}

/// The two backend paths that records are posted to differ.
pub proof fn lemma_paths_differ()
    ensures
        message_path() != title_path(),
{
    reveal_strlit("message");
    reveal_strlit("chat_update/new_title");
    assert(message_path().len() == 7);
    assert(title_path().len() == 21);
}

/// The counts of a run of one action.
proof fn lemma_counts_one(a: ActionView, path: Seq<char>)
    ensures
        sends(seq![a]) == if a is Send { 1nat } else { 0nat },
        gets(seq![a]) == if a is Get { 1nat } else { 0nat },
        posts(seq![a]) == if a is Post { 1nat } else { 0nat },
        posts_to(seq![a], path) == if a matches ActionView::Post { path: p, .. } && p == path {
            1nat
        } else {
            0nat
        },
{
    crate::action::lemma_counts_push(Seq::empty(), a, path);
}

/// The counts of a run of two actions.
proof fn lemma_counts_two(a: ActionView, b: ActionView, path: Seq<char>)
    ensures
        sends(seq![a, b]) == sends(seq![a]) + sends(seq![b]),
        gets(seq![a, b]) == gets(seq![a]) + gets(seq![b]),
        posts(seq![a, b]) == posts(seq![a]) + posts(seq![b]),
        posts_to(seq![a, b], path) == posts_to(seq![a], path) + posts_to(seq![b], path),
{
    crate::action::lemma_counts_concat(seq![a], seq![b], path);
    assert(seq![a] + seq![b] =~= seq![a, b]);
}

/// For one update there is at most one chat message, at most one backend
/// lookup and at most one posted record, whatever a lookup gives.
pub proof fn law_at_most_once(
    config: ConfigView,
    update: Update,
    outcome: Result<Option<Seq<char>>, GatewayFailure>,
)
    ensures
        sends(carried_out(config, update, outcome)) <= 1,
        gets(carried_out(config, update, outcome)) <= 1,
        posts(carried_out(config, update, outcome)) <= 1,
{
    let handling = handled(update);
    let all = carried_out(config, update, outcome);
    let path = message_path();
    match handling.pending {
        Some(envelope) => {
            let rest = concluded(config, envelope, outcome);
            crate::action::lemma_counts_concat(handling.actions, rest, path);
            lemma_counts_one(handling.actions[0], path);
            assert(handling.actions =~= seq![handling.actions[0]]);
            lemma_counts_two(rest[0], rest[1], path);
            lemma_counts_one(rest[0], path);
            lemma_counts_one(rest[1], path);
            assert(rest =~= seq![rest[0], rest[1]]);
        },
        None => {
            if all.len() == 1 {
                lemma_counts_one(all[0], path);
                assert(all =~= seq![all[0]]);
            } else if all.len() == 2 {
                lemma_counts_two(all[0], all[1], path);
                lemma_counts_one(all[0], path);
                lemma_counts_one(all[1], path);
                assert(all =~= seq![all[0], all[1]]);
            } else {
                assert(all.len() == 0);
            }
        },
    }
}

/// A text message is archived exactly once, whether or not it holds a
/// command and whatever a lookup gives; nothing else is posted for it, and
/// the archive entry is the last thing done.
pub proof fn law_text_archived_once(
    config: ConfigView,
    update: Update,
    outcome: Result<Option<Seq<char>>, GatewayFailure>,
)
    requires
        update matches Update::Message(message) && message.kind is Text,
    ensures
        posts_to(carried_out(config, update, outcome), message_path()) == 1,
        posts(carried_out(config, update, outcome)) == 1,
        carried_out(config, update, outcome).len() > 0,
        carried_out(config, update, outcome).last() == archive_of(
            envelope_of(update->Message_0).unwrap(),
        ),
{
    let handling = handled(update);
    let all = carried_out(config, update, outcome);
    let path = message_path();
    match handling.pending {
        Some(envelope) => {
            let rest = concluded(config, envelope, outcome);
            crate::action::lemma_counts_concat(handling.actions, rest, path);
            lemma_counts_one(handling.actions[0], path);
            assert(handling.actions =~= seq![handling.actions[0]]);
            lemma_counts_two(rest[0], rest[1], path);
            lemma_counts_one(rest[0], path);
            lemma_counts_one(rest[1], path);
            assert(rest =~= seq![rest[0], rest[1]]);
        },
        None => {
            if all.len() == 1 {
                lemma_counts_one(all[0], path);
                assert(all =~= seq![all[0]]);
            } else {
                lemma_counts_two(all[0], all[1], path);
                lemma_counts_one(all[0], path);
                lemma_counts_one(all[1], path);
                assert(all =~= seq![all[0], all[1]]);
            }
        },
    }
}

/// A text message that holds a command the bot acts on gets the command's
/// chat message exactly once and its archive entry exactly once, whatever a
/// lookup gives; a lookup is made exactly when the command is `token` or
/// `start`.
pub proof fn law_command_and_archive_once(
    config: ConfigView,
    update: Update,
    outcome: Result<Option<Seq<char>>, GatewayFailure>,
)
    requires
        holds_command(update),
    ensures
        sends(carried_out(config, update, outcome)) == 1,
        posts_to(carried_out(config, update, outcome), message_path()) == 1,
        posts(carried_out(config, update, outcome)) == 1,
        gets(carried_out(config, update, outcome)) == if handled(update).pending is Some {
            1nat
        } else {
            0nat
        },
{
    law_text_archived_once(config, update, outcome);
    let handling = handled(update);
    let all = carried_out(config, update, outcome);
    let path = message_path();
    match handling.pending {
        Some(envelope) => {
            let rest = concluded(config, envelope, outcome);
            crate::action::lemma_counts_concat(handling.actions, rest, path);
            lemma_counts_one(handling.actions[0], path);
            assert(handling.actions =~= seq![handling.actions[0]]);
            lemma_counts_two(rest[0], rest[1], path);
            lemma_counts_one(rest[0], path);
            lemma_counts_one(rest[1], path);
            assert(rest =~= seq![rest[0], rest[1]]);
        },
        None => {
            lemma_counts_two(all[0], all[1], path);
            lemma_counts_one(all[0], path);
            lemma_counts_one(all[1], path);
            assert(all =~= seq![all[0], all[1]]);
        },
    }
}

/// A change of title is posted to the title path, once, and never to the
/// message path; nothing else is done for it.
pub proof fn law_title_change_route(message: Message)
    requires
        message.kind is ChatTitleChanged,
    ensures
        handled(Update::Message(message)).pending is None,
        handled(Update::Message(message)).actions == seq![
            retitle_of(title_update_of(message).unwrap()),
        ],
        posts_to(handled(Update::Message(message)).actions, title_path()) == 1,
        posts_to(handled(Update::Message(message)).actions, message_path()) == 0,
        posts(handled(Update::Message(message)).actions) == 1,
        sends(handled(Update::Message(message)).actions) == 0,
        gets(handled(Update::Message(message)).actions) == 0,
{
    let action = retitle_of(title_update_of(message).unwrap());
    lemma_paths_differ();
    lemma_counts_one(action, title_path());
    lemma_counts_one(action, message_path());
}

/// Under any configuration, title updates and messages are posted to
/// different addresses.
pub proof fn law_title_address_apart(config: Config)
    ensures
        address_of(config, title_path()) != address_of(config, message_path()),
{
    lemma_paths_differ();
    if address_of(config, title_path()) == address_of(config, message_path()) {
        law_address_tells_paths_apart(config, title_path(), message_path());
    }
}

/// An update that is no message, and a message of an unhandled kind, call
/// for nothing: no chat message and no backend call.
pub proof fn law_unhandled_dropped(update: Update)
    requires
        update is Unhandled || (update matches Update::Message(message)
            && message.kind is Unhandled),
    ensures
        handled(update) == idle(),
        handled(update).actions.len() == 0,
        handled(update).pending is None,
{
}

/// A handling is left pending only by a text message whose command calls
/// for a lookup; the lookup is then its one action, and what stays owed is
/// the envelope of that message.
pub proof fn law_pending_after_lookup(update: Update)
    ensures
        handled(update).pending is Some ==> {
            &&& update matches Update::Message(message)
            &&& message.kind is Text
            &&& command_dispatched(message) matches DispatchView::Lookup(lookup)
            &&& handled(update).actions == seq![lookup]
            &&& handled(update).pending == envelope_of(message)
        },
{
}

} // verus!
