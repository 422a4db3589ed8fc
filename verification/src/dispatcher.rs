//! The command dispatcher: what each slash-command makes the bot do.
//!
//! | command | condition                          | effect                                   |
//! |---------|------------------------------------|------------------------------------------|
//! | `info`  |                                    | tells the chat the sender's and its ids  |
//! | `token` |                                    | fetches a token, sends the link privately |
//! | `start` | the argument is the shared secret  | as `token`                               |
//! | `echo`  |                                    | repeats the arguments to the chat        |
//!
//! Anything else is ignored.

use vstd::prelude::*;
use vstd::string::StringExecFns;
use crate::action::{Action, ActionView, Style, Target};
use crate::command::{CommandView, ParsedCommand};
use crate::config::{Config, ConfigView};
use crate::gateway::{outcome_view, GatewayError, GatewayFailure, Reply};
use crate::text::{decimal, decimal_string};

verus! {

/// The commands the bot acts on.
#[derive(Debug, Clone, Copy, PartialEq, Eq)]
pub enum Command {
    Info,
    Token,
    Start,
    Echo,
}

/// What a command calls for.
#[derive(Debug, PartialEq, Eq)]
pub enum Dispatch {
    /// Nothing: the command is not one the bot acts on.
    Ignore,
    /// One chat message, and the command is done.
    Respond(Action),
    /// One backend lookup; its outcome decides the chat message that
    /// follows (see [`deliver`]).
    Lookup(Action),
}

/// The mathematical content of a [`Dispatch`].
pub enum DispatchView {
    Ignore,
    Respond(ActionView),
    Lookup(ActionView),
}

impl View for Dispatch {
    type V = DispatchView;

    open spec fn view(&self) -> DispatchView {
        match self {
            Dispatch::Ignore => DispatchView::Ignore,
            Dispatch::Respond(action) => DispatchView::Respond(action@),
            Dispatch::Lookup(action) => DispatchView::Lookup(action@),
        }
    }
}

/// The argument that `start` must carry to be acted on.
pub open spec fn start_secret() -> Seq<char> {
    "HELLOGIMMETOKENPLS"@
}

/// The command that a parsed command names, if it is one the bot acts on.
/// `start` counts only with the shared secret as its argument.
pub open spec fn recognised(command: CommandView) -> Option<Command> {
    if command.name == "info"@ {
        Some(Command::Info)
    } else if command.name == "token"@ {
        Some(Command::Token)
    } else if command.name == "echo"@ {
        Some(Command::Echo)
    } else if command.name == "start"@ && command.arguments == start_secret() {
        Some(Command::Start)
    } else {
        None
    }
}

/// The text that answers `info`.
pub open spec fn info_text(user_id: i64, chat_id: i64) -> Seq<char> {
    "userid: "@ + decimal(user_id as int) + "\nchatid: "@ + decimal(chat_id as int)
}

/// The backend path that issues a token for a user.
pub open spec fn token_path(user_id: i64) -> Seq<char> {
    "generate_token/"@ + decimal(user_id as int)
}

/// The text that hands a token to its user: a link to the dashboard with
/// the token as the fragment.
pub open spec fn token_text(config: ConfigView, token: Seq<char>) -> Seq<char> {
    "Click [here]("@ + config.cobalt_root_url + "/#"@ + token + ") to go to the dashboard"@
}

/// The text sent when no token could be fetched.
pub open spec fn apology_text() -> Seq<char> {
    "couldn't fetch your token, try again"@
}

/// What a command from `user_id` in `chat_id` calls for.
pub open spec fn dispatched(user_id: i64, chat_id: i64, command: CommandView) -> DispatchView {
    match recognised(command) {
        Some(Command::Info) => DispatchView::Respond(
            ActionView::Send {
                target: Target::Chat(chat_id),
                text: info_text(user_id, chat_id),
                style: Style::Plain,
            },
        ),
        Some(Command::Echo) => DispatchView::Respond(
            ActionView::Send {
                target: Target::Chat(chat_id),
                text: command.arguments,
                style: Style::Markdown,
            },
        ),
        Some(Command::Token) | Some(Command::Start) => DispatchView::Lookup(
            ActionView::Get { path: token_path(user_id) },
        ),
        None => DispatchView::Ignore,
    }
}

/// The chat message that follows a token lookup. A token goes to its user
/// in private, as a dashboard link; when the lookup failed or the answer
/// held no token, the chat the command came from is told so.
pub open spec fn delivered(
    config: ConfigView,
    user_id: i64,
    chat_id: i64,
    outcome: Result<Option<Seq<char>>, GatewayFailure>,
) -> ActionView {
    match outcome {
        Ok(Some(token)) => ActionView::Send {
            target: Target::User(user_id),
            text: token_text(config, token),
            style: Style::Markdown,
        },
        _ => ActionView::Send {
            target: Target::Chat(chat_id),
            text: apology_text(),
            style: Style::Plain,
        },
    }
}

/// Whether `text` reads exactly as `literal`.
fn reads(text: &String, literal: &str) -> (r: bool)
    ensures
        r == (text@ == literal@),
{
    *text == String::from_str(literal)
}

/// Tells which command, if any, a parsed command names.
pub fn recognise(command: &ParsedCommand) -> (r: Option<Command>)
    ensures
        r == recognised(command@),
{
    if reads(&command.name, "info") {
        Some(Command::Info)
    } else if reads(&command.name, "token") {
        Some(Command::Token)
    } else if reads(&command.name, "echo") {
        Some(Command::Echo)
    } else if reads(&command.name, "start") && reads(&command.arguments, "HELLOGIMMETOKENPLS") {
        Some(Command::Start)
    } else {
        None
    }
}

/// Decides what a command from `user_id` in `chat_id` calls for.
pub fn dispatch(user_id: i64, chat_id: i64, command: ParsedCommand) -> (r: Dispatch)
    ensures
        r@ == dispatched(user_id, chat_id, command@),
{
    match recognise(&command) {
        Some(Command::Info) => {
            let mut text = String::from_str("userid: ");
            text.append(decimal_string(user_id).as_str());
            text.append("\nchatid: ");
            text.append(decimal_string(chat_id).as_str());
            Dispatch::Respond(
                Action::Send { target: Target::Chat(chat_id), text, style: Style::Plain },
            )
        },
        Some(Command::Echo) => Dispatch::Respond(
            Action::Send {
                target: Target::Chat(chat_id),
                text: command.arguments,
                style: Style::Markdown,
            },
        ),
        Some(Command::Token) | Some(Command::Start) => {
            let mut path = String::from_str("generate_token/");
            path.append(decimal_string(user_id).as_str());
            Dispatch::Lookup(Action::Get { path })
        },
        None => Dispatch::Ignore,
    }
}

/// Builds the chat message that follows a token lookup with the given
/// outcome.
pub fn deliver(
    config: &Config,
    user_id: i64,
    chat_id: i64,
    outcome: Result<Reply, GatewayError>,
) -> (r: Action)
    ensures
        r@ == delivered(config@, user_id, chat_id, outcome_view(outcome)),
{
    match outcome {
        Ok(Reply { token: Some(token) }) => {
            let mut text = String::from_str("Click [here](");
            text.append(config.cobalt_root_url.as_str());
            text.append("/#");
            text.append(token.as_str());
            text.append(") to go to the dashboard");
            Action::Send { target: Target::User(user_id), text, style: Style::Markdown }
        },
        _ => Action::Send {
            target: Target::Chat(chat_id),
            text: String::from_str("couldn't fetch your token, try again"),
            style: Style::Plain,
        },
    }
}

/// A token is only ever sent to the private chat of the user it was issued
/// for; the chat the command came from hears of a lookup only when it
/// failed, and then without any token.
pub proof fn law_token_goes_private(
    config: ConfigView,
    user_id: i64,
    chat_id: i64,
    outcome: Result<Option<Seq<char>>, GatewayFailure>,
)
    ensures
        match outcome {
            Ok(Some(token)) => delivered(config, user_id, chat_id, outcome) == (ActionView::Send {
                target: Target::User(user_id),
                text: token_text(config, token),
                style: Style::Markdown,
            }),
            _ => delivered(config, user_id, chat_id, outcome) == (ActionView::Send {
                target: Target::Chat(chat_id),
                text: apology_text(),
                style: Style::Plain,
            }),
        },
{
}

/// Different users are looked up under different paths.
pub proof fn law_token_path_per_user(first: i64, second: i64)
    requires
        token_path(first) == token_path(second),
    ensures
        first == second,
{
    let prefix = "generate_token/"@;
    let a = token_path(first);
    let b = token_path(second);
    assert(a.subrange(prefix.len() as int, a.len() as int) =~= decimal(first as int));
    assert(b.subrange(prefix.len() as int, b.len() as int) =~= decimal(second as int));
    crate::text::law_decimal_injective(first as int, second as int);
}

/// A lookup is called for by `token`, and by `start` with the shared secret
/// as its argument, and by nothing else.
pub proof fn law_lookup_commands(user_id: i64, chat_id: i64, command: CommandView)
    ensures
        dispatched(user_id, chat_id, command) is Lookup <==> (recognised(command) == Some(
            Command::Token,
        ) || recognised(command) == Some(Command::Start)),
        recognised(command) == Some(Command::Start) ==> command.arguments == start_secret(),
        dispatched(user_id, chat_id, command) is Ignore <==> recognised(command) is None,
{
}

} // verus!
