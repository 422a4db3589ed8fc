//! What the library asks its caller to do: send a chat message, or call
//! the backend.

use vstd::prelude::*;
use crate::json::{Json, JsonView};

verus! {

/// Whom a chat message goes to.
#[derive(Debug, Clone, Copy, PartialEq, Eq)]
pub enum Target {
    /// The chat with this id.
    Chat(i64),
    /// The private chat of the user with this id.
    User(i64),
}

/// How the text of a chat message is to be rendered.
#[derive(Debug, Clone, Copy, PartialEq, Eq)]
pub enum Style {
    /// As it stands.
    Plain,
    /// With lightweight markup interpreted.
    Markdown,
}

/// One step for the caller to carry out.
#[derive(Debug, PartialEq, Eq)]
pub enum Action {
    /// Send `text` to `target`.
    Send { target: Target, text: String, style: Style },
    /// Call the backend gateway with `get(path)`.
    Get { path: String },
    /// Call the backend gateway with `post(path, payload)`.
    Post { path: String, payload: Json },
}

/// The mathematical content of an [`Action`].
pub enum ActionView {
    Send { target: Target, text: Seq<char>, style: Style },
    Get { path: Seq<char> },
    Post { path: Seq<char>, payload: JsonView },
}

impl View for Action {
    type V = ActionView;

    open spec fn view(&self) -> ActionView {
        match self {
            Action::Send { target, text, style } => ActionView::Send {
                target: *target,
                text: text@,
                style: *style,
            },
            Action::Get { path } => ActionView::Get { path: path@ },
            Action::Post { path, payload } => ActionView::Post { path: path@, payload: payload@ },
        }
    }
}

/// The views of a run of actions, in order.
pub open spec fn actions_view(actions: Seq<Action>) -> Seq<ActionView> {
    Seq::new(actions.len(), |i: int| actions[i]@)
}

/// How many of `actions` send a chat message.
pub open spec fn sends(actions: Seq<ActionView>) -> nat
    decreases actions.len(),
{
    if actions.len() == 0 {
        0
    } else {
        sends(actions.drop_last()) + if actions.last() is Send {
            1nat
        } else {
            0nat
        }
    }
}

/// How many of `actions` are a backend `get`.
pub open spec fn gets(actions: Seq<ActionView>) -> nat
    decreases actions.len(),
{
    if actions.len() == 0 {
        0
    } else {
        gets(actions.drop_last()) + if actions.last() is Get {
            1nat
        } else {
            0nat
        }
    }
}

/// How many of `actions` are a backend `post` to `path`.
pub open spec fn posts_to(actions: Seq<ActionView>, path: Seq<char>) -> nat
    decreases actions.len(),
{
    if actions.len() == 0 {
        0
    } else {
        posts_to(actions.drop_last(), path) + if actions.last() matches ActionView::Post {
            path: p,
            ..
        } && p == path {
            1nat
        } else {
            0nat
        }
    }
}

/// How many of `actions` are a backend `post`, whatever the path.
pub open spec fn posts(actions: Seq<ActionView>) -> nat
    decreases actions.len(),
{
    if actions.len() == 0 {
        0
    } else {
        posts(actions.drop_last()) + if actions.last() is Post {
            1nat
        } else {
            0nat
        }
    }
}

/// A run of actions with `action` added at the end.
pub fn push_action(actions: &mut Vec<Action>, action: Action)
    ensures
        actions_view(final(actions)@) == actions_view(old(actions)@).push(action@),
{
    actions.push(action);
}

/// An empty run of actions.
pub fn no_actions() -> (actions: Vec<Action>)
    ensures
        actions_view(actions@) == Seq::<ActionView>::empty(),
{
    let actions: Vec<Action> = Vec::new();
    actions
}

/// Adding an action at the end adds it to the count it belongs to and to
/// no other.
pub proof fn lemma_counts_push(actions: Seq<ActionView>, action: ActionView, path: Seq<char>)
    ensures
        sends(actions.push(action)) == sends(actions) + if action is Send {
            1nat
        } else {
            0nat
        },
        gets(actions.push(action)) == gets(actions) + if action is Get {
            1nat
        } else {
            0nat
        },
        posts(actions.push(action)) == posts(actions) + if action is Post {
            1nat
        } else {
            0nat
        },
        posts_to(actions.push(action), path) == posts_to(actions, path) + if action matches ActionView::Post {
            path: p,
            ..
        } && p == path {
            1nat
        } else {
            0nat
        },
{
    assert(actions.push(action).drop_last() =~= actions);
}

/// The counts of two runs, one after the other, are the sums of their
/// counts.
pub proof fn lemma_counts_concat(
    first: Seq<ActionView>,
    second: Seq<ActionView>,
    path: Seq<char>,
)
    ensures
        sends(first + second) == sends(first) + sends(second),
        gets(first + second) == gets(first) + gets(second),
        posts(first + second) == posts(first) + posts(second),
        posts_to(first + second, path) == posts_to(first, path) + posts_to(second, path),
    decreases second.len(),
{
    if second.len() == 0 {
        assert(first + second =~= first);
    } else {
        lemma_counts_concat(first, second.drop_last(), path);
        lemma_counts_push(first + second.drop_last(), second.last(), path);
        assert((first + second.drop_last()).push(second.last()) =~= first + second);
    }
}

} // verus!
