//! A relay between a chat platform and a backend that archives what is
//! said.
//!
//! The library decides; it performs nothing. An inbound [`update::Update`]
//! goes to [`router::handle`], which answers with the [`action::Action`]s
//! that the update calls for: chat messages to send and backend calls to
//! make. The caller carries them out and, where a command needs an answer
//! from the backend, hands the outcome to [`router::resume`].
//!
//! * [`command`] finds the slash-command in a text.
//! * [`dispatcher`] says what each command makes the bot do.
//! * [`envelope`] turns a message into the record the backend stores, and
//!   [`wire`] turns that record into the document that is sent.
//! * [`gateway`] builds backend addresses and judges backend answers.
//! * [`config`] reads the settings from a TOML document.

pub mod action;
pub mod command;
pub mod config;
pub mod dispatcher;
pub mod envelope;
pub mod gateway;
pub mod json;
pub mod lookup;
pub mod router;
pub mod text;
pub mod update;
pub mod wire;
