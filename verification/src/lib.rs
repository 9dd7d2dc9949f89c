//! The monitor tool of an agent: long-lived background watchers whose output reaches the model
//! as notifications.
//!
//! - [`notification`]: a batch of a watcher's output, set off from what the user wrote.
//! - [`description`]: the label of a watcher, kept short.
//! - [`id`]: the id of a watcher.
//! - [`listing`]: the list of the active watchers.
//! - [`tool`]: the tool as the model sees it.
//! - [`message`]: the texts that calls answer and fail with.
//! - [`host`], [`call`]: what passes between a call and the agent that hosts it.
//! - [`protocol`]: how a call goes on, as a relation; [`flow`]: the code that decides it.
//! - [`steps`]: what each step of a call does; [`laws`]: what holds of every call;
//!   [`registry`]: what holds across calls.
//! - [`text`]: text as sequences of characters.
#![allow(unused_imports)]

pub mod call;
pub mod description;
pub mod flow;
pub mod host;
pub mod id;
pub mod laws;
pub mod listing;
pub mod message;
pub mod notification;
pub mod protocol;
pub mod registry;
pub mod steps;
pub mod text;
pub mod tool;
