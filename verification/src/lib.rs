//! Decision core of a chat-room automation agent.
//!
//! The agent logs into a federated messaging service, joins the rooms it is
//! invited to and answers a few admin-only commands. Everything that talks to
//! the network lives outside this crate; what is here are the rules: which
//! step follows which at startup, when and how long to wait before joining a
//! room again, who may issue a command, and what each command answers.

pub mod autojoin;
pub mod command;
pub mod config;
pub mod handler;
pub mod session;
pub mod startup;
mod text;
