//! The handshake of a database client, verified.
//!
//! Right after a connection is opened, and before any other command, the
//! client sends one command that names the client and asks the server what it
//! can do. This crate holds what is decided around that command:
//!
//! * [`metadata`] and [`platform`] put the client's identity together: a base
//!   that is read off the machine once per process, and the customization
//!   that a configuration lays over a copy of it.
//! * [`auth`] sends the first message of an authentication exchange along
//!   with the handshake, so that authenticating costs one round trip less.
//! * [`handshake`] builds the command that all handshakes of a configuration
//!   start from, and runs one handshake in two steps: before the command is
//!   sent, and after the reply has come.
//! * [`document`], [`command`], [`reply`] and [`error`] are the values that
//!   pass between them; [`list_indexes`] is a command of the plainest kind.
//!
//! Sending and receiving is not done here. A handshake goes through these
//! states, in this order and never back:
//!
//! * the template is copied ([`handshake::Handshaker::begin`]);
//! * the first authentication message is filed in the copy, or nothing is;
//! * the caller sends the command and waits for the reply;
//! * the reply is turned down if it cannot serve the mode that was asked for
//!   ([`handshake::Handshaker::complete`]);
//! * the connection gets its description of the server;
//! * the first round of the authentication exchange is paired, or is absent.
//!
//! Every function states what it returns in terms of a mathematical view of
//! its arguments, and is proved to do so. Two functions in [`platform`] ask
//! libraries outside this crate about the machine; what they return is taken
//! as it comes, and nothing is assumed of it.

pub mod auth;
pub mod command;
pub mod document;
pub mod error;
pub mod handshake;
pub mod list_indexes;
pub mod metadata;
pub mod platform;
pub mod reply;
