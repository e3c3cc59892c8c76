//! Server side of a remote-control connection: who may open one, how a peer logs on, what an
//! authorised peer may do, and what the server does in answer.
//!
//! Every decision is a verified function of plain values. What a decision asks of the outside
//! world (send a message, subscribe to a service, lock the screen) comes back as a list of
//! [`action::Action`] values, in the order in which they are to be carried out.

pub mod action;
pub mod audit;
pub mod closing;
pub mod cm_ipc;
pub mod config;
pub mod connection;
pub mod course;
pub mod dealings;
pub mod deeds;
pub mod display;
pub mod double;
pub mod entry;
pub mod env;
pub mod failures;
pub mod file_transfer;
pub mod forward;
pub mod headless;
pub mod input;
pub mod input_thread;
pub mod laws;
pub mod login;
pub mod logon;
pub mod message;
pub mod opening;
pub mod options;
pub mod password;
pub mod paths;
pub mod peer_message;
pub mod plugin;
pub mod portable;
pub mod privacy;
pub mod registry;
pub mod removal_log;
pub mod retina;
pub mod run;
pub mod session;
pub mod sights;
pub mod switch_sides;
pub mod table;
pub mod target;
pub mod text;
pub mod totp;
pub mod uuids;
pub mod voice;
pub mod wakelock;
pub mod welcome;
pub mod whitelist;
pub mod wording;
