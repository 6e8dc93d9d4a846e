//! An interactive shell for a wallet: the command grammar and parser, the
//! session state machine, the dispatcher that turns commands into wallet
//! engine requests, and the input history of the account prompt.

pub mod command;
pub mod convert;
pub mod dispatch;
pub mod history;
pub mod manager;
pub mod render;
pub mod selector;
pub mod session;
pub mod text;
