//! Core logic of an open-mic sign-up server: the sign-up list and its
//! entries, receipts, the per-connection session state machine, the stage
//! slots and the command language of the interactive client.

pub mod constants;
pub mod greeter;
pub mod redis_subscriber;
pub mod repl;
pub mod signup_list;
pub mod signup_list_entry;
pub mod signup_receipt;
pub mod stage;
pub mod subscribers;
pub mod text;
pub mod user_session;
