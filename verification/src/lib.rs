//! Watches mailboxes over IMAP and raises a notification for each new message.
//!
//! The crate holds the decisions of a mailbox watcher: which messages are new,
//! what is said about them, how long to wait after a lost connection and what
//! to do next. The network itself is left to the caller, who performs each
//! [`watcher::Action`] and reports what happened as an [`watcher::Event`].
//!
//! - [`account`]: the description of one watched mailbox.
//! - [`backoff`]: the delays between reconnect attempts.
//! - [`decimal`]: numbers as text.
//! - [`detector`]: new messages by watermark, and their notifications.
//! - [`fleet`]: one independent watcher for each account.
//! - [`headers`]: the subject of a message, read with `mailparse`.
//! - [`notification`]: what the user is told.
//! - [`push_wait`]: the bounded wait for the server.
//! - [`watcher`]: the state machine of one account.

pub mod account;
pub mod backoff;
pub mod decimal;
pub mod detector;
pub mod fleet;
pub mod headers;
pub mod notification;
pub mod push_wait;
pub mod watcher;
