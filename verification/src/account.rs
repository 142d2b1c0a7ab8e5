//! The description of one watched mailbox.

use vstd::prelude::*;

verus! {

/// One account: where its mailbox is, how to log in, and where its
/// notifications go. It is read once and never changed.
#[derive(Debug)]
pub struct Account {
    /// Name shown in notification titles.
    pub name: String,
    /// Host name of the mail server.
    pub server: String,
    /// Port of the mail server.
    pub port: u16,
    /// Login name.
    pub username: String,
    /// Login password.
    pub password: String,
    /// Address of the notification service.
    pub ntfy_url: String,
    /// Topic that notifications are published under.
    pub ntfy_topic: String,
    /// Address opened when a notification is clicked, if any.
    pub ntfy_clickable_url: Option<String>,
}

/// An account as plain values.
pub ghost struct AccountView {
    pub name: Seq<char>,
    pub server: Seq<char>,
    pub port: u16,
    pub username: Seq<char>,
    pub password: Seq<char>,
    pub ntfy_url: Seq<char>,
    pub ntfy_topic: Seq<char>,
    pub ntfy_clickable_url: Option<Seq<char>>,
}

/// The text held by an optional string.
pub open spec fn text_of(s: Option<String>) -> Option<Seq<char>> {
    match s {
        Some(t) => Some(t@),
        None => None,
    }
}

/// A copy of an optional string.
pub fn clone_text(s: &Option<String>) -> (c: Option<String>)
    ensures
        text_of(c) == text_of(*s),
{
    match s {
        Some(t) => Some(t.clone()),
        None => None,
    }
}

impl View for Account {
    type V = AccountView;

    open spec fn view(&self) -> AccountView {
        AccountView {
            name: self.name@,
            server: self.server@,
            port: self.port,
            username: self.username@,
            password: self.password@,
            ntfy_url: self.ntfy_url@,
            ntfy_topic: self.ntfy_topic@,
            ntfy_clickable_url: text_of(self.ntfy_clickable_url),
        }
    }
}

impl Clone for Account {
    fn clone(&self) -> (c: Account)
        ensures
            c@ == self@,
    {
        Account {
            name: self.name.clone(),
            server: self.server.clone(),
            port: self.port,
            username: self.username.clone(),
            password: self.password.clone(),
            ntfy_url: self.ntfy_url.clone(),
            ntfy_topic: self.ntfy_topic.clone(),
            ntfy_clickable_url: clone_text(&self.ntfy_clickable_url),
        }
    }
}

} // verus!
