//! What is said to the user: one request per new message, and a warning when
//! a connection stays down.

use vstd::prelude::*;
use vstd::string::StringExecFns;
use crate::account::Account;
use crate::account::AccountView;
use crate::account::clone_text;
use crate::account::text_of;
use crate::decimal::append_decimal;
use crate::decimal::decimal;

verus! {

/// How urgent a notification is.
#[derive(Clone, Copy, Debug, PartialEq, Eq, Structural)]
pub enum Priority {
    Max,
    High,
    Default,
    Low,
    Min,
}

/// One notification, ready to be handed to the dispatcher.
#[derive(Debug)]
pub struct Notification {
    /// Headline.
    pub title: String,
    /// Text below the headline.
    pub message: String,
    /// Urgency.
    pub priority: Priority,
    /// Address opened when the notification is clicked, if any.
    pub click: Option<String>,
    /// Tags shown with the notification.
    pub tags: Vec<String>,
}

/// A notification as plain values.
pub ghost struct NotificationView {
    pub title: Seq<char>,
    pub message: Seq<char>,
    pub priority: Priority,
    pub click: Option<Seq<char>>,
    pub tags: Seq<Seq<char>>,
}

impl View for Notification {
    type V = NotificationView;

    open spec fn view(&self) -> NotificationView {
        NotificationView {
            title: self.title@,
            message: self.message@,
            priority: self.priority,
            click: text_of(self.click),
            tags: self.tags@.map_values(|t: String| t@),
        }
    }
}

/// The notifications of a list, each as plain values.
pub open spec fn views(list: Seq<Notification>) -> Seq<NotificationView> {
    list.map_values(|n: Notification| n@)
}

/// The notification that announces a message with the subject `subject` in
/// the mailbox of `account`.
pub open spec fn new_mail(account: AccountView, subject: Seq<char>) -> NotificationView {
    NotificationView {
        title: "@"@ + account.name + " has new mail"@,
        message: subject,
        priority: Priority::Default,
        click: account.ntfy_clickable_url,
        tags: Seq::empty(),
    }
}

/// The text of the warning about a failed connection: the error, and the
/// seconds until the next attempt.
pub open spec fn failure_text(error: Seq<char>, seconds: u64) -> Seq<char> {
    "connection failed: "@ + error + "; trying to reconnect after "@ + decimal(seconds as nat)
        + "s ..."@
}

/// The warning that the connection of `account` failed with `error` and will
/// be tried again after `seconds` seconds.
pub open spec fn connection_failed(
    account: AccountView,
    error: Seq<char>,
    seconds: u64,
) -> NotificationView {
    NotificationView {
        title: "@"@ + account.name + " connection failed"@,
        message: failure_text(error, seconds),
        priority: Priority::Default,
        click: None,
        tags: seq!["warning"@],
    }
}

impl Notification {
    /// Announces a new message by its subject.
    pub fn new_mail(account: &Account, subject: &str) -> (n: Notification)
        ensures
            n@ == new_mail(account@, subject@),
    {
        let mut title = String::from_str("@");
        title.append(account.name.as_str());
        title.append(" has new mail");
        let n = Notification {
            title,
            message: String::from_str(subject),
            priority: Priority::Default,
            click: clone_text(&account.ntfy_clickable_url),
            tags: Vec::new(),
        };
        assert(n@.tags =~= Seq::empty());
        n
    }

    /// Warns that the connection failed and says when it is tried again.
    pub fn connection_failed(account: &Account, error: &str, seconds: u64) -> (n: Notification)
        ensures
            n@ == connection_failed(account@, error@, seconds),
    {
        let mut title = String::from_str("@");
        title.append(account.name.as_str());
        title.append(" connection failed");
        let mut message = String::from_str("connection failed: ");
        message.append(error);
        message.append("; trying to reconnect after ");
        append_decimal(&mut message, seconds);
        message.append("s ...");
        let mut tags: Vec<String> = Vec::new();
        tags.push(String::from_str("warning"));
        let n = Notification { title, message, priority: Priority::Default, click: None, tags };
        assert(n@.tags =~= seq!["warning"@]);
        n
    }
}

impl Clone for Notification {
    fn clone(&self) -> (c: Notification)
        ensures
            c@ == self@,
    {
        let mut tags: Vec<String> = Vec::new();
        let mut i: usize = 0;
        while i < self.tags.len()
            invariant
                i <= self.tags.len(),
                tags@.len() == i,
                forall|j: int| 0 <= j < i ==> tags@[j]@ == self.tags@[j]@,
            decreases self.tags.len() - i,
        {
            tags.push(self.tags[i].clone());
            i = i + 1;
        }
        let c = Notification {
            title: self.title.clone(),
            message: self.message.clone(),
            priority: self.priority,
            click: clone_text(&self.click),
            tags,
        };
        assert(c@.tags =~= self@.tags);
        c
    }
}

} // verus!
