//! Messages for the user: a title and a text, shown by the host in a modal
//! dialog.

use vstd::prelude::*;

verus! {

/// A message that the host shows and waits on until it is dismissed.
#[derive(Clone, Debug, PartialEq, Eq)]
pub struct Notification {
    pub title: String,
    pub message: String,
}

/// A notification as a mathematical value.
pub struct NotificationView {
    pub title: Seq<char>,
    pub message: Seq<char>,
}

impl View for Notification {
    type V = NotificationView;

    open spec fn view(&self) -> NotificationView {
        NotificationView { title: self.title@, message: self.message@ }
    }
}

/// The notification for an error: the title `Error`, and as message the
/// reason, a line break and the underlying cause.
pub open spec fn error_notification_of(reason: Seq<char>, cause: Seq<char>) -> NotificationView {
    NotificationView { title: "Error"@, message: reason + "\n"@ + cause }
}

/// Builds the notification for an error from its human-readable reason and
/// the cause that the operating system gave.
pub fn error_notification(reason: &str, cause: &str) -> (notification: Notification)
    ensures
        notification@ == error_notification_of(reason@, cause@),
{
    let message = String::from_str(reason).concat("\n").concat(cause);
    Notification { title: String::from_str("Error"), message }
}

} // verus!
