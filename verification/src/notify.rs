//! User-visible notifications: the severity levels and the fully composed
//! message a delivery collaborator sends, or suppresses when notifications
//! are not allowed.

use vstd::prelude::*;

verus! {

/// Severity of a user-visible notification.
#[derive(Clone, Copy, Debug, PartialEq, Eq, Structural)]
pub enum NotificationLevel {
    Info,
    Warn,
    Error,
}

impl NotificationLevel {
    /// The urgency keyword the desktop notification service expects for this
    /// level.
    pub fn to_urgency(&self) -> (r: &str)
        ensures
            r@ == (match *self {
                NotificationLevel::Info => "low"@,
                NotificationLevel::Warn => "normal"@,
                NotificationLevel::Error => "critical"@,
            }),
    {
        match self {
            NotificationLevel::Info => "low",
            NotificationLevel::Warn => "normal",
            NotificationLevel::Error => "critical",
        }
    }
}

/// A fully composed notification, ready for fire-and-forget delivery.
pub struct Notification {
    pub level: NotificationLevel,
    pub summary: String,
    pub body: String,
    /// Icon name or image path shown beside the message.
    pub image_path: String,
    /// Whether the user allows notifications; a `false` suppresses delivery
    /// entirely.
    pub allow: bool,
}

} // verus!
