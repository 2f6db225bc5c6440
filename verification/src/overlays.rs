//! Transient user-visible feedback: a bounded stack of notifications whose
//! newest entry is shown until dismissed.

use vstd::prelude::*;

verus! {

/// How many notifications the stack keeps.
pub const MAX_NOTIFICATIONS: usize = 64;

/// Severity of a notification.
#[derive(Clone, Copy, Debug, PartialEq, Eq, Structural)]
pub enum NotificationLevel {
    Warning,
}

/// One piece of recoverable feedback.
#[derive(Clone, Debug, PartialEq, Eq)]
pub struct Notification {
    pub message: String,
    pub level: NotificationLevel,
}

impl Notification {
    /// A warning carrying `message`.
    pub fn warning(message: &str) -> (r: Self)
        ensures
            r.message@ == message@,
            r.level == NotificationLevel::Warning,
    {
        Notification { message: message.to_owned(), level: NotificationLevel::Warning }
    }
}

/// Notification stack, oldest first; the newest entry is visible.
pub struct Notifications {
    entries: Vec<Notification>,
}

impl View for Notifications {
    type V = Seq<Notification>;

    closed spec fn view(&self) -> Seq<Notification> {
        self.entries@
    }
}

/// The stack after pushing `n`: the oldest entry goes once more than
/// `MAX_NOTIFICATIONS` would be kept.
pub open spec fn pushed_notification(s: Seq<Notification>, n: Notification) -> Seq<Notification> {
    if s.len() + 1 > MAX_NOTIFICATIONS {
        s.push(n).skip(1)
    } else {
        s.push(n)
    }
}

impl Default for Notifications {
    fn default() -> (r: Self)
        ensures
            r@ == Seq::<Notification>::empty(),
    {
        Notifications::new()
    }
}

impl Notifications {
    /// An empty stack.
    pub fn new() -> (r: Self)
        ensures
            r@ == Seq::<Notification>::empty(),
    {
        Notifications { entries: Vec::new() }
    }

    /// Pushes `notification` as the newest entry, evicting the oldest when
    /// the stack would exceed `MAX_NOTIFICATIONS`.
    pub fn push(&mut self, notification: Notification)
        ensures
            final(self)@ == pushed_notification(old(self)@, notification),
    {
        let ghost before = self.entries@;
        self.entries.push(notification);
        if self.entries.len() > MAX_NOTIFICATIONS {
            self.entries.remove(0);
            assert(self.entries@ =~= before.push(notification).skip(1));
        }
    }

    /// The newest entry, if any.
    pub fn visible(&self) -> (r: Option<&Notification>)
        ensures
            self@.len() == 0 ==> r is None,
            self@.len() > 0 ==> r == Some(&self@.last()),
    {
        if self.entries.len() == 0 {
            None
        } else {
            Some(&self.entries[self.entries.len() - 1])
        }
    }

    /// Removes the newest entry (nothing happens when the stack is empty).
    pub fn dismiss_visible(&mut self)
        ensures
            old(self)@.len() == 0 ==> final(self)@ == old(self)@,
            old(self)@.len() > 0 ==> final(self)@ == old(self)@.drop_last(),
    {
        if self.entries.len() > 0 {
            self.entries.pop();
        }
    }

    /// Number of entries kept.
    pub fn len(&self) -> (r: usize)
        ensures
            r == self@.len(),
    {
        self.entries.len()
    }
}

/// A stack built by pushes alone never holds more than `MAX_NOTIFICATIONS`
/// entries, and the pushed notification is the visible one.
pub proof fn lemma_push_bounded(s: Seq<Notification>, n: Notification)
    requires
        s.len() <= MAX_NOTIFICATIONS,
    ensures
        pushed_notification(s, n).len() <= MAX_NOTIFICATIONS,
        pushed_notification(s, n).last() == n,
        pushed_notification(s, n).len() > 0,
{
}

/// Dismissing right after a push shows what was visible before it, as long
/// as nothing was evicted.
pub proof fn lemma_push_then_dismiss(s: Seq<Notification>, n: Notification)
    requires
        s.len() < MAX_NOTIFICATIONS,
    ensures
        pushed_notification(s, n).drop_last() == s,
{
    assert(s.push(n).drop_last() =~= s);
}

} // verus!
