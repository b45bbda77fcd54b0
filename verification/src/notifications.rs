//! The queue of transient notifications and their time-based eviction.
//!
//! Time is a count of milliseconds on a clock that never runs backwards; the
//! caller reads the clock and hands the reading in.

use vstd::prelude::*;
use vstd::string::*;
use crate::wrap::{wrap_body, wrap_text, BODY_WIDTH};

verus! {

/// A terminal colour.
#[derive(Clone, Copy, Debug, PartialEq, Eq, Structural)]
pub enum Color {
    Reset,
    Black,
    Red,
    Green,
    Yellow,
    Blue,
    Magenta,
    Cyan,
    Gray,
    DarkGray,
    LightRed,
    LightGreen,
    LightYellow,
    LightBlue,
    LightMagenta,
    LightCyan,
    White,
    Rgb(u8, u8, u8),
    Indexed(u8),
}

/// The milliseconds that have passed at `now` since `added`; none where the
/// clock reading is the earlier of the two.
pub open spec fn elapsed(added: u64, now: u64) -> nat {
    if now >= added {
        (now - added) as nat
    } else {
        0
    }
}

/// One transient message: a title, a wrapped body, the foreground and
/// background colours, and the time it may stay.
#[derive(Debug, PartialEq, Eq)]
pub struct Notification {
    pub title: String,
    pub text: Option<String>,
    pub color: (Color, Color),
    /// The milliseconds that the notification stays visible.
    pub duration: u64,
    /// The clock reading at which the notification was made.
    pub added_time: u64,
}

impl Notification {
    /// Whether the notification has outlived its time at `now`.
    pub open spec fn hidden_at(&self, now: u64) -> bool {
        elapsed(self.added_time, now) > self.duration
    }

    /// A notification made at the clock reading `now`, to stay visible for
    /// `duration` milliseconds.
    pub fn new(
        title: String,
        text: Option<String>,
        color: (Color, Color),
        duration: u64,
        now: u64,
    ) -> (made: Self)
        ensures
            made.title == title,
            made.text == text,
            made.color == color,
            made.duration == duration,
            made.added_time == now,
    {
        Self { title, text, color, duration, added_time: now }
    }

    /// Whether the notification has outlived its time at `now`.
    pub fn is_hidden(&self, now: u64) -> (hidden: bool)
        ensures
            hidden == self.hidden_at(now),
    {
        now >= self.added_time && now - self.added_time > self.duration
    }

    /// A copy, field by field.
    pub fn duplicate(&self) -> (copy: Self)
        ensures
            copy == *self,
    {
        let text = match &self.text {
            Some(body) => Some(body.clone()),
            None => None,
        };
        Self {
            title: self.title.clone(),
            text,
            color: self.color,
            duration: self.duration,
            added_time: self.added_time,
        }
    }
}

/// What is left of `queue` once everything hidden at `now` is gone: the
/// visible notifications, oldest first.
pub open spec fn remaining(queue: Seq<Notification>, now: u64) -> Seq<Notification> {
    queue.filter(|n: Notification| !n.hidden_at(now))
}

/// A notification of the queue is in the result of a poll exactly when it has
/// not outlived its time at the moment of the poll.
pub proof fn lemma_poll_keeps_the_visible(queue: Seq<Notification>, now: u64, n: Notification)
    requires
        queue.contains(n),
    ensures
        remaining(queue, now).contains(n) <==> elapsed(n.added_time, now) <= n.duration,
{
    let pred = |m: Notification| !m.hidden_at(now);
    let i = choose|i: int| 0 <= i < queue.len() && queue[i] == n;
    if !n.hidden_at(now) {
        queue.lemma_filter_contains(pred, i);
    }
    if remaining(queue, now).contains(n) {
        let j = choose|j: int| 0 <= j < remaining(queue, now).len() && remaining(queue, now)[j] == n;
        queue.lemma_filter_pred(pred, j);
    }
}

/// A poll neither adds nor reorders: what it returns was in the queue.
pub proof fn lemma_poll_adds_nothing(queue: Seq<Notification>, now: u64, n: Notification)
    requires
        remaining(queue, now).contains(n),
    ensures
        queue.contains(n),
{
    queue.lemma_filter_contains_rev(|m: Notification| !m.hidden_at(now), n);
}

/// On a clock that does not run backwards, what is hidden stays hidden.
pub proof fn lemma_hidden_for_good(n: Notification, now: u64, later: u64)
    requires
        n.hidden_at(now),
        now <= later,
    ensures
        n.hidden_at(later),
{
}

/// A notification that had outlived its time at one poll is in the result of
/// no poll after it, whatever the clock reads then.
pub proof fn lemma_expired_stays_out(
    queue: Seq<Notification>,
    now: u64,
    later: Seq<u64>,
    n: Notification,
)
    requires
        n.hidden_at(now),
    ensures
        !remaining(queue, now).contains(n),
        !polled_again(remaining(queue, now), later).contains(n),
{
    let pred = |m: Notification| !m.hidden_at(now);
    if remaining(queue, now).contains(n) {
        let j = choose|j: int| 0 <= j < remaining(queue, now).len() && remaining(queue, now)[j] == n;
        queue.lemma_filter_pred(pred, j);
    }
    lemma_absent_stays_absent(remaining(queue, now), later, n);
}

/// What is left of `queue` after one poll at each of the clock readings of
/// `times`, in turn.
pub open spec fn polled_again(queue: Seq<Notification>, times: Seq<u64>) -> Seq<Notification>
    decreases times.len(),
{
    if times.len() == 0 {
        queue
    } else {
        polled_again(remaining(queue, times[0]), times.subrange(1, times.len() as int))
    }
}

/// Polls bring nothing back: what a queue does not hold, it does not hold
/// after any number of polls.
pub proof fn lemma_absent_stays_absent(queue: Seq<Notification>, times: Seq<u64>, n: Notification)
    requires
        !queue.contains(n),
    ensures
        !polled_again(queue, times).contains(n),
    decreases times.len(),
{
    if times.len() > 0 {
        if remaining(queue, times[0]).contains(n) {
            lemma_poll_adds_nothing(queue, times[0], n);
        }
        lemma_absent_stays_absent(
            remaining(queue, times[0]),
            times.subrange(1, times.len() as int),
            n,
        );
    }
}

/// The body of a notification as it is stored: wrapped to the fixed width.
pub open spec fn stored_body(desc: Option<String>, body: Option<String>) -> bool {
    match desc {
        Some(text) => body.is_some() && body.unwrap()@ == wrap_text(text@, BODY_WIDTH as nat),
        None => body.is_none(),
    }
}

/// The notification queue. Notifications stand in the order in which they
/// were pushed.
pub struct NotificationHandler {
    notifications: Vec<Notification>,
}

impl View for NotificationHandler {
    type V = Seq<Notification>;

    closed spec fn view(&self) -> Seq<Notification> {
        self.notifications@
    }
}

impl NotificationHandler {
    /// An empty queue.
    pub fn new() -> (queue: Self)
        ensures
            queue@ == Seq::<Notification>::empty(),
    {
        Self { notifications: Vec::new() }
    }

    /// Drops what is hidden at `now` and returns a copy of what is left,
    /// oldest first.
    pub fn poll(&mut self, now: u64) -> (visible: Vec<Notification>)
        ensures
            final(self)@ == remaining(old(self)@, now),
            visible@ == final(self)@,
    {
        let ghost pred = |n: Notification| !n.hidden_at(now);
        let mut kept: Vec<Notification> = Vec::new();
        let mut copy: Vec<Notification> = Vec::new();
        let mut i: usize = 0;
        while i < self.notifications.len()
            invariant
                i <= self.notifications@.len(),
                self.notifications@ == old(self).notifications@,
                pred == |n: Notification| !n.hidden_at(now),
                kept@ == self.notifications@.subrange(0, i as int).filter(pred),
                copy@ == kept@,
            decreases self.notifications@.len() - i,
        {
            let item = &self.notifications[i];
            proof {
                let done = self.notifications@.subrange(0, i as int);
                assert(done.push(*item) =~= self.notifications@.subrange(0, i + 1));
                done.lemma_filter_push(*item, pred);
            }
            if !item.is_hidden(now) {
                kept.push(item.duplicate());
                copy.push(item.duplicate());
            }
            i += 1;
        }
        proof {
            assert(self.notifications@.subrange(0, self.notifications@.len() as int)
                =~= self.notifications@);
        }
        self.notifications = kept;
        copy
    }

    /// Appends a notification made at `now`, its body wrapped to the fixed
    /// width. Nothing is dropped.
    pub fn push(
        &mut self,
        title: String,
        desc: Option<String>,
        color: (Color, Color),
        duration: u64,
        now: u64,
    )
        ensures
            final(self)@.len() == old(self)@.len() + 1,
            final(self)@.drop_last() == old(self)@,
            final(self)@.last().title == title,
            stored_body(desc, final(self)@.last().text),
            final(self)@.last().color == color,
            final(self)@.last().duration == duration,
            final(self)@.last().added_time == now,
    {
        let limited_desc = match &desc {
            Some(text) => Some(wrap_body(text.as_str(), BODY_WIDTH)),
            None => None,
        };
        self.notifications.push(Notification::new(title, limited_desc, color, duration, now));
    }

    /// The number of notifications held, hidden ones included.
    pub fn len(&self) -> (count: usize)
        ensures
            count == self@.len(),
    {
        self.notifications.len()
    }
}

} // verus!
