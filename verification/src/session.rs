//! The session: the navigation state, the tick counter, and the decisions of
//! one turn of the loop. The caller draws, waits for input, and does the work
//! that a decision asks for.
//!
//! One turn of the loop: draw; on the first turn, load and draw again; wait
//! for an input event, as long as [`TICK_DURATION`] at most; hand a key event
//! to [`Session::handle_event`] and do what it asks; then run
//! [`Session::tick_page`] and do what that asks. A key press is so seen by
//! the scheduler of the same turn.

use vstd::prelude::*;
use crate::keys::Key;
use crate::pages::page::{
    page_step, page_ticked, Action, ActionView, Handled, KeyEvent, KeyEventKind, Page,
};
use crate::pages::view::Ticked;

verus! {

/// The longest wait for an input event, in milliseconds.
pub const TICK_DURATION: u64 = 100;

/// The state that lives as long as the process.
pub struct Session {
    pub page: Page,
    /// Whether the first load is still to be done.
    pub needs_loading: bool,
    /// The clock reading of the last tick, in milliseconds.
    pub last_tick: u64,
    /// The ticks so far.
    pub tick_count: u64,
}

/// What a key event leads to.
#[derive(Clone, Debug, PartialEq, Eq)]
pub struct SessionStep {
    /// Whether the session ends.
    pub quit: bool,
    /// What the navigation made of the event.
    pub outcome: Handled,
}

/// Whether `event` is the key combination that ends the session: a press of
/// `c` with the control key held.
pub open spec fn is_quit(event: KeyEvent) -> bool {
    event.kind == KeyEventKind::Press && event.code == Key::Char('c') && event.control
}

impl Session {
    /// The navigation state is well-formed.
    pub open spec fn wf(&self) -> bool {
        self.page.wf()
    }

    /// The session at its start, at the clock reading `now`.
    pub fn new(now: u64) -> (session: Self)
        ensures
            session.wf(),
            session.needs_loading,
            session.tick_count == 0,
            session.last_tick == now,
            session.page.loading,
            session.page.section == crate::pages::page::Section::Nothing,
            session.page.viewing is None,
            session.page.instances@.len() == 0,
            session.page.accounts@.len() == 0,
            crate::pages::creating::is_empty_form(session.page.creation_data),
    {
        Self { page: Page::new(), needs_loading: true, last_tick: now, tick_count: 0 }
    }

    /// Whether the first load is due; it is due once.
    pub fn take_loading(&mut self) -> (due: bool)
        ensures
            due == old(self).needs_loading,
            !final(self).needs_loading,
            final(self).page == old(self).page,
            final(self).last_tick == old(self).last_tick,
            final(self).tick_count == old(self).tick_count,
    {
        let due = self.needs_loading;
        self.needs_loading = false;
        due
    }

    /// Counts one tick at the clock reading `now` and runs it on the
    /// navigation state.
    pub fn tick_page(&mut self, now: u64) -> (out: Ticked)
        requires
            old(self).wf(),
            old(self).tick_count < u64::MAX,
        ensures
            final(self).wf(),
            final(self).tick_count == old(self).tick_count + 1,
            final(self).last_tick == now,
            final(self).needs_loading == old(self).needs_loading,
            page_ticked(old(self).page, final(self).tick_count, final(self).page, out),
    {
        self.tick_count += 1;
        self.last_tick = now;
        let count = self.tick_count;
        self.page.tick(&count)
    }

    /// Takes one key event: the quit combination ends the session before any
    /// handler sees it; every other event goes to the navigation.
    pub fn handle_event(&mut self, event: KeyEvent) -> (step: SessionStep)
        requires
            old(self).wf(),
        ensures
            final(self).wf(),
            final(self).needs_loading == old(self).needs_loading,
            final(self).last_tick == old(self).last_tick,
            final(self).tick_count == old(self).tick_count,
            step.quit == is_quit(event),
            is_quit(event) ==> final(self).page == old(self).page && !step.outcome.handled
                && step.outcome.action@ == ActionView::Nothing,
            !is_quit(event) ==> page_step(old(self).page, event, final(self).page, step.outcome),
    {
        let pressing = event.kind == KeyEventKind::Press;
        if pressing && event.code == Key::Char('c') && event.control {
            SessionStep { quit: true, outcome: Handled { handled: false, action: Action::Nothing } }
        } else {
            let outcome = self.page.handle(event);
            SessionStep { quit: false, outcome }
        }
    }
}

} // verus!
