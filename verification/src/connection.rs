//! The life of the relay's connection: from start over a found device to
//! running, one step at a time.

use crate::ancs::notification_source::NotificationEvent;
use crate::registry::{added, NotificationRegistry};
use crate::ancs::notification::ANCSNotificationView;
use vstd::prelude::*;

verus! {

/// How far the connection has come.
#[derive(Clone, Copy, Debug, PartialEq, Eq, Structural)]
pub enum AppState {
    /// Nothing is known of the device yet.
    Init,
    /// The device is known; the Notification Source is yet to be found.
    FoundDevice,
    /// The listener of the Notification Source runs.
    RunningANCS,
}

/// What is to be attempted next.
#[derive(Clone, Copy, Debug, PartialEq, Eq, Structural)]
pub enum AppStep {
    /// Look the device up by its address.
    FindDevice,
    /// Find the Notification Source of the device and start its listener.
    StartListener,
    /// Take the next event.
    Receive,
}

impl AppState {
    /// What is attempted in this state.
    pub open spec fn step(self) -> AppStep {
        match self {
            AppState::Init => AppStep::FindDevice,
            AppState::FoundDevice => AppStep::StartListener,
            AppState::RunningANCS => AppStep::Receive,
        }
    }

    /// The state after an attempt: one further where it succeeded, the same
    /// where it failed. A running relay stays running.
    pub open spec fn after(self, succeeded: bool) -> AppState {
        match self {
            AppState::Init => if succeeded {
                AppState::FoundDevice
            } else {
                AppState::Init
            },
            AppState::FoundDevice => if succeeded {
                AppState::RunningANCS
            } else {
                AppState::FoundDevice
            },
            AppState::RunningANCS => AppState::RunningANCS,
        }
    }

    /// How far the state is from the start.
    pub open spec fn rank(self) -> nat {
        match self {
            AppState::Init => 0,
            AppState::FoundDevice => 1,
            AppState::RunningANCS => 2,
        }
    }
}

/// The connection never goes back: an attempt keeps the state or moves it one
/// further, and moves it only where it succeeded.
pub proof fn lemma_state_advances(state: AppState, succeeded: bool)
    ensures
        state.rank() <= state.after(succeeded).rank() <= state.rank() + 1,
        !succeeded ==> state.after(succeeded) == state,
        succeeded && state != AppState::RunningANCS ==> state.after(succeeded).rank()
            == state.rank() + 1,
{
}

/// The relay's connection and the notifications it has seen.
#[derive(Debug)]
pub struct App {
    state: AppState,
    notifications: NotificationRegistry,
}

/// What an `App` holds.
pub struct AppView {
    pub state: AppState,
    pub notifications: Map<u32, ANCSNotificationView>,
}

impl View for App {
    type V = AppView;

    closed spec fn view(&self) -> AppView {
        AppView { state: self.state, notifications: self.notifications@ }
    }
}

impl App {
    /// Makes a relay at its start, without notifications.
    pub fn new() -> (app: Self)
        ensures
            app@ == (AppView { state: AppState::Init, notifications: Map::empty() }),
    {
        Self { state: AppState::Init, notifications: NotificationRegistry::new() }
    }

    /// How far the connection has come.
    pub fn state(&self) -> (state: AppState)
        ensures
            state == self@.state,
    {
        self.state
    }

    /// The notifications seen so far.
    pub fn notifications(&self) -> (notifications: &NotificationRegistry)
        ensures
            notifications@ == self@.notifications,
    {
        &self.notifications
    }

    /// What is to be attempted next.
    pub fn next_step(&self) -> (step: AppStep)
        ensures
            step == self@.state.step(),
    {
        match self.state {
            AppState::Init => AppStep::FindDevice,
            AppState::FoundDevice => AppStep::StartListener,
            AppState::RunningANCS => AppStep::Receive,
        }
    }

    /// Takes note of how the attempt went.
    pub fn advance(&mut self, succeeded: bool)
        ensures
            final(self)@ == (AppView { state: old(self)@.state.after(succeeded), ..old(self)@ }),
    {
        self.state = match self.state {
            AppState::Init => if succeeded {
                AppState::FoundDevice
            } else {
                AppState::Init
            },
            AppState::FoundDevice => if succeeded {
                AppState::RunningANCS
            } else {
                AppState::FoundDevice
            },
            AppState::RunningANCS => AppState::RunningANCS,
        };
    }

    /// Takes note of an event: a notification that was not seen before gets a
    /// record. Returns whether it did.
    pub fn record(&mut self, event: &NotificationEvent) -> (created: bool)
        ensures
            final(self)@ == (AppView {
                notifications: added(old(self)@.notifications, event.notification_id),
                ..old(self)@
            }),
            created == !old(self)@.notifications.contains_key(event.notification_id),
    {
        self.notifications.register(event.notification_id)
    }
}

} // verus!
