//! Joins the receive loop and the heartbeat loop: the first failure of
//! either ends the connection and stops the other.

use vstd::prelude::*;
use crate::error::ConsumeError;

verus! {

/// One of the two concurrent loops of a connection.
#[derive(Debug, Clone, Copy, PartialEq, Eq, Structural)]
pub enum Task {
    Receive,
    Heartbeat,
}

/// The other loop.
pub open spec fn other(t: Task) -> Task {
    match t {
        Task::Receive => Task::Heartbeat,
        Task::Heartbeat => Task::Receive,
    }
}

/// What the caller is to do once a loop has finished.
#[derive(Debug, PartialEq, Eq)]
pub enum JoinAction {
    /// Keep waiting for the other loop.
    Wait,
    /// Stop the other loop, if any is still running, and end the connection
    /// with this outcome.
    Return { cancel: Option<Task>, result: Result<(), ConsumeError> },
}

/// The state of the two loops of a connection.
pub struct Join {
    receive_done: bool,
    heartbeat_done: bool,
    outcome: Option<Result<(), ConsumeError>>,
}

impl Join {
    pub closed spec fn done(&self, t: Task) -> bool {
        match t {
            Task::Receive => self.receive_done,
            Task::Heartbeat => self.heartbeat_done,
        }
    }

    /// The outcome of the connection, once it is decided.
    pub closed spec fn outcome(&self) -> Option<Result<(), ConsumeError>> {
        self.outcome
    }

    pub fn new() -> (r: Self)
        ensures
            !r.done(Task::Receive),
            !r.done(Task::Heartbeat),
            r.outcome() is None,
    {
        Join { receive_done: false, heartbeat_done: false, outcome: None }
    }

    pub fn outcome_of(&self) -> (r: Option<Result<(), ConsumeError>>)
        ensures
            r == self.outcome(),
    {
        self.outcome
    }

    pub fn is_done(&self, t: Task) -> (r: bool)
        ensures
            r == self.done(t),
    {
        match t {
            Task::Receive => self.receive_done,
            Task::Heartbeat => self.heartbeat_done,
        }
    }

    /// Takes the result of a loop that has finished. A failure ends the
    /// connection with that failure at once and stops the other loop if it
    /// still runs; a success waits for the other loop and ends with its
    /// result.
    pub fn on_finished(&mut self, t: Task, result: Result<(), ConsumeError>) -> (r: JoinAction)
        requires
            old(self).outcome() is None,
            !old(self).done(t),
        ensures
            final(self).done(t),
            final(self).done(other(t)) == old(self).done(other(t)),
            match result {
                Err(e) => {
                    &&& r == JoinAction::Return {
                        cancel: if old(self).done(other(t)) {
                            None
                        } else {
                            Some(other(t))
                        },
                        result: Err(e),
                    }
                    &&& final(self).outcome() == Some(Err::<(), ConsumeError>(e))
                },
                Ok(()) => if old(self).done(other(t)) {
                    &&& r == JoinAction::Return { cancel: None, result: Ok(()) }
                    &&& final(self).outcome() == Some(Ok::<(), ConsumeError>(()))
                } else {
                    &&& r == JoinAction::Wait
                    &&& final(self).outcome() is None
                },
            },
    {
        let other_done = match t {
            Task::Receive => {
                self.receive_done = true;
                self.heartbeat_done
            },
            Task::Heartbeat => {
                self.heartbeat_done = true;
                self.receive_done
            },
        };
        let other_task = match t {
            Task::Receive => Task::Heartbeat,
            Task::Heartbeat => Task::Receive,
        };
        match result {
            Err(e) => {
                self.outcome = Some(Err(e));
                let cancel = if other_done {
                    None
                } else {
                    Some(other_task)
                };
                JoinAction::Return { cancel, result: Err(e) }
            },
            Ok(()) => {
                if other_done {
                    self.outcome = Some(Ok(()));
                    JoinAction::Return { cancel: None, result: Ok(()) }
                } else {
                    JoinAction::Wait
                }
            },
        }
    }
}

} // verus!
