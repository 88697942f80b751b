//! The process state as a mathematical value, and the transitions that the
//! calls and their completions make on it.

use vstd::prelude::*;
use crate::error::NotConnectedError;

verus! {

/// A live database session together with what is known of its status.
///
/// `transport` is whatever the host uses to talk to the database; it is
/// carried, never inspected. A handle reports itself closed from the moment
/// its disposal has been attempted.
#[derive(Debug, PartialEq, Eq)]
pub struct ConnectionHandle<T> {
    pub transport: T,
    pub closed: bool,
}

impl<T> ConnectionHandle<T> {
    /// A handle for a session that has just been established.
    pub open spec fn fresh(transport: T) -> Self {
        ConnectionHandle { transport, closed: false }
    }

    /// This handle after its disposal has been attempted.
    pub open spec fn retired(self) -> Self {
        ConnectionHandle { transport: self.transport, closed: true }
    }

    /// What the host talks to the database with.
    pub fn transport(&self) -> (transport: &T)
        ensures
            *transport == self.transport,
    {
        &self.transport
    }

    /// Whether the disposal of this handle has been attempted.
    pub fn is_closed(&self) -> (closed: bool)
        ensures
            closed == self.closed,
    {
        self.closed
    }
}

/// Who holds the exclusive scope, and how far that call has come.
#[derive(Clone, Copy, Debug, PartialEq, Eq, Structural)]
pub enum Phase {
    /// The scope is free.
    Idle,
    /// A `connect` call holds the scope and is disposing of the stored handle.
    Disposing,
    /// A `connect` call holds the scope and is establishing the new handle.
    Opening,
    /// An `execute_query` call holds the scope and its statement is running.
    Querying,
}

/// The process state: the one slot for the current handle, and the scope.
pub struct StateView<T> {
    pub slot: Option<ConnectionHandle<T>>,
    pub phase: Phase,
}

impl<T> StateView<T> {
    /// The state at startup: nothing stored, scope free.
    pub open spec fn initial() -> Self {
        StateView { slot: None, phase: Phase::Idle }
    }

    /// A handle is stored and does not report itself closed.
    pub open spec fn connected(self) -> bool {
        self.slot matches Some(handle) && !handle.closed
    }

    /// The handle a query may use, or the reason why there is none.
    pub open spec fn current(self) -> Result<ConnectionHandle<T>, NotConnectedError> {
        match self.slot {
            None => Err(NotConnectedError::NoHandle),
            Some(handle) => if handle.closed {
                Err(NotConnectedError::HandleClosed)
            } else {
                Ok(handle)
            },
        }
    }

    /// What holds of every state that the calls can reach: a handle under
    /// disposal or in use by a query is live, and no live handle is stored
    /// while a new one is being established.
    pub open spec fn wf(self) -> bool {
        match self.phase {
            Phase::Idle => true,
            Phase::Disposing => self.connected(),
            Phase::Opening => !self.connected(),
            Phase::Querying => self.connected(),
        }
    }

    /// The slot after the disposal of what it holds has been attempted.
    pub open spec fn retired_slot(self) -> Option<ConnectionHandle<T>> {
        match self.slot {
            None => None,
            Some(handle) => Some(handle.retired()),
        }
    }

    /// A `connect` call is submitted. With the scope taken it changes
    /// nothing; otherwise it takes the scope, to dispose of a live handle
    /// first or, where there is none, to open at once.
    pub open spec fn connect(self) -> Self {
        if self.phase != Phase::Idle {
            self
        } else if self.connected() {
            StateView { slot: self.slot, phase: Phase::Disposing }
        } else {
            StateView { slot: self.slot, phase: Phase::Opening }
        }
    }

    /// The disposal ordered by `connect` has ended. The stored handle reports
    /// itself closed from now on; the call goes on to open if the disposal
    /// completed, and ends, freeing the scope, if it did not.
    pub open spec fn disposal_finished(self, disposed: bool) -> Self {
        if self.phase != Phase::Disposing {
            self
        } else {
            StateView {
                slot: self.retired_slot(),
                phase: if disposed {
                    Phase::Opening
                } else {
                    Phase::Idle
                },
            }
        }
    }

    /// The attempt to establish a new handle has ended, with the new
    /// transport or without one. A new transport replaces whatever the slot
    /// held; a failure leaves the slot as it is. The scope is freed.
    pub open spec fn open_finished(self, opened: Option<T>) -> Self {
        if self.phase != Phase::Opening {
            self
        } else {
            match opened {
                Some(transport) => StateView {
                    slot: Some(ConnectionHandle::fresh(transport)),
                    phase: Phase::Idle,
                },
                None => StateView { slot: self.slot, phase: Phase::Idle },
            }
        }
    }

    /// An `execute_query` call is submitted. It takes the scope if the scope
    /// is free and a live handle is stored; otherwise it changes nothing.
    pub open spec fn execute_query(self) -> Self {
        if self.phase == Phase::Idle && self.connected() {
            StateView { slot: self.slot, phase: Phase::Querying }
        } else {
            self
        }
    }

    /// The statement of the query in flight has ended, in whatever way. The
    /// scope is freed and the slot stays as it is.
    pub open spec fn execution_finished(self) -> Self {
        if self.phase != Phase::Querying {
            self
        } else {
            StateView { slot: self.slot, phase: Phase::Idle }
        }
    }
}

/// One thing that can happen to the process state: a call is submitted, or
/// the host reports that the work it was handed has ended.
pub enum Event<T> {
    /// A `connect` call is submitted.
    Connect,
    /// The disposal of the stored handle has ended.
    DisposalFinished { disposed: bool },
    /// The attempt to establish a new handle has ended.
    OpenFinished { opened: Option<T> },
    /// An `execute_query` call is submitted.
    ExecuteQuery,
    /// The execution of the statement in flight has ended.
    ExecutionFinished,
}

impl<T> Event<T> {
    /// This event hands the state a newly established transport.
    pub open spec fn delivers_transport(self) -> bool {
        self matches Event::OpenFinished { opened } && opened is Some
    }

    /// This event reports the end of the work that a call in `phase` is
    /// waiting for.
    pub open spec fn completes(self, phase: Phase) -> bool {
        match phase {
            Phase::Idle => false,
            Phase::Disposing => self is DisposalFinished,
            Phase::Opening => self is OpenFinished,
            Phase::Querying => self is ExecutionFinished,
        }
    }
}

impl<T> StateView<T> {
    /// The state after one event.
    pub open spec fn step(self, event: Event<T>) -> Self {
        match event {
            Event::Connect => self.connect(),
            Event::DisposalFinished { disposed } => self.disposal_finished(disposed),
            Event::OpenFinished { opened } => self.open_finished(opened),
            Event::ExecuteQuery => self.execute_query(),
            Event::ExecutionFinished => self.execution_finished(),
        }
    }

    /// The state after a sequence of events, first to last.
    pub open spec fn run(self, events: Seq<Event<T>>) -> Self
        decreases events.len(),
    {
        if events.len() == 0 {
            self
        } else {
            self.step(events[0]).run(events.drop_first())
        }
    }
}

} // verus!
