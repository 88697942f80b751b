//! The owner of the one database handle: it decides when a handle is
//! disposed of, when a new one is established, and who may use it.

use vstd::prelude::*;
use vstd::string::StringExecFns;
use crate::error::{ConnectError, ConnectErrorView, NotConnectedError};
use crate::model::{ConnectionHandle, Phase, StateView};

verus! {

/// The number of underlying sessions a handle is opened with.
pub const SESSION_LIMIT: u32 = 1;

/// What a successful `connect` call returns.
pub const CONNECTED_ACK: &'static str = "Connected to database";

/// What the host is to open: the connection string as the caller gave it,
/// and the limit on underlying sessions.
#[derive(Debug, PartialEq, Eq)]
pub struct OpenRequest {
    pub url: String,
    pub session_limit: u32,
}

impl OpenRequest {
    /// The request that `connect` makes for a given connection string.
    pub open spec fn is_for(self, url: Seq<char>) -> bool {
        self.url@ == url && self.session_limit == SESSION_LIMIT
    }
}

/// What the host is to do next for a `connect` call.
#[derive(Debug, PartialEq, Eq)]
pub enum ConnectStep {
    /// Another call holds the scope: wait until it has ended and submit again.
    Wait,
    /// Close the stored handle, report with `disposal_finished`, and open as
    /// requested only if that returns `Ok`.
    Dispose(OpenRequest),
    /// Open as requested and report with `open_finished`.
    Open(OpenRequest),
}

/// The single shared slot for the current handle, with the exclusive scope
/// that every call has to take before it touches the slot.
pub struct ProcessState<T> {
    pub(crate) slot: Option<ConnectionHandle<T>>,
    pub(crate) phase: Phase,
}

impl<T> View for ProcessState<T> {
    type V = StateView<T>;

    open(crate) spec fn view(&self) -> StateView<T> {
        StateView { slot: self.slot, phase: self.phase }
    }
}

impl<T> ProcessState<T> {
    #[verifier::type_invariant]
    pub(crate) open spec fn reachable(self) -> bool {
        self@.wf()
    }

    /// The state at startup: disconnected, with the scope free.
    pub fn new() -> (state: Self)
        ensures
            state@ == StateView::<T>::initial(),
    {
        ProcessState { slot: None, phase: Phase::Idle }
    }

    /// Who holds the scope at the moment.
    pub fn phase(&self) -> (phase: Phase)
        ensures
            phase == self@.phase,
    {
        self.phase
    }

    /// Whether a handle is stored that does not report itself closed.
    pub fn is_connected(&self) -> (connected: bool)
        ensures
            connected == self@.connected(),
    {
        match &self.slot {
            Some(handle) => !handle.closed,
            None => false,
        }
    }

    /// The handle a query may use for its duration, or the reason why there
    /// is none: nothing is stored, or what is stored reports itself closed.
    pub fn get_handle(&self) -> (handle: Result<&ConnectionHandle<T>, NotConnectedError>)
        ensures
            match handle {
                Ok(found) => self@.current() == Ok::<_, NotConnectedError>(*found),
                Err(reason) => self@.current() == Err::<ConnectionHandle<T>, _>(reason),
            },
    {
        match &self.slot {
            None => Err(NotConnectedError::NoHandle),
            Some(handle) => if handle.closed {
                Err(NotConnectedError::HandleClosed)
            } else {
                Ok(handle)
            },
        }
    }

    /// Submits a `connect` call for the connection string `url`.
    ///
    /// With the scope taken the answer is `Wait` and nothing changes.
    /// Otherwise the call takes the scope. A live stored handle is disposed
    /// of before anything is opened. Where none is stored, or the stored one
    /// reports itself closed and so has been through its disposal already,
    /// the new handle is opened at once.
    pub fn connect(&mut self, url: &str) -> (step: ConnectStep)
        ensures
            final(self)@ == old(self)@.connect(),
            final(self)@.wf(),
            match step {
                ConnectStep::Wait => old(self)@.phase != Phase::Idle,
                ConnectStep::Dispose(request) => {
                    &&& old(self)@.phase == Phase::Idle
                    &&& old(self)@.connected()
                    &&& request.is_for(url@)
                },
                ConnectStep::Open(request) => {
                    &&& old(self)@.phase == Phase::Idle
                    &&& !old(self)@.connected()
                    &&& request.is_for(url@)
                },
            },
    {
        proof {
            use_type_invariant(&*self);
        }
        if self.phase != Phase::Idle {
            return ConnectStep::Wait;
        }
        let request = OpenRequest { url: String::from_str(url), session_limit: SESSION_LIMIT };
        if self.is_connected() {
            self.phase = Phase::Disposing;
            ConnectStep::Dispose(request)
        } else {
            self.phase = Phase::Opening;
            ConnectStep::Open(request)
        }
    }

    /// Reports how the disposal ordered by `connect` ended.
    ///
    /// The stored handle reports itself closed from now on, however the
    /// disposal ended. If it completed, the call goes on: the host opens the
    /// new handle. If it did not, the call ends with the diagnostic, the
    /// scope is freed, and the system is disconnected.
    pub fn disposal_finished(&mut self, outcome: Result<(), String>) -> (result: Result<
        (),
        ConnectError,
    >)
        requires
            old(self)@.phase == Phase::Disposing,
        ensures
            final(self)@ == old(self)@.disposal_finished(outcome is Ok),
            final(self)@.wf(),
            !final(self)@.connected(),
            match outcome {
                Ok(_) => result is Ok,
                Err(diagnostic) => result matches Err(error) && error@
                    == ConnectErrorView::DisposalFailed(diagnostic@),
            },
    {
        self.phase = Phase::Idle;
        let mut stored: Option<ConnectionHandle<T>> = None;
        std::mem::swap(&mut stored, &mut self.slot);
        match stored {
            Some(handle) => {
                self.slot = Some(ConnectionHandle { transport: handle.transport, closed: true });
            },
            None => {},
        }
        match outcome {
            Ok(_) => {
                self.phase = Phase::Opening;
                Ok(())
            },
            Err(diagnostic) => Err(ConnectError::DisposalFailed(diagnostic)),
        }
    }

    /// Reports how the attempt to establish the new handle ended.
    ///
    /// A new transport becomes the current handle, replacing whatever the
    /// slot held, and the call returns the acknowledgment. A failure is
    /// returned with its diagnostic and leaves the system disconnected: the
    /// previous handle, if any, has been disposed of and is not restored.
    /// Either way the scope is freed.
    pub fn open_finished(&mut self, outcome: Result<T, String>) -> (result: Result<
        String,
        ConnectError,
    >)
        requires
            old(self)@.phase == Phase::Opening,
        ensures
            final(self)@ == old(self)@.open_finished(
                match outcome {
                    Ok(transport) => Some(transport),
                    Err(_) => None,
                },
            ),
            final(self)@.wf(),
            final(self)@.phase == Phase::Idle,
            match outcome {
                Ok(transport) => {
                    &&& result matches Ok(ack) && ack@ == CONNECTED_ACK@
                    &&& final(self)@.current() == Ok::<_, NotConnectedError>(
                        ConnectionHandle::fresh(transport),
                    )
                },
                Err(diagnostic) => {
                    &&& result matches Err(error) && error@ == ConnectErrorView::OpenFailed(
                        diagnostic@,
                    )
                    &&& !final(self)@.connected()
                },
            },
    {
        proof {
            use_type_invariant(&*self);
        }
        self.phase = Phase::Idle;
        match outcome {
            Ok(transport) => {
                self.slot = Some(ConnectionHandle { transport, closed: false });
                Ok(String::from_str(CONNECTED_ACK))
            },
            Err(diagnostic) => Err(ConnectError::OpenFailed(diagnostic)),
        }
    }
}

} // verus!
