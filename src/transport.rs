use vstd::prelude::*;

use crate::protocol::{
    decode_response, decoded, encode_request, request_line, LauncherRequest, LauncherResponse,
    TransportError,
};

verus! {

/// Where the link to the backend stands.
#[derive(Clone, Copy, Debug, PartialEq, Eq, Structural)]
pub enum Phase {
    /// No request is in flight.
    Ready,
    /// A request was written and its response is awaited.
    Awaiting,
    /// The exit request was written and the backend's end is awaited.
    Exiting,
    /// The backend has ended.
    Exited,
}

/// The decisions of the link to the backend process.
///
/// The process itself and its pipes are held by the caller, which writes the
/// lines that this state hands out and reports back what it read. At most one
/// request is in flight at any time, and once the backend has ended nothing
/// more is written to it.
#[derive(Debug)]
pub struct LinkState {
    phase: Phase,
}

/// What `begin_request` does in `phase`: `r` and the phase after it.
pub open spec fn begin_request_step(
    phase: Phase,
    request: LauncherRequest,
    r: Result<String, TransportError>,
    next: Phase,
) -> bool {
    match phase {
        Phase::Ready => r is Ok && r->Ok_0@ == request_line(request) && next == Phase::Awaiting,
        Phase::Awaiting | Phase::Exiting => r is Err && r->Err_0 is Busy && next == phase,
        Phase::Exited => r is Err && r->Err_0 is Exited && next == phase,
    }
}

/// What `finish_request` does in `phase` with the outcome of the round
/// trip: `r` and the phase after it.
pub open spec fn finish_request_step(
    phase: Phase,
    outcome: Result<Seq<char>, Seq<char>>,
    r: Result<LauncherResponse, TransportError>,
    next: Phase,
) -> bool {
    if phase == Phase::Awaiting {
        &&& next == Phase::Ready
        &&& match outcome {
            Ok(line) => decoded(line, r),
            Err(message) => r is Err && r->Err_0 is Io && r->Err_0->Io_0@ == message,
        }
    } else {
        r is Err && r->Err_0 is Idle && next == phase
    }
}

/// What `begin_exit` does in `phase`: `Ok(Some(line))` asks the caller to
/// write `line` and wait for the backend to end, `Ok(None)` reports that it
/// has ended already and asks for nothing.
pub open spec fn begin_exit_step(
    phase: Phase,
    r: Result<Option<String>, TransportError>,
    next: Phase,
) -> bool {
    match phase {
        Phase::Ready => {
            &&& r is Ok
            &&& r->Ok_0 is Some
            &&& r->Ok_0->0@ == request_line(LauncherRequest::Exit)
            &&& next == Phase::Exiting
        },
        Phase::Awaiting | Phase::Exiting => r is Err && r->Err_0 is Busy && next == phase,
        Phase::Exited => r == Ok::<Option<String>, TransportError>(None) && next == phase,
    }
}

/// What `finish_exit` does in `phase` with the outcome of writing the exit
/// request and waiting: `r` and the phase after it.
pub open spec fn finish_exit_step(
    phase: Phase,
    outcome: Result<(), Seq<char>>,
    r: Result<(), TransportError>,
    next: Phase,
) -> bool {
    if phase == Phase::Exiting {
        match outcome {
            Ok(()) => r is Ok && next == Phase::Exited,
            Err(message) => r is Err && r->Err_0 is Io && r->Err_0->Io_0@ == message && next
                == Phase::Ready,
        }
    } else {
        r is Err && r->Err_0 is Idle && next == phase
    }
}

/// The view of a message outcome.
pub open spec fn outcome_view(outcome: Result<String, String>) -> Result<Seq<char>, Seq<char>> {
    match outcome {
        Ok(line) => Ok(line@),
        Err(message) => Err(message@),
    }
}

impl LinkState {
    pub closed spec fn spec_phase(&self) -> Phase {
        self.phase
    }

    /// A link to a backend that was just started.
    pub fn new() -> (r: LinkState)
        ensures
            r.spec_phase() == Phase::Ready,
    {
        LinkState { phase: Phase::Ready }
    }

    pub fn phase(&self) -> (r: Phase)
        ensures
            r == self.spec_phase(),
    {
        self.phase
    }

    /// Starts a request: returns the line to write to the backend, or why
    /// none may be written now.
    pub fn begin_request(&mut self, request: &LauncherRequest) -> (r: Result<String, TransportError>)
        ensures
            begin_request_step(old(self).spec_phase(), *request, r, final(self).spec_phase()),
    {
        match self.phase {
            Phase::Ready => {
                self.phase = Phase::Awaiting;
                Ok(encode_request(request))
            },
            Phase::Awaiting | Phase::Exiting => Err(TransportError::Busy),
            Phase::Exited => Err(TransportError::Exited),
        }
    }

    /// Ends the request in flight with what the round trip gave: the line
    /// read from the backend, or the message of the failed write or read.
    pub fn finish_request(&mut self, outcome: Result<String, String>) -> (r: Result<
        LauncherResponse,
        TransportError,
    >)
        ensures
            finish_request_step(
                old(self).spec_phase(),
                outcome_view(outcome),
                r,
                final(self).spec_phase(),
            ),
    {
        if self.phase != Phase::Awaiting {
            return Err(TransportError::Idle);
        }
        self.phase = Phase::Ready;
        match outcome {
            Ok(line) => decode_response(line.as_str()),
            Err(message) => Err(TransportError::Io(message)),
        }
    }

    /// Starts the backend's exit.
    pub fn begin_exit(&mut self) -> (r: Result<Option<String>, TransportError>)
        ensures
            begin_exit_step(old(self).spec_phase(), r, final(self).spec_phase()),
    {
        match self.phase {
            Phase::Ready => {
                self.phase = Phase::Exiting;
                Ok(Some(encode_request(&LauncherRequest::Exit)))
            },
            Phase::Awaiting | Phase::Exiting => Err(TransportError::Busy),
            Phase::Exited => Ok(None),
        }
    }

    /// Ends the exit with what writing the request and waiting gave.
    pub fn finish_exit(&mut self, outcome: Result<(), String>) -> (r: Result<(), TransportError>)
        ensures
            finish_exit_step(
                old(self).spec_phase(),
                match outcome {
                    Ok(()) => Ok(()),
                    Err(message) => Err(message@),
                },
                r,
                final(self).spec_phase(),
            ),
    {
        if self.phase != Phase::Exiting {
            return Err(TransportError::Idle);
        }
        match outcome {
            Ok(()) => {
                self.phase = Phase::Exited;
                Ok(())
            },
            Err(message) => {
                self.phase = Phase::Ready;
                Err(TransportError::Io(message))
            },
        }
    }
}

/// A request begun and not yet finished keeps any other from starting: the
/// second is refused as busy and leaves the link as it was.
pub proof fn lemma_one_request_in_flight(
    phase: Phase,
    first: LauncherRequest,
    r1: Result<String, TransportError>,
    mid: Phase,
    second: LauncherRequest,
    r2: Result<String, TransportError>,
    next: Phase,
)
    requires
        begin_request_step(phase, first, r1, mid),
        r1 is Ok,
        begin_request_step(mid, second, r2, next),
    ensures
        r2 is Err && r2->Err_0 is Busy,
        next == Phase::Awaiting,
{
}

/// Exiting a second time after the first exit has completed reports that
/// the backend has ended and hands out nothing to write.
pub proof fn lemma_exit_twice(
    phase: Phase,
    r1: Result<Option<String>, TransportError>,
    waiting: Phase,
    outcome: Result<(), Seq<char>>,
    r2: Result<(), TransportError>,
    ended: Phase,
    r3: Result<Option<String>, TransportError>,
    last: Phase,
)
    requires
        begin_exit_step(phase, r1, waiting),
        r1 is Ok,
        finish_exit_step(waiting, outcome, r2, ended),
        r2 is Ok,
        begin_exit_step(ended, r3, last),
    ensures
        r3 == Ok::<Option<String>, TransportError>(None),
        last == Phase::Exited,
{
}

} // verus!
