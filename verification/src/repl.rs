use vstd::prelude::*;

use crate::memo::SleamBuf;
use crate::protocol::{FRAME_DESC_SIZE_BYTES, MAX_MSG_SIZE_BYTES};
use crate::service::ReplService;

verus! {

/// A server that answers the requests of its clients with one service and
/// one shared buffer for requests and replies.
pub struct ReplServer<RS: ReplService> {
    service: RS,
    buffer: SleamBuf,
}

/// What a readiness event of a client connection reports.
#[derive(Debug, Clone, Copy, PartialEq, Eq, Structural)]
pub struct ConnEvent {
    pub is_error: bool,
    pub is_read_closed: bool,
    pub is_write_closed: bool,
    pub is_writable: bool,
    pub is_readable: bool,
}

/// What the server does with a connection on an event.
#[derive(Debug, Clone, Copy, PartialEq, Eq, Structural)]
pub enum ConnAction {
    /// Deregister and drop the connection.
    Close,
    /// Send what is waiting when `write`, then read when `read`.
    Serve { write: bool, read: bool },
}

/// What the server does with a connection once it has been served.
#[derive(Debug, Clone, Copy, PartialEq, Eq, Structural)]
pub enum AfterServe {
    /// Drop the connection: serving it failed.
    Remove,
    /// Keep the connection, watched for reads, and for writes when `writable`.
    Watch { writable: bool },
}

impl<RS: ReplService> ReplServer<RS> {
    /// The service of the server.
    pub closed spec fn service_spec(&self) -> RS {
        self.service
    }

    /// The shared buffer of the server.
    pub closed spec fn buffer_spec(&self) -> SleamBuf {
        self.buffer
    }

    /// A server for `service`, with a buffer for one frame of the largest size
    /// whose descriptor is reserved.
    pub fn new(service: RS) -> (s: Self)
        ensures
            s.service_spec() == service,
            s.buffer_spec()@.data.len() == MAX_MSG_SIZE_BYTES + FRAME_DESC_SIZE_BYTES,
            s.buffer_spec()@.read_pos == FRAME_DESC_SIZE_BYTES,
            s.buffer_spec()@.write_pos == FRAME_DESC_SIZE_BYTES,
    {
        ReplServer { service, buffer: SleamBuf::default() }
    }

    /// The service and the shared buffer, to serve a connection with.
    pub fn parts(&mut self) -> (p: (&RS, &mut SleamBuf))
        ensures
            *p.0 == old(self).service_spec(),
            *p.1 == old(self).buffer_spec(),
            final(self).service_spec() == old(self).service_spec(),
            final(self).buffer_spec() == *final(p.1),
    {
        (&self.service, &mut self.buffer)
    }

    /// Decides what to do on an event of a client connection: an error or a
    /// closed side closes it; otherwise a writable connection sends what
    /// waits, and a readable one reads unless a reply is still waiting
    /// (`write_pending`, as it stands once the sending is done).
    pub fn on_conn_event(ev: ConnEvent, write_pending: bool) -> (a: ConnAction)
        ensures
            ev.is_error || ev.is_read_closed || ev.is_write_closed ==> a == ConnAction::Close,
            !(ev.is_error || ev.is_read_closed || ev.is_write_closed) ==> a == (ConnAction::Serve {
                write: ev.is_writable,
                read: ev.is_readable && !write_pending,
            }),
    {
        if ev.is_error {
            return ConnAction::Close;
        }
        if ev.is_read_closed || ev.is_write_closed {
            return ConnAction::Close;
        }
        ConnAction::Serve { write: ev.is_writable, read: ev.is_readable && !write_pending }
    }

    /// Decides what becomes of a connection after a send or a read: an I/O
    /// error (`failed`) removes it; otherwise it stays, watched for reads,
    /// and also for writes while a reply waits to be sent.
    pub fn after_serve(failed: bool, write_pending: bool) -> (a: AfterServe)
        ensures
            failed ==> a == AfterServe::Remove,
            !failed ==> a == (AfterServe::Watch { writable: write_pending }),
    {
        if failed {
            AfterServe::Remove
        } else {
            AfterServe::Watch { writable: write_pending }
        }
    }
}

} // verus!
