use crate::pool::TorProxyPort;
use vstd::prelude::*;

verus! {

/// Phases of one accepted connection's life, in order: a client
/// connection arrived; a backend was chosen for it; the outbound
/// connection to that backend is being opened; bytes are spliced in
/// both directions; everything is over and the backend's identity
/// rotation has been requested.
#[derive(Clone, Copy, Debug, PartialEq, Eq, Structural)]
pub enum RelayPhase {
    Accepted,
    BackendSelected,
    Connecting,
    Relaying,
    Closed,
}

/// What the surrounding I/O loop must do next for this connection.
#[derive(Debug, PartialEq, Eq)]
pub enum RelayAction {
    /// Open an outbound connection to this local port.
    OpenBackend(u16),
    /// Write these bytes to the backend connection.
    ForwardToBackend(Vec<u8>),
    /// Write these bytes to the client connection.
    ForwardToClient(Vec<u8>),
    /// Request an identity rotation on this control port, then release
    /// every resource of this connection.
    Rotate(u16),
    /// Nothing.
    Idle,
}

/// The state machine of one relayed connection. It decides every
/// transition of the relay — which backend port to dial, that each
/// received chunk is forwarded unchanged to the opposite side, and
/// that the moment the relay completes, however it completes, exactly
/// one identity rotation is requested for the backend that was used.
/// The surrounding loop only performs the returned actions and
/// reports what it observed.
pub struct RelayConn {
    phase: RelayPhase,
    backend: Option<TorProxyPort>,
    client_to_backend_open: bool,
    backend_to_client_open: bool,
    rotated: bool,
    client_bytes_received: Ghost<Seq<u8>>,
    client_bytes_forwarded: Ghost<Seq<u8>>,
    backend_bytes_received: Ghost<Seq<u8>>,
    backend_bytes_forwarded: Ghost<Seq<u8>>,
}

impl RelayConn {
    /// The phase this connection is in.
    pub closed spec fn spec_phase(&self) -> RelayPhase {
        self.phase
    }

    /// The backend chosen for this connection, once one has been.
    pub closed spec fn spec_backend(&self) -> Option<TorProxyPort> {
        self.backend
    }

    /// Whether the client-to-backend copy direction has not yet
    /// terminated.
    pub closed spec fn spec_client_dir_open(&self) -> bool {
        self.client_to_backend_open
    }

    /// Whether the backend-to-client copy direction has not yet
    /// terminated.
    pub closed spec fn spec_backend_dir_open(&self) -> bool {
        self.backend_to_client_open
    }

    /// Whether the identity rotation for this connection's backend has
    /// been requested.
    pub closed spec fn spec_rotated(&self) -> bool {
        self.rotated
    }

    /// All bytes received from the client so far.
    pub closed spec fn spec_client_bytes_received(&self) -> Seq<u8> {
        self.client_bytes_received@
    }

    /// All bytes handed out for forwarding to the backend so far.
    pub closed spec fn spec_client_bytes_forwarded(&self) -> Seq<u8> {
        self.client_bytes_forwarded@
    }

    /// All bytes received from the backend so far.
    pub closed spec fn spec_backend_bytes_received(&self) -> Seq<u8> {
        self.backend_bytes_received@
    }

    /// All bytes handed out for forwarding to the client so far.
    pub closed spec fn spec_backend_bytes_forwarded(&self) -> Seq<u8> {
        self.backend_bytes_forwarded@
    }

    /// Invariant of every relayed connection: each direction has
    /// forwarded exactly what it received; a backend is known from the
    /// moment one was selected; the copy directions only run while the
    /// relay phase lasts; and the identity rotation has been requested
    /// exactly for a closed connection.
    pub open spec fn wf(&self) -> bool {
        &&& self.spec_client_bytes_forwarded() == self.spec_client_bytes_received()
        &&& self.spec_backend_bytes_forwarded() == self.spec_backend_bytes_received()
        &&& (self.spec_phase() == RelayPhase::Accepted <==> self.spec_backend() is None)
        &&& (self.spec_rotated() <==> self.spec_phase() == RelayPhase::Closed)
        &&& (self.spec_phase() == RelayPhase::Relaying ==> self.spec_client_dir_open()
            || self.spec_backend_dir_open())
        &&& (self.spec_phase() != RelayPhase::Relaying ==> !self.spec_client_dir_open()
            && !self.spec_backend_dir_open())
    }

    /// The phase this connection is in, for callers that must check
    /// it before reporting an observation.
    pub fn phase(&self) -> (p: RelayPhase)
        ensures
            p == self.spec_phase(),
    {
        self.phase
    }

    /// Whether the client-to-backend copy direction still runs.
    pub fn client_dir_open(&self) -> (b: bool)
        ensures
            b == self.spec_client_dir_open(),
    {
        self.client_to_backend_open
    }

    /// Whether the backend-to-client copy direction still runs.
    pub fn backend_dir_open(&self) -> (b: bool)
        ensures
            b == self.spec_backend_dir_open(),
    {
        self.backend_to_client_open
    }

    /// A freshly accepted client connection: no backend chosen yet, no
    /// bytes moved, no rotation requested.
    pub fn accept() -> (c: Self)
        ensures
            c.wf(),
            c.spec_phase() == RelayPhase::Accepted,
            c.spec_backend() is None,
            !c.spec_rotated(),
            c.spec_client_bytes_received() == Seq::<u8>::empty(),
            c.spec_backend_bytes_received() == Seq::<u8>::empty(),
    {
        RelayConn {
            phase: RelayPhase::Accepted,
            backend: None,
            client_to_backend_open: false,
            backend_to_client_open: false,
            rotated: false,
            client_bytes_received: Ghost(Seq::empty()),
            client_bytes_forwarded: Ghost(Seq::empty()),
            backend_bytes_received: Ghost(Seq::empty()),
            backend_bytes_forwarded: Ghost(Seq::empty()),
        }
    }

    /// Records the backend the pool handed out for this connection.
    /// Called exactly once per connection, right after acceptance;
    /// the choice never depends on connection content.
    pub fn choose_backend(&mut self, backend: TorProxyPort)
        requires
            old(self).wf(),
            old(self).spec_phase() == RelayPhase::Accepted,
        ensures
            final (self).wf(),
            final (self).spec_phase() == RelayPhase::BackendSelected,
            final (self).spec_backend() == Some(backend),
            !final (self).spec_rotated(),
            final (self).spec_client_bytes_received() == old(self).spec_client_bytes_received(),
            final (self).spec_backend_bytes_received() == old(self).spec_backend_bytes_received(),
    {
        self.phase = RelayPhase::BackendSelected;
        self.backend = Some(backend);
    }

    /// Asks for the outbound connection to the chosen backend's proxy
    /// port to be opened.
    pub fn connect_backend(&mut self) -> (a: RelayAction)
        requires
            old(self).wf(),
            old(self).spec_phase() == RelayPhase::BackendSelected,
        ensures
            final (self).wf(),
            final (self).spec_phase() == RelayPhase::Connecting,
            final (self).spec_backend() == old(self).spec_backend(),
            !final (self).spec_rotated(),
            a == RelayAction::OpenBackend(old(self).spec_backend()->Some_0.proxy_port),
            final (self).spec_client_bytes_received() == old(self).spec_client_bytes_received(),
            final (self).spec_backend_bytes_received() == old(self).spec_backend_bytes_received(),
    {
        self.phase = RelayPhase::Connecting;
        let backend = self.backend_or_absurd();
        RelayAction::OpenBackend(backend.proxy_port)
    }

    /// Reports how opening the outbound connection went. On success
    /// both copy directions start and the relay runs; on failure the
    /// connection attempt is over for this client alone — the backend
    /// stays in the pool — and the identity rotation for the backend
    /// that was tried is requested at once.
    pub fn on_connect_result(&mut self, ok: bool) -> (a: RelayAction)
        requires
            old(self).wf(),
            old(self).spec_phase() == RelayPhase::Connecting,
        ensures
            final (self).wf(),
            final (self).spec_backend() == old(self).spec_backend(),
            final (self).spec_client_bytes_received() == old(self).spec_client_bytes_received(),
            final (self).spec_backend_bytes_received() == old(self).spec_backend_bytes_received(),
            ok ==> {
                &&& final (self).spec_phase() == RelayPhase::Relaying
                &&& final (self).spec_client_dir_open()
                &&& final (self).spec_backend_dir_open()
                &&& !final (self).spec_rotated()
                &&& a == RelayAction::Idle
            },
            !ok ==> {
                &&& final (self).spec_phase() == RelayPhase::Closed
                &&& final (self).spec_rotated()
                &&& a == RelayAction::Rotate(old(self).spec_backend()->Some_0.control_port)
            },
    {
        if ok {
            self.phase = RelayPhase::Relaying;
            self.client_to_backend_open = true;
            self.backend_to_client_open = true;
            RelayAction::Idle
        } else {
            self.phase = RelayPhase::Closed;
            self.rotated = true;
            let backend = self.backend_or_absurd();
            RelayAction::Rotate(backend.control_port)
        }
    }

    /// Bytes arrived from the client: they are forwarded to the
    /// backend unchanged, at once.
    pub fn on_client_bytes(&mut self, data: Vec<u8>) -> (a: RelayAction)
        requires
            old(self).wf(),
            old(self).spec_phase() == RelayPhase::Relaying,
            old(self).spec_client_dir_open(),
        ensures
            final (self).wf(),
            final (self).spec_phase() == RelayPhase::Relaying,
            final (self).spec_backend() == old(self).spec_backend(),
            (a matches RelayAction::ForwardToBackend(sent) && sent@ == data@),
            final (self).spec_client_dir_open(),
            final (self).spec_backend_dir_open() == old(self).spec_backend_dir_open(),
            final (self).spec_client_bytes_received() == old(self).spec_client_bytes_received()
                + data@,
            final (self).spec_client_bytes_forwarded() == old(self).spec_client_bytes_forwarded()
                + data@,
            final (self).spec_backend_bytes_received() == old(self).spec_backend_bytes_received(),
            !final (self).spec_rotated(),
    {
        self.client_bytes_received = Ghost(self.client_bytes_received@ + data@);
        self.client_bytes_forwarded = Ghost(self.client_bytes_forwarded@ + data@);
        RelayAction::ForwardToBackend(data)
    }

    /// Bytes arrived from the backend: they are forwarded to the
    /// client unchanged, at once.
    pub fn on_backend_bytes(&mut self, data: Vec<u8>) -> (a: RelayAction)
        requires
            old(self).wf(),
            old(self).spec_phase() == RelayPhase::Relaying,
            old(self).spec_backend_dir_open(),
        ensures
            final (self).wf(),
            final (self).spec_phase() == RelayPhase::Relaying,
            final (self).spec_backend() == old(self).spec_backend(),
            (a matches RelayAction::ForwardToClient(sent) && sent@ == data@),
            final (self).spec_backend_dir_open(),
            final (self).spec_client_dir_open() == old(self).spec_client_dir_open(),
            final (self).spec_backend_bytes_received() == old(self).spec_backend_bytes_received()
                + data@,
            final (self).spec_backend_bytes_forwarded() == old(self).spec_backend_bytes_forwarded()
                + data@,
            final (self).spec_client_bytes_received() == old(self).spec_client_bytes_received(),
            !final (self).spec_rotated(),
    {
        self.backend_bytes_received = Ghost(self.backend_bytes_received@ + data@);
        self.backend_bytes_forwarded = Ghost(self.backend_bytes_forwarded@ + data@);
        RelayAction::ForwardToClient(data)
    }

    /// The client-to-backend direction terminated: the client closed
    /// its side, or that copy direction errored. When the other
    /// direction is already done the relay is complete and the
    /// identity rotation is requested; otherwise the other direction
    /// keeps running.
    pub fn on_client_dir_done(&mut self) -> (a: RelayAction)
        requires
            old(self).wf(),
            old(self).spec_phase() == RelayPhase::Relaying,
            old(self).spec_client_dir_open(),
        ensures
            final (self).wf(),
            final (self).spec_backend() == old(self).spec_backend(),
            final (self).spec_client_bytes_received() == old(self).spec_client_bytes_received(),
            final (self).spec_backend_bytes_received() == old(self).spec_backend_bytes_received(),
            !final (self).spec_client_dir_open(),
            old(self).spec_backend_dir_open() ==> {
                &&& final (self).spec_phase() == RelayPhase::Relaying
                &&& final (self).spec_backend_dir_open()
                &&& a == RelayAction::Idle
                &&& !final (self).spec_rotated()
            },
            !old(self).spec_backend_dir_open() ==> {
                &&& final (self).spec_phase() == RelayPhase::Closed
                &&& final (self).spec_rotated()
                &&& a == RelayAction::Rotate(old(self).spec_backend()->Some_0.control_port)
            },
    {
        self.client_to_backend_open = false;
        if self.backend_to_client_open {
            RelayAction::Idle
        } else {
            self.close_and_rotate()
        }
    }

    /// The backend-to-client direction terminated: the backend closed
    /// its side, or that copy direction errored. When the other
    /// direction is already done the relay is complete and the
    /// identity rotation is requested; otherwise the other direction
    /// keeps running.
    pub fn on_backend_dir_done(&mut self) -> (a: RelayAction)
        requires
            old(self).wf(),
            old(self).spec_phase() == RelayPhase::Relaying,
            old(self).spec_backend_dir_open(),
        ensures
            final (self).wf(),
            final (self).spec_backend() == old(self).spec_backend(),
            final (self).spec_client_bytes_received() == old(self).spec_client_bytes_received(),
            final (self).spec_backend_bytes_received() == old(self).spec_backend_bytes_received(),
            !final (self).spec_backend_dir_open(),
            old(self).spec_client_dir_open() ==> {
                &&& final (self).spec_phase() == RelayPhase::Relaying
                &&& final (self).spec_client_dir_open()
                &&& a == RelayAction::Idle
                &&& !final (self).spec_rotated()
            },
            !old(self).spec_client_dir_open() ==> {
                &&& final (self).spec_phase() == RelayPhase::Closed
                &&& final (self).spec_rotated()
                &&& a == RelayAction::Rotate(old(self).spec_backend()->Some_0.control_port)
            },
    {
        self.backend_to_client_open = false;
        if self.client_to_backend_open {
            RelayAction::Idle
        } else {
            self.close_and_rotate()
        }
    }

    /// Ends the relay and requests the rotation; only reachable on the
    /// way out of the relaying phase.
    fn close_and_rotate(&mut self) -> (a: RelayAction)
        requires
            old(self).spec_phase() == RelayPhase::Relaying,
            old(self).spec_backend() is Some,
            !old(self).spec_client_dir_open(),
            !old(self).spec_backend_dir_open(),
        ensures
            final (self).spec_phase() == RelayPhase::Closed,
            final (self).spec_rotated(),
            final (self).spec_backend() == old(self).spec_backend(),
            !final (self).spec_client_dir_open(),
            !final (self).spec_backend_dir_open(),
            final (self).spec_client_bytes_received() == old(self).spec_client_bytes_received(),
            final (self).spec_client_bytes_forwarded() == old(self).spec_client_bytes_forwarded(),
            final (self).spec_backend_bytes_received() == old(self).spec_backend_bytes_received(),
            final (self).spec_backend_bytes_forwarded() == old(self).spec_backend_bytes_forwarded(),
            a == RelayAction::Rotate(old(self).spec_backend()->Some_0.control_port),
    {
        self.phase = RelayPhase::Closed;
        self.rotated = true;
        let backend = self.backend_or_absurd();
        RelayAction::Rotate(backend.control_port)
    }

    /// The chosen backend; callable only once one was chosen.
    fn backend_or_absurd(&self) -> (b: TorProxyPort)
        requires
            self.spec_backend() is Some,
        ensures
            Some(b) == self.spec_backend(),
    {
        match &self.backend {
            Some(b) => *b,
            None => {
                proof {
                    assert(false);
                }
                TorProxyPort {
                    control_port: 0,
                    proxy_port: 0,
                    is_used_by_proxy: false,
                    use_in_progress: false,
                }
            },
        }
    }
}

/// Law: whatever state a relayed connection has reached, every byte
/// received from the client has been handed on to the backend, and
/// every byte received from the backend has been handed on to the
/// client — the relay forwards exactly what it receives, in order,
/// in both directions.
pub proof fn lemma_relay_forwards_exactly(c: &RelayConn)
    requires
        c.wf(),
    ensures
        c.spec_client_bytes_forwarded() == c.spec_client_bytes_received(),
        c.spec_backend_bytes_forwarded() == c.spec_backend_bytes_received(),
{
}

/// Law: the identity rotation of a relayed connection's backend has
/// been requested exactly when the connection is closed — never
/// before the relay completed, and always once it has, however it
/// completed. Together with the step contracts, which hand out a
/// `Rotate` action exactly on the transition into the closed phase
/// and accept no further events afterwards, the rotation is requested
/// exactly once per completed relay.
pub proof fn lemma_rotation_exactly_on_close(c: &RelayConn)
    requires
        c.wf(),
    ensures
        c.spec_rotated() <==> c.spec_phase() == RelayPhase::Closed,
{
}

} // verus!
