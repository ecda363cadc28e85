use vstd::prelude::*;
use crate::error::{Error, ErrorAndResponse, Fault};
use crate::exchange::{
    completed_success, connection_failing, exchange_resolution, resolve_exchange, ExchangeEvent,
};

verus! {

/// The abstract state of one client: the socket path it dials — fixed for
/// the client's whole life — and whether its sender handle is still usable.
#[verifier::ext_equal]
pub struct LifecycleView {
    pub path: Seq<char>,
    pub usable: bool,
}

/// Everything one connection attempt can come to: the dial failed, the
/// HTTP/1 handshake over the dialed stream failed, or a live connection was
/// established — the caller then holds its sender handle and has spawned its
/// driver task.
#[derive(Debug)]
pub enum ConnectAttempt {
    DialFailed(Fault),
    HandshakeFailed(Fault),
    Established,
}

/// What awaiting the driver task yields: the terminal outcome the task
/// produced when its protocol loop ended, or nothing, when the task was
/// cancelled before producing one.
#[derive(Debug)]
pub enum DriverJoin {
    Produced(Error),
    Cancelled,
}

/// The driver task's one decision: its terminal outcome wraps the optional
/// transport fault — `None` for a graceful close, `Some` for a transport
/// error — as `SocketConnectionClosed`.
pub fn driver_outcome(fault: Option<Fault>) -> (r: Error)
    ensures
        r == Error::SocketConnectionClosed(fault),
{
    Error::SocketConnectionClosed(fault)
}

/// One exchange's effect on the abstract client state: the path is kept, and
/// the sender handle stays usable only while no exchange has shown the
/// connection failing.
pub open spec fn stepped(v: LifecycleView, ev: ExchangeEvent) -> LifecycleView {
    LifecycleView { path: v.path, usable: v.usable && !connection_failing(ev) }
}

/// A whole run of exchanges, folded over the abstract client state in order.
pub open spec fn run_exchanges(v: LifecycleView, evs: Seq<ExchangeEvent>) -> LifecycleView
    decreases evs.len(),
{
    if evs.len() == 0 {
        v
    } else {
        run_exchanges(stepped(v, evs[0]), evs.drop_first())
    }
}

/// The verified core of one client. It records the connection identity and
/// what is known of the live connection; the I/O objects themselves (socket,
/// sender handle, driver task) live with the unverified caller performing the
/// I/O, and every lifecycle decision about them is made here.
pub struct Lifecycle {
    path: String,
    usable: bool,
}

impl View for Lifecycle {
    type V = LifecycleView;

    closed spec fn view(&self) -> LifecycleView {
        LifecycleView { path: self.path@, usable: self.usable }
    }
}

impl Lifecycle {
    /// Establishing a connection: a failed dial is `SocketConnectionInitiation`
    /// and a failed handshake is `Handshake`, each carrying its fault
    /// unchanged, and in both cases no client state is created; an
    /// established attempt yields a client bound to `path` whose sender
    /// handle is usable.
    pub fn establish(path: String, attempt: ConnectAttempt) -> (r: Result<Lifecycle, Error>)
        ensures
            match attempt {
                ConnectAttempt::DialFailed(f) => r == Err::<Lifecycle, Error>(
                    Error::SocketConnectionInitiation(f),
                ),
                ConnectAttempt::HandshakeFailed(f) => r == Err::<Lifecycle, Error>(
                    Error::Handshake(f),
                ),
                ConnectAttempt::Established => (r matches Ok(c) && c@.path == path@ && c@.usable),
            },
    {
        match attempt {
            ConnectAttempt::DialFailed(f) => Err(Error::SocketConnectionInitiation(f)),
            ConnectAttempt::HandshakeFailed(f) => Err(Error::Handshake(f)),
            ConnectAttempt::Established => Ok(Lifecycle { path, usable: true }),
        }
    }

    /// The socket path this client dials: fixed at establishment, reused
    /// verbatim on reconnect.
    pub fn socket_path(&self) -> (r: &str)
        ensures
            r@ == self@.path,
    {
        self.path.as_str()
    }

    /// Whether the sender handle is still usable: true from establishment
    /// until an exchange first shows the connection failing, false for good
    /// afterwards.
    pub fn is_usable(&self) -> (r: bool)
        ensures
            r == self@.usable,
    {
        self.usable
    }

    /// Resolves one request/response exchange and records what it showed of
    /// the connection: the result is exactly what the event dictates, the
    /// connection identity never changes, and once the send or the body
    /// stream has failed the sender handle is unusable for good.
    pub fn resolve_send(&mut self, ev: ExchangeEvent) -> (r: Result<
        (u16, Vec<u8>),
        ErrorAndResponse,
    >)
        ensures
            r == exchange_resolution(ev),
            final(self)@ == stepped(old(self)@, ev),
            final(self)@.path == old(self)@.path,
    {
        match &ev {
            ExchangeEvent::SendFailed(_) => {
                self.usable = false;
            },
            ExchangeEvent::CollectFailed(_) => {
                self.usable = false;
            },
            _ => {},
        }
        resolve_exchange(ev)
    }

    /// Tearing the connection down: consumes the client and interprets what
    /// awaiting the cancelled driver task yielded. Total over both join
    /// outcomes: a captured terminal outcome is returned as it stands, and a
    /// task cancelled before producing one yields `None` — which is not an
    /// error.
    pub fn abort(self, join: DriverJoin) -> (r: Option<Error>)
        ensures
            match join {
                DriverJoin::Produced(e) => r == Some(e),
                DriverJoin::Cancelled => r is None,
            },
    {
        match join {
            DriverJoin::Produced(e) => Some(e),
            DriverJoin::Cancelled => None,
        }
    }

    /// Reconnecting: consumes the client, discards whatever the aborted
    /// driver task yielded, and establishes afresh. On an established attempt
    /// the new client is bound to the same path as before and its sender
    /// handle is usable; on a failed dial or handshake the mapped error is
    /// returned and no client state is created.
    pub fn reconnect(self, join: DriverJoin, attempt: ConnectAttempt) -> (r: Result<
        Lifecycle,
        Error,
    >)
        ensures
            match attempt {
                ConnectAttempt::DialFailed(f) => r == Err::<Lifecycle, Error>(
                    Error::SocketConnectionInitiation(f),
                ),
                ConnectAttempt::HandshakeFailed(f) => r == Err::<Lifecycle, Error>(
                    Error::Handshake(f),
                ),
                ConnectAttempt::Established => (r matches Ok(c) && c@.path == self@.path
                    && c@.usable),
            },
    {
        let path = self.path.clone();
        let _ = self.abort(join);
        Lifecycle::establish(path, attempt)
    }
}

/// Repetition is harmless: over a run of exchanges that all completed with a
/// success status, the abstract client state comes out exactly as it went in,
/// and each exchange resolves to its own status and its own body — in order,
/// with no influence of one exchange on another.
pub proof fn lemma_repeated_success(v: LifecycleView, evs: Seq<ExchangeEvent>)
    requires
        forall|i: int| 0 <= i < evs.len() ==> completed_success(#[trigger] evs[i]),
    ensures
        run_exchanges(v, evs) == v,
        forall|i: int|
            0 <= i < evs.len() ==> (#[trigger] exchange_resolution(evs[i]) matches Ok(p) && evs[i]
                == ExchangeEvent::Completed(p.0, p.1)),
    decreases evs.len(),
{
    assert forall|i: int|
        0 <= i < evs.len() implies (#[trigger] exchange_resolution(evs[i]) matches Ok(p) && evs[i]
        == ExchangeEvent::Completed(p.0, p.1)) by {
        assert(completed_success(evs[i]));
    }
    if evs.len() > 0 {
        let rest = evs.drop_first();
        assert(stepped(v, evs[0]) =~= v);
        assert forall|i: int| 0 <= i < rest.len() implies completed_success(
            #[trigger] rest[i],
        ) by {
            assert(rest[i] == evs[i + 1]);
        }
        lemma_repeated_success(v, rest);
    }
}

/// The connection identity is immutable: no run of exchanges, whatever it
/// holds, moves the client off its path.
pub proof fn lemma_path_fixed(v: LifecycleView, evs: Seq<ExchangeEvent>)
    ensures
        run_exchanges(v, evs).path == v.path,
    decreases evs.len(),
{
    if evs.len() > 0 {
        lemma_path_fixed(stepped(v, evs[0]), evs.drop_first());
    }
}

/// Unusability is permanent: once the sender handle has become unusable, no
/// later exchange makes it usable again.
pub proof fn lemma_unusable_is_permanent(v: LifecycleView, evs: Seq<ExchangeEvent>)
    requires
        !v.usable,
    ensures
        !run_exchanges(v, evs).usable,
    decreases evs.len(),
{
    if evs.len() > 0 {
        lemma_unusable_is_permanent(stepped(v, evs[0]), evs.drop_first());
    }
}

} // verus!
