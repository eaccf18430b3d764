//! The handshake driver: a resumable operation that pumps the engine until
//! negotiation is complete and then yields the finished stream.

use vstd::prelude::*;
use crate::outcome::{is_would_block, kind_is_would_block, suspends, Polled};
use crate::resume::{driver_run, lemma_one_resume_of_the_driver, one_pass, pass};
use crate::stream::TlsStream;

verus! {

/// Where a handshake driver stands.
pub enum DriverState<SESS, S> {
    /// Negotiation is under way; the driver owns the session and the
    /// transport.
    Handshaking { session: SESS, transport: S },
    /// The driver owns nothing: its parts are out for a pump, or it has given
    /// its result.
    Exhausted,
}

/// A handshake in progress.
pub struct Handshake<SESS, S>(Option<(SESS, S)>);

impl<SESS, S> View for Handshake<SESS, S> {
    type V = DriverState<SESS, S>;

    closed spec fn view(&self) -> DriverState<SESS, S> {
        match self.0 {
            Some((session, transport)) => DriverState::Handshaking { session, transport },
            None => DriverState::Exhausted,
        }
    }
}

/// The state in which a pump leaves the driver: a would-block report keeps
/// the handshake going, with the session and the transport as the pump left
/// them; any other report exhausts the driver.
pub open spec fn state_after<SESS, S, R>(
    session: SESS,
    transport: S,
    report: Result<R, std::io::Error>,
) -> DriverState<SESS, S> {
    if suspends(report) {
        DriverState::Handshaking { session, transport }
    } else {
        DriverState::Exhausted
    }
}

/// Whether `polled` is the driver's answer to a pump that left `session` and
/// `transport` and reported `report`: success yields the stream made of
/// exactly these two, would-block yields nothing yet, and any other error is
/// handed on as it is.
pub open spec fn answers<SESS, S, R>(
    polled: Polled<Result<TlsStream<SESS, S>, std::io::Error>>,
    session: SESS,
    transport: S,
    report: Result<R, std::io::Error>,
) -> bool {
    match report {
        Ok(_) => polled matches Polled::Ready(Ok(stream)) && stream.session() == session
            && stream.transport() == transport,
        Err(e) => if is_would_block(e) {
            polled is Pending
        } else {
            polled == Polled::<Result<TlsStream<SESS, S>, std::io::Error>>::Ready(Err(e))
        },
    }
}

impl<SESS, S> Handshake<SESS, S> {
    /// Starts a handshake on a fresh session and its transport.
    pub fn new(session: SESS, transport: S) -> (driver: Self)
        ensures
            driver@ == (DriverState::Handshaking { session, transport }),
    {
        Handshake(Some((session, transport)))
    }

    /// Whether the driver still owns a session and a transport to pump.
    pub fn is_handshaking(&self) -> (b: bool)
        ensures
            b == (self@ is Handshaking),
    {
        self.0.is_some()
    }

    /// Hands out the session and the transport for one pump.
    pub fn take_parts(&mut self) -> (parts: (SESS, S))
        requires
            old(self)@ is Handshaking,
        ensures
            old(self)@ == (DriverState::Handshaking { session: parts.0, transport: parts.1 }),
            final(self)@ is Exhausted,
    {
        self.0.take().expect("never")
    }

    /// Takes back the session and the transport after a pump, with the pump's
    /// report, and decides how the handshake goes on.
    pub fn settle<R>(
        &mut self,
        session: SESS,
        transport: S,
        report: Result<R, std::io::Error>,
    ) -> (polled: Polled<Result<TlsStream<SESS, S>, std::io::Error>>)
        ensures
            answers(polled, session, transport, report),
            final(self)@ == state_after(session, transport, report),
    {
        match report {
            Ok(_) => {
                self.0 = None;
                Polled::Ready(Ok(TlsStream::established(session, transport)))
            },
            Err(e) => {
                if kind_is_would_block(&e) {
                    self.0 = Some((session, transport));
                    Polled::Pending
                } else {
                    self.0 = None;
                    Polled::Ready(Err(e))
                }
            },
        }
    }

    /// Resumes the handshake once: `pump` is run once on the session and the
    /// transport, and its report decides. Would-block suspends the handshake,
    /// and the driver keeps both as the pump left them; success yields the
    /// stream made of both and exhausts the driver; any other error is handed
    /// on and exhausts the driver. So a stream exists only after a pump that
    /// reported success, and what that pump ensures of the session holds of
    /// the stream's session. One resume is one step of `driver_run`.
    pub fn poll<R, F>(&mut self, pump: F) -> (polled: Polled<
        Result<TlsStream<SESS, S>, std::io::Error>,
    >)
        where F: FnOnce(&mut SESS, &mut S) -> Result<R, std::io::Error>
        requires
            old(self)@ is Handshaking,
            forall|session: &mut SESS, transport: &mut S|
                old(self)@ == (DriverState::Handshaking {
                    session: *session,
                    transport: *transport,
                }) ==> #[trigger] call_requires(pump, (session, transport)),
        ensures
            exists|session: &mut SESS, transport: &mut S, report: Result<R, std::io::Error>|
                {
                    &&& old(self)@ == (DriverState::Handshaking {
                        session: *session,
                        transport: *transport,
                    })
                    &&& #[trigger] call_ensures(pump, (session, transport), report)
                    &&& answers(polled, *final(session), *final(transport), report)
                    &&& final(self)@ == state_after(*final(session), *final(transport), report)
                    &&& driver_run(
                        old(self)@,
                        one_pass(pass(*final(session), *final(transport), report)),
                    ) == (
                        final(self)@,
                        if polled is Pending {
                            None
                        } else {
                            Some(pass(*final(session), *final(transport), report))
                        },
                    )
                },
    {
        let (mut session, mut transport) = self.take_parts();
        let ghost given = (session, transport);
        let report = pump(&mut session, &mut transport);
        proof {
            lemma_one_resume_of_the_driver(given.0, given.1, pass(session, transport, report));
        }
        self.settle(session, transport, report)
    }
}

/// Starts the handshake of a client session over `stream`.
pub fn client_handshake<S>(session: rustls::ClientSession, stream: S) -> (driver: Handshake<
    rustls::ClientSession,
    S,
>)
    ensures
        driver@ == (DriverState::Handshaking { session, transport: stream }),
{
    handshake(session, stream)
}

/// Starts the handshake of a server session over `stream`.
pub fn server_handshake<S>(session: rustls::ServerSession, stream: S) -> (driver: Handshake<
    rustls::ServerSession,
    S,
>)
    ensures
        driver@ == (DriverState::Handshaking { session, transport: stream }),
{
    handshake(session, stream)
}

fn handshake<SESS, S>(session: SESS, stream: S) -> (driver: Handshake<SESS, S>)
    ensures
        driver@ == (DriverState::Handshaking { session, transport: stream }),
{
    Handshake::new(session, stream)
}

} // verus!
