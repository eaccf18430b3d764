//! The stream that a finished handshake yields: a session and the transport
//! it runs over, owned together.

use vstd::prelude::*;
use crate::outcome::{
    close_notified, kind_of, poll_of, poll_report, read_answer, read_report, Polled,
};
use crate::resume::{lemma_one_resume_of_a_record, one_pass, pass, record_run};

verus! {

/// A session whose handshake is complete, together with its transport.
///
/// Only the handshake driver makes one, when the pump reports success, so no
/// record operation can come before that report.
pub struct TlsStream<SESS, S> {
    inner: TlsStreamInner<SESS, S>,
}

struct TlsStreamInner<SESS, S> {
    session: SESS,
    stream: S,
}

impl<SESS, S> TlsStream<SESS, S> {
    /// The session that the stream owns.
    pub closed spec fn session(&self) -> SESS {
        self.inner.session
    }

    /// The transport that the stream owns.
    pub closed spec fn transport(&self) -> S {
        self.inner.stream
    }

    /// A stream is nothing but its session and its transport.
    pub proof fn lemma_same_parts_same_stream(a: Self, b: Self)
        requires
            a.session() == b.session(),
            a.transport() == b.transport(),
        ensures
            a == b,
    {
    }

    /// The stream of a handshake that has just been completed.
    pub(crate) fn established(session: SESS, stream: S) -> (made: Self)
        ensures
            made.session() == session,
            made.transport() == stream,
    {
        TlsStream { inner: TlsStreamInner { session, stream } }
    }

    /// The transport, to use directly.
    pub fn get_mut(&mut self) -> (transport: &mut S)
        ensures
            *transport == old(self).transport(),
            final(self).transport() == *final(transport),
            final(self).session() == old(self).session(),
    {
        &mut self.inner.stream
    }

    /// The transport.
    pub fn get_ref(&self) -> (transport: &S)
        ensures
            *transport == self.transport(),
    {
        &self.inner.stream
    }

    /// The session, to use directly.
    pub fn get_session_mut(&mut self) -> (session: &mut SESS)
        ensures
            *session == old(self).session(),
            final(self).session() == *final(session),
            final(self).transport() == old(self).transport(),
    {
        &mut self.inner.session
    }

    /// The session.
    pub fn get_session_ref(&self) -> (session: &SESS)
        ensures
            *session == self.session(),
    {
        &self.inner.session
    }

    /// Whether `pass` may be run on the session and the transport of `self`.
    pub open spec fn admits<R, F: FnOnce(&mut SESS, &mut S) -> R>(self, pass: F) -> bool {
        forall|session: &mut SESS, transport: &mut S|
            *session == self.session() && *transport == self.transport() ==> #[trigger] call_requires(
                pass,
                (session, transport),
            )
    }

    /// Whether `touch` may be run on the transport of `self`.
    pub open spec fn transport_admits<T, G: FnOnce(&mut S) -> T>(self, touch: G) -> bool {
        forall|transport: &mut S|
            *transport == self.transport() ==> #[trigger] call_requires(touch, (transport,))
    }

    /// One plaintext-extraction pass: `read_record` is run once on the
    /// session and the transport. Would-block suspends the read. A clean end
    /// of stream is answered as zero bytes, whether the engine reports it as
    /// a count of zero or as an error that reads as a received close
    /// notification; only an error of the connection-aborted kind can read
    /// so. Every other count and every other error are handed on as reported.
    /// One resume is one step of `record_run`.
    pub fn poll_read<F>(&mut self, read_record: F) -> (polled: Polled<
        Result<usize, std::io::Error>,
    >)
        where F: FnOnce(&mut SESS, &mut S) -> Result<usize, std::io::Error>
        requires
            old(self).admits(read_record),
        ensures
            exists|
                session: &mut SESS,
                transport: &mut S,
                report: Result<usize, std::io::Error>,
                closed: bool,
            |
                {
                    &&& *session == old(self).session()
                    &&& *transport == old(self).transport()
                    &&& #[trigger] call_ensures(read_record, (session, transport), report)
                    &&& final(self).session() == *final(session)
                    &&& final(self).transport() == *final(transport)
                    &&& closed ==> report is Err && kind_of(report->Err_0) is ConnectionAborted
                    &&& #[trigger] read_answer(report, closed) == polled
                    &&& record_run(
                        old(self).session(),
                        old(self).transport(),
                        one_pass(pass(*final(session), *final(transport), report)),
                    ) == (
                        (final(self).session(), final(self).transport()),
                        if polled is Pending {
                            None
                        } else {
                            Some(pass(*final(session), *final(transport), report))
                        },
                    )
                },
    {
        let ghost given = (self.session(), self.transport());
        let report = read_record(&mut self.inner.session, &mut self.inner.stream);
        proof {
            lemma_one_resume_of_a_record(
                given.0,
                given.1,
                pass(self.inner.session, self.inner.stream, report),
            );
        }
        let closed = match &report {
            Ok(_) => false,
            Err(e) => close_notified(e),
        };
        read_report(report, closed)
    }

    /// One encryption pass: `write_record` is run once on the session and the
    /// transport. Would-block suspends the write; the count of plaintext
    /// bytes that the engine accepted and every other error are handed on as
    /// reported.
    pub fn poll_write<F>(&mut self, write_record: F) -> (polled: Polled<
        Result<usize, std::io::Error>,
    >)
        where F: FnOnce(&mut SESS, &mut S) -> Result<usize, std::io::Error>
        requires
            old(self).admits(write_record),
        ensures
            exists|session: &mut SESS, transport: &mut S, report: Result<usize, std::io::Error>|
                {
                    &&& *session == old(self).session()
                    &&& *transport == old(self).transport()
                    &&& #[trigger] call_ensures(write_record, (session, transport), report)
                    &&& final(self).session() == *final(session)
                    &&& final(self).transport() == *final(transport)
                    &&& polled == poll_of(report)
                    &&& record_run(
                        old(self).session(),
                        old(self).transport(),
                        one_pass(pass(*final(session), *final(transport), report)),
                    ) == (
                        (final(self).session(), final(self).transport()),
                        if polled is Pending {
                            None
                        } else {
                            Some(pass(*final(session), *final(transport), report))
                        },
                    )
                },
    {
        let ghost given = (self.session(), self.transport());
        let report = write_record(&mut self.inner.session, &mut self.inner.stream);
        proof {
            lemma_one_resume_of_a_record(
                given.0,
                given.1,
                pass(self.inner.session, self.inner.stream, report),
            );
        }
        poll_report(report)
    }

    /// Flushes in two steps. `send_pending` is run once and sends what
    /// ciphertext the engine still holds; would-block suspends the flush and
    /// any other error ends it, and in both cases the transport's own flush is
    /// not attempted. Once the engine has sent everything, `flush_transport`
    /// is run once and its answer is the answer of the flush; it need only be
    /// able to run on a transport that a successful send has left.
    pub fn poll_flush<F, G>(&mut self, send_pending: F, flush_transport: G) -> (polled: Polled<
        Result<(), std::io::Error>,
    >)
        where
            F: FnOnce(&mut SESS, &mut S) -> Result<(), std::io::Error>,
            G: FnOnce(&mut S) -> Polled<Result<(), std::io::Error>>,
        requires
            old(self).admits(send_pending),
            forall|
                session: &mut SESS,
                transport: &mut S,
                sent: Result<(), std::io::Error>,
                flushed: &mut S,
            |
                *session == old(self).session() && *transport == old(self).transport()
                    && #[trigger] call_ensures(send_pending, (session, transport), sent)
                    && sent is Ok && *flushed == *final(transport) ==> #[trigger] call_requires(
                    flush_transport,
                    (flushed,),
                ),
        ensures
            exists|session: &mut SESS, transport: &mut S, sent: Result<(), std::io::Error>|
                {
                    &&& *session == old(self).session()
                    &&& *transport == old(self).transport()
                    &&& #[trigger] call_ensures(send_pending, (session, transport), sent)
                    &&& final(self).session() == *final(session)
                    &&& if sent is Ok {
                        exists|flushed: &mut S|
                            {
                                &&& *flushed == *final(transport)
                                &&& #[trigger] call_ensures(flush_transport, (flushed,), polled)
                                &&& final(self).transport() == *final(flushed)
                            }
                    } else {
                        &&& final(self).transport() == *final(transport)
                        &&& polled == poll_of(sent)
                        &&& record_run(
                            old(self).session(),
                            old(self).transport(),
                            one_pass(pass(*final(session), *final(transport), sent)),
                        ) == (
                            (final(self).session(), final(self).transport()),
                            if polled is Pending {
                                None
                            } else {
                                Some(pass(*final(session), *final(transport), sent))
                            },
                        )
                    }
                },
    {
        let ghost given = (self.session(), self.transport());
        let sent = send_pending(&mut self.inner.session, &mut self.inner.stream);
        proof {
            lemma_one_resume_of_a_record(
                given.0,
                given.1,
                pass(self.inner.session, self.inner.stream, sent),
            );
        }
        match poll_report(sent) {
            Polled::Ready(Ok(())) => flush_transport(&mut self.inner.stream),
            settled => settled,
        }
    }

    /// Closes the transport: `close_transport` is run once on it and its
    /// answer is the answer of the close. The session is not involved, so no
    /// close notification is sent on the stream's behalf; a caller that wants
    /// one sends it through the session before closing.
    pub fn poll_close<G>(&mut self, close_transport: G) -> (polled: Polled<
        Result<(), std::io::Error>,
    >)
        where G: FnOnce(&mut S) -> Polled<Result<(), std::io::Error>>
        requires
            old(self).transport_admits(close_transport),
        ensures
            final(self).session() == old(self).session(),
            exists|transport: &mut S|
                {
                    &&& *transport == old(self).transport()
                    &&& #[trigger] call_ensures(close_transport, (transport,), polled)
                    &&& final(self).transport() == *final(transport)
                },
    {
        close_transport(&mut self.inner.stream)
    }
}

} // verus!
