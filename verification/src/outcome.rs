//! Results of single attempts: what a blocking-style engine reports after one
//! pass over a non-blocking transport, and what a cooperative caller is told.

use vstd::prelude::*;

verus! {

/// `std::io::Error`, carried as it is: the library looks at nothing in it but
/// its kind and, for a read, the text that it displays.
#[verifier::external_type_specification]
#[verifier::external_body]
pub struct ExIoError(std::io::Error);

/// The kinds of error that the library tells apart.
pub enum FailureKind {
    /// No progress was possible right now; the same operation should be
    /// tried again later.
    WouldBlock,
    /// The connection was ended from the other side.
    ConnectionAborted,
    /// Any other kind.
    Other,
}

/// The kind that an error carries, as far as the library tells kinds apart.
pub uninterp spec fn kind_of(e: std::io::Error) -> FailureKind;

/// `std::io::Error::kind`: the kind that the error carries, told apart as far
/// as the library needs it.
#[verifier::external_body]
pub(crate) fn error_kind(e: &std::io::Error) -> (kind: FailureKind)
    ensures
        kind == kind_of(*e),
{
    match e.kind() {
        std::io::ErrorKind::WouldBlock => FailureKind::WouldBlock,
        std::io::ErrorKind::ConnectionAborted => FailureKind::ConnectionAborted,
        _ => FailureKind::Other,
    }
}

/// `Display` for `std::io::Error`: the text that the error displays right
/// now. The text may come from the operating system or from whoever made the
/// error, so nothing is claimed of it.
#[verifier::external_body]
pub(crate) fn error_text(e: &std::io::Error) -> (text: String) {
    format!("{}", e)
}

/// `std::io::Error::from(ErrorKind::WouldBlock)`: a new error whose kind is
/// would-block.
#[verifier::external_body]
pub(crate) fn would_block_error() -> (e: std::io::Error)
    ensures
        is_would_block(e),
{
    std::io::Error::from(std::io::ErrorKind::WouldBlock)
}

/// Whether an error carries the would-block kind: the signal that no progress
/// was possible right now and the same operation should be tried again later.
pub open spec fn is_would_block(e: std::io::Error) -> bool {
    kind_of(e) is WouldBlock
}

/// Whether a kind and a text are those of the engine's report that the peer
/// has sent its close notification and all plaintext before it has been read.
pub open spec fn close_named(kind: FailureKind, text: Seq<char>) -> bool {
    kind is ConnectionAborted && text == "CloseNotify alert received"@
}

/// Tells whether a kind and a text are those of the engine's report of a
/// received close notification.
pub fn names_close(kind: FailureKind, text: &str) -> (b: bool)
    ensures
        b == close_named(kind, text@),
{
    match kind {
        FailureKind::ConnectionAborted => {
            let given = text.to_owned();
            let engines = "CloseNotify alert received".to_owned();
            given == engines
        },
        _ => false,
    }
}

/// Tells whether an error carries the would-block kind.
pub(crate) fn kind_is_would_block(e: &std::io::Error) -> (b: bool)
    ensures
        b == is_would_block(*e),
{
    match error_kind(e) {
        FailureKind::WouldBlock => true,
        _ => false,
    }
}

/// Tells whether an error reads as the engine's report of a received close
/// notification: its kind is connection-aborted and the text that it displays
/// is the engine's. Only an error of that kind is asked for its text.
pub fn close_notified(e: &std::io::Error) -> (closed: bool)
    ensures
        closed ==> kind_of(*e) is ConnectionAborted,
{
    match error_kind(e) {
        FailureKind::ConnectionAborted => {
            let text = error_text(e);
            names_close(FailureKind::ConnectionAborted, text.as_str())
        },
        _ => false,
    }
}

/// What resuming a suspendable operation once gave: its result, or nothing yet.
#[derive(Debug)]
pub enum Polled<T> {
    Ready(T),
    Pending,
}

impl<T> Polled<T> {
    /// Whether the operation finished.
    pub fn is_ready(&self) -> (b: bool)
        ensures
            b == (*self is Ready),
    {
        match self {
            Polled::Ready(_) => true,
            Polled::Pending => false,
        }
    }

    /// Whether the operation is suspended.
    pub fn is_pending(&self) -> (b: bool)
        ensures
            b == (*self is Pending),
    {
        match self {
            Polled::Ready(_) => false,
            Polled::Pending => true,
        }
    }
}

/// Whether a report asks for the operation to be suspended and resumed later.
pub open spec fn suspends<R>(report: Result<R, std::io::Error>) -> bool {
    report is Err && is_would_block(report->Err_0)
}

/// What the caller of a suspendable operation is told for a report of the
/// engine: would-block becomes a suspension and never reaches the caller;
/// success and every other error are handed on unchanged.
pub open spec fn poll_of<R>(report: Result<R, std::io::Error>) -> Polled<
    Result<R, std::io::Error>,
> {
    if suspends(report) {
        Polled::Pending
    } else {
        Polled::Ready(report)
    }
}

/// Turns the engine's report of one pass into the answer for the caller.
pub fn poll_report<R>(report: Result<R, std::io::Error>) -> (polled: Polled<
    Result<R, std::io::Error>,
>)
    ensures
        polled == poll_of(report),
{
    match report {
        Ok(done) => Polled::Ready(Ok(done)),
        Err(e) => {
            if kind_is_would_block(&e) {
                Polled::Pending
            } else {
                Polled::Ready(Err(e))
            }
        },
    }
}

/// What the caller of a read is told for a report of the engine, where
/// `closed` says whether the report read as a received close notification.
/// Such an error is a clean end of stream and is answered as zero bytes, like
/// the end of the transport's data; for every other report the answer is
/// that of `poll_of`.
pub open spec fn read_answer(report: Result<usize, std::io::Error>, closed: bool) -> Polled<
    Result<usize, std::io::Error>,
> {
    if report is Err && closed {
        Polled::Ready(Ok(0usize))
    } else {
        poll_of(report)
    }
}

/// Turns the engine's report of one read into the answer for the caller.
pub fn read_report(report: Result<usize, std::io::Error>, closed: bool) -> (polled: Polled<
    Result<usize, std::io::Error>,
>)
    ensures
        polled == read_answer(report, closed),
{
    match report {
        Ok(count) => Polled::Ready(Ok(count)),
        Err(e) => {
            if closed {
                Polled::Ready(Ok(0))
            } else {
                poll_report(Err(e))
            }
        },
    }
}

} // verus!
