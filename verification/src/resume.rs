//! Suspension and resumption as a whole: what repeated resumes of one
//! operation add up to, compared with a caller that simply blocks.

use vstd::prelude::*;
use crate::handshake::{answers, state_after, DriverState};
use crate::outcome::{kind_of, poll_of, read_answer, suspends, Polled};
use crate::shim::seen_by_engine;
use crate::stream::TlsStream;

verus! {

/// What one pass of the engine over the transport left behind and reported.
pub struct Pass<SESS, S, R> {
    pub session: SESS,
    pub transport: S,
    pub report: Result<R, std::io::Error>,
}

/// How a blocking caller would run the passes: back to back, each on what the
/// one before left, until one reports something other than would-block or
/// none is left. The result is the last pass made.
pub open spec fn blocking_run<SESS, S, R>(
    session: SESS,
    transport: S,
    passes: Seq<spec_fn(SESS, S) -> Pass<SESS, S, R>>,
) -> Pass<SESS, S, R>
    recommends
        passes.len() > 0,
    decreases passes.len(),
{
    let first = passes[0](session, transport);
    if passes.len() <= 1 || !suspends(first.report) {
        first
    } else {
        blocking_run(first.session, first.transport, passes.drop_first())
    }
}

/// The handshake driver resumed once per pass, for as long as it is
/// handshaking: each resume hands the driver's parts to the pass and settles
/// on what the pass left and reported. The result is the driver's last state
/// and, where a resume gave an answer other than "pending", the pass that was
/// answered.
pub open spec fn driver_run<SESS, S, R>(
    state: DriverState<SESS, S>,
    passes: Seq<spec_fn(SESS, S) -> Pass<SESS, S, R>>,
) -> (DriverState<SESS, S>, Option<Pass<SESS, S, R>>)
    decreases passes.len(),
{
    if passes.len() == 0 {
        (state, None)
    } else {
        match state {
            DriverState::Exhausted => (state, None),
            DriverState::Handshaking { session, transport } => {
                let made = passes[0](session, transport);
                let next = state_after(made.session, made.transport, made.report);
                if next is Handshaking {
                    driver_run(next, passes.drop_first())
                } else {
                    (next, Some(made))
                }
            },
        }
    }
}

/// A read, write or flush resumed once per pass, for as long as it is
/// suspended: each resume runs the pass on the session and the transport
/// that the stream holds, and the stream keeps what the pass left. The result
/// is what the stream holds in the end and, where a resume gave an answer
/// other than "pending", the pass that was answered.
pub open spec fn record_run<SESS, S, R>(
    session: SESS,
    transport: S,
    passes: Seq<spec_fn(SESS, S) -> Pass<SESS, S, R>>,
) -> ((SESS, S), Option<Pass<SESS, S, R>>)
    decreases passes.len(),
{
    if passes.len() == 0 {
        ((session, transport), None)
    } else {
        let made = passes[0](session, transport);
        if suspends(made.report) {
            record_run(made.session, made.transport, passes.drop_first())
        } else {
            ((made.session, made.transport), Some(made))
        }
    }
}

/// A pass as what it left and reported.
pub open spec fn pass<SESS, S, R>(
    session: SESS,
    transport: S,
    report: Result<R, std::io::Error>,
) -> Pass<SESS, S, R> {
    Pass { session, transport, report }
}

/// The passes of one resume whose pass is known by what it left and
/// reported.
pub open spec fn one_pass<SESS, S, R>(made: Pass<SESS, S, R>) -> Seq<
    spec_fn(SESS, S) -> Pass<SESS, S, R>,
> {
    seq![|session: SESS, transport: S| made]
}

/// One resume of the driver is one step of its run: the driver is left as
/// the report decides, and the pass is answered unless it is suspended.
pub proof fn lemma_one_resume_of_the_driver<SESS, S, R>(
    session: SESS,
    transport: S,
    made: Pass<SESS, S, R>,
)
    ensures
        driver_run(DriverState::Handshaking { session, transport }, one_pass(made)) == (
            state_after(made.session, made.transport, made.report),
            if suspends(made.report) {
                None
            } else {
                Some(made)
            },
        ),
{
    let passes = one_pass(made);
    let next = state_after(made.session, made.transport, made.report);
    assert(passes[0](session, transport) == made);
    if suspends(made.report) {
        assert(passes.drop_first().len() == 0);
        assert(driver_run(next, passes.drop_first()) == (next, None::<Pass<SESS, S, R>>));
    }
}

/// One resume of a record operation is one step of its run: the stream keeps
/// what the pass left, and the pass is answered unless it is suspended.
pub proof fn lemma_one_resume_of_a_record<SESS, S, R>(
    session: SESS,
    transport: S,
    made: Pass<SESS, S, R>,
)
    ensures
        record_run(session, transport, one_pass(made)) == (
            (made.session, made.transport),
            if suspends(made.report) {
                None
            } else {
                Some(made)
            },
        ),
{
    let passes = one_pass(made);
    assert(passes[0](session, transport) == made);
    if suspends(made.report) {
        assert(passes.drop_first().len() == 0);
        assert(record_run(made.session, made.transport, passes.drop_first()) == (
            (made.session, made.transport),
            None::<Pass<SESS, S, R>>,
        ));
    }
}

/// Runs of the driver add up: resumes over some passes and then over more
/// are the run over all of them. Once a pass has been answered the driver is
/// exhausted and no later pass is made.
pub proof fn lemma_driver_runs_add_up<SESS, S, R>(
    state: DriverState<SESS, S>,
    first: Seq<spec_fn(SESS, S) -> Pass<SESS, S, R>>,
    rest: Seq<spec_fn(SESS, S) -> Pass<SESS, S, R>>,
)
    ensures
        driver_run(state, first + rest) == ({
            let so_far = driver_run(state, first);
            if so_far.1 is Some {
                so_far
            } else {
                driver_run(so_far.0, rest)
            }
        }),
    decreases first.len(),
{
    if first.len() == 0 {
        assert(first + rest =~= rest);
    } else {
        let all = first + rest;
        assert(all[0] == first[0]);
        assert(all.drop_first() =~= first.drop_first() + rest);
        match state {
            DriverState::Exhausted => {
                assert(driver_run(state, rest) == (state, None::<Pass<SESS, S, R>>));
            },
            DriverState::Handshaking { session, transport } => {
                let made = first[0](session, transport);
                let next = state_after(made.session, made.transport, made.report);
                if next is Handshaking {
                    lemma_driver_runs_add_up(next, first.drop_first(), rest);
                }
            },
        }
    }
}

/// Runs of a record operation add up: resumes over some passes and then over
/// more are the run over all of them, for as long as no pass was answered.
pub proof fn lemma_record_runs_add_up<SESS, S, R>(
    session: SESS,
    transport: S,
    first: Seq<spec_fn(SESS, S) -> Pass<SESS, S, R>>,
    rest: Seq<spec_fn(SESS, S) -> Pass<SESS, S, R>>,
)
    ensures
        record_run(session, transport, first + rest) == ({
            let so_far = record_run(session, transport, first);
            if so_far.1 is Some {
                so_far
            } else {
                record_run(so_far.0.0, so_far.0.1, rest)
            }
        }),
    decreases first.len(),
{
    if first.len() == 0 {
        assert(first + rest =~= rest);
    } else {
        let all = first + rest;
        assert(all[0] == first[0]);
        assert(all.drop_first() =~= first.drop_first() + rest);
        let made = first[0](session, transport);
        if suspends(made.report) {
            lemma_record_runs_add_up(made.session, made.transport, first.drop_first(), rest);
        }
    }
}

/// A handshake that is suspended and resumed any number of times ends as the
/// same passes would have ended for a caller that blocks. While every pass
/// reports would-block the driver stays in the handshake and holds exactly
/// what the last pass left; the first other report is the one it answers, and
/// it answers it once.
pub proof fn lemma_handshake_resumes_like_blocking<SESS, S, R>(
    session: SESS,
    transport: S,
    passes: Seq<spec_fn(SESS, S) -> Pass<SESS, S, R>>,
)
    requires
        passes.len() > 0,
    ensures
        ({
            let last = blocking_run(session, transport, passes);
            let resumed = driver_run(DriverState::Handshaking { session, transport }, passes);
            if suspends(last.report) {
                resumed == (
                    DriverState::Handshaking { session: last.session, transport: last.transport },
                    None::<Pass<SESS, S, R>>,
                )
            } else {
                resumed == (DriverState::<SESS, S>::Exhausted, Some(last))
            }
        }),
    decreases passes.len(),
{
    let first = passes[0](session, transport);
    let rest = passes.drop_first();
    let next = state_after(first.session, first.transport, first.report);
    if suspends(first.report) {
        assert(driver_run(DriverState::Handshaking { session, transport }, passes) == driver_run(
            next,
            rest,
        ));
        if passes.len() > 1 {
            lemma_handshake_resumes_like_blocking(first.session, first.transport, rest);
        } else {
            assert(driver_run(next, rest) == (next, None::<Pass<SESS, S, R>>));
        }
    }
}

/// A read, write or flush that is suspended and resumed any number of times
/// ends as the same passes would have ended for a caller that blocks: the
/// stream holds what the last pass left, and the pass that is answered is
/// the first that reports anything but would-block.
pub proof fn lemma_record_resumes_like_blocking<SESS, S, R>(
    session: SESS,
    transport: S,
    passes: Seq<spec_fn(SESS, S) -> Pass<SESS, S, R>>,
)
    requires
        passes.len() > 0,
    ensures
        ({
            let last = blocking_run(session, transport, passes);
            record_run(session, transport, passes) == (
                (last.session, last.transport),
                if suspends(last.report) {
                    None
                } else {
                    Some(last)
                },
            )
        }),
    decreases passes.len(),
{
    let first = passes[0](session, transport);
    let rest = passes.drop_first();
    if suspends(first.report) {
        if passes.len() > 1 {
            lemma_record_resumes_like_blocking(first.session, first.transport, rest);
        } else {
            assert(record_run(first.session, first.transport, rest) == (
                (first.session, first.transport),
                None::<Pass<SESS, S, R>>,
            ));
        }
    }
}

/// The driver yields a stream exactly when the pass reported the handshake
/// complete, and the stream is made of what that pass left; it suspends
/// exactly on would-block.
pub proof fn lemma_stream_only_on_completion<SESS, S, R>(
    polled: Polled<Result<TlsStream<SESS, S>, std::io::Error>>,
    session: SESS,
    transport: S,
    report: Result<R, std::io::Error>,
)
    requires
        answers(polled, session, transport, report),
    ensures
        polled is Pending <==> suspends(report),
        report is Ok <==> (polled matches Polled::Ready(Ok(_))),
        polled matches Polled::Ready(Ok(stream)) ==> stream.session() == session
            && stream.transport() == transport,
        state_after(session, transport, report) is Handshaking <==> polled is Pending,
{
}

/// The driver's answer is fixed by what the pass left and reported: two
/// answers to the same pass are the same answer.
pub proof fn lemma_answer_is_determined<SESS, S, R>(
    one: Polled<Result<TlsStream<SESS, S>, std::io::Error>>,
    other: Polled<Result<TlsStream<SESS, S>, std::io::Error>>,
    session: SESS,
    transport: S,
    report: Result<R, std::io::Error>,
)
    requires
        answers(one, session, transport, report),
        answers(other, session, transport, report),
    ensures
        one == other,
{
    if report is Ok {
        TlsStream::lemma_same_parts_same_stream(
            one->Ready_0->Ok_0,
            other->Ready_0->Ok_0,
        );
    }
}

/// A report of success is handed on as it is, whatever count it carries,
/// and the answer depends on nothing but the report.
pub proof fn lemma_success_is_handed_on<R>(report: Result<R, std::io::Error>)
    requires
        report is Ok,
    ensures
        poll_of(report) == Polled::Ready(report),
{
}

/// A clean end of stream reads as zero bytes, never as an error or a
/// suspension: so it is where the engine reports a count of zero, at the end
/// of the transport's data, and so it is where its report reads as the
/// peer's close notification.
pub proof fn lemma_end_of_stream_reads_zero(report: Result<usize, std::io::Error>, closed: bool)
    requires
        report == Ok::<usize, std::io::Error>(0usize) || (report is Err && closed),
    ensures
        read_answer(report, closed) == Polled::Ready(Ok::<usize, std::io::Error>(0usize)),
{
}

/// The answer to a read depends on nothing but the report of that read: the
/// stream keeps no memory of earlier reads. So for as long as the engine
/// reports the end of the stream, every read is answered as zero bytes,
/// however often it is repeated.
pub proof fn lemma_end_of_stream_stays(
    reports: Seq<Result<usize, std::io::Error>>,
    closed: Seq<bool>,
)
    requires
        reports.len() == closed.len(),
        forall|i: int|
            0 <= i < reports.len() ==> #[trigger] reports[i] == Ok::<usize, std::io::Error>(0usize)
                || (reports[i] is Err && closed[i]),
    ensures
        forall|i: int|
            0 <= i < reports.len() ==> #[trigger] read_answer(reports[i], closed[i])
                == Polled::Ready(Ok::<usize, std::io::Error>(0usize)),
{
    assert forall|i: int| 0 <= i < reports.len() implies #[trigger] read_answer(
        reports[i],
        closed[i],
    ) == Polled::Ready(Ok::<usize, std::io::Error>(0usize)) by {
        lemma_end_of_stream_reads_zero(reports[i], closed[i]);
    }
}

/// A read is suspended exactly when any other operation would be, and apart
/// from the close notification it is answered as any other operation: a
/// count is handed on as it is, and so is every other error.
pub proof fn lemma_read_answers_like_any_report(
    report: Result<usize, std::io::Error>,
    closed: bool,
)
    requires
        closed ==> report is Err && kind_of(report->Err_0) is ConnectionAborted,
    ensures
        read_answer(report, closed) is Pending <==> suspends(report),
        !closed ==> read_answer(report, closed) == poll_of(report),
        read_answer(report, closed) matches Polled::Ready(Err(e)) ==> report == Err::<
            usize,
            std::io::Error,
        >(e) && !closed,
{
}

/// Would-block never reaches the caller and nothing else is held back: the
/// answer is "pending" exactly for a would-block report, and any other report
/// is the answer.
pub proof fn lemma_only_would_block_suspends<R>(report: Result<R, std::io::Error>)
    ensures
        poll_of(report) is Pending <==> suspends(report),
        !suspends(report) ==> poll_of(report) == Polled::Ready(report),
        poll_of(report) matches Polled::Ready(Err(e)) ==> !crate::outcome::is_would_block(e),
{
}

/// A transport that is not ready suspends the operation: the engine sees the
/// attempt as would-block, and an engine that reports what it saw is answered
/// with "pending". An attempt that finished is answered as the transport
/// ended it.
pub proof fn lemma_not_ready_suspends<T>(
    attempt: Polled<Result<T, std::io::Error>>,
    seen: Result<T, std::io::Error>,
)
    requires
        seen_by_engine(attempt, seen),
    ensures
        attempt is Pending ==> poll_of(seen) is Pending,
        attempt matches Polled::Ready(ended) ==> poll_of(seen) == poll_of(ended),
{
}

} // verus!
