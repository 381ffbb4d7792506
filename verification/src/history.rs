//! Whole extractions: an extraction after any sequence of answers, and the
//! history of the calls it made.
//!
//! [`run`] says where the extraction of a face stands after a sequence of
//! answers and which calls it made on the way. [`replay`] computes it from
//! a list of answers, and [`extract_font`] runs an extraction to its end
//! over whatever performs the calls. The other definitions read a history:
//! what was acquired, what was given back, what the data calls were
//! answered.

use crate::error::ApiCall;
use crate::exchange::{
    acquired_by, is_acquire, released_by, OsReply, OsReplyView, OsRequest, OsRequestView,
};
use crate::handle::Resource;
use crate::reader::{size_answer_spec, SizeAnswer};
use crate::session::{
    lemma_step_uses_up_calls, start_spec, Extraction, Progress, ProgressView, Report, ReportView,
};
use vstd::prelude::*;

verus! {

/// One call as it happened: what was asked, and what was answered.
pub struct Exchange {
    pub request: OsRequestView,
    pub reply: OsReplyView,
}

/// An extraction after some answers.
pub struct Run {
    /// Where the extraction stands.
    pub progress: ProgressView,
    /// The calls made so far, oldest first.
    pub history: Seq<Exchange>,
}

/// The extraction of `face_name` after the answers `replies`, each given to
/// the request that was outstanding when it came. Answers that come after
/// the extraction is over are not taken: nothing was asked.
pub open spec fn run(face_name: Seq<char>, replies: Seq<OsReplyView>) -> Run
    decreases replies.len(),
{
    if replies.len() == 0 {
        Run { progress: ProgressView::Continue(start_spec(face_name)), history: Seq::empty() }
    } else {
        let before = run(face_name, replies.drop_last());
        match before.progress {
            ProgressView::Continue(extraction) => Run {
                progress: extraction.step(replies.last()),
                history: before.history.push(
                    Exchange { request: extraction.request(), reply: replies.last() },
                ),
            },
            ProgressView::Finished(_) => before,
        }
    }
}

/// The resources that the calls of `history` obtained, in the order in which
/// they were obtained.
pub open spec fn acquired(history: Seq<Exchange>) -> Seq<Resource>
    decreases history.len(),
{
    if history.len() == 0 {
        Seq::empty()
    } else {
        let earlier = acquired(history.drop_last());
        match acquired_by(history.last().request, history.last().reply) {
            Some(resource) => earlier.push(resource),
            None => earlier,
        }
    }
}

/// The resources that the calls of `history` gave back, in the order in
/// which they were given back. A resource counts as given back once the
/// call was made, whatever the operating system said to it.
pub open spec fn released(history: Seq<Exchange>) -> Seq<Resource>
    decreases history.len(),
{
    if history.len() == 0 {
        Seq::empty()
    } else {
        let earlier = released(history.drop_last());
        match released_by(history.last().request) {
            Some(resource) => earlier.push(resource),
            None => earlier,
        }
    }
}

/// The number of calls in `history` that ask for a resource.
pub open spec fn acquire_calls(history: Seq<Exchange>) -> nat
    decreases history.len(),
{
    if history.len() == 0 {
        0
    } else {
        acquire_calls(history.drop_last()) + if is_acquire(history.last().request) {
            1nat
        } else {
            0nat
        }
    }
}

/// The number of calls in `history` that give a resource back.
pub open spec fn release_calls(history: Seq<Exchange>) -> nat
    decreases history.len(),
{
    if history.len() == 0 {
        0
    } else {
        release_calls(history.drop_last()) + if released_by(history.last().request) is Some {
            1nat
        } else {
            0nat
        }
    }
}

/// Whether every call of `history` that asked for a resource obtained it.
pub open spec fn every_acquire_succeeded(history: Seq<Exchange>) -> bool {
    forall|i: int|
        0 <= i < history.len() && is_acquire(#[trigger] history[i].request) ==> acquired_by(
            history[i].request,
            history[i].reply,
        ) is Some
}

/// What the size queries of `history` were answered, in their order.
pub open spec fn size_answers(history: Seq<Exchange>) -> Seq<SizeAnswer>
    decreases history.len(),
{
    if history.len() == 0 {
        Seq::empty()
    } else {
        let earlier = size_answers(history.drop_last());
        if history.last().request is QueryFontDataSize {
            earlier.push(size_answer_spec(history.last().reply))
        } else {
            earlier
        }
    }
}

/// The answers that the fill calls of `history` got, in their order.
pub open spec fn fill_answers(history: Seq<Exchange>) -> Seq<OsReplyView>
    decreases history.len(),
{
    if history.len() == 0 {
        Seq::empty()
    } else {
        let earlier = fill_answers(history.drop_last());
        if history.last().request is FillFontData {
            earlier.push(history.last().reply)
        } else {
            earlier
        }
    }
}

/// The call that `request` makes, where its failure would end the
/// extraction.
pub open spec fn call_of(request: OsRequestView) -> Option<ApiCall> {
    match request {
        OsRequestView::CreateContext => Some(ApiCall::CreateContext),
        OsRequestView::CreateFont { .. } => Some(ApiCall::CreateFont),
        OsRequestView::SelectFont { .. } => Some(ApiCall::SelectFont),
        OsRequestView::QueryFontDataSize { .. } => Some(ApiCall::GetFontDataSize),
        OsRequestView::FillFontData { .. } => Some(ApiCall::GetFontDataFill),
        _ => None,
    }
}

/// The calls of `history` whose failure would end the extraction, in their
/// order.
pub open spec fn calls_made(history: Seq<Exchange>) -> Seq<ApiCall>
    decreases history.len(),
{
    if history.len() == 0 {
        Seq::empty()
    } else {
        let earlier = calls_made(history.drop_last());
        match call_of(history.last().request) {
            Some(call) => earlier.push(call),
            None => earlier,
        }
    }
}

/// The calls of a whole extraction, in the order in which it makes them.
pub open spec fn calls_in_order() -> Seq<ApiCall> {
    seq![
        ApiCall::CreateContext,
        ApiCall::CreateFont,
        ApiCall::SelectFont,
        ApiCall::GetFontDataSize,
        ApiCall::GetFontDataFill,
    ]
}

/// The call made last in `history`.
pub open spec fn last_call(history: Seq<Exchange>) -> Option<ApiCall> {
    if history.len() == 0 {
        None
    } else {
        call_of(history.last().request)
    }
}

/// The error codes that were read in `history`, each with the call that
/// was made just before the reading.
pub open spec fn errors_read(history: Seq<Exchange>) -> Seq<(Option<ApiCall>, i32)>
    decreases history.len(),
{
    if history.len() == 0 {
        Seq::empty()
    } else {
        let earlier = errors_read(history.drop_last());
        if history.last().request is LastError {
            earlier.push((last_call(history.drop_last()), history.last().reply.error_code()))
        } else {
            earlier
        }
    }
}

/// The resources that the calls of `history` tried to give back and the
/// operating system did not take, in the order of the attempts.
pub open spec fn refused(history: Seq<Exchange>) -> Seq<Resource>
    decreases history.len(),
{
    if history.len() == 0 {
        Seq::empty()
    } else {
        let earlier = refused(history.drop_last());
        match released_by(history.last().request) {
            Some(resource) => if history.last().reply.release_succeeded() {
                earlier
            } else {
                earlier.push(resource)
            },
            None => earlier,
        }
    }
}

/// An extraction played through a list of answers.
#[derive(Debug, PartialEq, Eq)]
pub struct Replay {
    /// Where the extraction stands after the answers.
    pub progress: Progress,
    /// The requests that the answers were given to, oldest first.
    pub requests: Vec<OsRequest>,
}

/// The answers `replies`, over sequences.
pub open spec fn replies_view(replies: Seq<OsReply>) -> Seq<OsReplyView> {
    replies.map_values(|reply: OsReply| reply@)
}

/// Plays the extraction of `face_name` through the answers `replies`: each
/// answer is given to the request that is outstanding when its turn comes.
/// Answers that are left when the extraction is over are dropped.
pub fn replay(face_name: &str, replies: Vec<OsReply>) -> (played: Replay)
    ensures
        played.progress@ == run(face_name@, replies_view(replies@)).progress,
        played.requests@.len() == run(face_name@, replies_view(replies@)).history.len(),
        forall|i: int|
            0 <= i < played.requests@.len() ==> (#[trigger] played.requests@[i])@ == run(
                face_name@,
                replies_view(replies@),
            ).history[i].request,
{
    let ghost answers = replies_view(replies@);
    let mut progress = Progress::Continue(Extraction::start(face_name));
    let mut requests: Vec<OsRequest> = Vec::new();
    for reply in iter: replies
        invariant
            iter.seq() == replies@,
            answers == replies_view(replies@),
            progress@ == run(face_name@, answers.take(iter.index() as int)).progress,
            requests@.len() == run(face_name@, answers.take(iter.index() as int)).history.len(),
            forall|i: int|
                0 <= i < requests@.len() ==> (#[trigger] requests@[i])@ == run(
                    face_name@,
                    answers.take(iter.index() as int),
                ).history[i].request,
    {
        assert(answers.take(iter.index() + 1).drop_last() =~= answers.take(iter.index() as int));
        progress = match progress {
            Progress::Continue(extraction) => {
                requests.push(extraction.request());
                extraction.advance(reply)
            },
            Progress::Finished(report) => Progress::Finished(report),
        };
    }
    assert(answers.take(replies@.len() as int) =~= answers);
    Replay { progress, requests }
}

/// Whether `requests` and `answers` are the calls of the extraction of
/// `face_name` that `perform` made and that ended in `report`: each request
/// is the one that was outstanding when its turn came, each answer is one
/// that `perform` gave to it, and after the last answer the extraction is
/// over with `report`.
pub open spec fn is_transcript<F: Fn(OsRequest) -> OsReply>(
    perform: F,
    face_name: Seq<char>,
    requests: Seq<OsRequest>,
    answers: Seq<OsReply>,
    report: ReportView,
) -> bool {
    let r = run(face_name, replies_view(answers));
    &&& r.progress == ProgressView::Finished(report)
    &&& r.history.len() == answers.len()
    &&& requests.len() == answers.len()
    &&& forall|i: int|
        0 <= i < requests.len() ==> (#[trigger] requests[i])@ == r.history[i].request
    &&& forall|i: int|
        0 <= i < requests.len() ==> call_ensures(perform, (requests[i],), #[trigger] answers[i])
}

/// Extracts the data of the face `face_name`: hands each request of the
/// extraction to `perform` and takes what it returns for the answer, until
/// the extraction is over. That is after nine calls at the latest, whatever
/// `perform` returns; by then everything that was acquired has been asked
/// back, last acquired first.
///
/// `perform` must take every request: the extraction asks what it needs,
/// not what `perform` would like to be asked.
pub fn extract_font<F: Fn(OsRequest) -> OsReply>(face_name: &str, perform: F) -> (report: Report)
    requires
        forall|request: OsRequest| call_requires(perform, (request,)),
    ensures
        exists|requests: Seq<OsRequest>, answers: Seq<OsReply>| #[trigger]
            is_transcript(perform, face_name@, requests, answers, report@),
{
    let mut extraction = Extraction::start(face_name);
    let ghost mut requests: Seq<OsRequest> = Seq::empty();
    let ghost mut answers: Seq<OsReply> = Seq::empty();
    loop
        invariant
            forall|request: OsRequest| call_requires(perform, (request,)),
            run(face_name@, replies_view(answers)).progress == ProgressView::Continue(
                extraction@,
            ),
            run(face_name@, replies_view(answers)).history.len() == answers.len(),
            requests.len() == answers.len(),
            forall|i: int|
                0 <= i < requests.len() ==> (#[trigger] requests[i])@ == run(
                    face_name@,
                    replies_view(answers),
                ).history[i].request,
            forall|i: int|
                0 <= i < requests.len() ==> call_ensures(
                    perform,
                    (requests[i],),
                    #[trigger] answers[i],
                ),
        decreases ProgressView::Continue(extraction@).calls_left(),
    {
        let request = extraction.request();
        let ghost asked = request;
        let reply = perform(request);
        proof {
            let before = answers;
            requests = requests.push(asked);
            answers = answers.push(reply);
            assert(replies_view(answers).drop_last() =~= replies_view(before));
            lemma_step_uses_up_calls(extraction@, reply@);
        }
        match extraction.advance(reply) {
            Progress::Continue(next) => {
                extraction = next;
            },
            Progress::Finished(report) => {
                assert(is_transcript(perform, face_name@, requests, answers, report@));
                return report;
            },
        }
    }
}

} // verus!
