//! What holds of every extraction, whatever the operating system answers.
//!
//! The theorems speak of [`run`]: of every face name and every sequence of
//! answers, well-formed or not. An extraction driven by
//! [`crate::session::Extraction::advance`] is such a run, so they hold of
//! every extraction that the library takes part in. The last theorem puts
//! them together for an extraction that
//! [`crate::history::extract_font`] ran.

use crate::error::{ApiCall, ErrorView};
use crate::exchange::{acquired_by, OsReply, OsReplyView, OsRequest, OsRequestView, GDI_ERROR};
use crate::format::sniff_spec;
use crate::handle::Resource;
use crate::history::{
    acquire_calls, acquired, calls_in_order, calls_made, errors_read, every_acquire_succeeded,
    fill_answers, is_transcript, last_call, refused, release_calls, released, replies_view, run,
    size_answers, Exchange, Run,
};
use crate::reader::{
    fill_answer_spec, lemma_fill_answer_sizes, size_answer_spec, FillAnswerView, SizeAnswer,
};
use crate::session::{
    extracted_spec, in_acquisition_order, lemma_step_holdings, lemma_step_keeps_consistent,
    lemma_step_uses_up_calls, ExtractedFontView, ProgressView, ReportView, StageView,
};
use vstd::prelude::*;

verus! {

/// At every point of every extraction, what was acquired is what is still
/// held, followed by what was given back, latest first: nothing is lost,
/// nothing is given back twice, and what is given back is always what was
/// acquired last among what is held. Nothing is given back before the
/// outcome is decided.
pub proof fn lemma_acquired_is_held_or_released(face_name: Seq<char>, replies: Seq<OsReplyView>)
    ensures
        ({
            let r = run(face_name, replies);
            &&& acquired(r.history) == r.progress.held() + released(r.history).reverse()
            &&& released(r.history).len() > 0 ==> r.progress.is_decided()
        }),
    decreases replies.len(),
{
    if replies.len() > 0 {
        let r = run(face_name, replies);
        let before = run(face_name, replies.drop_last());
        lemma_acquired_is_held_or_released(face_name, replies.drop_last());
        if let ProgressView::Continue(extraction) = before.progress {
            lemma_step_holdings(extraction, replies.last());
            assert(r.history.drop_last() =~= before.history);
        }
    }
}

/// Once an extraction is over, its resources have been given back in the
/// exact reverse of the order in which they were acquired, each of them
/// once: whether the extraction gave a font or failed, and at whatever
/// stage it failed.
pub proof fn lemma_released_in_reverse_order(face_name: Seq<char>, replies: Seq<OsReplyView>)
    requires
        run(face_name, replies).progress is Finished,
    ensures
        released(run(face_name, replies).history) == acquired(
            run(face_name, replies).history,
        ).reverse(),
        released(run(face_name, replies).history).len() == acquired(
            run(face_name, replies).history,
        ).len(),
{
    lemma_acquired_is_held_or_released(face_name, replies);
}

/// Each call that gives a resource back gives back one resource.
pub proof fn lemma_release_calls_counted(history: Seq<Exchange>)
    ensures
        release_calls(history) == released(history).len(),
    decreases history.len(),
{
    if history.len() > 0 {
        lemma_release_calls_counted(history.drop_last());
    }
}

/// Where no call that asked for a resource failed, each such call obtained
/// one resource.
pub proof fn lemma_acquire_calls_counted(history: Seq<Exchange>)
    requires
        every_acquire_succeeded(history),
    ensures
        acquire_calls(history) == acquired(history).len(),
    decreases history.len(),
{
    if history.len() > 0 {
        lemma_acquire_calls_counted(history.drop_last());
    }
}

/// Once an extraction is over in which every call for a resource obtained
/// it, as many calls gave a resource back as asked for one. (A call that
/// asks in vain obtains nothing, and nothing is owed for it.)
pub proof fn lemma_calls_balance(face_name: Seq<char>, replies: Seq<OsReplyView>)
    requires
        run(face_name, replies).progress is Finished,
        every_acquire_succeeded(run(face_name, replies).history),
    ensures
        release_calls(run(face_name, replies).history) == acquire_calls(
            run(face_name, replies).history,
        ),
{
    let history = run(face_name, replies).history;
    lemma_released_in_reverse_order(face_name, replies);
    lemma_release_calls_counted(history);
    lemma_acquire_calls_counted(history);
}

/// The number of calls that an extraction has made when it is at `stage`,
/// where the stage tells: each stage of acquiring and reading comes after
/// a fixed number of calls, and a failed call is the last that was made.
pub open spec fn calls_before(stage: StageView) -> Option<int> {
    match stage {
        StageView::Start => Some(0),
        StageView::ContextAcquired { .. } => Some(1),
        StageView::FontCreated { .. } => Some(2),
        StageView::Selected { .. } => Some(3),
        StageView::SizeQueried { .. } => Some(4),
        StageView::Failing { call, .. } => Some(calls_in_order().index_of(call) + 1),
        StageView::Unwinding { .. } => None,
    }
}

/// An extraction makes its calls in one order, each of them once at most:
/// the context, the font object, the binding, the size, the data. It makes
/// a call only after all the calls before it, and never makes a call again:
/// nothing is retried.
pub proof fn lemma_calls_in_order(face_name: Seq<char>, replies: Seq<OsReplyView>)
    ensures
        calls_made(run(face_name, replies).history).is_prefix_of(calls_in_order()),
        match run(face_name, replies).progress {
            ProgressView::Continue(extraction) => match calls_before(extraction.stage) {
                Some(n) => calls_made(run(face_name, replies).history) == calls_in_order().take(n),
                None => true,
            },
            ProgressView::Finished(_) => true,
        },
    decreases replies.len(),
{
    if replies.len() > 0 {
        let r = run(face_name, replies);
        let before = run(face_name, replies.drop_last());
        lemma_calls_in_order(face_name, replies.drop_last());
        if let ProgressView::Continue(extraction) = before.progress {
            assert(r.history.drop_last() =~= before.history);
        }
    }
}

/// Font data is asked for only under an open binding: whenever an
/// extraction waits for the answer to a data call, the binding that the
/// call was made under is held, it is what was acquired last, and nothing
/// has been given back yet.
pub proof fn lemma_data_is_read_under_open_scope(face_name: Seq<char>, replies: Seq<OsReplyView>)
    requires
        run(face_name, replies).progress matches ProgressView::Continue(extraction) && (
        extraction.request() is QueryFontDataSize || extraction.request() is FillFontData),
    ensures
        ({
            let r = run(face_name, replies);
            let request = r.progress->Continue_0.request();
            let scope = match request {
                OsRequestView::QueryFontDataSize { scope } => scope,
                OsRequestView::FillFontData { scope, .. } => scope,
                _ => arbitrary(),
            };
            &&& r.progress.held().len() == 3
            &&& r.progress.held().last() == Resource::Selection(scope)
            &&& acquired(r.history) == r.progress.held()
            &&& released(r.history).len() == 0
            &&& scope.is_valid()
        }),
{
    lemma_acquired_is_held_or_released(face_name, replies);
    lemma_run_is_consistent(face_name, replies);
}

/// An extraction makes one call for each answer it takes, and is over
/// after nine calls at the latest.
pub proof fn lemma_run_is_bounded(face_name: Seq<char>, replies: Seq<OsReplyView>)
    ensures
        run(face_name, replies).history.len() + run(face_name, replies).progress.calls_left() <= 9,
        run(face_name, replies).history.len() <= replies.len(),
        run(face_name, replies).progress is Continue ==> run(face_name, replies).history.len()
            == replies.len(),
        replies.len() >= 9 ==> run(face_name, replies).progress is Finished,
    decreases replies.len(),
{
    if replies.len() > 0 {
        let before = run(face_name, replies.drop_last());
        lemma_run_is_bounded(face_name, replies.drop_last());
        if let ProgressView::Continue(extraction) = before.progress {
            lemma_step_uses_up_calls(extraction, replies.last());
        }
    }
}

/// Once an extraction is over, further answers change nothing: neither
/// where it stands nor the calls it made.
pub proof fn lemma_answers_after_the_end_are_dropped(
    face_name: Seq<char>,
    replies: Seq<OsReplyView>,
    more: Seq<OsReplyView>,
)
    requires
        run(face_name, replies).progress is Finished,
    ensures
        run(face_name, replies + more) == run(face_name, replies),
    decreases more.len(),
{
    if more.len() == 0 {
        assert(replies + more =~= replies);
    } else {
        lemma_answers_after_the_end_are_dropped(face_name, replies, more.drop_last());
        assert((replies + more).drop_last() =~= replies + more.drop_last());
    }
}

/// Every run is consistent at every point: it holds what it acquired up to
/// its stage, in the order of acquisition, and decides only on sound
/// outcomes.
pub proof fn lemma_run_is_consistent(face_name: Seq<char>, replies: Seq<OsReplyView>)
    ensures
        run(face_name, replies).progress.is_consistent(),
    decreases replies.len(),
{
    if replies.len() > 0 {
        let before = run(face_name, replies.drop_last());
        lemma_run_is_consistent(face_name, replies.drop_last());
        if let ProgressView::Continue(extraction) = before.progress {
            lemma_step_keeps_consistent(extraction, replies.last());
        }
    }
}

/// Whether `history` explains `outcome` as the outcome of the extraction of
/// `face_name`.
///
/// A font is explained by one size query and one fill call: the query
/// announced the font's length, the fill call reported as many bytes and
/// brought the font's bytes, and the font has the format that its signature
/// announces. A font of size zero is explained by a size query that
/// announced no data, for the face that was asked for. A mismatch is
/// explained by a size query and a fill call that do not agree. The failure
/// of a call is explained by that call, made just before the one reading of
/// the error code that brought the code reported; only the failure to
/// create the font names the face. Nothing explains a failure to store the
/// font: an extraction stores nothing.
pub open spec fn explains(
    history: Seq<Exchange>,
    face_name: Seq<char>,
    outcome: Result<ExtractedFontView, ErrorView>,
) -> bool {
    match outcome {
        Ok(font) => {
            &&& 0 < font.bytes.len() < GDI_ERROR
            &&& font == extracted_spec(font.bytes)
            &&& size_answers(history) == seq![SizeAnswer::Announced(font.bytes.len() as u32)]
            &&& fill_answers(history) == seq![
                OsReplyView::Filled { written: font.bytes.len() as u32, buffer: font.bytes },
            ]
            &&& errors_read(history).len() == 0
        },
        Err(ErrorView::ZeroSizeFont { face_name: reported }) => {
            &&& reported == face_name
            &&& size_answers(history) == seq![SizeAnswer::NoData]
            &&& fill_answers(history).len() == 0
            &&& errors_read(history).len() == 0
        },
        Err(ErrorView::SizeMismatch { expected, got }) => {
            &&& expected != got
            &&& size_answers(history) == seq![SizeAnswer::Announced(expected)]
            &&& fill_answers(history).len() == 1
            &&& fill_answer_spec(expected, fill_answers(history)[0]) == (FillAnswerView::Mismatch {
                got,
            })
            &&& errors_read(history).len() == 0
        },
        Err(ErrorView::ApiFailure { call, face_name: reported, os_error_code }) => {
            &&& reported == (if call == ApiCall::CreateFont {
                Some(face_name)
            } else {
                None
            })
            &&& errors_read(history) == seq![(Some(call), os_error_code)]
        },
        Err(ErrorView::IoFailure { .. }) => false,
    }
}

/// Whether the history of a run explains where the run stands: before the
/// size is known no data call was answered and no error code read; when the
/// data is read, one size query announced the size; after a failed call,
/// that call was the last; and once the outcome is decided, the history
/// explains it.
pub open spec fn is_explained(face_name: Seq<char>, r: Run) -> bool {
    match r.progress {
        ProgressView::Continue(extraction) => match extraction.stage {
            StageView::SizeQueried { size, .. } => {
                &&& size_answers(r.history) == seq![SizeAnswer::Announced(size)]
                &&& fill_answers(r.history).len() == 0
                &&& errors_read(r.history).len() == 0
            },
            StageView::Failing { call, .. } => {
                &&& last_call(r.history) == Some(call)
                &&& errors_read(r.history).len() == 0
            },
            StageView::Unwinding { outcome, .. } => explains(r.history, face_name, outcome),
            _ => {
                &&& size_answers(r.history).len() == 0
                &&& fill_answers(r.history).len() == 0
                &&& errors_read(r.history).len() == 0
            },
        },
        ProgressView::Finished(report) => explains(r.history, face_name, report.outcome),
    }
}

/// The history of every run explains where the run stands, and the face
/// that a run is about never changes.
pub proof fn lemma_run_is_explained(face_name: Seq<char>, replies: Seq<OsReplyView>)
    ensures
        is_explained(face_name, run(face_name, replies)),
        run(face_name, replies).progress matches ProgressView::Continue(extraction)
            ==> extraction.face_name == face_name,
    decreases replies.len(),
{
    if replies.len() > 0 {
        let r = run(face_name, replies);
        let before = run(face_name, replies.drop_last());
        lemma_run_is_explained(face_name, replies.drop_last());
        if let ProgressView::Continue(extraction) = before.progress {
            let reply = replies.last();
            assert(r.history.drop_last() =~= before.history);
            match extraction.stage {
                StageView::Selected { .. } => {
                    assert(size_answers(r.history) =~= seq![size_answer_spec(reply)]);
                },
                StageView::SizeQueried { size, .. } => {
                    lemma_fill_answer_sizes(size, reply);
                    assert(fill_answers(r.history) =~= seq![reply]);
                },
                StageView::Failing { call, .. } => {
                    assert(errors_read(r.history) =~= seq![(Some(call), reply.error_code())]);
                },
                _ => {},
            }
        }
    }
}

/// Once an extraction is over, its history explains its outcome.
pub proof fn lemma_outcome_is_explained(face_name: Seq<char>, replies: Seq<OsReplyView>)
    requires
        run(face_name, replies).progress is Finished,
    ensures
        explains(
            run(face_name, replies).history,
            face_name,
            run(face_name, replies).progress->Finished_0.outcome,
        ),
{
    lemma_run_is_explained(face_name, replies);
}

/// A font that an extraction hands over has exactly as many bytes as the
/// operating system announced in answer to the one size query that was
/// made; its bytes are those that the one fill call brought; and it carries
/// the format that its signature announces.
pub proof fn lemma_font_has_announced_size(face_name: Seq<char>, replies: Seq<OsReplyView>)
    requires
        run(face_name, replies).progress matches ProgressView::Finished(report)
            && report.outcome is Ok,
    ensures
        ({
            let r = run(face_name, replies);
            let font = r.progress->Finished_0.outcome->Ok_0;
            &&& size_answers(r.history) == seq![SizeAnswer::Announced(font.bytes.len() as u32)]
            &&& fill_answers(r.history).len() == 1
            &&& fill_answers(r.history)[0] matches OsReplyView::Filled { written, buffer }
            &&& written == font.bytes.len()
            &&& buffer == font.bytes
            &&& font.format == sniff_spec(font.bytes)
        }),
{
    lemma_run_is_explained(face_name, replies);
}

/// An extraction acquires at most one context, one font object and one
/// binding, in that order; the binding is that of the font into the
/// context; and every identifier among them names something.
pub proof fn lemma_acquired_in_order(face_name: Seq<char>, replies: Seq<OsReplyView>)
    ensures
        in_acquisition_order(acquired(run(face_name, replies).history)),
    decreases replies.len(),
{
    if replies.len() > 0 {
        let r = run(face_name, replies);
        let before = run(face_name, replies.drop_last());
        lemma_acquired_in_order(face_name, replies.drop_last());
        if let ProgressView::Continue(extraction) = before.progress {
            assert(r.history.drop_last() =~= before.history);
            if acquired_by(extraction.request(), replies.last()) is Some {
                lemma_acquired_is_held_or_released(face_name, replies);
                lemma_run_is_consistent(face_name, replies);
            }
        }
    }
}

/// Every resource that an extraction acquires, holds or gives back is named
/// by identifiers that name something: no call is ever made on an
/// identifier that a failed call returned.
pub proof fn lemma_resources_are_valid(face_name: Seq<char>, replies: Seq<OsReplyView>)
    ensures
        forall|i: int|
            0 <= i < acquired(run(face_name, replies).history).len() ==> (#[trigger] acquired(
                run(face_name, replies).history,
            )[i]).is_valid(),
        forall|i: int|
            0 <= i < run(face_name, replies).progress.held().len() ==> (#[trigger] run(
                face_name,
                replies,
            ).progress.held()[i]).is_valid(),
        forall|i: int|
            0 <= i < released(run(face_name, replies).history).len() ==> (#[trigger] released(
                run(face_name, replies).history,
            )[i]).is_valid(),
{
    lemma_acquired_is_held_or_released(face_name, replies);
    lemma_acquired_in_order(face_name, replies);
}

/// What an extraction notes and reports as not taken back is exactly what
/// the operating system refused, in the order of the attempts.
pub proof fn lemma_unreleased_were_refused(face_name: Seq<char>, replies: Seq<OsReplyView>)
    ensures
        run(face_name, replies).progress.unreleased() == refused(run(face_name, replies).history),
    decreases replies.len(),
{
    if replies.len() > 0 {
        let r = run(face_name, replies);
        let before = run(face_name, replies.drop_last());
        lemma_unreleased_were_refused(face_name, replies.drop_last());
        if let ProgressView::Continue(extraction) = before.progress {
            assert(r.history.drop_last() =~= before.history);
        }
    }
}

/// What holds of an extraction that was run to its end over `perform`:
/// it took nine calls at most; what it asked back is what it had acquired,
/// each resource once, last acquired first; its outcome is what its calls
/// explain; and what it reports as not taken back is what was refused.
pub proof fn lemma_transcript_is_sound<F: Fn(OsRequest) -> OsReply>(
    perform: F,
    face_name: Seq<char>,
    requests: Seq<OsRequest>,
    answers: Seq<OsReply>,
    report: ReportView,
)
    requires
        is_transcript(perform, face_name, requests, answers, report),
    ensures
        ({
            let history = run(face_name, replies_view(answers)).history;
            &&& history.len() == requests.len() <= 9
            &&& released(history) == acquired(history).reverse()
            &&& in_acquisition_order(acquired(history))
            &&& calls_made(history).is_prefix_of(calls_in_order())
            &&& explains(history, face_name, report.outcome)
            &&& report.unreleased == refused(history)
        }),
{
    let replies = replies_view(answers);
    lemma_run_is_bounded(face_name, replies);
    lemma_released_in_reverse_order(face_name, replies);
    lemma_acquired_in_order(face_name, replies);
    lemma_calls_in_order(face_name, replies);
    lemma_outcome_is_explained(face_name, replies);
    lemma_unreleased_were_refused(face_name, replies);
}

} // verus!
