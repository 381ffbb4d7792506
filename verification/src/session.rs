//! The extraction of one font, as a machine that asks for operating-system
//! calls and is told their results.
//!
//! An [`Extraction`] always waits for the answer to one request, which
//! [`Extraction::request`] names. [`Extraction::advance`] takes the answer
//! and gives the extraction in its next stage, or the final [`Report`].
//!
//! ```text
//! stage            waits for the answer to   and then, if all is well, is
//! Start            create context            ContextAcquired
//! ContextAcquired  create font               FontCreated
//! FontCreated      select font               Selected
//! Selected         font data, size           SizeQueried
//! SizeQueried      font data, fill           Unwinding, with the font
//! Failing          last error                Unwinding, with the failure
//! Unwinding        a release                 Unwinding, or over
//! ```
//!
//! The stages follow the acquisitions: a rendering context, a font object
//! made from the face name, the binding of the font into the context; then
//! the size of the font data, then the data. Between the answer to the fill
//! call and the first release nothing is asked of the operating system: the
//! filled buffer is classified by its signature within the same step, and
//! the extraction unwinds with the font as its outcome.
//!
//! Whatever was acquired is given back, last acquired first, and only after
//! that is the outcome handed over. A failure at any stage ends the
//! acquisitions and starts the unwinding at once. Where the failure is that
//! of a call, the error code is read first, so that no later call can
//! overwrite it. A release that the operating system refuses does not
//! change the outcome; the report lists it.
//!
//! No answer is rejected. An answer that cannot be the result of the call
//! that was asked for counts as the failure of that call.

use crate::error::{api_failure_spec, ApiCall, ErrorView, FontExtractorError};
use crate::exchange::{
    acquired_by, release_request_spec, released_by, OsReply, OsReplyView, OsRequest,
    OsRequestView, GDI_ERROR,
};
use crate::face::{logical_font_for, LogicalFont};
use crate::format::{sniff, sniff_spec, FormatTag};
use crate::handle::{
    scope_holdings, DeviceContextHandle, FontObjectHandle, FontSelectionScope, GdiObjectHandle,
    Resource,
};
use crate::reader::{
    blank_buffer, fill_answer_spec, lemma_fill_answer_sizes, new_buffer, read_fill, read_size,
    size_answer_spec, FillAnswer, FillAnswerView, SizeAnswer,
};
use vstd::prelude::*;

verus! {

/// The data of a font, with the format that its signature announces.
#[derive(Clone, Debug, PartialEq, Eq)]
pub struct ExtractedFont {
    /// The font data, byte for byte as the operating system delivered it.
    pub bytes: Vec<u8>,
    /// The format announced by the first bytes of the data.
    pub format: FormatTag,
}

/// An extracted font, with its data as a sequence.
pub struct ExtractedFontView {
    pub bytes: Seq<u8>,
    pub format: FormatTag,
}

impl View for ExtractedFont {
    type V = ExtractedFontView;

    open spec fn view(&self) -> ExtractedFontView {
        ExtractedFontView { bytes: self.bytes@, format: self.format }
    }
}

impl ExtractedFont {
    /// The font that consists of `bytes`.
    pub fn from_bytes(bytes: Vec<u8>) -> (font: ExtractedFont)
        ensures
            font@ == extracted_spec(bytes@),
    {
        let format = sniff(bytes.as_slice());
        ExtractedFont { bytes, format }
    }

    /// The file extension under which the data is stored.
    pub fn extension(&self) -> (ext: &'static str)
        ensures
            ext@ == self@.format.extension_spec(),
    {
        self.format.extension()
    }
}

/// The font that consists of `bytes`: the bytes, and the format that their
/// signature announces.
pub open spec fn extracted_spec(bytes: Seq<u8>) -> ExtractedFontView {
    ExtractedFontView { bytes, format: sniff_spec(bytes) }
}

/// The outcome of an extraction, over sequences.
pub open spec fn outcome_view(outcome: Result<ExtractedFont, FontExtractorError>) -> Result<
    ExtractedFontView,
    ErrorView,
> {
    match outcome {
        Ok(font) => Ok(font@),
        Err(error) => Err(error@),
    }
}

/// How an extraction ended.
#[derive(Debug, PartialEq, Eq)]
pub struct Report {
    /// The font, or why there is none.
    pub outcome: Result<ExtractedFont, FontExtractorError>,
    /// The resources that the operating system did not take back, in the
    /// order in which giving them back was tried. This never changes the
    /// outcome.
    pub unreleased: Vec<Resource>,
}

/// A report, over sequences.
pub struct ReportView {
    pub outcome: Result<ExtractedFontView, ErrorView>,
    pub unreleased: Seq<Resource>,
}

impl View for Report {
    type V = ReportView;

    open spec fn view(&self) -> ReportView {
        ReportView { outcome: outcome_view(self.outcome), unreleased: self.unreleased@ }
    }
}

/// How far an extraction has come.
#[derive(Debug, PartialEq, Eq)]
pub enum Stage {
    /// Nothing is held; the rendering context is being created.
    Start,
    /// The context is held; the font object is being created.
    ContextAcquired {
        /// The context.
        context: DeviceContextHandle,
    },
    /// Context and font object are held; the font is being bound.
    FontCreated {
        /// The context.
        context: DeviceContextHandle,
        /// The font object.
        font: FontObjectHandle,
    },
    /// The font is bound; the size of its data is being asked for.
    Selected {
        /// The open binding.
        scope: FontSelectionScope,
    },
    /// The size is known; the data is being read.
    SizeQueried {
        /// The open binding.
        scope: FontSelectionScope,
        /// The size that was announced.
        size: u32,
    },
    /// A call has failed; its error code is being read.
    Failing {
        /// The call that failed.
        call: ApiCall,
        /// What is held, in the order of acquisition.
        held: Vec<Resource>,
    },
    /// The outcome is decided; what is held is being given back.
    Unwinding {
        /// The outcome that will be reported.
        outcome: Result<ExtractedFont, FontExtractorError>,
        /// The resource that is being given back.
        releasing: Resource,
        /// What is held besides, in the order of acquisition.
        rest: Vec<Resource>,
        /// The resources that were not taken back so far.
        unreleased: Vec<Resource>,
    },
}

/// A stage, over sequences.
pub enum StageView {
    Start,
    ContextAcquired { context: DeviceContextHandle },
    FontCreated { context: DeviceContextHandle, font: FontObjectHandle },
    Selected { scope: FontSelectionScope },
    SizeQueried { scope: FontSelectionScope, size: u32 },
    Failing { call: ApiCall, held: Seq<Resource> },
    Unwinding {
        outcome: Result<ExtractedFontView, ErrorView>,
        releasing: Resource,
        rest: Seq<Resource>,
        unreleased: Seq<Resource>,
    },
}

impl View for Stage {
    type V = StageView;

    open spec fn view(&self) -> StageView {
        match self {
            Stage::Start => StageView::Start,
            Stage::ContextAcquired { context } => StageView::ContextAcquired { context: *context },
            Stage::FontCreated { context, font } => StageView::FontCreated {
                context: *context,
                font: *font,
            },
            Stage::Selected { scope } => StageView::Selected { scope: *scope },
            Stage::SizeQueried { scope, size } => StageView::SizeQueried {
                scope: *scope,
                size: *size,
            },
            Stage::Failing { call, held } => StageView::Failing { call: *call, held: held@ },
            Stage::Unwinding { outcome, releasing, rest, unreleased } => StageView::Unwinding {
                outcome: outcome_view(*outcome),
                releasing: *releasing,
                rest: rest@,
                unreleased: unreleased@,
            },
        }
    }
}

/// The extraction of one font, waiting for the answer to one request.
#[derive(Debug, PartialEq, Eq)]
pub struct Extraction {
    /// The face whose data is extracted.
    pub face_name: String,
    /// How far the extraction has come.
    pub stage: Stage,
}

/// An extraction, over sequences.
pub struct ExtractionView {
    pub face_name: Seq<char>,
    pub stage: StageView,
}

impl View for Extraction {
    type V = ExtractionView;

    open spec fn view(&self) -> ExtractionView {
        ExtractionView { face_name: self.face_name@, stage: self.stage@ }
    }
}

/// What an answer leads to.
#[derive(Debug, PartialEq, Eq)]
pub enum Progress {
    /// The extraction goes on, and waits for the answer to its next request.
    Continue(Extraction),
    /// The extraction is over and holds nothing any more.
    Finished(Report),
}

/// What an answer leads to, over sequences.
pub enum ProgressView {
    Continue(ExtractionView),
    Finished(ReportView),
}

impl View for Progress {
    type V = ProgressView;

    open spec fn view(&self) -> ProgressView {
        match self {
            Progress::Continue(extraction) => ProgressView::Continue(extraction@),
            Progress::Finished(report) => ProgressView::Finished(report@),
        }
    }
}

/// The extraction of the face `face_name` before anything has happened.
pub open spec fn start_spec(face_name: Seq<char>) -> ExtractionView {
    ExtractionView { face_name, stage: StageView::Start }
}

/// The extraction of `face_name` at `stage`, going on.
pub open spec fn going_on(face_name: Seq<char>, stage: StageView) -> ProgressView {
    ProgressView::Continue(ExtractionView { face_name, stage })
}

/// The extraction of `face_name` once its outcome is decided: it gives back
/// the last of `held`, or is over where nothing is held.
pub open spec fn unwinding(
    face_name: Seq<char>,
    outcome: Result<ExtractedFontView, ErrorView>,
    held: Seq<Resource>,
    unreleased: Seq<Resource>,
) -> ProgressView {
    if held.len() == 0 {
        ProgressView::Finished(ReportView { outcome, unreleased })
    } else {
        going_on(
            face_name,
            StageView::Unwinding {
                outcome,
                releasing: held.last(),
                rest: held.drop_last(),
                unreleased,
            },
        )
    }
}

impl ExtractionView {
    /// What the extraction holds, in the order of acquisition. A resource
    /// that is being given back is held until the answer is in.
    pub open spec fn held(self) -> Seq<Resource> {
        match self.stage {
            StageView::Start => Seq::empty(),
            StageView::ContextAcquired { context } => seq![Resource::Context(context)],
            StageView::FontCreated { context, font } => seq![
                Resource::Context(context),
                Resource::Font(font),
            ],
            StageView::Selected { scope } => scope_holdings(scope),
            StageView::SizeQueried { scope, .. } => scope_holdings(scope),
            StageView::Failing { held, .. } => held,
            StageView::Unwinding { releasing, rest, .. } => rest.push(releasing),
        }
    }

    /// The request whose answer the extraction waits for.
    pub open spec fn request(self) -> OsRequestView {
        match self.stage {
            StageView::Start => OsRequestView::CreateContext,
            StageView::ContextAcquired { .. } => OsRequestView::CreateFont {
                logical_font: logical_font_for(self.face_name),
            },
            StageView::FontCreated { context, font } => OsRequestView::SelectFont { context, font },
            StageView::Selected { scope } => OsRequestView::QueryFontDataSize { scope },
            StageView::SizeQueried { scope, size } => OsRequestView::FillFontData {
                scope,
                buffer: blank_buffer(size),
            },
            StageView::Failing { .. } => OsRequestView::LastError,
            StageView::Unwinding { releasing, .. } => release_request_spec(releasing),
        }
    }

    /// What the answer `reply` to the outstanding request leads to.
    ///
    /// While acquiring, an identifier that names something is the resource
    /// and leads to the next stage; anything else is the failure of the
    /// call. The size answer leads to the fill call, to the failure of the
    /// extraction for want of data, or to the failure of the call. The fill
    /// answer decides the outcome: the font, a size mismatch, or the failure
    /// of the call. After a failed call the answer is its error code. While
    /// giving back, every answer leads to the next resource, and the last to
    /// the report; a resource that was not taken back is noted.
    pub open spec fn step(self, reply: OsReplyView) -> ProgressView {
        let face_name = self.face_name;
        match self.stage {
            StageView::Start => match reply.valid_handle() {
                Some(raw) => going_on(
                    face_name,
                    StageView::ContextAcquired { context: DeviceContextHandle(raw) },
                ),
                None => self.failing(ApiCall::CreateContext),
            },
            StageView::ContextAcquired { context } => match reply.valid_handle() {
                Some(raw) => going_on(
                    face_name,
                    StageView::FontCreated { context, font: FontObjectHandle(raw) },
                ),
                None => self.failing(ApiCall::CreateFont),
            },
            StageView::FontCreated { context, font } => match reply.valid_handle() {
                Some(raw) => going_on(
                    face_name,
                    StageView::Selected {
                        scope: FontSelectionScope { context, font, previous: GdiObjectHandle(raw) },
                    },
                ),
                None => self.failing(ApiCall::SelectFont),
            },
            StageView::Selected { scope } => match size_answer_spec(reply) {
                SizeAnswer::Announced(size) => going_on(
                    face_name,
                    StageView::SizeQueried { scope, size },
                ),
                SizeAnswer::NoData => self.decided(Err(ErrorView::ZeroSizeFont { face_name })),
                SizeAnswer::OsFailure => self.failing(ApiCall::GetFontDataSize),
            },
            StageView::SizeQueried { scope, size } => match fill_answer_spec(size, reply) {
                FillAnswerView::Complete { bytes } => self.decided(Ok(extracted_spec(bytes))),
                FillAnswerView::Mismatch { got } => self.decided(
                    Err(ErrorView::SizeMismatch { expected: size, got }),
                ),
                FillAnswerView::OsFailure => self.failing(ApiCall::GetFontDataFill),
            },
            StageView::Failing { call, .. } => self.decided(
                Err(api_failure_spec(call, face_name, reply.error_code())),
            ),
            StageView::Unwinding { outcome, releasing, rest, unreleased } => unwinding(
                face_name,
                outcome,
                rest,
                if reply.release_succeeded() {
                    unreleased
                } else {
                    unreleased.push(releasing)
                },
            ),
        }
    }

    /// The extraction after the failure of `call`: it holds what it held,
    /// and asks for the error code.
    pub open spec fn failing(self, call: ApiCall) -> ProgressView {
        going_on(self.face_name, StageView::Failing { call, held: self.held() })
    }

    /// The extraction once `outcome` is decided: it begins to give back
    /// what it holds.
    pub open spec fn decided(self, outcome: Result<ExtractedFontView, ErrorView>) -> ProgressView {
        unwinding(self.face_name, outcome, self.held(), Seq::empty())
    }
}

/// The number of resources that an extraction holds when it makes `call`.
pub open spec fn held_at(call: ApiCall) -> nat {
    match call {
        ApiCall::CreateContext => 0,
        ApiCall::CreateFont => 1,
        ApiCall::SelectFont => 2,
        ApiCall::GetFontDataSize => 3,
        ApiCall::GetFontDataFill => 3,
    }
}

/// Whether `held` is what an extraction can hold: a context, then a font
/// object, then the binding of that font into that context, up to any
/// point; and every identifier in it names something.
pub open spec fn in_acquisition_order(held: Seq<Resource>) -> bool {
    &&& held.len() <= 3
    &&& held.len() >= 1 ==> held[0] is Context
    &&& held.len() >= 2 ==> held[1] is Font
    &&& held.len() >= 3 ==> (held[2] matches Resource::Selection(scope) && scope.context
        == held[0]->Context_0 && scope.font == held[1]->Font_0)
    &&& forall|i: int| 0 <= i < held.len() ==> (#[trigger] held[i]).is_valid()
}

/// Whether `outcome` is one that an extraction can decide on: a font has
/// the format that its signature announces, and a size that the operating
/// system can announce; a mismatch names two different sizes.
pub open spec fn is_sound_outcome(outcome: Result<ExtractedFontView, ErrorView>) -> bool {
    match outcome {
        Ok(font) => font == extracted_spec(font.bytes) && 0 < font.bytes.len() < GDI_ERROR,
        Err(ErrorView::SizeMismatch { expected, got }) => expected != got,
        Err(_) => true,
    }
}

impl ExtractionView {
    /// Whether the extraction is in a state that it can reach from its
    /// start: it holds what it acquired up to its stage, in that order.
    pub open spec fn is_consistent(self) -> bool {
        &&& in_acquisition_order(self.held())
        &&& match self.stage {
            StageView::SizeQueried { size, .. } => size != 0 && size != GDI_ERROR,
            StageView::Failing { call, held } => held.len() == held_at(call),
            StageView::Unwinding { outcome, .. } => is_sound_outcome(outcome),
            _ => true,
        }
    }
}

impl ProgressView {
    /// What is held at this point: nothing, once the extraction is over.
    pub open spec fn held(self) -> Seq<Resource> {
        match self {
            ProgressView::Continue(extraction) => extraction.held(),
            ProgressView::Finished(_) => Seq::empty(),
        }
    }

    /// Whether the outcome is decided: the extraction is giving back what
    /// it holds, or is over.
    pub open spec fn is_decided(self) -> bool {
        match self {
            ProgressView::Continue(extraction) => extraction.stage is Unwinding,
            ProgressView::Finished(_) => true,
        }
    }

    /// An upper bound on the number of answers that the extraction can
    /// still take.
    pub open spec fn calls_left(self) -> nat {
        match self {
            ProgressView::Continue(extraction) => match extraction.stage {
                StageView::Start => 9,
                StageView::ContextAcquired { .. } => 8,
                StageView::FontCreated { .. } => 7,
                StageView::Selected { .. } => 6,
                StageView::SizeQueried { .. } => 5,
                StageView::Failing { held, .. } => 1 + held.len(),
                StageView::Unwinding { rest, .. } => 1 + rest.len(),
            },
            ProgressView::Finished(_) => 0,
        }
    }

    /// The resources noted so far as not taken back.
    pub open spec fn unreleased(self) -> Seq<Resource> {
        match self {
            ProgressView::Continue(extraction) => match extraction.stage {
                StageView::Unwinding { unreleased, .. } => unreleased,
                _ => Seq::empty(),
            },
            ProgressView::Finished(report) => report.unreleased,
        }
    }

    /// Whether the extraction, or its report, is as an extraction can
    /// reach it from its start.
    pub open spec fn is_consistent(self) -> bool {
        match self {
            ProgressView::Continue(extraction) => extraction.is_consistent(),
            ProgressView::Finished(report) => is_sound_outcome(report.outcome),
        }
    }
}

/// An answer leads from a consistent extraction to a consistent one,
/// whatever the answer is.
pub proof fn lemma_step_keeps_consistent(extraction: ExtractionView, reply: OsReplyView)
    requires
        extraction.is_consistent(),
    ensures
        extraction.step(reply).is_consistent(),
{
    if let StageView::SizeQueried { size, .. } = extraction.stage {
        lemma_fill_answer_sizes(size, reply);
    }
}

/// Every answer brings an extraction nearer to its end.
pub proof fn lemma_step_uses_up_calls(extraction: ExtractionView, reply: OsReplyView)
    ensures
        extraction.step(reply).calls_left() < ProgressView::Continue(extraction).calls_left(),
{
}

/// An answer changes what is held by what the call obtained or gave back:
/// what the call obtained is held in addition, what it gave back is held no
/// more, and nothing else changes.
pub proof fn lemma_step_holdings(extraction: ExtractionView, reply: OsReplyView)
    ensures
        ({
            let request = extraction.request();
            let after = extraction.step(reply).held();
            match (acquired_by(request, reply), released_by(request)) {
                (Some(resource), _) => after == extraction.held().push(resource),
                (None, Some(resource)) => {
                    &&& extraction.held().len() > 0
                    &&& extraction.held().last() == resource
                    &&& after == extraction.held().drop_last()
                },
                (None, None) => after == extraction.held(),
            }
        }),
{
}

impl Extraction {
    /// Begins the extraction of the face `face_name`. Nothing is held yet.
    pub fn start(face_name: &str) -> (extraction: Extraction)
        ensures
            extraction@ == start_spec(face_name@),
            extraction@.is_consistent(),
    {
        Extraction { face_name: face_name.to_owned(), stage: Stage::Start }
    }

    /// The request whose answer the extraction waits for.
    pub fn request(&self) -> (request: OsRequest)
        ensures
            request@ == self@.request(),
    {
        match &self.stage {
            Stage::Start => OsRequest::CreateContext,
            Stage::ContextAcquired { .. } => OsRequest::CreateFont {
                logical_font: LogicalFont::for_face(self.face_name.as_str()),
            },
            Stage::FontCreated { context, font } => OsRequest::SelectFont {
                context: *context,
                font: *font,
            },
            Stage::Selected { scope } => OsRequest::QueryFontDataSize { scope: *scope },
            Stage::SizeQueried { scope, size } => OsRequest::FillFontData {
                scope: *scope,
                buffer: new_buffer(*size),
            },
            Stage::Failing { .. } => OsRequest::LastError,
            Stage::Unwinding { releasing, .. } => releasing.release_request(),
        }
    }

    /// What the extraction holds, in the order of acquisition.
    pub fn held(&self) -> (held: Vec<Resource>)
        ensures
            held@ == self@.held(),
    {
        match &self.stage {
            Stage::Start => Vec::new(),
            Stage::ContextAcquired { context } => vec![Resource::Context(*context)],
            Stage::FontCreated { context, font } => vec![
                Resource::Context(*context),
                Resource::Font(*font),
            ],
            Stage::Selected { scope } => scope.holdings(),
            Stage::SizeQueried { scope, .. } => scope.holdings(),
            Stage::Failing { held, .. } => held.clone(),
            Stage::Unwinding { releasing, rest, .. } => {
                let mut held = rest.clone();
                held.push(*releasing);
                held
            },
        }
    }

    /// Takes the answer to the outstanding request and gives what it leads
    /// to: the extraction in its next stage, or its report.
    pub fn advance(self, reply: OsReply) -> (progress: Progress)
        ensures
            progress@ == self@.step(reply@),
            self@.is_consistent() ==> progress@.is_consistent(),
    {
        proof {
            if self@.is_consistent() {
                lemma_step_keeps_consistent(self@, reply@);
            }
        }
        let Extraction { face_name, stage } = self;
        match stage {
            Stage::Start => match DeviceContextHandle::acquire(&reply) {
                Some(context) => go_on(face_name, Stage::ContextAcquired { context }),
                None => fail(face_name, ApiCall::CreateContext, Vec::new()),
            },
            Stage::ContextAcquired { context } => match FontObjectHandle::create(&reply) {
                Some(font) => go_on(face_name, Stage::FontCreated { context, font }),
                None => {
                    let held = vec![Resource::Context(context)];
                    assert(held@ =~= seq![Resource::Context(context)]);
                    fail(face_name, ApiCall::CreateFont, held)
                },
            },
            Stage::FontCreated { context, font } => match FontSelectionScope::open(
                context,
                font,
                &reply,
            ) {
                Some(scope) => go_on(face_name, Stage::Selected { scope }),
                None => fail(
                    face_name,
                    ApiCall::SelectFont,
                    vec![Resource::Context(context), Resource::Font(font)],
                ),
            },
            Stage::Selected { scope } => match read_size(&reply) {
                SizeAnswer::Announced(size) => go_on(face_name, Stage::SizeQueried { scope, size }),
                SizeAnswer::NoData => {
                    let error = FontExtractorError::zero_size(face_name.as_str());
                    unwind(face_name, Err(error), scope.holdings(), Vec::new())
                },
                SizeAnswer::OsFailure => fail(
                    face_name,
                    ApiCall::GetFontDataSize,
                    scope.holdings(),
                ),
            },
            Stage::SizeQueried { scope, size } => match read_fill(size, reply) {
                FillAnswer::Complete { bytes } => unwind(
                    face_name,
                    Ok(ExtractedFont::from_bytes(bytes)),
                    scope.holdings(),
                    Vec::new(),
                ),
                FillAnswer::Mismatch { got } => unwind(
                    face_name,
                    Err(FontExtractorError::SizeMismatch { expected: size, got }),
                    scope.holdings(),
                    Vec::new(),
                ),
                FillAnswer::OsFailure => fail(
                    face_name,
                    ApiCall::GetFontDataFill,
                    scope.holdings(),
                ),
            },
            Stage::Failing { call, held } => {
                let error = FontExtractorError::api_failure(
                    call,
                    face_name.as_str(),
                    reply.error_code(),
                );
                unwind(face_name, Err(error), held, Vec::new())
            },
            Stage::Unwinding { outcome, releasing, rest, unreleased } => {
                let mut unreleased = unreleased;
                if !reply.release_succeeded() {
                    unreleased.push(releasing);
                }
                unwind(face_name, outcome, rest, unreleased)
            },
        }
    }
}

/// The extraction of `face_name` at `stage`, going on.
fn go_on(face_name: String, stage: Stage) -> (progress: Progress)
    ensures
        progress@ == going_on(face_name@, stage@),
{
    Progress::Continue(Extraction { face_name, stage })
}

/// The extraction of `face_name` after the failure of `call`, holding
/// `held`.
fn fail(face_name: String, call: ApiCall, held: Vec<Resource>) -> (progress: Progress)
    ensures
        progress@ == going_on(face_name@, StageView::Failing { call, held: held@ }),
{
    go_on(face_name, Stage::Failing { call, held })
}

/// Gives back the last of `held`, or ends the extraction where nothing is
/// held.
fn unwind(
    face_name: String,
    outcome: Result<ExtractedFont, FontExtractorError>,
    held: Vec<Resource>,
    unreleased: Vec<Resource>,
) -> (progress: Progress)
    ensures
        progress@ == unwinding(face_name@, outcome_view(outcome), held@, unreleased@),
{
    let mut rest = held;
    match rest.pop() {
        Some(releasing) => Progress::Continue(
            Extraction {
                face_name,
                stage: Stage::Unwinding { outcome, releasing, rest, unreleased },
            },
        ),
        None => Progress::Finished(Report { outcome, unreleased }),
    }
}

} // verus!
