use font_extractor::error::{ApiCall, FontExtractorError};
use font_extractor::exchange::{OsReply, OsRequest, GDI_ERROR};
use font_extractor::face::LogicalFont;
use font_extractor::format::FormatTag;
use font_extractor::handle::{
    DeviceContextHandle, FontObjectHandle, FontSelectionScope, GdiObjectHandle, Resource,
};
use font_extractor::history::extract_font;
use font_extractor::session::{ExtractedFont, Extraction, Progress, Report, Stage};
use std::cell::RefCell;

const CONTEXT: isize = 0x1001;
const FONT: isize = 0x2002;
const PREVIOUS: isize = 0x3003;

/// An operating system made of a script: it counts what it is asked, hands
/// out fixed identifiers and fails where it is told to.
struct MockOs {
    /// The call that fails, if any.
    failing: Option<ApiCall>,
    /// What the size query reports.
    size: u32,
    /// What the fill call reports as written; the size itself when `None`.
    written: Option<u32>,
    /// The font data.
    data: Vec<u8>,
    /// The error code left behind by a failed call.
    error_code: i32,
    /// The releases that fail.
    stuck: Vec<Resource>,
    /// Every request made, in order.
    requests: Vec<OsRequest>,
    /// Every resource handed out, in order.
    acquired: Vec<Resource>,
    /// Every resource asked back, in order.
    released: Vec<Resource>,
    /// Whether the last call failed and its error code was not yet read.
    error_pending: bool,
    /// Whether another call came between a failure and the reading of its code.
    error_overwritten: bool,
}

impl MockOs {
    fn with_data(data: &[u8]) -> MockOs {
        MockOs {
            failing: None,
            size: data.len() as u32,
            written: None,
            data: data.to_vec(),
            error_code: 6,
            stuck: Vec::new(),
            requests: Vec::new(),
            acquired: Vec::new(),
            released: Vec::new(),
            error_pending: false,
            error_overwritten: false,
        }
    }

    fn failing_at(call: ApiCall) -> MockOs {
        let mut os = MockOs::with_data(b"OTTO-data");
        os.failing = Some(call);
        os
    }

    fn fails(&self, call: ApiCall) -> bool {
        self.failing == Some(call)
    }

    fn is_live(&self, resource: &Resource) -> bool {
        self.acquired.contains(resource) && !self.released.contains(resource)
    }

    fn perform(&mut self, request: OsRequest) -> OsReply {
        self.requests.push(request.clone());
        if self.error_pending && request != OsRequest::LastError {
            self.error_overwritten = true;
        }
        match request {
            OsRequest::CreateContext => {
                if self.fails(ApiCall::CreateContext) {
                    self.error_pending = true;
                    return OsReply::Handle(0);
                }
                self.acquired.push(Resource::Context(DeviceContextHandle(CONTEXT)));
                OsReply::Handle(CONTEXT)
            }
            OsRequest::CreateFont { logical_font } => {
                assert_eq!(logical_font.face_name.last(), Some(&0u16));
                if self.fails(ApiCall::CreateFont) {
                    self.error_pending = true;
                    return OsReply::Handle(0);
                }
                self.acquired.push(Resource::Font(FontObjectHandle(FONT)));
                OsReply::Handle(FONT)
            }
            OsRequest::SelectFont { context, font } => {
                assert!(self.is_live(&Resource::Context(context)));
                assert!(self.is_live(&Resource::Font(font)));
                if self.fails(ApiCall::SelectFont) {
                    self.error_pending = true;
                    return OsReply::Handle(-1);
                }
                let scope =
                    FontSelectionScope { context, font, previous: GdiObjectHandle(PREVIOUS) };
                self.acquired.push(Resource::Selection(scope));
                OsReply::Handle(PREVIOUS)
            }
            OsRequest::QueryFontDataSize { scope } => {
                assert!(self.is_live(&Resource::Selection(scope)));
                if self.fails(ApiCall::GetFontDataSize) {
                    self.error_pending = true;
                    return OsReply::Size(GDI_ERROR);
                }
                OsReply::Size(self.size)
            }
            OsRequest::FillFontData { scope, mut buffer } => {
                assert!(self.is_live(&Resource::Selection(scope)));
                assert_eq!(buffer.len(), self.size as usize);
                assert!(buffer.iter().all(|b| *b == 0));
                if self.fails(ApiCall::GetFontDataFill) {
                    self.error_pending = true;
                    return OsReply::Filled { written: GDI_ERROR, buffer };
                }
                let n = buffer.len().min(self.data.len());
                buffer[..n].copy_from_slice(&self.data[..n]);
                OsReply::Filled { written: self.written.unwrap_or(self.size), buffer }
            }
            OsRequest::LastError => {
                self.error_pending = false;
                OsReply::ErrorCode(self.error_code)
            }
            OsRequest::RestoreSelection { scope } => self.release(Resource::Selection(scope)),
            OsRequest::DestroyFont { font } => self.release(Resource::Font(font)),
            OsRequest::DestroyContext { context } => self.release(Resource::Context(context)),
        }
    }

    fn release(&mut self, resource: Resource) -> OsReply {
        assert!(self.is_live(&resource), "released what is not held: {:?}", resource);
        self.released.push(resource);
        OsReply::Released { succeeded: !self.stuck.contains(&resource) }
    }

    fn acquire_calls(&self) -> usize {
        self.requests
            .iter()
            .filter(|r| {
                matches!(
                    r,
                    OsRequest::CreateContext
                        | OsRequest::CreateFont { .. }
                        | OsRequest::SelectFont { .. }
                )
            })
            .count()
    }

    fn release_calls(&self) -> usize {
        self.requests
            .iter()
            .filter(|r| {
                matches!(
                    r,
                    OsRequest::RestoreSelection { .. }
                        | OsRequest::DestroyFont { .. }
                        | OsRequest::DestroyContext { .. }
                )
            })
            .count()
    }

    /// Everything acquired was given back, once each, last acquired first.
    fn assert_balanced(&self) {
        let mut expected = self.acquired.clone();
        expected.reverse();
        assert_eq!(self.released, expected);
        assert_eq!(self.release_calls(), self.acquired.len());
        assert!(!self.error_overwritten);
    }
}

/// Runs an extraction against the mock until it is over.
fn extract(face_name: &str, os: &mut MockOs) -> Report {
    let os = RefCell::new(os);
    extract_font(face_name, |request| os.borrow_mut().perform(request))
}

/// Runs an extraction against the mock answer by answer.
fn extract_stepwise(face_name: &str, os: &mut MockOs) -> Report {
    let mut extraction = Extraction::start(face_name);
    for _ in 0..20 {
        let reply = os.perform(extraction.request());
        match extraction.advance(reply) {
            Progress::Continue(next) => extraction = next,
            Progress::Finished(report) => return report,
        }
    }
    panic!("the extraction did not end");
}

fn scope() -> FontSelectionScope {
    FontSelectionScope {
        context: DeviceContextHandle(CONTEXT),
        font: FontObjectHandle(FONT),
        previous: GdiObjectHandle(PREVIOUS),
    }
}

fn all_three() -> Vec<Resource> {
    vec![
        Resource::Context(DeviceContextHandle(CONTEXT)),
        Resource::Font(FontObjectHandle(FONT)),
        Resource::Selection(scope()),
    ]
}

#[test]
fn successful_extraction_returns_bytes_and_format() {
    let mut data = b"OTTO".to_vec();
    data.extend_from_slice(&[0u8; 100]);
    let mut os = MockOs::with_data(&data);
    let report = extract("Arial", &mut os);
    assert_eq!(
        report,
        Report {
            outcome: Ok(ExtractedFont { bytes: data.clone(), format: FormatTag::OpenType }),
            unreleased: vec![],
        }
    );
    let font = report.outcome.unwrap();
    assert_eq!(font.extension(), "otf");
    assert_eq!(font.bytes.len(), os.size as usize);
    os.assert_balanced();
    assert_eq!(os.acquired, all_three());
}

#[test]
fn successful_extraction_makes_the_calls_in_order() {
    let mut os = MockOs::with_data(&[0x00, 0x01, 0x00, 0x00, 0xAA]);
    let report = extract("Tahoma", &mut os);
    assert_eq!(report.outcome.unwrap().format, FormatTag::TrueType);
    assert_eq!(
        os.requests,
        vec![
            OsRequest::CreateContext,
            OsRequest::CreateFont { logical_font: LogicalFont::for_face("Tahoma") },
            OsRequest::SelectFont {
                context: DeviceContextHandle(CONTEXT),
                font: FontObjectHandle(FONT),
            },
            OsRequest::QueryFontDataSize { scope: scope() },
            OsRequest::FillFontData { scope: scope(), buffer: vec![0u8; 5] },
            OsRequest::RestoreSelection { scope: scope() },
            OsRequest::DestroyFont { font: FontObjectHandle(FONT) },
            OsRequest::DestroyContext { context: DeviceContextHandle(CONTEXT) },
        ]
    );
    assert_eq!(os.acquire_calls(), 3);
    assert_eq!(os.release_calls(), 3);
}

#[test]
fn formats_of_extracted_fonts() {
    for (data, format, extension) in [
        (b"OTTOxxxx".to_vec(), FormatTag::OpenType, "otf"),
        (vec![0, 1, 0, 0, 9, 9], FormatTag::TrueType, "ttf"),
        (b"ttcf\0\0".to_vec(), FormatTag::Collection, "ttc"),
        (b"XXXXXXXX".to_vec(), FormatTag::Unknown, "bin"),
        (b"OT".to_vec(), FormatTag::Unknown, "bin"),
    ] {
        let mut os = MockOs::with_data(&data);
        let font = extract("Face", &mut os).outcome.unwrap();
        assert_eq!(font.bytes, data);
        assert_eq!(font.format, format);
        assert_eq!(font.extension(), extension);
        os.assert_balanced();
    }
}

#[test]
fn zero_size_font_fails_and_releases_everything() {
    let mut os = MockOs::with_data(&[]);
    assert_eq!(os.size, 0);
    let report = extract("GhostFont", &mut os);
    assert_eq!(
        report.outcome,
        Err(FontExtractorError::ZeroSizeFont { face_name: "GhostFont".to_string() })
    );
    assert_eq!(report.unreleased, vec![]);
    os.assert_balanced();
    assert_eq!(os.acquired, all_three());
    assert_eq!(os.acquire_calls(), 3);
    assert_eq!(os.release_calls(), 3);
    assert!(!os.requests.iter().any(|r| matches!(r, OsRequest::FillFontData { .. })));
    assert!(!os.requests.contains(&OsRequest::LastError));
}

#[test]
fn size_mismatch_fails_and_releases_everything() {
    let mut os = MockOs::with_data(&[0x5A; 1000]);
    os.written = Some(900);
    let report = extract("Shifty", &mut os);
    assert_eq!(
        report.outcome,
        Err(FontExtractorError::SizeMismatch { expected: 1000, got: 900 })
    );
    assert_eq!(report.unreleased, vec![]);
    os.assert_balanced();
    assert_eq!(os.acquired, all_three());
    for resource in all_three() {
        assert_eq!(os.released.iter().filter(|r| **r == resource).count(), 1);
    }
    assert!(!os.requests.contains(&OsRequest::LastError));
}

#[test]
fn size_mismatch_with_more_written_than_announced() {
    let mut os = MockOs::with_data(&[1, 2, 3, 4]);
    os.written = Some(5);
    let report = extract("Shifty", &mut os);
    assert_eq!(report.outcome, Err(FontExtractorError::SizeMismatch { expected: 4, got: 5 }));
    os.assert_balanced();
}

#[test]
fn context_creation_failure_holds_nothing() {
    let mut os = MockOs::failing_at(ApiCall::CreateContext);
    os.error_code = 8;
    let report = extract("Arial", &mut os);
    assert_eq!(
        report.outcome,
        Err(FontExtractorError::ApiFailure {
            call: ApiCall::CreateContext,
            face_name: None,
            os_error_code: 8,
        })
    );
    assert_eq!(os.requests, vec![OsRequest::CreateContext, OsRequest::LastError]);
    assert_eq!(os.acquired, vec![]);
    assert_eq!(os.release_calls(), 0);
    assert_eq!(os.acquire_calls(), 1);
    os.assert_balanced();
}

#[test]
fn font_creation_failure_names_the_face_and_releases_the_context() {
    let mut os = MockOs::failing_at(ApiCall::CreateFont);
    os.error_code = 1168;
    let report = extract("No Such Face", &mut os);
    assert_eq!(
        report.outcome,
        Err(FontExtractorError::ApiFailure {
            call: ApiCall::CreateFont,
            face_name: Some("No Such Face".to_string()),
            os_error_code: 1168,
        })
    );
    assert_eq!(
        os.requests,
        vec![
            OsRequest::CreateContext,
            OsRequest::CreateFont { logical_font: LogicalFont::for_face("No Such Face") },
            OsRequest::LastError,
            OsRequest::DestroyContext { context: DeviceContextHandle(CONTEXT) },
        ]
    );
    os.assert_balanced();
}

#[test]
fn selection_failure_owes_no_restore() {
    let mut os = MockOs::failing_at(ApiCall::SelectFont);
    let report = extract("Arial", &mut os);
    assert_eq!(
        report.outcome,
        Err(FontExtractorError::ApiFailure {
            call: ApiCall::SelectFont,
            face_name: None,
            os_error_code: 6,
        })
    );
    assert!(!os.requests.iter().any(|r| matches!(r, OsRequest::RestoreSelection { .. })));
    assert_eq!(
        os.released,
        vec![
            Resource::Font(FontObjectHandle(FONT)),
            Resource::Context(DeviceContextHandle(CONTEXT)),
        ]
    );
    os.assert_balanced();
}

#[test]
fn size_query_failure_releases_everything() {
    let mut os = MockOs::failing_at(ApiCall::GetFontDataSize);
    let report = extract("Arial", &mut os);
    assert_eq!(
        report.outcome,
        Err(FontExtractorError::ApiFailure {
            call: ApiCall::GetFontDataSize,
            face_name: None,
            os_error_code: 6,
        })
    );
    assert_eq!(os.acquired, all_three());
    os.assert_balanced();
}

#[test]
fn fill_failure_releases_everything_after_nine_calls() {
    let mut os = MockOs::failing_at(ApiCall::GetFontDataFill);
    os.error_code = -5;
    let report = extract("Arial", &mut os);
    assert_eq!(
        report.outcome,
        Err(FontExtractorError::ApiFailure {
            call: ApiCall::GetFontDataFill,
            face_name: None,
            os_error_code: -5,
        })
    );
    assert_eq!(os.requests.len(), 9);
    assert_eq!(os.requests[5], OsRequest::LastError);
    os.assert_balanced();
}

#[test]
fn releases_mirror_acquisitions_wherever_the_extraction_fails() {
    let failures = [
        None,
        Some(ApiCall::CreateContext),
        Some(ApiCall::CreateFont),
        Some(ApiCall::SelectFont),
        Some(ApiCall::GetFontDataSize),
        Some(ApiCall::GetFontDataFill),
    ];
    let mut held_at_failure = Vec::new();
    for failing in failures {
        let mut os = MockOs::with_data(b"ttcf-and-more");
        os.failing = failing;
        let report = extract("Arial", &mut os);
        assert_eq!(report.outcome.is_ok(), failing.is_none());
        assert_eq!(report.outcome.as_ref().err().and_then(|e| e.failed_call()), failing);
        os.assert_balanced();
        assert_eq!(os.requests.contains(&OsRequest::LastError), failing.is_some());
        held_at_failure.push(os.acquired.len());
    }
    assert_eq!(held_at_failure, vec![3, 0, 1, 2, 3, 3]);
}

#[test]
fn error_code_is_read_right_after_the_failed_call() {
    for (call, position) in [
        (ApiCall::CreateContext, 1),
        (ApiCall::CreateFont, 2),
        (ApiCall::SelectFont, 3),
        (ApiCall::GetFontDataSize, 4),
        (ApiCall::GetFontDataFill, 5),
    ] {
        let mut os = MockOs::failing_at(call);
        extract("Arial", &mut os);
        assert_eq!(os.requests[position], OsRequest::LastError);
        assert_eq!(os.requests.iter().filter(|r| **r == OsRequest::LastError).count(), 1);
        assert!(!os.error_overwritten);
    }
}

#[test]
fn failed_releases_do_not_change_the_outcome() {
    let data = b"OTTO1234".to_vec();
    let mut os = MockOs::with_data(&data);
    os.stuck = vec![
        Resource::Context(DeviceContextHandle(CONTEXT)),
        Resource::Selection(scope()),
    ];
    let report = extract("Arial", &mut os);
    assert_eq!(
        report.outcome,
        Ok(ExtractedFont { bytes: data, format: FormatTag::OpenType })
    );
    assert_eq!(
        report.unreleased,
        vec![Resource::Selection(scope()), Resource::Context(DeviceContextHandle(CONTEXT))]
    );
    os.assert_balanced();
}

#[test]
fn failed_releases_are_reported_beside_an_error() {
    let mut os = MockOs::failing_at(ApiCall::SelectFont);
    os.stuck = vec![Resource::Font(FontObjectHandle(FONT))];
    let report = extract("Arial", &mut os);
    assert!(report.outcome.is_err());
    assert_eq!(report.unreleased, vec![Resource::Font(FontObjectHandle(FONT))]);
    os.assert_balanced();
}

#[test]
fn start_holds_nothing_and_asks_for_a_context() {
    let extraction = Extraction::start("Arial");
    assert_eq!(extraction.face_name, "Arial");
    assert_eq!(extraction.stage, Stage::Start);
    assert_eq!(extraction.held(), vec![]);
    assert_eq!(extraction.request(), OsRequest::CreateContext);
}

#[test]
fn holdings_grow_with_the_stages() {
    let context = DeviceContextHandle(CONTEXT);
    let font = FontObjectHandle(FONT);
    let at = |stage: Stage| Extraction { face_name: "Arial".to_string(), stage };
    assert_eq!(at(Stage::ContextAcquired { context }).held(), all_three()[..1].to_vec());
    assert_eq!(at(Stage::FontCreated { context, font }).held(), all_three()[..2].to_vec());
    assert_eq!(at(Stage::Selected { scope: scope() }).held(), all_three());
    assert_eq!(at(Stage::SizeQueried { scope: scope(), size: 7 }).held(), all_three());
    assert_eq!(
        at(Stage::Failing { call: ApiCall::SelectFont, held: all_three()[..2].to_vec() }).held(),
        all_three()[..2].to_vec()
    );
    assert_eq!(
        at(Stage::Unwinding {
            outcome: Err(FontExtractorError::zero_size("Arial")),
            releasing: Resource::Selection(scope()),
            rest: all_three()[..2].to_vec(),
            unreleased: vec![],
        })
        .held(),
        all_three()
    );
}

#[test]
fn each_stage_asks_for_its_call() {
    let context = DeviceContextHandle(CONTEXT);
    let font = FontObjectHandle(FONT);
    let at = |stage: Stage| Extraction { face_name: "Arial".to_string(), stage };
    assert_eq!(
        at(Stage::ContextAcquired { context }).request(),
        OsRequest::CreateFont { logical_font: LogicalFont::for_face("Arial") }
    );
    assert_eq!(
        at(Stage::FontCreated { context, font }).request(),
        OsRequest::SelectFont { context, font }
    );
    assert_eq!(
        at(Stage::Selected { scope: scope() }).request(),
        OsRequest::QueryFontDataSize { scope: scope() }
    );
    assert_eq!(
        at(Stage::SizeQueried { scope: scope(), size: 3 }).request(),
        OsRequest::FillFontData { scope: scope(), buffer: vec![0, 0, 0] }
    );
    assert_eq!(
        at(Stage::Failing { call: ApiCall::CreateFont, held: vec![] }).request(),
        OsRequest::LastError
    );
    for (resource, request) in [
        (Resource::Selection(scope()), OsRequest::RestoreSelection { scope: scope() }),
        (Resource::Font(font), OsRequest::DestroyFont { font }),
        (Resource::Context(context), OsRequest::DestroyContext { context }),
    ] {
        assert_eq!(resource.release_request(), request);
        assert_eq!(
            at(Stage::Unwinding {
                outcome: Err(FontExtractorError::zero_size("Arial")),
                releasing: resource,
                rest: vec![],
                unreleased: vec![],
            })
            .request(),
            request
        );
    }
}

#[test]
fn invalid_identifiers_are_failures() {
    for raw in [0isize, -1] {
        let progress = Extraction::start("Arial").advance(OsReply::Handle(raw));
        assert_eq!(
            progress,
            Progress::Continue(Extraction {
                face_name: "Arial".to_string(),
                stage: Stage::Failing { call: ApiCall::CreateContext, held: vec![] },
            })
        );
    }
    for raw in [1isize, -2, isize::MAX, isize::MIN] {
        let progress = Extraction::start("Arial").advance(OsReply::Handle(raw));
        assert_eq!(
            progress,
            Progress::Continue(Extraction {
                face_name: "Arial".to_string(),
                stage: Stage::ContextAcquired { context: DeviceContextHandle(raw) },
            })
        );
    }
}

#[test]
fn a_reply_of_the_wrong_kind_is_the_failure_of_the_call() {
    let progress = Extraction::start("Arial").advance(OsReply::Size(12));
    assert_eq!(
        progress,
        Progress::Continue(Extraction {
            face_name: "Arial".to_string(),
            stage: Stage::Failing { call: ApiCall::CreateContext, held: vec![] },
        })
    );
    let selected =
        Extraction { face_name: "Arial".to_string(), stage: Stage::Selected { scope: scope() } };
    assert_eq!(
        selected.advance(OsReply::Handle(12)),
        Progress::Continue(Extraction {
            face_name: "Arial".to_string(),
            stage: Stage::Failing { call: ApiCall::GetFontDataSize, held: all_three() },
        })
    );
}

#[test]
fn a_missing_error_code_is_reported_as_zero() {
    let failing = Extraction {
        face_name: "Arial".to_string(),
        stage: Stage::Failing { call: ApiCall::CreateContext, held: vec![] },
    };
    assert_eq!(
        failing.advance(OsReply::Released { succeeded: true }),
        Progress::Finished(Report {
            outcome: Err(FontExtractorError::ApiFailure {
                call: ApiCall::CreateContext,
                face_name: None,
                os_error_code: 0,
            }),
            unreleased: vec![],
        })
    );
}

#[test]
fn a_buffer_of_another_length_is_a_mismatch() {
    let reading = Extraction {
        face_name: "Arial".to_string(),
        stage: Stage::SizeQueried { scope: scope(), size: 8 },
    };
    let progress = reading.advance(OsReply::Filled { written: 8, buffer: b"OTTO".to_vec() });
    assert_eq!(
        progress,
        Progress::Continue(Extraction {
            face_name: "Arial".to_string(),
            stage: Stage::Unwinding {
                outcome: Err(FontExtractorError::SizeMismatch { expected: 8, got: 4 }),
                releasing: Resource::Selection(scope()),
                rest: all_three()[..2].to_vec(),
                unreleased: vec![],
            },
        })
    );
}

#[test]
fn a_release_answered_by_anything_else_counts_as_failed() {
    let unwinding = Extraction {
        face_name: "Arial".to_string(),
        stage: Stage::Unwinding {
            outcome: Err(FontExtractorError::zero_size("Arial")),
            releasing: Resource::Context(DeviceContextHandle(CONTEXT)),
            rest: vec![],
            unreleased: vec![],
        },
    };
    assert_eq!(
        unwinding.advance(OsReply::Handle(1)),
        Progress::Finished(Report {
            outcome: Err(FontExtractorError::ZeroSizeFont { face_name: "Arial".to_string() }),
            unreleased: vec![Resource::Context(DeviceContextHandle(CONTEXT))],
        })
    );
}

#[test]
fn extracted_font_from_bytes_is_classified() {
    assert_eq!(
        ExtractedFont::from_bytes(b"ttcf....".to_vec()),
        ExtractedFont { bytes: b"ttcf....".to_vec(), format: FormatTag::Collection }
    );
    assert_eq!(ExtractedFont::from_bytes(vec![]).format, FormatTag::Unknown);
    assert_eq!(ExtractedFont::from_bytes(vec![]).extension(), "bin");
}

#[test]
fn extracted_bytes_are_what_the_system_delivered() {
    let data: Vec<u8> = (0..=255u8).cycle().take(5000).collect();
    let mut os = MockOs::with_data(&data);
    let font = extract("Arial", &mut os).outcome.unwrap();
    assert_eq!(font.bytes, data);
    assert_eq!(font.format, FormatTag::Unknown);
}

#[test]
fn driving_answer_by_answer_gives_the_same_report() {
    let failures = [
        None,
        Some(ApiCall::CreateContext),
        Some(ApiCall::CreateFont),
        Some(ApiCall::SelectFont),
        Some(ApiCall::GetFontDataSize),
        Some(ApiCall::GetFontDataFill),
    ];
    for failing in failures {
        let mut one = MockOs::with_data(b"OTTO-and-more");
        one.failing = failing;
        let mut other = MockOs::with_data(b"OTTO-and-more");
        other.failing = failing;
        assert_eq!(extract("Arial", &mut one), extract_stepwise("Arial", &mut other));
        assert_eq!(one.requests, other.requests);
        other.assert_balanced();
    }
}

#[test]
fn an_extraction_ends_whatever_is_answered() {
    let answers = [
        OsReply::Handle(5),
        OsReply::Handle(0),
        OsReply::Size(2),
        OsReply::Size(0),
        OsReply::Filled { written: 2, buffer: vec![1, 2] },
        OsReply::ErrorCode(3),
        OsReply::Released { succeeded: true },
    ];
    for answer in answers {
        let calls = RefCell::new(0usize);
        let report = extract_font("Arial", |_request| {
            *calls.borrow_mut() += 1;
            answer.clone()
        });
        assert!(*calls.borrow() <= 9);
        assert!(report.outcome.is_err());
    }
}
