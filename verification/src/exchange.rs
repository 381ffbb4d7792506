//! What an extraction asks of the operating system, and what it is told.
//!
//! The library makes no call itself. It names each call it needs as an
//! [`OsRequest`]; whoever drives the extraction performs the call and hands
//! the result back as an [`OsReply`].

use crate::face::{LogicalFont, LogicalFontView};
use crate::handle::{
    is_invalid_raw, raw_is_invalid, DeviceContextHandle, FontObjectHandle, FontSelectionScope,
    GdiObjectHandle, Resource,
};
use vstd::prelude::*;

verus! {

/// The value by which the operating system reports that a data call failed.
pub const GDI_ERROR: u32 = 0xFFFF_FFFF;

/// A call that the extraction needs made.
#[derive(Clone, Debug, PartialEq, Eq)]
pub enum OsRequest {
    /// Create a memory rendering context compatible with the screen.
    CreateContext,
    /// Create a font object from a logical font.
    CreateFont {
        /// The logical font to create the object from.
        logical_font: LogicalFont,
    },
    /// Bind a font object into a context.
    SelectFont {
        /// The context to bind into.
        context: DeviceContextHandle,
        /// The font object to bind.
        font: FontObjectHandle,
    },
    /// Ask for the size of the whole font file of the bound font: a data call
    /// for table 0 at offset 0 with no buffer and length 0.
    QueryFontDataSize {
        /// The open binding under which the data is read.
        scope: FontSelectionScope,
    },
    /// Ask for the whole font file of the bound font: a data call for table 0
    /// at offset 0 into `buffer`, with its length.
    FillFontData {
        /// The open binding under which the data is read.
        scope: FontSelectionScope,
        /// The buffer to fill, of the size that was announced.
        buffer: Vec<u8>,
    },
    /// Read the error code that the last failed call left behind.
    LastError,
    /// Bind the displaced object into the context again.
    RestoreSelection {
        /// The binding to close.
        scope: FontSelectionScope,
    },
    /// Destroy a font object.
    DestroyFont {
        /// The font object to destroy.
        font: FontObjectHandle,
    },
    /// Destroy a rendering context.
    DestroyContext {
        /// The context to destroy.
        context: DeviceContextHandle,
    },
}

/// A request, with its data as sequences.
pub enum OsRequestView {
    CreateContext,
    CreateFont { logical_font: LogicalFontView },
    SelectFont { context: DeviceContextHandle, font: FontObjectHandle },
    QueryFontDataSize { scope: FontSelectionScope },
    FillFontData { scope: FontSelectionScope, buffer: Seq<u8> },
    LastError,
    RestoreSelection { scope: FontSelectionScope },
    DestroyFont { font: FontObjectHandle },
    DestroyContext { context: DeviceContextHandle },
}

impl View for OsRequest {
    type V = OsRequestView;

    open spec fn view(&self) -> OsRequestView {
        match self {
            OsRequest::CreateContext => OsRequestView::CreateContext,
            OsRequest::CreateFont { logical_font } => OsRequestView::CreateFont {
                logical_font: logical_font@,
            },
            OsRequest::SelectFont { context, font } => OsRequestView::SelectFont {
                context: *context,
                font: *font,
            },
            OsRequest::QueryFontDataSize { scope } => OsRequestView::QueryFontDataSize {
                scope: *scope,
            },
            OsRequest::FillFontData { scope, buffer } => OsRequestView::FillFontData {
                scope: *scope,
                buffer: buffer@,
            },
            OsRequest::LastError => OsRequestView::LastError,
            OsRequest::RestoreSelection { scope } => OsRequestView::RestoreSelection {
                scope: *scope,
            },
            OsRequest::DestroyFont { font } => OsRequestView::DestroyFont { font: *font },
            OsRequest::DestroyContext { context } => OsRequestView::DestroyContext {
                context: *context,
            },
        }
    }
}

/// What the operating system answered.
#[derive(Clone, Debug, PartialEq, Eq)]
pub enum OsReply {
    /// The identifier that a creating or binding call returned.
    Handle(isize),
    /// The number that a data call without a buffer returned.
    Size(u32),
    /// The outcome of a data call with a buffer.
    Filled {
        /// The number that the call returned.
        written: u32,
        /// The buffer that was handed to the call.
        buffer: Vec<u8>,
    },
    /// The error code that the last failed call left behind.
    ErrorCode(i32),
    /// A resource was given back, or the attempt failed.
    Released {
        /// Whether the operating system reported success.
        succeeded: bool,
    },
}

/// A reply, with its data as sequences.
pub enum OsReplyView {
    Handle(isize),
    Size(u32),
    Filled { written: u32, buffer: Seq<u8> },
    ErrorCode(i32),
    Released { succeeded: bool },
}

impl View for OsReply {
    type V = OsReplyView;

    open spec fn view(&self) -> OsReplyView {
        match self {
            OsReply::Handle(raw) => OsReplyView::Handle(*raw),
            OsReply::Size(size) => OsReplyView::Size(*size),
            OsReply::Filled { written, buffer } => OsReplyView::Filled {
                written: *written,
                buffer: buffer@,
            },
            OsReply::ErrorCode(code) => OsReplyView::ErrorCode(*code),
            OsReply::Released { succeeded } => OsReplyView::Released { succeeded: *succeeded },
        }
    }
}

impl OsReplyView {
    /// The identifier that the reply brings, if it brings one that names
    /// something. Any other reply to a creating or binding call stands for
    /// the call's failure.
    pub open spec fn valid_handle(self) -> Option<isize> {
        match self {
            OsReplyView::Handle(raw) => if raw_is_invalid(raw) {
                None
            } else {
                Some(raw)
            },
            _ => None,
        }
    }

    /// The error code that the reply brings; zero where it brings none.
    pub open spec fn error_code(self) -> i32 {
        match self {
            OsReplyView::ErrorCode(code) => code,
            _ => 0,
        }
    }

    /// Whether the reply says that a resource was given back. Any other
    /// reply to a release stands for its failure.
    pub open spec fn release_succeeded(self) -> bool {
        match self {
            OsReplyView::Released { succeeded } => succeeded,
            _ => false,
        }
    }
}

impl OsReply {
    /// The identifier that the reply brings, if it brings one that names
    /// something.
    pub fn valid_handle(&self) -> (raw: Option<isize>)
        ensures
            raw == self@.valid_handle(),
    {
        match self {
            OsReply::Handle(raw) => if is_invalid_raw(*raw) {
                None
            } else {
                Some(*raw)
            },
            _ => None,
        }
    }

    /// The error code that the reply brings; zero where it brings none.
    pub fn error_code(&self) -> (code: i32)
        ensures
            code == self@.error_code(),
    {
        match self {
            OsReply::ErrorCode(code) => *code,
            _ => 0,
        }
    }

    /// Whether the reply says that a resource was given back.
    pub fn release_succeeded(&self) -> (succeeded: bool)
        ensures
            succeeded == self@.release_succeeded(),
    {
        match self {
            OsReply::Released { succeeded } => *succeeded,
            _ => false,
        }
    }
}

/// The request that gives `resource` back.
pub open spec fn release_request_spec(resource: Resource) -> OsRequestView {
    match resource {
        Resource::Context(context) => OsRequestView::DestroyContext { context },
        Resource::Font(font) => OsRequestView::DestroyFont { font },
        Resource::Selection(scope) => OsRequestView::RestoreSelection { scope },
    }
}

/// The resource that `request` gives back, if it gives one back.
pub open spec fn released_by(request: OsRequestView) -> Option<Resource> {
    match request {
        OsRequestView::DestroyContext { context } => Some(Resource::Context(context)),
        OsRequestView::DestroyFont { font } => Some(Resource::Font(font)),
        OsRequestView::RestoreSelection { scope } => Some(Resource::Selection(scope)),
        _ => None,
    }
}

/// Whether `request` asks for a resource.
pub open spec fn is_acquire(request: OsRequestView) -> bool {
    ||| request is CreateContext
    ||| request is CreateFont
    ||| request is SelectFont
}

/// The resource that `request` obtained when it was answered by `reply`, if
/// it obtained one: a creating or binding call obtains what it returns,
/// unless that names nothing.
pub open spec fn acquired_by(request: OsRequestView, reply: OsReplyView) -> Option<Resource> {
    match reply {
        OsReplyView::Handle(raw) => if raw_is_invalid(raw) {
            None
        } else {
            match request {
                OsRequestView::CreateContext => Some(Resource::Context(DeviceContextHandle(raw))),
                OsRequestView::CreateFont { .. } => Some(Resource::Font(FontObjectHandle(raw))),
                OsRequestView::SelectFont { context, font } => Some(
                    Resource::Selection(
                        FontSelectionScope { context, font, previous: GdiObjectHandle(raw) },
                    ),
                ),
                _ => None,
            }
        },
        _ => None,
    }
}

impl Resource {
    /// The request that gives this resource back.
    pub fn release_request(&self) -> (request: OsRequest)
        ensures
            request@ == release_request_spec(*self),
            released_by(request@) == Some(*self),
    {
        match self {
            Resource::Context(context) => OsRequest::DestroyContext { context: *context },
            Resource::Font(font) => OsRequest::DestroyFont { font: *font },
            Resource::Selection(scope) => OsRequest::RestoreSelection { scope: *scope },
        }
    }
}

} // verus!
