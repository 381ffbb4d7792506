//! The failures of an extraction.

use vstd::prelude::*;

verus! {

/// An operating-system call whose failure ends an extraction.
#[derive(Clone, Copy, Debug, PartialEq, Eq, Structural)]
pub enum ApiCall {
    /// Creating the rendering context.
    CreateContext,
    /// Creating the font object from the face name.
    CreateFont,
    /// Binding the font object into the context.
    SelectFont,
    /// Asking for the size of the font data.
    GetFontDataSize,
    /// Asking for the font data itself.
    GetFontDataFill,
}

impl ApiCall {
    /// The name under which the call is reported.
    pub open spec fn name_spec(&self) -> Seq<char> {
        match self {
            ApiCall::CreateContext => "create_context"@,
            ApiCall::CreateFont => "create_font"@,
            ApiCall::SelectFont => "select_font"@,
            ApiCall::GetFontDataSize => "get_font_data(size)"@,
            ApiCall::GetFontDataFill => "get_font_data(fill)"@,
        }
    }

    /// The name under which the call is reported.
    pub fn name(&self) -> (name: &'static str)
        ensures
            name@ == self.name_spec(),
    {
        match self {
            ApiCall::CreateContext => "create_context",
            ApiCall::CreateFont => "create_font",
            ApiCall::SelectFont => "select_font",
            ApiCall::GetFontDataSize => "get_font_data(size)",
            ApiCall::GetFontDataFill => "get_font_data(fill)",
        }
    }

    /// Whether a failure of the call is reported with the face name: only
    /// the creation of the font object depends on it.
    pub open spec fn names_face_spec(&self) -> bool {
        *self == ApiCall::CreateFont
    }

    /// Whether a failure of the call is reported with the face name.
    #[verifier::when_used_as_spec(names_face_spec)]
    pub fn names_face(&self) -> (b: bool)
        ensures
            b == self.names_face_spec(),
    {
        match self {
            ApiCall::CreateFont => true,
            _ => false,
        }
    }
}

/// Why an extraction failed.
#[derive(Clone, Debug, PartialEq, Eq)]
#[allow(inconsistent_fields)]
pub enum FontExtractorError {
    /// An operating-system call returned its error value.
    ApiFailure {
        /// The call that failed.
        call: ApiCall,
        /// The face asked for, where the call depends on it.
        face_name: Option<String>,
        /// The error code that the operating system held after the call.
        os_error_code: i32,
    },
    /// The operating system has no data for the face: it stands for a font
    /// that is substituted, not stored.
    ZeroSizeFont {
        /// The face asked for.
        face_name: String,
    },
    /// The operating system delivered another number of bytes than it had
    /// announced.
    SizeMismatch {
        /// The size announced.
        expected: u32,
        /// The number of bytes delivered.
        got: u32,
    },
    /// The extracted data could not be stored. The extraction itself never
    /// fails so: the variant is for whoever writes the file.
    IoFailure {
        /// The path that could not be created or written.
        path: String,
        /// What the file system reported.
        cause: String,
    },
}

/// A failure, with its texts as sequences of characters.
#[allow(inconsistent_fields)]
pub enum ErrorView {
    ApiFailure { call: ApiCall, face_name: Option<Seq<char>>, os_error_code: i32 },
    ZeroSizeFont { face_name: Seq<char> },
    SizeMismatch { expected: u32, got: u32 },
    IoFailure { path: Seq<char>, cause: Seq<char> },
}

impl View for FontExtractorError {
    type V = ErrorView;

    open spec fn view(&self) -> ErrorView {
        match self {
            FontExtractorError::ApiFailure { call, face_name, os_error_code } => {
                ErrorView::ApiFailure {
                    call: *call,
                    face_name: match face_name {
                        Some(name) => Some(name@),
                        None => None,
                    },
                    os_error_code: *os_error_code,
                }
            },
            FontExtractorError::ZeroSizeFont { face_name } => ErrorView::ZeroSizeFont {
                face_name: face_name@,
            },
            FontExtractorError::SizeMismatch { expected, got } => ErrorView::SizeMismatch {
                expected: *expected,
                got: *got,
            },
            FontExtractorError::IoFailure { path, cause } => ErrorView::IoFailure {
                path: path@,
                cause: cause@,
            },
        }
    }
}

/// The failure of `call` during the extraction of `face_name`, with the
/// error code that the operating system held.
pub open spec fn api_failure_spec(
    call: ApiCall,
    face_name: Seq<char>,
    os_error_code: i32,
) -> ErrorView {
    ErrorView::ApiFailure {
        call,
        face_name: if call.names_face_spec() {
            Some(face_name)
        } else {
            None
        },
        os_error_code,
    }
}

impl FontExtractorError {
    /// The failure of `call` during the extraction of `face_name`.
    pub fn api_failure(
        call: ApiCall,
        face_name: &str,
        os_error_code: i32,
    ) -> (error: FontExtractorError)
        ensures
            error@ == api_failure_spec(call, face_name@, os_error_code),
    {
        let reported: Option<String> = if call.names_face() {
            Some(face_name.to_owned())
        } else {
            None
        };
        FontExtractorError::ApiFailure { call, face_name: reported, os_error_code }
    }

    /// The failure of an extraction for whose face there is no data.
    pub fn zero_size(face_name: &str) -> (error: FontExtractorError)
        ensures
            error@ == (ErrorView::ZeroSizeFont { face_name: face_name@ }),
    {
        FontExtractorError::ZeroSizeFont { face_name: face_name.to_owned() }
    }

    /// The call that failed, where the failure is that of a call.
    pub fn failed_call(&self) -> (call: Option<ApiCall>)
        ensures
            call == (match self@ {
                ErrorView::ApiFailure { call, .. } => Some(call),
                _ => None,
            }),
    {
        match self {
            FontExtractorError::ApiFailure { call, .. } => Some(*call),
            _ => None,
        }
    }
}

} // verus!
