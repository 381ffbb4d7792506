//! Extraction of an installed font's data from the graphics subsystem.
//!
//! The operating system keeps the files of installed fonts to itself, but
//! hands out the data of a font that is bound into a rendering context. To
//! get at it, a program creates a context, creates a font object for the
//! face it wants, binds the font into the context, asks for the size of the
//! font data and then for the data, and gives everything back in the
//! reverse order.
//!
//! This library decides every step of that and makes none of the calls.
//! It names the call it needs next as an [`exchange::OsRequest`]; the
//! caller performs it and hands the result back as an
//! [`exchange::OsReply`]. [`history::extract_font`] runs a whole
//! extraction over whatever performs the calls:
//!
//! ```text
//! let report = extract_font("Arial", perform);
//! ```
//!
//! and a [`session::Extraction`] can be driven answer by answer:
//!
//! ```text
//! let mut extraction = Extraction::start("Arial");
//! loop {
//!     let reply = perform(extraction.request());
//!     match extraction.advance(reply) {
//!         Progress::Continue(next) => extraction = next,
//!         Progress::Finished(report) => break report,
//!     }
//! }
//! ```
//!
//! The modules:
//!
//! - [`format`]: the classification of font data by its signature;
//! - [`face`]: face names in wide characters, and the logical font that
//!   selects a face;
//! - [`handle`]: the identifiers of the resources that an extraction holds;
//! - [`exchange`]: the requests and the replies;
//! - [`reader`]: the meaning of the two answers of the two-phase read;
//! - [`error`]: the failures;
//! - [`session`]: the extraction itself, answer by answer;
//! - [`history`]: whole extractions and the calls they make;
//! - [`theorems`]: what holds of every extraction: that whatever is
//!   acquired is given back, once and in reverse order; that a font has the
//!   size that was announced; that the outcome is what the calls explain;
//!   that an extraction ends.

pub mod error;
pub mod exchange;
pub mod face;
pub mod format;
pub mod handle;
pub mod history;
pub mod reader;
pub mod session;
pub mod theorems;

pub use error::{ApiCall, FontExtractorError};
pub use exchange::{OsReply, OsRequest};
pub use format::{sniff, FormatTag};
pub use history::extract_font;
pub use session::{ExtractedFont, Extraction, Progress, Report};
