//! The two-phase reading of font data: what each of the two answers means.
//!
//! The operating system is asked twice. The first call, without a buffer,
//! announces the size of the data. The second fills a buffer of exactly that
//! size. The data is accepted only if the second call delivers as many bytes
//! as the first announced.

use crate::exchange::{OsReply, OsReplyView, GDI_ERROR};
use vstd::prelude::*;

verus! {

/// What the answer to the size query means.
#[derive(Clone, Copy, Debug, PartialEq, Eq, Structural)]
pub enum SizeAnswer {
    /// The call failed.
    OsFailure,
    /// There is no data to read for this face.
    NoData,
    /// The data has this many bytes.
    Announced(u32),
}

/// What the answer `reply` to the size query means: the error value for a
/// failed call, zero for a face without data, any other number for the size
/// of the data. A reply that is no size stands for a failed call.
pub open spec fn size_answer_spec(reply: OsReplyView) -> SizeAnswer {
    match reply {
        OsReplyView::Size(size) => if size == GDI_ERROR {
            SizeAnswer::OsFailure
        } else if size == 0 {
            SizeAnswer::NoData
        } else {
            SizeAnswer::Announced(size)
        },
        _ => SizeAnswer::OsFailure,
    }
}

/// What the answer to the size query means.
pub fn read_size(reply: &OsReply) -> (answer: SizeAnswer)
    ensures
        answer == size_answer_spec(reply@),
{
    match reply {
        OsReply::Size(size) => if *size == GDI_ERROR {
            SizeAnswer::OsFailure
        } else if *size == 0 {
            SizeAnswer::NoData
        } else {
            SizeAnswer::Announced(*size)
        },
        _ => SizeAnswer::OsFailure,
    }
}

/// A buffer of `size` zero bytes.
pub open spec fn blank_buffer(size: u32) -> Seq<u8> {
    Seq::new(size as nat, |i: int| 0u8)
}

/// Allocates the buffer for data of the announced size: exactly `size`
/// bytes, all zero.
pub fn new_buffer(size: u32) -> (buffer: Vec<u8>)
    ensures
        buffer@ == blank_buffer(size),
{
    vec![0u8; size as usize]
}

/// What the answer to the fill call means.
#[derive(Clone, Debug, PartialEq, Eq)]
pub enum FillAnswer {
    /// The call failed.
    OsFailure,
    /// The call delivered `got` bytes, which is not the size announced.
    Mismatch {
        /// The number of bytes delivered.
        got: u32,
    },
    /// The call delivered the whole data.
    Complete {
        /// The data, of the size announced.
        bytes: Vec<u8>,
    },
}

/// The meaning of an answer to the fill call, with the data as a sequence.
pub enum FillAnswerView {
    OsFailure,
    Mismatch { got: u32 },
    Complete { bytes: Seq<u8> },
}

impl View for FillAnswer {
    type V = FillAnswerView;

    open spec fn view(&self) -> FillAnswerView {
        match self {
            FillAnswer::OsFailure => FillAnswerView::OsFailure,
            FillAnswer::Mismatch { got } => FillAnswerView::Mismatch { got: *got },
            FillAnswer::Complete { bytes } => FillAnswerView::Complete { bytes: bytes@ },
        }
    }
}

/// A length as a byte count of the operating system, which has 32 bits:
/// a longer length counts as the largest count.
pub open spec fn delivered_count(len: nat) -> u32 {
    if len > u32::MAX {
        u32::MAX
    } else {
        len as u32
    }
}

/// What the answer `reply` to the fill call means, when `expected` bytes
/// were announced.
///
/// The error value stands for a failed call. Any other count than
/// `expected` is a mismatch. So is a buffer that has not the announced
/// length, whatever count comes with it: its length is then the number
/// delivered. Only a count of `expected` with a buffer of that length is the
/// data. A reply that is no filled buffer stands for a failed call.
pub open spec fn fill_answer_spec(expected: u32, reply: OsReplyView) -> FillAnswerView {
    match reply {
        OsReplyView::Filled { written, buffer } => if written == GDI_ERROR {
            FillAnswerView::OsFailure
        } else if written != expected {
            FillAnswerView::Mismatch { got: written }
        } else if buffer.len() != expected {
            FillAnswerView::Mismatch { got: delivered_count(buffer.len()) }
        } else {
            FillAnswerView::Complete { bytes: buffer }
        },
        _ => FillAnswerView::OsFailure,
    }
}

/// What the answer to the fill call means, when `expected` bytes were
/// announced.
pub fn read_fill(expected: u32, reply: OsReply) -> (answer: FillAnswer)
    ensures
        answer@ == fill_answer_spec(expected, reply@),
{
    match reply {
        OsReply::Filled { written, buffer } => {
            if written == GDI_ERROR {
                FillAnswer::OsFailure
            } else if written != expected {
                FillAnswer::Mismatch { got: written }
            } else if buffer.len() != expected as usize {
                let got: u32 = if buffer.len() > u32::MAX as usize {
                    u32::MAX
                } else {
                    buffer.len() as u32
                };
                FillAnswer::Mismatch { got }
            } else {
                FillAnswer::Complete { bytes: buffer }
            }
        },
        _ => FillAnswer::OsFailure,
    }
}

/// Data is accepted only at the announced size, and a mismatch always names
/// a count that differs from the size announced.
pub proof fn lemma_fill_answer_sizes(expected: u32, reply: OsReplyView)
    ensures
        match fill_answer_spec(expected, reply) {
            FillAnswerView::Complete { bytes } => {
                &&& bytes.len() == expected
                &&& reply == (OsReplyView::Filled { written: expected, buffer: bytes })
            },
            FillAnswerView::Mismatch { got } => got != expected,
            FillAnswerView::OsFailure => true,
        },
{
}

} // verus!
