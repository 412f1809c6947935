//! Decoding of the raw operation buffer into a typed operation.
//!
//! Wire layout, little-endian, no padding: a one-byte tag (0 = create,
//! 1 = update), the 4-byte title length, the title bytes, a one-byte
//! rating, the 4-byte description length, and the description bytes.
//! Unknown tags, truncated buffers, and text that is not UTF-8 are hard
//! decode failures.

use crate::codec::{read_u32_le, spec_u32_of_le};
use crate::error::ReviewError;
use crate::text::validate_utf8;
use vstd::prelude::*;
use vstd::slice::{slice_index_get, slice_subrange, slice_to_vec};
use vstd::utf8::valid_utf8;

verus! {

/// The mathematical image of a decoded operation.
pub enum InstructionView {
    AddMovieReview { title: Seq<u8>, rating: u8, description: Seq<u8> },
    UpdateMovieReview { title: Seq<u8>, rating: u8, description: Seq<u8> },
}

/// A decoded operation: create a review, or update one.
/// Title and description are UTF-8 text, held as their bytes.
#[derive(Debug, PartialEq, Eq)]
pub enum MovieInstruction {
    AddMovieReview { title: Vec<u8>, rating: u8, description: Vec<u8> },
    UpdateMovieReview { title: Vec<u8>, rating: u8, description: Vec<u8> },
}

impl View for MovieInstruction {
    type V = InstructionView;

    open spec fn view(&self) -> InstructionView {
        match self {
            MovieInstruction::AddMovieReview { title, rating, description } => {
                InstructionView::AddMovieReview {
                    title: title@,
                    rating: *rating,
                    description: description@,
                }
            },
            MovieInstruction::UpdateMovieReview { title, rating, description } => {
                InstructionView::UpdateMovieReview {
                    title: title@,
                    rating: *rating,
                    description: description@,
                }
            },
        }
    }
}

/// What `unpack` reads out of an operation buffer: `None` exactly where
/// decoding must fail.
pub open spec fn spec_unpack(b: Seq<u8>) -> Option<InstructionView> {
    if b.len() < 5 {
        None
    } else if b[0] > 1 {
        None
    } else {
        let tl = spec_u32_of_le(b.subrange(1, 5));
        if b.len() < 10 + tl {
            None
        } else {
            let title = b.subrange(5, 5 + tl);
            let rating = b[5 + tl];
            let dl = spec_u32_of_le(b.subrange(6 + tl, 10 + tl));
            if b.len() < 10 + tl + dl {
                None
            } else {
                let description = b.subrange(10 + tl, 10 + tl + dl);
                if !valid_utf8(title) || !valid_utf8(description) {
                    None
                } else if b[0] == 0 {
                    Some(InstructionView::AddMovieReview { title, rating, description })
                } else {
                    Some(InstructionView::UpdateMovieReview { title, rating, description })
                }
            }
        }
    }
}

impl MovieInstruction {
    /// Parses the raw operation buffer. Fails with `InvalidInstructionData`
    /// exactly on buffers the wire layout rejects.
    pub fn unpack(b: &[u8]) -> (res: Result<MovieInstruction, ReviewError>)
        ensures
            match res {
                Ok(ins) => spec_unpack(b@) == Some(ins@),
                Err(e) => spec_unpack(b@) is None && e
                    == ReviewError::InvalidInstructionData,
            },
    {
        if b.len() < 5 {
            return Err(ReviewError::InvalidInstructionData);
        }
        let tag = *slice_index_get(b, 0);
        if tag > 1 {
            return Err(ReviewError::InvalidInstructionData);
        }
        let tl = read_u32_le(b, 1) as usize;
        if b.len() < 10 || b.len() - 10 < tl {
            return Err(ReviewError::InvalidInstructionData);
        }
        let title = slice_to_vec(slice_subrange(b, 5, 5 + tl));
        let rating = *slice_index_get(b, 5 + tl);
        let dl = read_u32_le(b, 6 + tl) as usize;
        if b.len() - 10 - tl < dl {
            return Err(ReviewError::InvalidInstructionData);
        }
        let description = slice_to_vec(slice_subrange(b, 10 + tl, 10 + tl + dl));
        if !validate_utf8(title.as_slice()) || !validate_utf8(description.as_slice()) {
            return Err(ReviewError::InvalidInstructionData);
        }
        if tag == 0 {
            Ok(MovieInstruction::AddMovieReview { title, rating, description })
        } else {
            Ok(MovieInstruction::UpdateMovieReview { title, rating, description })
        }
    }
}

} // verus!
