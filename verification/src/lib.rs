//! A verified record store for movie reviews kept inside a host ledger's
//! account storage.
//!
//! Each review (owner, title, rating, description) lives in a fixed
//! 1000-byte account at an address derived deterministically from the
//! owner's key and the review title. The library verifies the instruction
//! decoder, the record codec, the validation rules, and the create/update
//! lifecycle; the host runtime performs storage allocation and hands the
//! raw buffers in and out.

pub mod codec;
pub mod error;
pub mod instruction;
pub mod lifecycle;
pub mod pda;
pub mod record;
pub mod text;
