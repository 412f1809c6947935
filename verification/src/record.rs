//! The persisted review record and its mathematical image.

use vstd::prelude::*;

verus! {

/// Every record is stored in exactly this many bytes, whatever the payload.
pub const RECORD_SIZE: usize = 1000;

/// Identities (owner keys, module ids, storage addresses) are this long.
pub const KEY_LEN: usize = 32;

/// The mathematical image of a record: what the contracts speak of.
pub struct RecordView {
    pub initialized: bool,
    pub owner: Seq<u8>,
    pub title: Seq<u8>,
    pub rating: u8,
    pub description: Seq<u8>,
}

impl RecordView {
    /// Bytes the logical payload occupies inside the fixed allocation:
    /// flag, owner key, length-prefixed title, rating, and length-prefixed
    /// description.
    pub open spec fn encoded_len(self) -> int {
        1 + self.owner.len() + (4 + self.title.len() as int) + 1 + (4
            + self.description.len() as int)
    }

    /// A record the codec can hold: a full-length owner key and a payload
    /// that fits the fixed allocation.
    pub open spec fn wf(self) -> bool {
        &&& self.owner.len() == KEY_LEN
        &&& self.encoded_len() <= RECORD_SIZE
    }
}

/// A review record: owner and title are fixed at creation, rating and
/// description may change on update.
pub struct ReviewRecord {
    pub initialized: bool,
    pub owner: Vec<u8>,
    pub title: Vec<u8>,
    pub rating: u8,
    pub description: Vec<u8>,
}

impl View for ReviewRecord {
    type V = RecordView;

    open spec fn view(&self) -> RecordView {
        RecordView {
            initialized: self.initialized,
            owner: self.owner@,
            title: self.title@,
            rating: self.rating,
            description: self.description@,
        }
    }
}

} // verus!
