//! The account lifecycle: signer checks, address verification,
//! validation, and the create/update state machine over a record's
//! storage.
//!
//! The host runtime owns allocation and the raw buffers. A create is
//! checked here first; the returned request tells the host what to
//! allocate; once the host has allocated, the populated storage bytes
//! are computed here. An update needs no host call beyond handing the
//! buffer in and writing the result back.

use crate::codec::{decode, encode, lemma_encode_decode_roundtrip, spec_decode, spec_encode};
use crate::error::ReviewError;
use crate::instruction::{spec_unpack, InstructionView, MovieInstruction};
use crate::pda::{derive_review_address, derived_review_address};
use crate::record::{RecordView, ReviewRecord, KEY_LEN, RECORD_SIZE};
use vstd::prelude::*;
use vstd::slice::slice_to_vec;

verus! {

/// An account descriptor as the host hands it in: identity, flags,
/// controlling authority, and the current storage bytes.
pub struct Account {
    pub key: Vec<u8>,
    pub is_signer: bool,
    pub is_writable: bool,
    pub owner: Vec<u8>,
    pub data: Vec<u8>,
}

/// What the host must allocate before a create can finish: `size` bytes
/// at the derived address, funded at the host's minimum for that size,
/// the module signing with (owner key, title, bump) as seeds.
pub struct CreateRequest {
    pub address: Vec<u8>,
    pub bump: u8,
    pub size: usize,
}

/// The effect a dispatched operation asks of the host: allocate storage
/// for a new record, or overwrite an existing record's storage.
pub enum ProcessOutcome {
    Allocate(CreateRequest),
    Write(Vec<u8>),
}

/// A rating lies in the closed interval [1, 5].
pub open spec fn rating_ok(rating: u8) -> bool {
    1 <= rating && rating <= 5
}

/// The encoded record fits the fixed allocation: flag, owner key,
/// length-prefixed title, rating, length-prefixed description.
pub open spec fn size_ok(title_len: int, description_len: int) -> bool {
    1 + (KEY_LEN as int) + (4 + title_len) + 1 + (4 + description_len) <= (
    RECORD_SIZE as int)
}

/// The checks a create runs before any storage is touched, in order:
/// signer, derived address, rating, size. `Ok` carries the derived
/// (address, bump).
pub open spec fn spec_create_check(
    is_signer: bool,
    owner_key: Seq<u8>,
    pda_key: Seq<u8>,
    title: Seq<u8>,
    rating: u8,
    description: Seq<u8>,
    program_id: Seq<u8>,
) -> Result<(Seq<u8>, u8), ReviewError> {
    if !is_signer {
        Err(ReviewError::MissingRequiredSignature)
    } else {
        match derived_review_address(owner_key, title, program_id) {
            None => Err(ReviewError::InvalidDerivedAddress),
            Some(p) => if p.0 != pda_key {
                Err(ReviewError::InvalidDerivedAddress)
            } else if !rating_ok(rating) {
                Err(ReviewError::InvalidRating)
            } else if !size_ok(title.len() as int, description.len() as int) {
                Err(ReviewError::DataTooLarge)
            } else {
                Ok(p)
            },
        }
    }
}

/// What finishing a create does to freshly allocated storage: reject a
/// slot that already holds an initialized (or undecodable) record,
/// re-validate, then populate and encode.
pub open spec fn spec_finish_create(
    storage: Seq<u8>,
    owner_key: Seq<u8>,
    title: Seq<u8>,
    rating: u8,
    description: Seq<u8>,
) -> Result<Seq<u8>, ReviewError> {
    match spec_decode(storage) {
        None => Err(ReviewError::AccountAlreadyInitialized),
        Some(cur) => if cur.initialized {
            Err(ReviewError::AccountAlreadyInitialized)
        } else if !rating_ok(rating) {
            Err(ReviewError::InvalidRating)
        } else if !size_ok(title.len() as int, description.len() as int) {
            Err(ReviewError::DataTooLarge)
        } else {
            Ok(
                spec_encode(
                    RecordView {
                        initialized: true,
                        owner: owner_key,
                        title: title,
                        rating: rating,
                        description: description,
                    },
                ),
            )
        },
    }
}

/// What an update does, in order: authority check, signer check, decode,
/// derived-address check against the stored title, initialized check,
/// rating and size checks, then overwrite rating and description only.
pub open spec fn spec_update(
    program_id: Seq<u8>,
    initializer_key: Seq<u8>,
    is_signer: bool,
    pda_owner: Seq<u8>,
    pda_key: Seq<u8>,
    storage: Seq<u8>,
    rating: u8,
    description: Seq<u8>,
) -> Result<Seq<u8>, ReviewError> {
    if pda_owner != program_id {
        Err(ReviewError::IllegalOwner)
    } else if !is_signer {
        Err(ReviewError::MissingRequiredSignature)
    } else {
        match spec_decode(storage) {
            None => Err(ReviewError::UninitializedAccount),
            Some(cur) => match derived_review_address(
                initializer_key,
                cur.title,
                program_id,
            ) {
                None => Err(ReviewError::InvalidDerivedAddress),
                Some(p) => if p.0 != pda_key {
                    Err(ReviewError::InvalidDerivedAddress)
                } else if !cur.initialized {
                    Err(ReviewError::UninitializedAccount)
                } else if !rating_ok(rating) {
                    Err(ReviewError::InvalidRating)
                } else if !size_ok(cur.title.len() as int, description.len() as int) {
                    Err(ReviewError::DataTooLarge)
                } else {
                    Ok(
                        spec_encode(
                            RecordView {
                                initialized: true,
                                owner: cur.owner,
                                title: cur.title,
                                rating: rating,
                                description: description,
                            },
                        ),
                    )
                },
            },
        }
    }
}

/// Byte-string equality.
pub fn bytes_eq(a: &Vec<u8>, b: &Vec<u8>) -> (r: bool)
    ensures
        r == (a@ == b@),
{
    if a.len() != b.len() {
        return false;
    }
    let mut i: usize = 0;
    while i < a.len()
        invariant
            i <= a@.len(),
            a@.len() == b@.len(),
            forall|j: int| 0 <= j < i ==> a@[j] == b@[j],
        decreases a@.len() - i,
    {
        if a[i] != b[i] {
            return false;
        }
        i = i + 1;
    }
    proof {
        assert(a@ =~= b@);
    }
    true
}

/// The checks a create runs before any storage is touched. On success
/// the returned request names what the host must allocate; nothing has
/// been allocated or written yet, so a failure here has no side effect.
pub fn add_movie_review(
    program_id: &Vec<u8>,
    initializer: &Account,
    pda_account: &Account,
    title: &Vec<u8>,
    rating: u8,
    description: &Vec<u8>,
) -> (res: Result<CreateRequest, ReviewError>)
    requires
        program_id@.len() == KEY_LEN,
    ensures
        match res {
            Ok(req) => spec_create_check(
                initializer.is_signer,
                initializer.key@,
                pda_account.key@,
                title@,
                rating,
                description@,
                program_id@,
            ) == Ok::<(Seq<u8>, u8), ReviewError>((req.address@, req.bump))
                && req.address@ == pda_account.key@ && req.size == RECORD_SIZE,
            Err(e) => spec_create_check(
                initializer.is_signer,
                initializer.key@,
                pda_account.key@,
                title@,
                rating,
                description@,
                program_id@,
            ) == Err::<(Seq<u8>, u8), ReviewError>(e),
        },
{
    if !initializer.is_signer {
        return Err(ReviewError::MissingRequiredSignature);
    }
    match derive_review_address(&initializer.key, title, program_id) {
        None => Err(ReviewError::InvalidDerivedAddress),
        Some((address, bump)) => {
            if !bytes_eq(&address, &pda_account.key) {
                return Err(ReviewError::InvalidDerivedAddress);
            }
            if rating < 1 || rating > 5 {
                return Err(ReviewError::InvalidRating);
            }
            if title.len() > RECORD_SIZE - 42 || description.len() > RECORD_SIZE - 42
                - title.len() {
                return Err(ReviewError::DataTooLarge);
            }
            Ok(CreateRequest { address, bump, size: RECORD_SIZE })
        },
    }
}

/// Finishes a create on storage the host has just allocated: rejects a
/// slot that already holds an initialized record, then populates the
/// record and returns the bytes the host must write back.
pub fn finish_add_movie_review(
    storage: &Vec<u8>,
    owner_key: &Vec<u8>,
    title: &Vec<u8>,
    rating: u8,
    description: &Vec<u8>,
) -> (res: Result<Vec<u8>, ReviewError>)
    requires
        owner_key@.len() == KEY_LEN,
    ensures
        match res {
            Ok(out) => spec_finish_create(storage@, owner_key@, title@, rating, description@)
                == Ok::<Seq<u8>, ReviewError>(out@) && out@.len() == RECORD_SIZE,
            Err(e) => spec_finish_create(storage@, owner_key@, title@, rating, description@)
                == Err::<Seq<u8>, ReviewError>(e),
        },
{
    match decode(storage.as_slice()) {
        None => Err(ReviewError::AccountAlreadyInitialized),
        Some(cur) => {
            if cur.initialized {
                return Err(ReviewError::AccountAlreadyInitialized);
            }
            if rating < 1 || rating > 5 {
                return Err(ReviewError::InvalidRating);
            }
            if title.len() > RECORD_SIZE - 42 || description.len() > RECORD_SIZE - 42
                - title.len() {
                return Err(ReviewError::DataTooLarge);
            }
            let record = ReviewRecord {
                initialized: true,
                owner: slice_to_vec(owner_key.as_slice()),
                title: slice_to_vec(title.as_slice()),
                rating,
                description: slice_to_vec(description.as_slice()),
            };
            Ok(encode(&record))
        },
    }
}

/// Updates an existing record: only its rating and description change;
/// the stored owner and title are untouchable. Returns the bytes the
/// host must write back. The submitted title plays no part: the stored
/// one alone drives the address check.
#[allow(unused_variables)]
pub fn update_movie_review(
    program_id: &Vec<u8>,
    initializer: &Account,
    pda_account: &Account,
    title: &Vec<u8>,
    rating: u8,
    description: &Vec<u8>,
) -> (res: Result<Vec<u8>, ReviewError>)
    requires
        program_id@.len() == KEY_LEN,
    ensures
        match res {
            Ok(out) => spec_update(
                program_id@,
                initializer.key@,
                initializer.is_signer,
                pda_account.owner@,
                pda_account.key@,
                pda_account.data@,
                rating,
                description@,
            ) == Ok::<Seq<u8>, ReviewError>(out@) && out@.len() == RECORD_SIZE,
            Err(e) => spec_update(
                program_id@,
                initializer.key@,
                initializer.is_signer,
                pda_account.owner@,
                pda_account.key@,
                pda_account.data@,
                rating,
                description@,
            ) == Err::<Seq<u8>, ReviewError>(e),
        },
{
    if !bytes_eq(&pda_account.owner, program_id) {
        return Err(ReviewError::IllegalOwner);
    }
    if !initializer.is_signer {
        return Err(ReviewError::MissingRequiredSignature);
    }
    match decode(pda_account.data.as_slice()) {
        None => Err(ReviewError::UninitializedAccount),
        Some(cur) => {
            match derive_review_address(&initializer.key, &cur.title, program_id) {
                None => Err(ReviewError::InvalidDerivedAddress),
                Some((address, _bump)) => {
                    if !bytes_eq(&address, &pda_account.key) {
                        return Err(ReviewError::InvalidDerivedAddress);
                    }
                    if !cur.initialized {
                        return Err(ReviewError::UninitializedAccount);
                    }
                    if rating < 1 || rating > 5 {
                        return Err(ReviewError::InvalidRating);
                    }
                    if cur.title.len() > RECORD_SIZE - 42 || description.len()
                        > RECORD_SIZE - 42 - cur.title.len() {
                        return Err(ReviewError::DataTooLarge);
                    }
                    let record = ReviewRecord {
                        initialized: true,
                        owner: cur.owner,
                        title: cur.title,
                        rating,
                        description: slice_to_vec(description.as_slice()),
                    };
                    Ok(encode(&record))
                },
            }
        },
    }
}

/// The tag-dispatched entry point: decodes the operation buffer, then
/// runs the create checks or the update, and says what the host must do
/// next.
pub fn process_instruction(
    program_id: &Vec<u8>,
    initializer: &Account,
    pda_account: &Account,
    instruction_data: &[u8],
) -> (res: Result<ProcessOutcome, ReviewError>)
    requires
        program_id@.len() == KEY_LEN,
    ensures
        match spec_unpack(instruction_data@) {
            None => res == Err::<ProcessOutcome, ReviewError>(
                ReviewError::InvalidInstructionData,
            ),
            Some(InstructionView::AddMovieReview { title, rating, description }) => match res {
                Ok(ProcessOutcome::Allocate(req)) => spec_create_check(
                    initializer.is_signer,
                    initializer.key@,
                    pda_account.key@,
                    title,
                    rating,
                    description,
                    program_id@,
                ) == Ok::<(Seq<u8>, u8), ReviewError>((req.address@, req.bump))
                    && req.size == RECORD_SIZE,
                Ok(ProcessOutcome::Write(_)) => false,
                Err(e) => spec_create_check(
                    initializer.is_signer,
                    initializer.key@,
                    pda_account.key@,
                    title,
                    rating,
                    description,
                    program_id@,
                ) == Err::<(Seq<u8>, u8), ReviewError>(e),
            },
            Some(InstructionView::UpdateMovieReview { title, rating, description }) => match res {
                Ok(ProcessOutcome::Write(out)) => spec_update(
                    program_id@,
                    initializer.key@,
                    initializer.is_signer,
                    pda_account.owner@,
                    pda_account.key@,
                    pda_account.data@,
                    rating,
                    description,
                ) == Ok::<Seq<u8>, ReviewError>(out@),
                Ok(ProcessOutcome::Allocate(_)) => false,
                Err(e) => spec_update(
                    program_id@,
                    initializer.key@,
                    initializer.is_signer,
                    pda_account.owner@,
                    pda_account.key@,
                    pda_account.data@,
                    rating,
                    description,
                ) == Err::<Seq<u8>, ReviewError>(e),
            },
        },
{
    let instruction = match MovieInstruction::unpack(instruction_data) {
        Ok(ins) => ins,
        Err(e) => {
            return Err(e);
        },
    };
    match instruction {
        MovieInstruction::AddMovieReview { title, rating, description } => {
            match add_movie_review(
                program_id,
                initializer,
                pda_account,
                &title,
                rating,
                &description,
            ) {
                Ok(req) => Ok(ProcessOutcome::Allocate(req)),
                Err(e) => Err(e),
            }
        },
        MovieInstruction::UpdateMovieReview { title, rating, description } => {
            match update_movie_review(
                program_id,
                initializer,
                pda_account,
                &title,
                rating,
                &description,
            ) {
                Ok(out) => Ok(ProcessOutcome::Write(out)),
                Err(e) => Err(e),
            }
        },
    }
}

/// Persistence law: the storage a successful create produces decodes
/// to an initialized record holding exactly the given owner, title,
/// rating and description.
pub proof fn lemma_create_populates_record(
    storage: Seq<u8>,
    owner_key: Seq<u8>,
    title: Seq<u8>,
    rating: u8,
    description: Seq<u8>,
    out: Seq<u8>,
)
    requires
        owner_key.len() == KEY_LEN,
        spec_finish_create(storage, owner_key, title, rating, description)
            == Ok::<Seq<u8>, ReviewError>(out),
    ensures
        spec_decode(out) == Some(
            RecordView {
                initialized: true,
                owner: owner_key,
                title: title,
                rating: rating,
                description: description,
            },
        ),
{
    let r = RecordView {
        initialized: true,
        owner: owner_key,
        title: title,
        rating: rating,
        description: description,
    };
    assert(r.wf());
    lemma_encode_decode_roundtrip(r);
}

/// Idempotent-rejection law: once a create has succeeded on a storage
/// slot, any further create on the bytes it produced fails with
/// `AccountAlreadyInitialized`, whatever payload it carries.
pub proof fn lemma_create_idempotent_rejection(
    storage: Seq<u8>,
    owner_key: Seq<u8>,
    title: Seq<u8>,
    rating: u8,
    description: Seq<u8>,
    title2: Seq<u8>,
    rating2: u8,
    description2: Seq<u8>,
    out: Seq<u8>,
)
    requires
        owner_key.len() == KEY_LEN,
        spec_finish_create(storage, owner_key, title, rating, description)
            == Ok::<Seq<u8>, ReviewError>(out),
    ensures
        spec_finish_create(out, owner_key, title2, rating2, description2)
            == Err::<Seq<u8>, ReviewError>(ReviewError::AccountAlreadyInitialized),
{
    let r = RecordView {
        initialized: true,
        owner: owner_key,
        title: title,
        rating: rating,
        description: description,
    };
    assert(r.wf());
    lemma_encode_decode_roundtrip(r);
}

/// Ownership-immutability law: a successful update leaves the stored
/// owner and title exactly as they were; only the rating and the
/// description take the operation's values.
pub proof fn lemma_update_preserves_owner_and_title(
    program_id: Seq<u8>,
    initializer_key: Seq<u8>,
    is_signer: bool,
    pda_owner: Seq<u8>,
    pda_key: Seq<u8>,
    storage: Seq<u8>,
    rating: u8,
    description: Seq<u8>,
    out: Seq<u8>,
)
    requires
        spec_update(
            program_id,
            initializer_key,
            is_signer,
            pda_owner,
            pda_key,
            storage,
            rating,
            description,
        ) == Ok::<Seq<u8>, ReviewError>(out),
    ensures
        spec_decode(storage) is Some,
        spec_decode(out) is Some,
        spec_decode(out)->Some_0.owner == spec_decode(storage)->Some_0.owner,
        spec_decode(out)->Some_0.title == spec_decode(storage)->Some_0.title,
        spec_decode(out)->Some_0.rating == rating,
        spec_decode(out)->Some_0.description == description,
        spec_decode(out)->Some_0.initialized,
{
    let cur = spec_decode(storage)->Some_0;
    let r = RecordView {
        initialized: true,
        owner: cur.owner,
        title: cur.title,
        rating: rating,
        description: description,
    };
    assert(cur.owner.len() == KEY_LEN);
    assert(r.wf());
    lemma_encode_decode_roundtrip(r);
}

} // verus!
