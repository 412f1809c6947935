use movie_review::codec::decode;
use movie_review::error::ReviewError;
use movie_review::lifecycle::{
    add_movie_review, finish_add_movie_review, process_instruction, update_movie_review,
    Account, ProcessOutcome,
};
use movie_review::pda::derive_review_address;

const PROGRAM_ID: [u8; 32] = [1u8; 32];
const OWNER_KEY: [u8; 32] = [2u8; 32];

fn program_id() -> Vec<u8> {
    PROGRAM_ID.to_vec()
}

fn signer(key: [u8; 32]) -> Account {
    Account {
        key: key.to_vec(),
        is_signer: true,
        is_writable: false,
        owner: vec![0u8; 32],
        data: Vec::new(),
    }
}

fn review_account(title: &[u8], data: Vec<u8>) -> Account {
    let (address, _bump) =
        derive_review_address(&OWNER_KEY.to_vec(), &title.to_vec(), &program_id()).unwrap();
    Account {
        key: address,
        is_signer: false,
        is_writable: true,
        owner: program_id(),
        data,
    }
}

fn created_storage(title: &[u8], rating: u8, description: &[u8]) -> Vec<u8> {
    finish_add_movie_review(
        &vec![0u8; 1000],
        &OWNER_KEY.to_vec(),
        &title.to_vec(),
        rating,
        &description.to_vec(),
    )
    .unwrap()
}

#[test]
fn create_scenario_populates_the_record() {
    let title = b"Captain America";
    let description = b"Liked the movie";
    let initializer = signer(OWNER_KEY);
    let pda_account = review_account(title, vec![0u8; 1000]);

    let request = add_movie_review(
        &program_id(),
        &initializer,
        &pda_account,
        &title.to_vec(),
        3,
        &description.to_vec(),
    )
    .unwrap();
    assert_eq!(request.address, pda_account.key);
    assert_eq!(request.size, 1000);

    let storage = created_storage(title, 3, description);
    let record = decode(&storage).unwrap();
    assert!(record.initialized);
    assert_eq!(record.owner, OWNER_KEY.to_vec());
    assert_eq!(record.title, title.to_vec());
    assert_eq!(record.rating, 3);
    assert_eq!(record.description, description.to_vec());
}

#[test]
fn create_twice_fails_the_second_time() {
    let title = b"Captain America";
    let description = b"Liked the movie";
    let storage = created_storage(title, 3, description);
    let second = finish_add_movie_review(
        &storage,
        &OWNER_KEY.to_vec(),
        &title.to_vec(),
        3,
        &description.to_vec(),
    );
    assert_eq!(second.err(), Some(ReviewError::AccountAlreadyInitialized));
}

#[test]
fn update_scenario_changes_rating_and_description_only() {
    let title = b"Captain America";
    let storage = created_storage(title, 3, b"Liked the movie");
    let pda_account = review_account(title, storage);
    let out = update_movie_review(
        &program_id(),
        &signer(OWNER_KEY),
        &pda_account,
        &title.to_vec(),
        5,
        &b"Loved it on rewatch".to_vec(),
    )
    .unwrap();
    let record = decode(&out).unwrap();
    assert!(record.initialized);
    assert_eq!(record.owner, OWNER_KEY.to_vec());
    assert_eq!(record.title, title.to_vec());
    assert_eq!(record.rating, 5);
    assert_eq!(record.description, b"Loved it on rewatch".to_vec());
}

#[test]
fn update_by_another_signer_is_rejected() {
    let title = b"Captain America";
    let storage = created_storage(title, 3, b"Liked the movie");
    let pda_account = review_account(title, storage);
    let stranger = signer([9u8; 32]);
    let res = update_movie_review(
        &program_id(),
        &stranger,
        &pda_account,
        &title.to_vec(),
        5,
        &b"Loved it on rewatch".to_vec(),
    );
    assert_eq!(res.err(), Some(ReviewError::InvalidDerivedAddress));
}

#[test]
fn update_without_signature_is_rejected() {
    let title = b"Captain America";
    let storage = created_storage(title, 3, b"Liked the movie");
    let pda_account = review_account(title, storage);
    let mut initializer = signer(OWNER_KEY);
    initializer.is_signer = false;
    let res = update_movie_review(
        &program_id(),
        &initializer,
        &pda_account,
        &title.to_vec(),
        5,
        &b"d".to_vec(),
    );
    assert_eq!(res.err(), Some(ReviewError::MissingRequiredSignature));
}

#[test]
fn update_under_foreign_authority_is_rejected() {
    let title = b"Captain America";
    let storage = created_storage(title, 3, b"Liked the movie");
    let mut pda_account = review_account(title, storage);
    pda_account.owner = vec![8u8; 32];
    let res = update_movie_review(
        &program_id(),
        &signer(OWNER_KEY),
        &pda_account,
        &title.to_vec(),
        5,
        &b"d".to_vec(),
    );
    assert_eq!(res.err(), Some(ReviewError::IllegalOwner));
}

#[test]
fn update_of_never_created_record_is_rejected() {
    // all-zero storage decodes to an uninitialized record with an empty
    // title, so the address check must be made against the empty title
    let (address, _bump) =
        derive_review_address(&OWNER_KEY.to_vec(), &Vec::new(), &program_id()).unwrap();
    let pda_account = Account {
        key: address,
        is_signer: false,
        is_writable: true,
        owner: program_id(),
        data: vec![0u8; 1000],
    };
    let res = update_movie_review(
        &program_id(),
        &signer(OWNER_KEY),
        &pda_account,
        &Vec::new(),
        5,
        &b"d".to_vec(),
    );
    assert_eq!(res.err(), Some(ReviewError::UninitializedAccount));
}

#[test]
fn rating_bounds_on_create() {
    let title = b"Captain America";
    let description = b"Liked the movie";
    let initializer = signer(OWNER_KEY);
    let pda_account = review_account(title, vec![0u8; 1000]);
    for (rating, expected_err) in [
        (0u8, Some(ReviewError::InvalidRating)),
        (1, None),
        (5, None),
        (6, Some(ReviewError::InvalidRating)),
        (7, Some(ReviewError::InvalidRating)),
    ] {
        let res = add_movie_review(
            &program_id(),
            &initializer,
            &pda_account,
            &title.to_vec(),
            rating,
            &description.to_vec(),
        );
        assert_eq!(res.err(), expected_err, "rating {}", rating);
    }
}

#[test]
fn rating_bounds_on_update() {
    let title = b"Captain America";
    let storage = created_storage(title, 3, b"Liked the movie");
    let pda_account = review_account(title, storage);
    for (rating, expected_err) in [
        (0u8, Some(ReviewError::InvalidRating)),
        (1, None),
        (5, None),
        (6, Some(ReviewError::InvalidRating)),
    ] {
        let res = update_movie_review(
            &program_id(),
            &signer(OWNER_KEY),
            &pda_account,
            &title.to_vec(),
            rating,
            &b"d".to_vec(),
        );
        assert_eq!(res.err(), expected_err, "rating {}", rating);
    }
}

#[test]
fn size_boundary_on_create() {
    let title = b"Captain America";
    let initializer = signer(OWNER_KEY);
    let pda_account = review_account(title, vec![0u8; 1000]);
    // flag 1 + owner 32 + (4 + 15) title + rating 1 + (4 + m) description
    // encodes to exactly 1000 bytes when m == 943
    let fits = vec![b'a'; 943];
    let res = add_movie_review(
        &program_id(),
        &initializer,
        &pda_account,
        &title.to_vec(),
        3,
        &fits,
    );
    assert!(res.is_ok());
    let full = finish_add_movie_review(
        &vec![0u8; 1000],
        &OWNER_KEY.to_vec(),
        &title.to_vec(),
        3,
        &fits,
    )
    .unwrap();
    assert_eq!(full.len(), 1000);

    let one_over = vec![b'a'; 944];
    let res = add_movie_review(
        &program_id(),
        &initializer,
        &pda_account,
        &title.to_vec(),
        3,
        &one_over,
    );
    assert_eq!(res.err(), Some(ReviewError::DataTooLarge));
}

#[test]
fn size_boundary_on_update() {
    let title = b"Captain America";
    let storage = created_storage(title, 3, b"Liked the movie");
    let pda_account = review_account(title, storage);
    let fits = vec![b'a'; 943];
    assert!(update_movie_review(
        &program_id(),
        &signer(OWNER_KEY),
        &pda_account,
        &title.to_vec(),
        5,
        &fits,
    )
    .is_ok());
    let one_over = vec![b'a'; 944];
    let res = update_movie_review(
        &program_id(),
        &signer(OWNER_KEY),
        &pda_account,
        &title.to_vec(),
        5,
        &one_over,
    );
    assert_eq!(res.err(), Some(ReviewError::DataTooLarge));
}

#[test]
fn create_with_wrong_address_is_rejected() {
    let title = b"Captain America";
    let mut pda_account = review_account(title, vec![0u8; 1000]);
    pda_account.key = vec![6u8; 32];
    let res = add_movie_review(
        &program_id(),
        &signer(OWNER_KEY),
        &pda_account,
        &title.to_vec(),
        3,
        &b"d".to_vec(),
    );
    assert_eq!(res.err(), Some(ReviewError::InvalidDerivedAddress));
}

#[test]
fn create_without_signature_is_rejected() {
    let title = b"Captain America";
    let pda_account = review_account(title, vec![0u8; 1000]);
    let mut initializer = signer(OWNER_KEY);
    initializer.is_signer = false;
    let res = add_movie_review(
        &program_id(),
        &initializer,
        &pda_account,
        &title.to_vec(),
        3,
        &b"d".to_vec(),
    );
    assert_eq!(res.err(), Some(ReviewError::MissingRequiredSignature));
}

fn pack(tag: u8, title: &[u8], rating: u8, description: &[u8]) -> Vec<u8> {
    let mut data = vec![tag];
    data.extend_from_slice(&(title.len() as u32).to_le_bytes());
    data.extend_from_slice(title);
    data.push(rating);
    data.extend_from_slice(&(description.len() as u32).to_le_bytes());
    data.extend_from_slice(description);
    data
}

#[test]
fn process_dispatches_create() {
    let title = b"Captain America";
    let pda_account = review_account(title, vec![0u8; 1000]);
    let data = pack(0, title, 3, b"Liked the movie");
    let outcome = process_instruction(
        &program_id(),
        &signer(OWNER_KEY),
        &pda_account,
        &data,
    )
    .unwrap();
    match outcome {
        ProcessOutcome::Allocate(request) => {
            assert_eq!(request.address, pda_account.key);
            assert_eq!(request.size, 1000);
        }
        ProcessOutcome::Write(_) => panic!("a create must ask for allocation"),
    }
}

#[test]
fn process_dispatches_update() {
    let title = b"Captain America";
    let storage = created_storage(title, 3, b"Liked the movie");
    let pda_account = review_account(title, storage);
    let data = pack(1, title, 5, b"Loved it on rewatch");
    let outcome = process_instruction(
        &program_id(),
        &signer(OWNER_KEY),
        &pda_account,
        &data,
    )
    .unwrap();
    match outcome {
        ProcessOutcome::Write(out) => {
            let record = decode(&out).unwrap();
            assert_eq!(record.rating, 5);
            assert_eq!(record.title, title.to_vec());
        }
        ProcessOutcome::Allocate(_) => panic!("an update must not allocate"),
    }
}

#[test]
fn process_rejects_malformed_operations() {
    let title = b"Captain America";
    let pda_account = review_account(title, vec![0u8; 1000]);
    let res = process_instruction(
        &program_id(),
        &signer(OWNER_KEY),
        &pda_account,
        &[3, 0, 0],
    );
    assert_eq!(res.err(), Some(ReviewError::InvalidInstructionData));
}

#[test]
fn create_with_invalid_rating_has_no_effect() {
    let title = b"Captain America";
    let pda_account = review_account(title, vec![0u8; 1000]);
    let data = pack(0, title, 7, b"Liked the movie");
    let res = process_instruction(
        &program_id(),
        &signer(OWNER_KEY),
        &pda_account,
        &data,
    );
    // the checks fail before any allocation request is produced
    assert_eq!(res.err(), Some(ReviewError::InvalidRating));
}

#[test]
fn error_codes_are_stable() {
    assert_eq!(ReviewError::InvalidInstructionData.code(), 0);
    assert_eq!(ReviewError::InvalidRating.code(), 3);
    assert_eq!(ReviewError::AllocationFailed.code(), 8);
}
