use cloudmesh::bytes::{bytes_eq, copy_bytes};
use cloudmesh::engine::{check_address, initialize_job, InitializeJob};
use cloudmesh::errors::ErrorCode;
use cloudmesh::record::JobType;
use cloudmesh::store::JobStore;

fn program_id() -> Vec<u8> {
    vec![11u8; 32]
}

fn owner_key() -> Vec<u8> {
    vec![1u8; 32]
}

#[test]
fn derived_address_round_trips() {
    let mut store = JobStore::new(program_id());
    let ctx = InitializeJob { owner: owner_key() };
    let ev = initialize_job(
        &mut store,
        &ctx,
        b"build-1".to_vec(),
        b"cidX".to_vec(),
        JobType::Api,
        1000,
    )
    .unwrap();
    assert_eq!(check_address(&store, &ev.job_key), Ok(()));
    let job = store.get(&ev.job_key).unwrap();
    assert_eq!(job.owner, owner_key());
    assert_eq!(job.title, b"build-1".to_vec());
}

#[test]
fn derivation_is_a_real_hash() {
    let mut store = JobStore::new(program_id());
    let ctx = InitializeJob { owner: owner_key() };
    let first = initialize_job(
        &mut store,
        &ctx,
        b"build-1".to_vec(),
        b"cidX".to_vec(),
        JobType::Api,
        1000,
    )
    .unwrap();
    let second = initialize_job(
        &mut store,
        &ctx,
        b"build-2".to_vec(),
        b"cidX".to_vec(),
        JobType::Api,
        1000,
    )
    .unwrap();
    assert_eq!(first.job_key.len(), 32);
    assert_eq!(second.job_key.len(), 32);
    assert_ne!(first.job_key, second.job_key);
    assert_ne!(first.job_key, owner_key());
    assert_ne!(first.job_key, b"build-1".to_vec());
}

#[test]
fn unknown_address_not_found() {
    let store = JobStore::new(program_id());
    let unknown = vec![9u8; 32];
    assert_eq!(
        check_address(&store, &unknown).unwrap_err(),
        ErrorCode::RecordNotFound
    );
}

#[test]
fn oversized_seed_reported_as_mismatch() {
    // The host's derivation caps one seed at 32 bytes, so a title longer
    // than that cannot be given an address even though it passes text
    // validation; creation reports the derivation failure.
    let mut store = JobStore::new(program_id());
    let ctx = InitializeJob { owner: owner_key() };
    let r = initialize_job(
        &mut store,
        &ctx,
        vec![b't'; 40],
        b"cidX".to_vec(),
        JobType::Api,
        1000,
    );
    assert_eq!(r.unwrap_err(), ErrorCode::AddressMismatch);
}

#[test]
fn byte_helpers_agree() {
    let a = vec![1u8, 2, 3];
    let b = copy_bytes(&a);
    assert!(bytes_eq(&a, &b));
    let c = vec![1u8, 2, 4];
    assert!(!bytes_eq(&a, &c));
    assert!(!bytes_eq(&a, &vec![1u8, 2]));
}

#[test]
fn seed_sized_title_and_full_length_cid_accepted() {
    // A title of exactly 32 bytes still fits in one derivation seed, and a
    // content identifier is not a seed at all, so it may use the full 100
    // bytes.
    let mut store = JobStore::new(program_id());
    let ctx = InitializeJob { owner: owner_key() };
    let ev = initialize_job(
        &mut store,
        &ctx,
        vec![b't'; 32],
        vec![b'c'; 100],
        JobType::Manual,
        1000,
    )
    .unwrap();
    assert_eq!(check_address(&store, &ev.job_key), Ok(()));
    let job = store.get(&ev.job_key).unwrap();
    assert_eq!(job.code_cid.len(), 100);
}
