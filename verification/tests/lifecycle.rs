use cloudmesh::engine::{
    cancel_job, complete_job, initialize_job, mark_payment, CancelJob, CompleteJob, InitializeJob,
    MarkPayment,
};
use cloudmesh::errors::ErrorCode;
use cloudmesh::record::{status_transition, JobStatus, JobType};
use cloudmesh::store::JobStore;

fn program_id() -> Vec<u8> {
    vec![11u8; 32]
}

fn owner_key() -> Vec<u8> {
    vec![1u8; 32]
}

fn worker_key() -> Vec<u8> {
    vec![2u8; 32]
}

#[test]
fn create_job_pending_record() {
    let mut store = JobStore::new(program_id());
    let ctx = InitializeJob { owner: owner_key() };
    let ev = initialize_job(
        &mut store,
        &ctx,
        b"build-1".to_vec(),
        b"cidX".to_vec(),
        JobType::Api,
        1000,
    )
    .unwrap();
    assert_eq!(ev.owner, owner_key());
    assert_eq!(ev.title, b"build-1".to_vec());
    let job = store.get(&ev.job_key).unwrap();
    assert_eq!(job.status, JobStatus::Pending);
    assert_eq!(job.job_type, JobType::Api);
    assert_eq!(job.owner, owner_key());
    assert_eq!(job.title, b"build-1".to_vec());
    assert_eq!(job.code_cid, b"cidX".to_vec());
    assert_eq!(job.result_cid, Vec::<u8>::new());
    assert_eq!(job.start_time, 1000);
    assert_eq!(job.end_time, 0);
    assert_eq!(job.cost, 0);
    assert!(!job.cost_paid);
}

#[test]
fn complete_job_sets_result_and_is_terminal() {
    let mut store = JobStore::new(program_id());
    let ctx = InitializeJob { owner: owner_key() };
    let ev = initialize_job(
        &mut store,
        &ctx,
        b"build-1".to_vec(),
        b"cidX".to_vec(),
        JobType::Api,
        1000,
    )
    .unwrap();
    let worker = CompleteJob { worker: worker_key() };
    let done = complete_job(&mut store, &worker, &ev.job_key, b"cidY".to_vec(), 500, 2000)
        .unwrap();
    assert_eq!(done.job_key, ev.job_key);
    assert_eq!(done.result_cid, b"cidY".to_vec());
    assert_eq!(done.end_time, 2000);
    assert_eq!(done.cost, 500);
    let job = store.get(&ev.job_key).unwrap();
    assert_eq!(job.status, JobStatus::Completed);
    assert_eq!(job.result_cid, b"cidY".to_vec());
    assert_eq!(job.end_time, 2000);
    assert_eq!(job.cost, 500);
    let again = complete_job(&mut store, &worker, &ev.job_key, b"cidZ".to_vec(), 700, 2500);
    assert_eq!(again.unwrap_err(), ErrorCode::JobAlreadyCompleted);
    let job = store.get(&ev.job_key).unwrap();
    assert_eq!(job.result_cid, b"cidY".to_vec());
    assert_eq!(job.cost, 500);
}

#[test]
fn mark_payment_flips_once() {
    let mut store = JobStore::new(program_id());
    let ctx = InitializeJob { owner: owner_key() };
    let ev = initialize_job(
        &mut store,
        &ctx,
        b"build-1".to_vec(),
        b"cidX".to_vec(),
        JobType::Api,
        1000,
    )
    .unwrap();
    let worker = CompleteJob { worker: worker_key() };
    complete_job(&mut store, &worker, &ev.job_key, b"cidY".to_vec(), 500, 2000).unwrap();
    let payer = MarkPayment { owner: owner_key() };
    let paid = mark_payment(&mut store, &payer, &ev.job_key).unwrap();
    assert_eq!(paid.job_key, ev.job_key);
    assert_eq!(paid.amount, 500);
    assert!(store.get(&ev.job_key).unwrap().cost_paid);
    let again = mark_payment(&mut store, &payer, &ev.job_key);
    assert_eq!(again.unwrap_err(), ErrorCode::AlreadyPaid);
    assert!(store.get(&ev.job_key).unwrap().cost_paid);
}

#[test]
fn cancel_job_is_terminal() {
    let mut store = JobStore::new(program_id());
    let ctx = InitializeJob { owner: owner_key() };
    let ev = initialize_job(
        &mut store,
        &ctx,
        b"t".to_vec(),
        b"c".to_vec(),
        JobType::Cron,
        1000,
    )
    .unwrap();
    let canceller = CancelJob { owner: owner_key() };
    let cancelled = cancel_job(&mut store, &canceller, &ev.job_key, 3000).unwrap();
    assert_eq!(cancelled.job_key, ev.job_key);
    assert_eq!(cancelled.cancelled_at, 3000);
    let job = store.get(&ev.job_key).unwrap();
    assert_eq!(job.status, JobStatus::Cancelled);
    assert_eq!(job.end_time, 3000);
    assert_eq!(job.cost, 0);
    let worker = CompleteJob { worker: worker_key() };
    let after = complete_job(&mut store, &worker, &ev.job_key, b"cidY".to_vec(), 500, 4000);
    assert_eq!(after.unwrap_err(), ErrorCode::JobCancelled);
    let again = cancel_job(&mut store, &canceller, &ev.job_key, 5000);
    assert_eq!(again.unwrap_err(), ErrorCode::JobAlreadyCancelled);
}

#[test]
fn create_rejects_bad_texts() {
    let mut store = JobStore::new(program_id());
    let ctx = InitializeJob { owner: owner_key() };
    let empty = initialize_job(
        &mut store,
        &ctx,
        Vec::new(),
        b"cid".to_vec(),
        JobType::Api,
        1000,
    );
    assert_eq!(empty.unwrap_err(), ErrorCode::InvalidTitle);
    let long = initialize_job(
        &mut store,
        &ctx,
        vec![b'a'; 101],
        b"cid".to_vec(),
        JobType::Api,
        1000,
    );
    assert_eq!(long.unwrap_err(), ErrorCode::InvalidTitle);
    let no_cid = initialize_job(
        &mut store,
        &ctx,
        b"ok".to_vec(),
        Vec::new(),
        JobType::Api,
        1000,
    );
    assert_eq!(no_cid.unwrap_err(), ErrorCode::InvalidCID);
    let long_cid = initialize_job(
        &mut store,
        &ctx,
        b"ok".to_vec(),
        vec![b'c'; 101],
        JobType::Api,
        1000,
    );
    assert_eq!(long_cid.unwrap_err(), ErrorCode::InvalidCID);
}

#[test]
fn complete_rejects_bad_inputs() {
    let mut store = JobStore::new(program_id());
    let ctx = InitializeJob { owner: owner_key() };
    let ev = initialize_job(
        &mut store,
        &ctx,
        b"build-1".to_vec(),
        b"cidX".to_vec(),
        JobType::Manual,
        1000,
    )
    .unwrap();
    let worker = CompleteJob { worker: worker_key() };
    let no_cid = complete_job(&mut store, &worker, &ev.job_key, Vec::new(), 500, 2000);
    assert_eq!(no_cid.unwrap_err(), ErrorCode::InvalidCID);
    let long_cid = complete_job(&mut store, &worker, &ev.job_key, vec![b'r'; 101], 500, 2000);
    assert_eq!(long_cid.unwrap_err(), ErrorCode::InvalidCID);
    let no_cost = complete_job(&mut store, &worker, &ev.job_key, b"cidY".to_vec(), 0, 2000);
    assert_eq!(no_cost.unwrap_err(), ErrorCode::InvalidCost);
    let job = store.get(&ev.job_key).unwrap();
    assert_eq!(job.status, JobStatus::Pending);
}

#[test]
fn duplicate_owner_title_fails() {
    let mut store = JobStore::new(program_id());
    let ctx = InitializeJob { owner: owner_key() };
    initialize_job(
        &mut store,
        &ctx,
        b"build-1".to_vec(),
        b"cidX".to_vec(),
        JobType::Api,
        1000,
    )
    .unwrap();
    let second = initialize_job(
        &mut store,
        &ctx,
        b"build-1".to_vec(),
        b"other".to_vec(),
        JobType::Manual,
        1500,
    );
    assert_eq!(second.unwrap_err(), ErrorCode::AddressAlreadyExists);
    let other_title = initialize_job(
        &mut store,
        &ctx,
        b"build-2".to_vec(),
        b"cidX".to_vec(),
        JobType::Api,
        1600,
    );
    assert!(other_title.is_ok());
}

#[test]
fn only_owner_may_mark_or_cancel() {
    let mut store = JobStore::new(program_id());
    let ctx = InitializeJob { owner: owner_key() };
    let ev = initialize_job(
        &mut store,
        &ctx,
        b"build-1".to_vec(),
        b"cidX".to_vec(),
        JobType::Api,
        1000,
    )
    .unwrap();
    let stranger_pay = MarkPayment { owner: worker_key() };
    let denied = mark_payment(&mut store, &stranger_pay, &ev.job_key);
    assert_eq!(denied.unwrap_err(), ErrorCode::Unauthorized);
    assert!(!store.get(&ev.job_key).unwrap().cost_paid);
    let stranger_cancel = CancelJob { owner: worker_key() };
    let denied = cancel_job(&mut store, &stranger_cancel, &ev.job_key, 3000);
    assert_eq!(denied.unwrap_err(), ErrorCode::Unauthorized);
    let job = store.get(&ev.job_key).unwrap();
    assert_eq!(job.status, JobStatus::Pending);
    assert_eq!(job.end_time, 0);
}

#[test]
fn missing_record_reported() {
    let mut store = JobStore::new(program_id());
    let unknown = vec![9u8; 32];
    let worker = CompleteJob { worker: worker_key() };
    let r = complete_job(&mut store, &worker, &unknown, b"cid".to_vec(), 1, 10);
    assert_eq!(r.unwrap_err(), ErrorCode::RecordNotFound);
    let payer = MarkPayment { owner: owner_key() };
    assert_eq!(
        mark_payment(&mut store, &payer, &unknown).unwrap_err(),
        ErrorCode::RecordNotFound
    );
    let canceller = CancelJob { owner: owner_key() };
    assert_eq!(
        cancel_job(&mut store, &canceller, &unknown, 10).unwrap_err(),
        ErrorCode::RecordNotFound
    );
}

#[test]
fn status_transition_table_exact() {
    assert_eq!(
        status_transition(JobStatus::Pending, JobStatus::Completed),
        Ok(JobStatus::Completed)
    );
    assert_eq!(
        status_transition(JobStatus::Pending, JobStatus::Cancelled),
        Ok(JobStatus::Cancelled)
    );
    assert_eq!(
        status_transition(JobStatus::Pending, JobStatus::Pending),
        Err(ErrorCode::InvalidStatusTransition)
    );
    assert_eq!(
        status_transition(JobStatus::Completed, JobStatus::Cancelled),
        Err(ErrorCode::JobAlreadyCompleted)
    );
    assert_eq!(
        status_transition(JobStatus::Completed, JobStatus::Completed),
        Err(ErrorCode::JobAlreadyCompleted)
    );
    assert_eq!(
        status_transition(JobStatus::Cancelled, JobStatus::Completed),
        Err(ErrorCode::JobCancelled)
    );
    assert_eq!(
        status_transition(JobStatus::Cancelled, JobStatus::Cancelled),
        Err(ErrorCode::JobAlreadyCancelled)
    );
    assert_eq!(
        status_transition(JobStatus::Completed, JobStatus::Pending),
        Err(ErrorCode::JobAlreadyCompleted)
    );
    assert_eq!(
        status_transition(JobStatus::Cancelled, JobStatus::Pending),
        Err(ErrorCode::InvalidStatusTransition)
    );
}

#[test]
fn payment_axis_is_orthogonal_to_status() {
    // The payment flag may be marked while the job is still pending; the
    // event then carries the cost the record held, which is still zero.
    let mut store = JobStore::new(program_id());
    let ctx = InitializeJob { owner: owner_key() };
    let ev = initialize_job(
        &mut store,
        &ctx,
        b"build-1".to_vec(),
        b"cidX".to_vec(),
        JobType::Api,
        1000,
    )
    .unwrap();
    let payer = MarkPayment { owner: owner_key() };
    let paid = mark_payment(&mut store, &payer, &ev.job_key).unwrap();
    assert_eq!(paid.amount, 0);
    let job = store.get(&ev.job_key).unwrap();
    assert!(job.cost_paid);
    assert_eq!(job.status, JobStatus::Pending);
}
