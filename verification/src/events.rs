use vstd::prelude::*;

verus! {

/// Emitted once by a successful creation.
#[derive(Debug)]
pub struct JobCreated {
    pub job_key: Vec<u8>,
    pub owner: Vec<u8>,
    pub title: Vec<u8>,
}

/// Emitted once by a successful completion.
#[derive(Debug)]
pub struct JobCompleted {
    pub job_key: Vec<u8>,
    pub result_cid: Vec<u8>,
    pub end_time: i64,
    pub cost: u64,
}

/// Emitted once by a successful payment marking.
#[derive(Debug)]
pub struct PaymentMarked {
    pub job_key: Vec<u8>,
    pub amount: u64,
}

/// Emitted once by a successful cancellation.
#[derive(Debug)]
pub struct JobCancelled {
    pub job_key: Vec<u8>,
    pub cancelled_at: i64,
}

} // verus!
