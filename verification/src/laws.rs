use vstd::prelude::*;

use crate::addr::{job_seeds, pda_create};
use crate::engine::spec_initialize_op;
use crate::errors::ErrorCode;
use crate::record::{
    spec_cancel_job, spec_complete_job, spec_mark_payment, valid_text, JobType, JobView,
};
use crate::store::JobStore;

verus! {

/// Creating a second job with the same owner and title always fails with
/// `AddressAlreadyExists`: the address derived for the pair is occupied by
/// the first record, whatever the other inputs of the second creation are
/// (as long as its code identifier passes validation, which is checked
/// first).
pub proof fn lemma_duplicate_create_fails(
    m: Map<Seq<u8>, JobView>,
    pid: Seq<u8>,
    owner: Seq<u8>,
    title: Seq<u8>,
    code_cid1: Seq<u8>,
    code_cid2: Seq<u8>,
    job_type1: JobType,
    job_type2: JobType,
    now1: i64,
    now2: i64,
    out: (Map<Seq<u8>, JobView>, Seq<u8>),
)
    requires
        spec_initialize_op(m, pid, owner, title, code_cid1, job_type1, now1) == Ok::<
            (Map<Seq<u8>, JobView>, Seq<u8>),
            ErrorCode,
        >(out),
        valid_text(code_cid2),
    ensures
        spec_initialize_op(out.0, pid, owner, title, code_cid2, job_type2, now2) == Err::<
            (Map<Seq<u8>, JobView>, Seq<u8>),
            ErrorCode,
        >(ErrorCode::AddressAlreadyExists),
{
}

/// The status lattice is one-way. A successful completion or cancellation
/// starts from `Pending` and lands in its terminal status; an attempt on a
/// terminal record changes nothing and fails with exactly the error named
/// for that status, whenever the attempt's own inputs pass validation and
/// authorization.
pub proof fn lemma_status_one_way(
    j: JobView,
    result_cid: Seq<u8>,
    cost: u64,
    caller: Seq<u8>,
    now: i64,
)
    ensures
        spec_complete_job(j, result_cid, cost, now) matches Ok(j2) ==> j.status is Pending
            && j2.status is Completed,
        spec_cancel_job(j, caller, now) matches Ok(j2) ==> j.status is Pending
            && j2.status is Cancelled,
        spec_mark_payment(j, caller) matches Ok(j2) ==> j2.status == j.status,
        j.status is Completed && valid_text(result_cid) && cost > 0 ==> spec_complete_job(
            j,
            result_cid,
            cost,
            now,
        ) == Err::<JobView, ErrorCode>(ErrorCode::JobAlreadyCompleted),
        j.status is Cancelled && valid_text(result_cid) && cost > 0 ==> spec_complete_job(
            j,
            result_cid,
            cost,
            now,
        ) == Err::<JobView, ErrorCode>(ErrorCode::JobCancelled),
        j.status is Completed && caller == j.owner ==> spec_cancel_job(j, caller, now) == Err::<
            JobView,
            ErrorCode,
        >(ErrorCode::JobAlreadyCompleted),
        j.status is Cancelled && caller == j.owner ==> spec_cancel_job(j, caller, now) == Err::<
            JobView,
            ErrorCode,
        >(ErrorCode::JobAlreadyCancelled),
{
}

/// The payment flag flips false to true exactly once. A successful marking
/// starts from an unpaid record and only moves the flag; marking the
/// result again fails — with `AlreadyPaid` when the owner retries — and
/// the flag stays true.
pub proof fn lemma_mark_payment_once(j: JobView, caller: Seq<u8>, caller2: Seq<u8>)
    ensures
        spec_mark_payment(j, caller) matches Ok(j2) ==> !j.cost_paid && j2.cost_paid,
        spec_mark_payment(j, caller) matches Ok(j2) ==> j2 == (JobView { cost_paid: true, ..j }),
        spec_mark_payment(j, caller) matches Ok(j2) ==> spec_mark_payment(j2, caller2) is Err
            && j2.cost_paid,
        j.cost_paid && caller == j.owner ==> spec_mark_payment(j, caller) == Err::<
            JobView,
            ErrorCode,
        >(ErrorCode::AlreadyPaid),
{
}

/// Fields fixed at creation never move again: whichever transition
/// succeeds, the record keeps its owner, title, code identifier, start
/// time, type and validity counter; completion and cancellation also
/// leave the payment flag alone, and marking payment moves nothing else.
pub proof fn lemma_immutable_fields(
    j: JobView,
    result_cid: Seq<u8>,
    cost: u64,
    caller: Seq<u8>,
    now: i64,
)
    ensures
        spec_complete_job(j, result_cid, cost, now) matches Ok(j2) ==> j2.owner == j.owner
            && j2.title == j.title && j2.code_cid == j.code_cid && j2.start_time == j.start_time
            && j2.job_type == j.job_type && j2.bump == j.bump && j2.cost_paid == j.cost_paid,
        spec_cancel_job(j, caller, now) matches Ok(j2) ==> j2.owner == j.owner && j2.title
            == j.title && j2.code_cid == j.code_cid && j2.start_time == j.start_time
            && j2.job_type == j.job_type && j2.bump == j.bump && j2.cost_paid == j.cost_paid
            && j2.result_cid == j.result_cid && j2.cost == j.cost,
        spec_mark_payment(j, caller) matches Ok(j2) ==> j2 == (JobView { cost_paid: true, ..j }),
{
}

/// Only the stored owner may mark payment or cancel: any other caller is
/// refused with `Unauthorized`, and the record is left as it is.
pub proof fn lemma_owner_only(j: JobView, caller: Seq<u8>, now: i64)
    requires
        caller != j.owner,
    ensures
        spec_mark_payment(j, caller) == Err::<JobView, ErrorCode>(ErrorCode::Unauthorized),
        spec_cancel_job(j, caller, now) == Err::<JobView, ErrorCode>(ErrorCode::Unauthorized),
{
}

/// The derived address round-trips: in a well-formed store, recomputing a
/// record's address from its stored owner, title and validity counter
/// yields exactly the address the record is kept under.
pub proof fn lemma_address_round_trip(store: &JobStore, address: Seq<u8>)
    requires
        store.wf(),
        store@.contains_key(address),
    ensures
        pda_create(
            store.pid(),
            job_seeds(store@[address].owner, store@[address].title),
            store@[address].bump,
        ) == Some(address),
{
    crate::engine::store_entry_rederives(store, address);
}

} // verus!
