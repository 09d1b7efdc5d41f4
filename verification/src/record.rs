use vstd::prelude::*;

use crate::errors::ErrorCode;

verus! {

/// Texts held by a record (title, content identifiers) are limited to this
/// many bytes; shorter texts are padded by the storage layer, never truncated.
pub const MAX_TEXT_LEN: usize = 100;

/// An identity (public key) is exactly this many bytes.
pub const OWNER_LEN: usize = 32;

/// Fixed capacity reserved for one stored record: tag overhead, the 32-byte
/// owner, three length-prefixed texts at their maximum size, two timestamps,
/// two enum tags, the cost, the payment flag and the stored validity counter.
pub const JOB_ACCOUNT_SIZE: usize = 8 + 32 + 3 * (4 + 100) + 8 + 8 + 1 + 1 + 8 + 1 + 1;

/// Lifecycle status of a job: a one-way lattice. `Pending` may move to
/// `Completed` or `Cancelled`; both of those are terminal.
#[derive(Clone, Copy, Debug, PartialEq, Eq, Structural)]
pub enum JobStatus {
    Pending,
    Completed,
    Cancelled,
}

/// How a job was submitted. Immutable after creation and never read by the
/// transition logic.
#[derive(Clone, Copy, Debug, PartialEq, Eq, Structural)]
pub enum JobType {
    Cron,
    Api,
    Manual,
}

/// One job record. Texts are byte strings; `owner` is the 32-byte identity
/// of the creator; `bump` is the stored validity counter that lets the
/// record's derived address be recomputed and checked independently.
pub struct Job {
    pub owner: Vec<u8>,
    pub title: Vec<u8>,
    pub code_cid: Vec<u8>,
    pub result_cid: Vec<u8>,
    pub start_time: i64,
    pub end_time: i64,
    pub status: JobStatus,
    pub job_type: JobType,
    pub cost: u64,
    pub cost_paid: bool,
    pub bump: u8,
}

/// The mathematical value of a [`Job`].
#[verifier::ext_equal]
pub ghost struct JobView {
    pub owner: Seq<u8>,
    pub title: Seq<u8>,
    pub code_cid: Seq<u8>,
    pub result_cid: Seq<u8>,
    pub start_time: i64,
    pub end_time: i64,
    pub status: JobStatus,
    pub job_type: JobType,
    pub cost: u64,
    pub cost_paid: bool,
    pub bump: u8,
}

impl View for Job {
    type V = JobView;

    open spec fn view(&self) -> JobView {
        JobView {
            owner: self.owner@,
            title: self.title@,
            code_cid: self.code_cid@,
            result_cid: self.result_cid@,
            start_time: self.start_time,
            end_time: self.end_time,
            status: self.status,
            job_type: self.job_type,
            cost: self.cost,
            cost_paid: self.cost_paid,
            bump: self.bump,
        }
    }
}

/// A required text field is valid when it holds between 1 and
/// [`MAX_TEXT_LEN`] bytes.
pub open spec fn valid_text(s: Seq<u8>) -> bool {
    1 <= s.len() <= MAX_TEXT_LEN
}

/// Well-formedness of a record: field sizes respect the fixed layout, and
/// `result_cid`, `cost` and `end_time` are set exactly when the status says
/// they are.
pub open spec fn job_wf(j: JobView) -> bool {
    &&& j.owner.len() == OWNER_LEN
    &&& valid_text(j.title)
    &&& valid_text(j.code_cid)
    &&& j.result_cid.len() <= MAX_TEXT_LEN
    &&& (j.status is Pending ==> j.result_cid.len() == 0 && j.cost == 0 && j.end_time == 0)
    &&& (j.status is Completed ==> valid_text(j.result_cid) && j.cost > 0)
    &&& (j.status is Cancelled ==> j.result_cid.len() == 0 && j.cost == 0)
}

/// Does an exec text pass [`valid_text`]?
pub fn text_len_ok(s: &Vec<u8>) -> (r: bool)
    ensures
        r == valid_text(s@),
{
    1 <= s.len() && s.len() <= MAX_TEXT_LEN
}

/// The one-way status lattice as a transition table: which status an
/// attempted move ends in, or exactly which error refuses it.
///
/// Moves out of `Completed` fail with `JobAlreadyCompleted`. Moves out of
/// `Cancelled` fail with `JobCancelled` when completion was attempted and
/// `JobAlreadyCancelled` when cancellation was attempted again. A move that
/// goes nowhere (to `Pending`) fails with `InvalidStatusTransition`.
pub open spec fn spec_status_transition(current: JobStatus, attempted: JobStatus) -> Result<
    JobStatus,
    ErrorCode,
> {
    match current {
        JobStatus::Completed => Err(ErrorCode::JobAlreadyCompleted),
        JobStatus::Cancelled => match attempted {
            JobStatus::Completed => Err(ErrorCode::JobCancelled),
            JobStatus::Cancelled => Err(ErrorCode::JobAlreadyCancelled),
            JobStatus::Pending => Err(ErrorCode::InvalidStatusTransition),
        },
        JobStatus::Pending => match attempted {
            JobStatus::Completed => Ok(JobStatus::Completed),
            JobStatus::Cancelled => Ok(JobStatus::Cancelled),
            JobStatus::Pending => Err(ErrorCode::InvalidStatusTransition),
        },
    }
}

/// Executable form of the status transition table.
pub fn status_transition(current: JobStatus, attempted: JobStatus) -> (r: Result<
    JobStatus,
    ErrorCode,
>)
    ensures
        r == spec_status_transition(current, attempted),
{
    match current {
        JobStatus::Completed => Err(ErrorCode::JobAlreadyCompleted),
        JobStatus::Cancelled => match attempted {
            JobStatus::Completed => Err(ErrorCode::JobCancelled),
            JobStatus::Cancelled => Err(ErrorCode::JobAlreadyCancelled),
            JobStatus::Pending => Err(ErrorCode::InvalidStatusTransition),
        },
        JobStatus::Pending => match attempted {
            JobStatus::Completed => Ok(JobStatus::Completed),
            JobStatus::Cancelled => Ok(JobStatus::Cancelled),
            JobStatus::Pending => Err(ErrorCode::InvalidStatusTransition),
        },
    }
}

/// The record a successful creation allocates: `Pending`, started `now`,
/// with no result, no cost and payment unmarked.
pub open spec fn spec_new_job(
    owner: Seq<u8>,
    title: Seq<u8>,
    code_cid: Seq<u8>,
    job_type: JobType,
    now: i64,
    bump: u8,
) -> JobView {
    JobView {
        owner,
        title,
        code_cid,
        result_cid: Seq::empty(),
        start_time: now,
        end_time: 0,
        status: JobStatus::Pending,
        job_type,
        cost: 0,
        cost_paid: false,
        bump,
    }
}

/// Allocate a fresh record.
pub fn new_job(
    owner: Vec<u8>,
    title: Vec<u8>,
    code_cid: Vec<u8>,
    job_type: JobType,
    now: i64,
    bump: u8,
) -> (r: Job)
    ensures
        r@ == spec_new_job(owner@, title@, code_cid@, job_type, now, bump),
{
    let r = Job {
        owner,
        title,
        code_cid,
        result_cid: Vec::new(),
        start_time: now,
        end_time: 0,
        status: JobStatus::Pending,
        job_type,
        cost: 0,
        cost_paid: false,
        bump,
    };
    proof {
        assert(r@ =~= spec_new_job(r.owner@, r.title@, r.code_cid@, job_type, now, bump));
    }
    r
}

/// What completing a job does to one record: with a valid result identifier
/// and a positive cost, a pending record becomes `Completed`, its result,
/// end time and cost set together; any other input or status is refused
/// with the exact error, and the record stays as it was.
pub open spec fn spec_complete_job(
    j: JobView,
    result_cid: Seq<u8>,
    cost: u64,
    now: i64,
) -> Result<JobView, ErrorCode> {
    if !valid_text(result_cid) {
        Err(ErrorCode::InvalidCID)
    } else if cost == 0 {
        Err(ErrorCode::InvalidCost)
    } else {
        match spec_status_transition(j.status, JobStatus::Completed) {
            Err(e) => Err(e),
            Ok(next) => Ok(
                JobView { result_cid, end_time: now, cost, status: next, ..j },
            ),
        }
    }
}

/// What marking payment does to one record: only the stored owner may mark,
/// and only once; the flag flips false to true and nothing else moves.
pub open spec fn spec_mark_payment(j: JobView, caller: Seq<u8>) -> Result<JobView, ErrorCode> {
    if caller != j.owner {
        Err(ErrorCode::Unauthorized)
    } else if j.cost_paid {
        Err(ErrorCode::AlreadyPaid)
    } else {
        Ok(JobView { cost_paid: true, ..j })
    }
}

/// What cancelling does to one record: only the stored owner may cancel a
/// pending record; it becomes `Cancelled` with its end time set, and a
/// terminal record is refused with the exact error.
pub open spec fn spec_cancel_job(j: JobView, caller: Seq<u8>, now: i64) -> Result<
    JobView,
    ErrorCode,
> {
    if caller != j.owner {
        Err(ErrorCode::Unauthorized)
    } else {
        match spec_status_transition(j.status, JobStatus::Cancelled) {
            Err(e) => Err(e),
            Ok(next) => Ok(JobView { status: next, end_time: now, ..j }),
        }
    }
}

/// Complete this record in place; on failure nothing changes.
pub fn apply_complete(job: &mut Job, result_cid: Vec<u8>, cost: u64, now: i64) -> (r: Result<
    (),
    ErrorCode,
>)
    ensures
        match r {
            Ok(()) => spec_complete_job(old(job)@, result_cid@, cost, now) == Ok::<JobView, ErrorCode>(final(job)@),
            Err(e) => spec_complete_job(old(job)@, result_cid@, cost, now) == Err::<
                JobView,
                ErrorCode,
            >(e) && final(job)@ == old(job)@,
        },
{
    if !text_len_ok(&result_cid) {
        return Err(ErrorCode::InvalidCID);
    }
    if cost == 0 {
        return Err(ErrorCode::InvalidCost);
    }
    match status_transition(job.status, JobStatus::Completed) {
        Err(e) => Err(e),
        Ok(next) => {
            job.result_cid = result_cid;
            job.end_time = now;
            job.cost = cost;
            job.status = next;
            proof {
                assert(Ok::<JobView, ErrorCode>(job@) =~= spec_complete_job(
                    old(job)@,
                    job.result_cid@,
                    cost,
                    now,
                ));
            }
            Ok(())
        },
    }
}

/// Mark this record paid in place; on failure nothing changes.
pub fn apply_mark_payment(job: &mut Job, caller: &Vec<u8>) -> (r: Result<(), ErrorCode>)
    ensures
        match r {
            Ok(()) => spec_mark_payment(old(job)@, caller@) == Ok::<JobView, ErrorCode>(final(job)@),
            Err(e) => spec_mark_payment(old(job)@, caller@) == Err::<JobView, ErrorCode>(e)
                && final(job)@ == old(job)@,
        },
{
    if !crate::bytes::bytes_eq(caller, &job.owner) {
        return Err(ErrorCode::Unauthorized);
    }
    if job.cost_paid {
        return Err(ErrorCode::AlreadyPaid);
    }
    job.cost_paid = true;
    proof {
        assert(Ok::<JobView, ErrorCode>(job@) =~= spec_mark_payment(old(job)@, caller@));
    }
    Ok(())
}

/// Cancel this record in place; on failure nothing changes.
pub fn apply_cancel(job: &mut Job, caller: &Vec<u8>, now: i64) -> (r: Result<(), ErrorCode>)
    ensures
        match r {
            Ok(()) => spec_cancel_job(old(job)@, caller@, now) == Ok::<JobView, ErrorCode>(final(job)@),
            Err(e) => spec_cancel_job(old(job)@, caller@, now) == Err::<JobView, ErrorCode>(e)
                && final(job)@ == old(job)@,
        },
{
    if !crate::bytes::bytes_eq(caller, &job.owner) {
        return Err(ErrorCode::Unauthorized);
    }
    match status_transition(job.status, JobStatus::Cancelled) {
        Err(e) => Err(e),
        Ok(next) => {
            job.status = next;
            job.end_time = now;
            proof {
                assert(Ok::<JobView, ErrorCode>(job@) =~= spec_cancel_job(
                    old(job)@,
                    caller@,
                    now,
                ));
            }
            Ok(())
        },
    }
}

} // verus!
