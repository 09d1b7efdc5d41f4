use vstd::prelude::*;

use crate::addr::{find_program_address, job_seeds, pda_create, pda_find};
use crate::bytes::copy_bytes;
use crate::errors::ErrorCode;
use crate::events::{JobCancelled, JobCompleted, JobCreated, PaymentMarked};
use crate::record::{
    apply_cancel, apply_complete, apply_mark_payment, new_job, spec_cancel_job, spec_complete_job,
    spec_mark_payment, spec_new_job, text_len_ok, valid_text, JobType, JobView, OWNER_LEN,
};
use crate::store::{entry_ok, JobStore, StoreEntry};

verus! {

/// The verified caller identity for a creation: the owner-to-be.
pub struct InitializeJob {
    pub owner: Vec<u8>,
}

/// The verified caller identity for a completion: the worker. Any signer
/// is accepted as a worker; the field is carried for the caller's
/// book-keeping and never gates the transition.
pub struct CompleteJob {
    pub worker: Vec<u8>,
}

/// The verified caller identity for a payment marking.
pub struct MarkPayment {
    pub owner: Vec<u8>,
}

/// The verified caller identity for a cancellation.
pub struct CancelJob {
    pub owner: Vec<u8>,
}

/// What creation does to the whole store: validate the texts, derive the
/// address for (owner, title), refuse an occupied address, and otherwise
/// allocate the fresh pending record under the derived address.
pub open spec fn spec_initialize_op(
    m: Map<Seq<u8>, JobView>,
    pid: Seq<u8>,
    owner: Seq<u8>,
    title: Seq<u8>,
    code_cid: Seq<u8>,
    job_type: JobType,
    now: i64,
) -> Result<(Map<Seq<u8>, JobView>, Seq<u8>), ErrorCode> {
    if !valid_text(title) {
        Err(ErrorCode::InvalidTitle)
    } else if !valid_text(code_cid) {
        Err(ErrorCode::InvalidCID)
    } else {
        match pda_find(pid, job_seeds(owner, title)) {
            None => Err(ErrorCode::AddressMismatch),
            Some((addr, bump)) => {
                if m.contains_key(addr) {
                    Err(ErrorCode::AddressAlreadyExists)
                } else {
                    Ok((m.insert(addr, spec_new_job(owner, title, code_cid, job_type, now, bump)), addr))
                }
            },
        }
    }
}

/// What completion does to the whole store: the record must exist, and the
/// record-level completion rule decides the rest.
pub open spec fn spec_complete_op(
    m: Map<Seq<u8>, JobView>,
    address: Seq<u8>,
    result_cid: Seq<u8>,
    cost: u64,
    now: i64,
) -> Result<(Map<Seq<u8>, JobView>, JobView), ErrorCode> {
    if !m.contains_key(address) {
        Err(ErrorCode::RecordNotFound)
    } else {
        match spec_complete_job(m[address], result_cid, cost, now) {
            Err(e) => Err(e),
            Ok(j2) => Ok((m.insert(address, j2), j2)),
        }
    }
}

/// What marking payment does to the whole store.
pub open spec fn spec_mark_payment_op(
    m: Map<Seq<u8>, JobView>,
    address: Seq<u8>,
    caller: Seq<u8>,
) -> Result<(Map<Seq<u8>, JobView>, JobView), ErrorCode> {
    if !m.contains_key(address) {
        Err(ErrorCode::RecordNotFound)
    } else {
        match spec_mark_payment(m[address], caller) {
            Err(e) => Err(e),
            Ok(j2) => Ok((m.insert(address, j2), j2)),
        }
    }
}

/// What cancellation does to the whole store.
pub open spec fn spec_cancel_op(
    m: Map<Seq<u8>, JobView>,
    address: Seq<u8>,
    caller: Seq<u8>,
    now: i64,
) -> Result<(Map<Seq<u8>, JobView>, JobView), ErrorCode> {
    if !m.contains_key(address) {
        Err(ErrorCode::RecordNotFound)
    } else {
        match spec_cancel_job(m[address], caller, now) {
            Err(e) => Err(e),
            Ok(j2) => Ok((m.insert(address, j2), j2)),
        }
    }
}

/// Create a job owned by the caller. On success the store gains exactly
/// the fresh pending record under its derived address, and the emitted
/// event names that address, the owner and the title.
pub fn initialize_job(
    store: &mut JobStore,
    ctx: &InitializeJob,
    title: Vec<u8>,
    code_cid: Vec<u8>,
    job_type: JobType,
    now: i64,
) -> (r: Result<JobCreated, ErrorCode>)
    requires
        old(store).wf(),
        ctx.owner@.len() == OWNER_LEN,
    ensures
        final(store).wf(),
        final(store).pid() == old(store).pid(),
        match r {
            Ok(ev) => spec_initialize_op(
                old(store)@,
                old(store).pid(),
                ctx.owner@,
                title@,
                code_cid@,
                job_type,
                now,
            ) matches Ok(out) && final(store)@ == out.0 && ev.job_key@ == out.1 && ev.owner@
                == ctx.owner@ && ev.title@ == title@,
            Err(e) => spec_initialize_op(
                old(store)@,
                old(store).pid(),
                ctx.owner@,
                title@,
                code_cid@,
                job_type,
                now,
            ) == Err::<(Map<Seq<u8>, JobView>, Seq<u8>), ErrorCode>(e) && final(store)@ == old(
                store,
            )@,
        },
{
    if !text_len_ok(&title) {
        return Err(ErrorCode::InvalidTitle);
    }
    if !text_len_ok(&code_cid) {
        return Err(ErrorCode::InvalidCID);
    }
    let seeds = crate::addr::job_seed_vec(&ctx.owner, &title);
    match find_program_address(&seeds, &store.program_id) {
        None => Err(ErrorCode::AddressMismatch),
        Some((address, bump)) => {
            if store.contains(&address) {
                return Err(ErrorCode::AddressAlreadyExists);
            }
            let key_copy = copy_bytes(&address);
            let owner_copy = copy_bytes(&ctx.owner);
            let owner_for_event = copy_bytes(&ctx.owner);
            let title_for_event = copy_bytes(&title);
            let job = new_job(owner_copy, title, code_cid, job_type, now, bump);
            store.save(StoreEntry { address, job });
            Ok(JobCreated { job_key: key_copy, owner: owner_for_event, title: title_for_event })
        },
    }
}

/// Complete a pending job: set its result, end time and cost together and
/// move it to `Completed`. On failure the store is untouched and the error
/// says exactly why.
pub fn complete_job(
    store: &mut JobStore,
    ctx: &CompleteJob,
    address: &Vec<u8>,
    result_cid: Vec<u8>,
    cost: u64,
    now: i64,
) -> (r: Result<JobCompleted, ErrorCode>)
    requires
        old(store).wf(),
    ensures
        final(store).wf(),
        final(store).pid() == old(store).pid(),
        match r {
            Ok(ev) => spec_complete_op(old(store)@, address@, result_cid@, cost, now) matches Ok(
                out,
            ) && final(store)@ == out.0 && ev.job_key@ == address@ && ev.result_cid@ == result_cid@
                && ev.end_time == now && ev.cost == cost,
            Err(e) => spec_complete_op(old(store)@, address@, result_cid@, cost, now) == Err::<
                (Map<Seq<u8>, JobView>, JobView),
                ErrorCode,
            >(e) && final(store)@ == old(store)@,
        },
{
    let cid_copy = copy_bytes(&result_cid);
    match store.take(address) {
        None => Err(ErrorCode::RecordNotFound),
        Some(mut entry) => {
            let ghost m0 = old(store)@;
            match apply_complete(&mut entry.job, result_cid, cost, now) {
                Ok(()) => {
                    let key_copy = copy_bytes(&entry.address);
                    proof {
                        assert(m0.remove(address@).insert(address@, entry.job@) =~= m0.insert(
                            address@,
                            entry.job@,
                        ));
                    }
                    store.save(entry);
                    Ok(JobCompleted { job_key: key_copy, result_cid: cid_copy, end_time: now, cost })
                },
                Err(e) => {
                    proof {
                        assert(m0.remove(address@).insert(address@, entry.job@) =~= m0);
                    }
                    store.save(entry);
                    Err(e)
                },
            }
        },
    }
}

/// Mark a job's cost paid. Only the stored owner may mark, and only once;
/// the event carries the cost the record held when it was marked.
pub fn mark_payment(store: &mut JobStore, ctx: &MarkPayment, address: &Vec<u8>) -> (r: Result<
    PaymentMarked,
    ErrorCode,
>)
    requires
        old(store).wf(),
    ensures
        final(store).wf(),
        final(store).pid() == old(store).pid(),
        match r {
            Ok(ev) => spec_mark_payment_op(old(store)@, address@, ctx.owner@) matches Ok(out)
                && final(store)@ == out.0 && ev.job_key@ == address@ && ev.amount == out.1.cost,
            Err(e) => spec_mark_payment_op(old(store)@, address@, ctx.owner@) == Err::<
                (Map<Seq<u8>, JobView>, JobView),
                ErrorCode,
            >(e) && final(store)@ == old(store)@,
        },
{
    match store.take(address) {
        None => Err(ErrorCode::RecordNotFound),
        Some(mut entry) => {
            let ghost m0 = old(store)@;
            match apply_mark_payment(&mut entry.job, &ctx.owner) {
                Ok(()) => {
                    let key_copy = copy_bytes(&entry.address);
                    let amount = entry.job.cost;
                    proof {
                        assert(m0.remove(address@).insert(address@, entry.job@) =~= m0.insert(
                            address@,
                            entry.job@,
                        ));
                    }
                    store.save(entry);
                    Ok(PaymentMarked { job_key: key_copy, amount })
                },
                Err(e) => {
                    proof {
                        assert(m0.remove(address@).insert(address@, entry.job@) =~= m0);
                    }
                    store.save(entry);
                    Err(e)
                },
            }
        },
    }
}

/// Cancel a pending job: only the stored owner may, and only while the
/// record is pending; it moves to `Cancelled` with its end time set.
pub fn cancel_job(store: &mut JobStore, ctx: &CancelJob, address: &Vec<u8>, now: i64) -> (r:
    Result<JobCancelled, ErrorCode>)
    requires
        old(store).wf(),
    ensures
        final(store).wf(),
        final(store).pid() == old(store).pid(),
        match r {
            Ok(ev) => spec_cancel_op(old(store)@, address@, ctx.owner@, now) matches Ok(out)
                && final(store)@ == out.0 && ev.job_key@ == address@ && ev.cancelled_at == now,
            Err(e) => spec_cancel_op(old(store)@, address@, ctx.owner@, now) == Err::<
                (Map<Seq<u8>, JobView>, JobView),
                ErrorCode,
            >(e) && final(store)@ == old(store)@,
        },
{
    match store.take(address) {
        None => Err(ErrorCode::RecordNotFound),
        Some(mut entry) => {
            let ghost m0 = old(store)@;
            match apply_cancel(&mut entry.job, &ctx.owner, now) {
                Ok(()) => {
                    let key_copy = copy_bytes(&entry.address);
                    proof {
                        assert(m0.remove(address@).insert(address@, entry.job@) =~= m0.insert(
                            address@,
                            entry.job@,
                        ));
                    }
                    store.save(entry);
                    Ok(JobCancelled { job_key: key_copy, cancelled_at: now })
                },
                Err(e) => {
                    proof {
                        assert(m0.remove(address@).insert(address@, entry.job@) =~= m0);
                    }
                    store.save(entry);
                    Err(e)
                },
            }
        },
    }
}

/// Recompute the stored record's address from its own fields. `Ok` means
/// the record exists and its (owner, title, validity counter) re-derive
/// exactly the address it sits under; a well-formed store never answers
/// `AddressMismatch`.
pub fn check_address(store: &JobStore, address: &Vec<u8>) -> (r: Result<(), ErrorCode>)
    requires
        store.wf(),
    ensures
        match r {
            Ok(()) => store@.contains_key(address@) && pda_create(
                store.pid(),
                job_seeds(store@[address@].owner, store@[address@].title),
                store@[address@].bump,
            ) == Some(address@),
            Err(e) => e == ErrorCode::RecordNotFound && !store@.contains_key(address@),
        },
{
    match store.get(address) {
        None => Err(ErrorCode::RecordNotFound),
        Some(job) => {
            let seeds = crate::addr::job_seed_vec(&job.owner, &job.title);
            let derived = crate::addr::create_program_address(&seeds, job.bump, &store.program_id);
            proof {
                store_entry_rederives(store, address@);
            }
            match derived {
                Some(d) => {
                    if crate::bytes::bytes_eq(&d, address) {
                        Ok(())
                    } else {
                        proof {
                            assert(false);
                        }
                        Err(ErrorCode::AddressMismatch)
                    }
                },
                None => {
                    proof {
                        assert(false);
                    }
                    Err(ErrorCode::AddressMismatch)
                },
            }
        },
    }
}

/// In a well-formed store every record's stored (owner, title, validity
/// counter) re-derive exactly the address the record is kept under: the
/// derived address always round-trips.
pub(crate) proof fn store_entry_rederives(store: &JobStore, address: Seq<u8>)
    requires
        store.wf(),
        store@.contains_key(address),
    ensures
        pda_create(
            store.pid(),
            job_seeds(store@[address].owner, store@[address].title),
            store@[address].bump,
        ) == Some(address),
{
    let s = crate::store::entry_views(store.entries@);
    crate::store::lemma_map_of_contains(s);
    let i = choose|i: int| 0 <= i < s.len() && (#[trigger] s[i]).0 == address;
    crate::store::lemma_map_of_index(s, i);
    assert(entry_ok(store.pid(), s[i]));
}

} // verus!
