use vstd::prelude::*;

verus! {

/// Every way an operation of the job lifecycle core can fail.
///
/// The kinds fall in four groups: validation (`InvalidTitle`, `InvalidCID`,
/// `InvalidCost`), state (`JobAlreadyCompleted`, `JobCancelled`,
/// `JobAlreadyCancelled`, `InvalidStatusTransition`, `AlreadyPaid`),
/// authorization (`Unauthorized`) and storage (`AddressAlreadyExists`,
/// `RecordNotFound`, `AddressMismatch`). A failed operation surfaces its
/// error immediately and mutates nothing.
#[derive(Clone, Copy, Debug, PartialEq, Eq, Structural)]
pub enum ErrorCode {
    InvalidTitle,
    InvalidCID,
    InvalidCost,
    JobAlreadyCompleted,
    JobCancelled,
    JobAlreadyCancelled,
    InvalidStatusTransition,
    AlreadyPaid,
    Unauthorized,
    AddressAlreadyExists,
    RecordNotFound,
    AddressMismatch,
}

} // verus!
