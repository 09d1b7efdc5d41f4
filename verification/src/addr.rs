use vstd::prelude::*;

use crate::bytes::copy_bytes;

verus! {

/// What `Pubkey::try_find_program_address` returns for a program id and a
/// seed list: the derived 32-byte address together with the validity
/// counter ("bump") chosen for it, or nothing when no counter yields a
/// valid address. The result depends on the arguments alone.
pub uninterp spec fn pda_find(program_id: Seq<u8>, seeds: Seq<Seq<u8>>) -> Option<(Seq<u8>, u8)>;

/// What `Pubkey::create_program_address` returns for a program id, a seed
/// list and one validity counter appended to it: the derived 32-byte
/// address, or nothing when that counter does not yield a valid address.
/// The result depends on the arguments alone.
pub uninterp spec fn pda_create(program_id: Seq<u8>, seeds: Seq<Seq<u8>>, bump: u8) -> Option<
    Seq<u8>,
>;

/// The byte strings a list of exec seeds stands for.
pub open spec fn seeds_view(s: Seq<Vec<u8>>) -> Seq<Seq<u8>> {
    s.map_values(|v: Vec<u8>| v@)
}

/// The namespace tag under which job records are addressed: the bytes of
/// `"job"`.
pub open spec fn spec_job_tag() -> Seq<u8> {
    seq![106u8, 111u8, 98u8]
}

/// The seed list from which a record's address is derived: the namespace
/// tag, the owner identity, and the title.
pub open spec fn job_seeds(owner: Seq<u8>, title: Seq<u8>) -> Seq<Seq<u8>> {
    seq![spec_job_tag(), owner, title]
}

/// The namespace tag as an exec value.
pub fn job_tag() -> (r: Vec<u8>)
    ensures
        r@ == spec_job_tag(),
{
    let mut v: Vec<u8> = Vec::new();
    v.push(106u8);
    v.push(111u8);
    v.push(98u8);
    proof {
        assert(v@ =~= spec_job_tag());
    }
    v
}

/// The seed list for one record as exec values.
pub fn job_seed_vec(owner: &Vec<u8>, title: &Vec<u8>) -> (r: Vec<Vec<u8>>)
    ensures
        seeds_view(r@) == job_seeds(owner@, title@),
{
    let mut seeds: Vec<Vec<u8>> = Vec::new();
    seeds.push(job_tag());
    seeds.push(copy_bytes(owner));
    seeds.push(copy_bytes(title));
    proof {
        assert(seeds_view(seeds@) =~= job_seeds(owner@, title@));
    }
    seeds
}

/// Relies on `anchor_lang`'s `Pubkey::try_find_program_address`: for the
/// given seeds and program id it returns the derived address and the
/// validity counter it settled on, a pure function of its arguments; its
/// own documentation states that the returned counter re-derives the very
/// same address through `create_program_address`, stated here through
/// [`pda_create`].
#[verifier::external_body]
pub(crate) fn find_program_address(seeds: &Vec<Vec<u8>>, program_id: &Vec<u8>) -> (r: Option<
    (Vec<u8>, u8),
>)
    requires
        program_id@.len() == 32,
    ensures
        (match r {
            Some((a, b)) => Some((a@, b)),
            None => None,
        }) == pda_find(program_id@, seeds_view(seeds@)),
        (r matches Some((a, b)) ==> a@.len() == 32 && pda_create(
            program_id@,
            seeds_view(seeds@),
            b,
        ) == Some(a@)),
{
    let pid = anchor_lang::prelude::Pubkey::new_from_array(
        program_id.as_slice().try_into().unwrap(),
    );
    let seed_refs: Vec<&[u8]> = seeds.iter().map(|s| s.as_slice()).collect();
    anchor_lang::prelude::Pubkey::try_find_program_address(&seed_refs, &pid).map(
        |(pk, bump)| (pk.to_bytes().to_vec(), bump),
    )
}

/// Relies on `anchor_lang`'s `Pubkey::create_program_address`, called with
/// the given validity counter appended to the seed list: deterministic in
/// its arguments, it returns the derived address, or an error (returned
/// here as `None`) when that counter yields no valid address.
#[verifier::external_body]
pub(crate) fn create_program_address(
    seeds: &Vec<Vec<u8>>,
    bump: u8,
    program_id: &Vec<u8>,
) -> (r: Option<Vec<u8>>)
    requires
        program_id@.len() == 32,
    ensures
        (match r {
            Some(a) => Some(a@),
            None => None,
        }) == pda_create(program_id@, seeds_view(seeds@), bump),
        (r matches Some(a) ==> a@.len() == 32),
{
    let pid = anchor_lang::prelude::Pubkey::new_from_array(
        program_id.as_slice().try_into().unwrap(),
    );
    let bump_seed: [u8; 1] = [bump];
    let mut seed_refs: Vec<&[u8]> = seeds.iter().map(|s| s.as_slice()).collect();
    seed_refs.push(&bump_seed);
    match anchor_lang::prelude::Pubkey::create_program_address(&seed_refs, &pid) {
        Ok(pk) => Some(pk.to_bytes().to_vec()),
        Err(_) => None,
    }
}

} // verus!
