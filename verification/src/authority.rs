use vstd::prelude::*;
use crate::address::Address;
use crate::state::DealState;

verus! {

/// The fixed tag that scopes signing-authority derivations, so that they can
/// never collide with record-storage derivations over the same deal.
pub open spec fn authority_tag_spec() -> Seq<u8> {
    seq![97u8, 117u8, 116u8, 104u8]
}

/// The fixed tag that scopes the derivation of the deal record's own storage
/// address.
pub open spec fn state_tag_spec() -> Seq<u8> {
    seq![115u8, 116u8, 97u8, 116u8, 101u8]
}

/// The authority tag as bytes.
pub fn authority_tag() -> (r: Vec<u8>)
    ensures
        r@ == authority_tag_spec(),
{
    let mut v: Vec<u8> = Vec::new();
    v.push(97u8);
    v.push(117u8);
    v.push(116u8);
    v.push(104u8);
    proof {
        assert(v@ =~= authority_tag_spec());
    }
    v
}

/// The record-storage tag as bytes.
pub fn state_tag() -> (r: Vec<u8>)
    ensures
        r@ == state_tag_spec(),
{
    let mut v: Vec<u8> = Vec::new();
    v.push(115u8);
    v.push(116u8);
    v.push(97u8);
    v.push(116u8);
    v.push(101u8);
    proof {
        assert(v@ =~= state_tag_spec());
    }
    v
}

/// What the ledger's address derivation returns for a seed tuple
/// `(id, tag, party_a, party_b, bump)` under a program id: a digest-based
/// address, or nothing when the tuple yields no usable (off-curve) address.
/// The result is a function of the arguments alone.
pub uninterp spec fn derived_address_of(
    id: Seq<u8>,
    tag: Seq<u8>,
    party_a: Seq<u8>,
    party_b: Seq<u8>,
    bump: u8,
    program_id: Seq<u8>,
) -> Option<Seq<u8>>;

/// Relies on `Pubkey::create_program_address` (solana-pubkey, re-exported by
/// anchor-lang): a deterministic, digest-based derivation from the seed
/// slices and the program id, refused exactly when the derived point lies on
/// the ed25519 curve or a seed exceeds the length bound; the result is
/// always 32 bytes.
#[verifier::external_body]
fn derive_address_raw(
    id: &Vec<u8>,
    tag: &Vec<u8>,
    party_a: &Address,
    party_b: &Address,
    bump: u8,
    program_id: &Address,
) -> (r: Option<Address>)
    requires
        id@.len() <= 32,
        tag@.len() <= 32,
        party_a@.len() == 32,
        party_b@.len() == 32,
        program_id@.len() == 32,
    ensures
        (r is Some) == (derived_address_of(id@, tag@, party_a@, party_b@, bump, program_id@)
            is Some),
        r matches Some(a) ==> Some(a@) == derived_address_of(
            id@,
            tag@,
            party_a@,
            party_b@,
            bump,
            program_id@,
        ),
        r matches Some(a) ==> a@.len() == 32,
{
    let pid = anchor_lang::solana_program::pubkey::Pubkey::new_from_array(
        program_id.bytes.as_slice().try_into().unwrap(),
    );
    let seeds: [&[u8]; 5] = [
        id.as_slice(),
        tag.as_slice(),
        party_a.bytes.as_slice(),
        party_b.bytes.as_slice(),
        &[bump],
    ];
    match anchor_lang::solana_program::pubkey::Pubkey::create_program_address(&seeds, &pid) {
        Ok(pk) => Some(Address { bytes: pk.to_bytes().to_vec() }),
        Err(_) => None,
    }
}

/// The deal's signing-authority identity, as derived from
/// `(id, authority tag, client, executor, authority_bump)`.
pub open spec fn spec_authority_address(d: DealState, program_id: Seq<u8>) -> Option<Seq<u8>> {
    derived_address_of(
        d.id@,
        authority_tag_spec(),
        d.client_key@,
        d.executor_key@,
        d.authority_bump,
        program_id,
    )
}

/// The deal record's own storage address, as derived from
/// `(id, state tag, client, executor, bump)`.
pub open spec fn spec_record_address(d: DealState, program_id: Seq<u8>) -> Option<Seq<u8>> {
    derived_address_of(
        d.id@,
        state_tag_spec(),
        d.client_key@,
        d.executor_key@,
        d.bump,
        program_id,
    )
}

/// Computes the deal's deterministic signing identity. It is not a stored
/// secret: anyone can recompute it from the deal's fields; only the
/// settlement engine exercises signing rights for it, scoped to one
/// transaction.
pub fn derive_authority(deal: &DealState, program_id: &Address) -> (r: Option<Address>)
    requires
        deal.wf(),
        deal.id@.len() <= 32,
        program_id@.len() == 32,
    ensures
        (r is Some) == (spec_authority_address(*deal, program_id@) is Some),
        r matches Some(a) ==> Some(a@) == spec_authority_address(*deal, program_id@),
        r matches Some(a) ==> a.wf(),
{
    let tag = authority_tag();
    derive_address_raw(
        &deal.id,
        &tag,
        &deal.client_key,
        &deal.executor_key,
        deal.authority_bump,
        program_id,
    )
}

/// Computes the storage address of the deal record itself, for checking that
/// a presented record is the one the deal's fields derive.
pub fn derive_record_address(deal: &DealState, program_id: &Address) -> (r: Option<Address>)
    requires
        deal.wf(),
        deal.id@.len() <= 32,
        program_id@.len() == 32,
    ensures
        (r is Some) == (spec_record_address(*deal, program_id@) is Some),
        r matches Some(a) ==> Some(a@) == spec_record_address(*deal, program_id@),
        r matches Some(a) ==> a.wf(),
{
    let tag = state_tag();
    derive_address_raw(
        &deal.id,
        &tag,
        &deal.client_key,
        &deal.executor_key,
        deal.bump,
        program_id,
    )
}

/// The seed tuple with which the runtime re-derives the signing authority
/// while the settlement's transfers run: the deal id, the fixed authority
/// tag, both parties, and the authority bump as a one-byte seed.
pub fn authority_seeds(deal: &DealState) -> (r: Vec<Vec<u8>>)
    ensures
        r@.len() == 5,
        r@[0]@ == deal.id@,
        r@[1]@ == authority_tag_spec(),
        r@[2]@ == deal.client_key@,
        r@[3]@ == deal.executor_key@,
        r@[4]@ == seq![deal.authority_bump],
{
    let mut r: Vec<Vec<u8>> = Vec::new();
    let mut id_copy: Vec<u8> = Vec::new();
    id_copy.extend_from_slice(deal.id.as_slice());
    proof {
        assert(id_copy@ =~= deal.id@);
    }
    r.push(id_copy);
    r.push(authority_tag());
    r.push(deal.client_key.dup().bytes);
    r.push(deal.executor_key.dup().bytes);
    let mut bump_seed: Vec<u8> = Vec::new();
    bump_seed.push(deal.authority_bump);
    proof {
        assert(bump_seed@ =~= seq![deal.authority_bump]);
    }
    r.push(bump_seed);
    r
}

} // verus!
