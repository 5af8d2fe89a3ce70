//! The escrow's program address, derived from the maker and a nonce.
use vstd::prelude::*;
use crate::bytes::Pubkey;

verus! {

/// The program address for `seeds` under `program_id`, or `None` where the
/// seeds admit none (too many seeds, one too long, or a point on the curve).
pub uninterp spec fn program_address(seeds: Seq<Seq<u8>>, program_id: Seq<u8>) -> Option<Seq<u8>>;

/// The view of an optional key.
pub open spec fn opt_key(k: Option<Pubkey>) -> Option<Seq<u8>> {
    match k {
        Some(k) => Some(k@),
        None => None,
    }
}

/// Relies on pinocchio::pubkey::checked_create_program_address: the address
/// is fixed by the seeds and the program id alone; an error (too many seeds,
/// a seed too long, no address off the curve) becomes `None`. The call is a
/// service of the ledger's runtime: built for another target, it panics.
#[verifier::external_body]
fn create_program_address(seeds: &[&[u8]], program_id: &Pubkey) -> (r: Option<Pubkey>)
    ensures
        opt_key(r) == program_address(seeds@.map_values(|s: &[u8]| s@), program_id@),
{
    pinocchio::pubkey::checked_create_program_address(seeds, program_id).ok()
}

/// The namespace tag of every escrow address: the bytes of "escrow".
pub open spec fn escrow_tag() -> Seq<u8> {
    seq![101u8, 115u8, 99u8, 114u8, 111u8, 119u8]
}

/// The seeds of the escrow of `maker` with nonce `bump`.
pub open spec fn escrow_seeds(maker: Seq<u8>, bump: u8) -> Seq<Seq<u8>> {
    seq![escrow_tag(), maker, seq![bump]]
}

/// The escrow address of `maker` with nonce `bump`, if one exists.
pub open spec fn escrow_address(maker: Seq<u8>, bump: u8, program_id: Seq<u8>) -> Option<Seq<u8>> {
    program_address(escrow_seeds(maker, bump), program_id)
}

/// Derives the escrow address of `maker` with nonce `bump` under `program_id`.
pub fn derive_escrow_address(maker: &Pubkey, bump: u8, program_id: &Pubkey) -> (r: Option<Pubkey>)
    ensures
        opt_key(r) == escrow_address(maker@, bump, program_id@),
{
    let tag: [u8; 6] = [101, 115, 99, 114, 111, 119];
    let nonce: [u8; 1] = [bump];
    let seeds: [&[u8]; 3] = [tag.as_slice(), maker.as_slice(), nonce.as_slice()];
    let r = create_program_address(seeds.as_slice(), program_id);
    proof {
        assert(tag@ =~= escrow_tag());
        assert(nonce@ =~= seq![bump]);
        assert(seeds@.len() == 3);
        assert(seeds@[0]@ == escrow_tag());
        assert(seeds@[1]@ == maker@);
        assert(seeds@[2]@ == seq![bump]);
        assert(seeds@.map_values(|s: &[u8]| s@) =~= escrow_seeds(maker@, bump));
    }
    r
}

/// The escrow address is a function of the maker, the nonce and the program:
/// equal inputs give the same address, or fail alike, on every derivation.
pub proof fn lemma_escrow_address_deterministic(
    maker1: Seq<u8>,
    bump1: u8,
    maker2: Seq<u8>,
    bump2: u8,
    program_id: Seq<u8>,
)
    requires
        maker1 == maker2,
        bump1 == bump2,
    ensures
        escrow_address(maker1, bump1, program_id) == escrow_address(maker2, bump2, program_id),
{
}

} // verus!
