use vstd::prelude::*;

use crate::identity::Identity;

verus! {

/// The address derived from a seed and a program identity, when the
/// derivation finds one. The derivation itself (a hash-based search over bump
/// seeds) is the host ledger's; this name stands for its result.
pub uninterp spec fn derived_address(seed: Seq<u8>, program: Seq<u8>) -> Option<Seq<u8>>;

/// The fixed seed label, the bytes of "escrow", from which every custody
/// authority of this program is derived.
pub open spec fn escrow_seed() -> Seq<u8> {
    seq![101u8, 115u8, 99u8, 114u8, 111u8, 119u8]
}

/// The custody authority for a program identity: the key-less address that
/// alone may move vault funds.
pub open spec fn custody_authority_of(program: Seq<u8>) -> Option<Seq<u8>> {
    derived_address(escrow_seed(), program)
}

/// Relies on `Pubkey::try_find_program_address` (re-exported by anchor_lang
/// from solana-pubkey): its result is a deterministic function of the seeds
/// and the program identity alone; it is `None` only in the statistically
/// improbable case that no bump seed yields a valid address.
#[verifier::external_body]
fn find_derived_address(seed: &[u8], program_id: &Identity) -> (r: Option<Identity>)
    ensures
        r matches Some(a) ==> derived_address(seed@, program_id@) == Some(a@),
        r is None ==> derived_address(seed@, program_id@) is None,
{
    let program = anchor_lang::prelude::Pubkey::new_from_array(program_id.bytes);
    anchor_lang::prelude::Pubkey::try_find_program_address(&[seed], &program)
        .map(|(address, _bump)| Identity { bytes: address.to_bytes() })
}

/// The exec copy of the seed label.
fn escrow_seed_bytes() -> (r: Vec<u8>)
    ensures
        r@ == escrow_seed(),
{
    let mut v: Vec<u8> = Vec::new();
    v.push(101);
    v.push(115);
    v.push(99);
    v.push(114);
    v.push(111);
    v.push(119);
    proof {
        assert(v@ =~= escrow_seed());
    }
    v
}

/// Derives the custody authority for the program: a pure function of the
/// program identity, reproducible by anyone, held by no key.
pub fn derive_custody_authority(program_id: &Identity) -> (r: Option<Identity>)
    ensures
        r matches Some(a) ==> custody_authority_of(program_id@) == Some(a@),
        r is None ==> custody_authority_of(program_id@) is None,
{
    let seed = escrow_seed_bytes();
    find_derived_address(seed.as_slice(), program_id)
}

} // verus!
