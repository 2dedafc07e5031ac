use vstd::prelude::*;

use crate::key::Key;

verus! {

/// The address and bump that the ledger derives for a program from a seed,
/// when one exists.
pub uninterp spec fn program_address_of(seed: Seq<u8>, program_id: Seq<u8>) -> Option<(Seq<u8>, u8)>;

/// A derived address with its key seen as bytes.
pub open spec fn view_derived(d: Option<(Key, u8)>) -> Option<(Seq<u8>, u8)> {
    match d {
        Some((address, bump)) => Some((address@, bump)),
        None => None,
    }
}

/// Relies on `Pubkey::try_find_program_address` of solana-program (as
/// re-exported by anchor-lang) for the escrow's own signing address: the
/// result depends on the seed and the program alone, and a seed longer than
/// 32 bytes has none.
#[verifier::external_body]
pub(crate) fn find_program_address(seed: &[u8], program_id: &Key) -> (r: Option<(Key, u8)>)
    ensures
        view_derived(r) == program_address_of(seed@, program_id@),
        seed@.len() > 32 ==> r is None,
{
    let program = anchor_lang::solana_program::pubkey::Pubkey::new_from_array(program_id.bytes);
    anchor_lang::solana_program::pubkey::Pubkey::try_find_program_address(&[seed], &program).map(
        |(address, bump)| (Key { bytes: address.to_bytes() }, bump),
    )
}

} // verus!
