//! Identities of the parties to an offer.

use anchor_lang::prelude::Pubkey;
use vstd::prelude::*;

verus! {

/// The ledger's public key type, carried through as an opaque identity.
#[verifier::external_type_specification]
#[verifier::external_body]
pub struct ExPubkey(Pubkey);

/// Compares two identities with `Pubkey`'s own `==`, which holds exactly when
/// both keys are the same 32 bytes; the contract equates that with equality
/// of the two keys as values.
#[verifier::external_body]
pub(crate) fn same_key(a: &Pubkey, b: &Pubkey) -> (same: bool)
    ensures
        same == (*a == *b),
{
    a == b
}

/// Whether `holder` is set and names `key`.
pub(crate) fn holds_key(holder: &Option<Pubkey>, key: &Pubkey) -> (held: bool)
    ensures
        held == (*holder == Some(*key)),
{
    match holder {
        Some(k) => same_key(k, key),
        None => false,
    }
}

} // verus!
