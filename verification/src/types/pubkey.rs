//! Account addresses. The protocol stores and hands on addresses without
//! looking inside them.

use anchor_lang::prelude::Pubkey;
use vstd::prelude::*;

verus! {

/// `Pubkey` of `solana_program`, which `anchor_lang` hands on: the address
/// of an account. It is declared so that records can hold addresses; nothing
/// is claimed of what is inside one.
#[verifier::external_type_specification]
#[verifier::external_body]
pub struct ExPubkey(Pubkey);

/// The 32 bytes of an address.
pub uninterp spec fn pubkey_bytes(key: Pubkey) -> Seq<u8>;

/// Whether an address is the all-zero one.
pub open spec fn is_default_pubkey(key: Pubkey) -> bool {
    &&& pubkey_bytes(key).len() == 32
    &&& forall|i: int| 0 <= i < 32 ==> pubkey_bytes(key)[i] == 0u8
}

/// `Pubkey::default()` of `solana_program`, which `anchor_lang` hands on: the
/// address whose 32 bytes are all zero.
#[verifier::external_body]
pub(crate) fn default_pubkey() -> (key: Pubkey)
    ensures
        pubkey_bytes(key).len() == 32,
        forall|i: int| 0 <= i < 32 ==> pubkey_bytes(key)[i] == 0u8,
{
    Pubkey::default()
}

/// `Pubkey == Pubkey` of `solana_program`, which `anchor_lang` hands on:
/// whether two addresses are the same, compared byte by byte.
#[verifier::external_body]
pub(crate) fn same_pubkey(a: &Pubkey, b: &Pubkey) -> (r: bool)
    ensures
        r == (*a == *b),
{
    a == b
}

} // verus!
