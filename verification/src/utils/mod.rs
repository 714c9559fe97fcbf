//! Arithmetic and byte-level helpers shared by the protocol's components.

use crate::errors::ErrorCode;
use crate::errors::ProgramResult;
use vstd::prelude::*;

pub mod bignum;
pub mod math;

verus! {

/// Copies a slice into a fixed-size array of the same length.
///
/// The slice must hold exactly `N` items; the array returned holds the same
/// items in the same order.
pub fn copy_into_array<T, const N: usize>(slice: &[T]) -> (a: [T; N])
    where T: Copy + Default
    requires
        slice@.len() == N,
    ensures
        a@ == slice@,
{
    let mut a: [T; N] = [T::default(); N];
    let mut i: usize = 0;
    while i < N
        invariant
            slice@.len() == N,
            i <= N,
            a@.len() == N,
            forall|j: int| 0 <= j < i ==> a@[j] == slice@[j],
        decreases N - i,
    {
        a[i] = slice[i];
        i += 1;
    }
    assert(a@ =~= slice@);
    a
}

/// Number of bytes at the head of an account's data that tell its kind.
pub const DISCRIMINATOR_LEN: usize = 8;

/// Whether an account's data begins with `discriminator`.
pub open spec fn has_discriminator(data: Seq<u8>, discriminator: Seq<u8>) -> bool {
    data.len() >= DISCRIMINATOR_LEN && data.subrange(0, DISCRIMINATOR_LEN as int) == discriminator
}

/// What `account_deserialize` returns for an account's data, the
/// discriminator expected and the value that the data decodes to, if any.
/// Data shorter than a discriminator cannot be deserialized; data that begins
/// with another discriminator is refused as such; data of the right kind
/// gives the decoded value, or cannot be deserialized where there is none.
pub open spec fn account_deserialize_spec<T>(
    data: Seq<u8>,
    discriminator: Seq<u8>,
    decoded: Option<T>,
) -> ProgramResult<T> {
    if data.len() < DISCRIMINATOR_LEN {
        Err(ErrorCode::UnableToDeserializeAccount)
    } else if !has_discriminator(data, discriminator) {
        Err(ErrorCode::InvalidAccountDiscriminator)
    } else {
        match decoded {
            Some(account) => Ok(account),
            None => Err(ErrorCode::UnableToDeserializeAccount),
        }
    }
}

/// Checks an account's data against the discriminator of the kind expected
/// and hands on the value decoded from it. `decoded` is what the data decodes
/// to as that kind, or `None` where decoding failed.
pub fn account_deserialize<T>(data: &[u8], discriminator: &[u8; 8], decoded: Option<T>) -> (r:
    ProgramResult<T>)
    ensures
        r == account_deserialize_spec(data@, discriminator@, decoded),
{
    if data.len() < DISCRIMINATOR_LEN {
        return Err(ErrorCode::UnableToDeserializeAccount);
    }
    let mut i: usize = 0;
    while i < DISCRIMINATOR_LEN
        invariant
            i <= DISCRIMINATOR_LEN,
            data@.len() >= DISCRIMINATOR_LEN,
            discriminator@.len() == DISCRIMINATOR_LEN,
            forall|j: int| 0 <= j < i ==> data@[j] == discriminator@[j],
        decreases DISCRIMINATOR_LEN - i,
    {
        if data[i] != discriminator[i] {
            assert(data@.subrange(0, DISCRIMINATOR_LEN as int)[i as int] != discriminator@[i as int]);
            return Err(ErrorCode::InvalidAccountDiscriminator);
        }
        i += 1;
    }
    assert(data@.subrange(0, DISCRIMINATOR_LEN as int) =~= discriminator@);
    match decoded {
        Some(account) => Ok(account),
        None => Err(ErrorCode::UnableToDeserializeAccount),
    }
}

} // verus!
