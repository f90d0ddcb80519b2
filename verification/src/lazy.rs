use vstd::prelude::*;

use crate::error::ErrorCode;
use crate::keys::Pubkey;

verus! {

/// One canopy node is a 32-byte hash.
pub const CANOPY_NODE_SIZE: usize = 32;

/// The record anchoring a batch of pre-authorized transactions: the merkle
/// root they are committed under, the canopy account caching the tree's
/// upper nodes, and the authority allowed to execute from the batch.
pub struct LazyTransactionsV0 {
    pub root: [u8; 32],
    pub name: String,
    pub authority: Pubkey,
    pub canopy: Pubkey,
    pub max_depth: u32,
}

/// What an authorized actor supplies to anchor a transaction batch.
pub struct InitializeLazyTransactionsArgsV0 {
    pub root: [u8; 32],
    pub name: String,
    pub authority: Pubkey,
    pub max_depth: u32,
}

/// Checks that a canopy buffer holds a whole number of 32-byte nodes;
/// anything else fails with `CanopyLengthMismatch`.
pub fn check_canopy_bytes(canopy_bytes: &[u8]) -> (r: Result<(), ErrorCode>)
    ensures
        match r {
            Ok(()) => (canopy_bytes@.len() as int) % (CANOPY_NODE_SIZE as int) == 0,
            Err(e) => {
                &&& e == ErrorCode::CanopyLengthMismatch
                &&& (canopy_bytes@.len() as int) % (CANOPY_NODE_SIZE as int) != 0
            },
        },
{
    if canopy_bytes.len() % CANOPY_NODE_SIZE != 0 {
        Err(ErrorCode::CanopyLengthMismatch)
    } else {
        Ok(())
    }
}

/// Anchors a transaction batch and claims its canopy account.
///
/// The canopy buffer's first byte marks whether the account is already in
/// use; the rest must hold a whole number of nodes. An empty or odd-sized
/// buffer fails with `CanopyLengthMismatch`, a claimed one with
/// `CanopyInUse`, and either failure leaves the buffer untouched. On
/// success the first byte is marked used and the record carries the
/// supplied root, name and authority.
pub fn initialize_lazy_transactions(
    args: InitializeLazyTransactionsArgsV0,
    canopy_key: Pubkey,
    canopy_data: &mut Vec<u8>,
) -> (r: Result<LazyTransactionsV0, ErrorCode>)
    ensures
        match r {
            Ok(record) => {
                &&& old(canopy_data)@.len() >= 1
                &&& (old(canopy_data)@.len() - 1) % (CANOPY_NODE_SIZE as int) == 0
                &&& old(canopy_data)@[0] == 0
                &&& final(canopy_data)@ == old(canopy_data)@.update(0, 1u8)
                &&& record.root == args.root
                &&& record.name@ == args.name@
                &&& record.authority == args.authority
                &&& record.canopy == canopy_key
                &&& record.max_depth == args.max_depth
            },
            Err(e) => {
                &&& *final(canopy_data) == *old(canopy_data)
                &&& match e {
                    ErrorCode::CanopyLengthMismatch => old(canopy_data)@.len() == 0 || (old(
                        canopy_data,
                    )@.len() - 1) % (CANOPY_NODE_SIZE as int) != 0,
                    ErrorCode::CanopyInUse => {
                        &&& old(canopy_data)@.len() >= 1
                        &&& (old(canopy_data)@.len() - 1) % (CANOPY_NODE_SIZE as int) == 0
                        &&& old(canopy_data)@[0] != 0
                    },
                    _ => false,
                }
            },
        },
{
    if canopy_data.len() == 0 {
        return Err(ErrorCode::CanopyLengthMismatch);
    }
    if (canopy_data.len() - 1) % CANOPY_NODE_SIZE != 0 {
        return Err(ErrorCode::CanopyLengthMismatch);
    }
    if canopy_data[0] != 0 {
        return Err(ErrorCode::CanopyInUse);
    }
    canopy_data[0] = 1;
    Ok(LazyTransactionsV0 {
        root: args.root,
        name: args.name,
        authority: args.authority,
        canopy: canopy_key,
        max_depth: args.max_depth,
    })
}

} // verus!
