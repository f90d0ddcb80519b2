use vstd::prelude::*;

use vstd::bytes::{spec_u64_to_le_bytes, u64_to_le_bytes, lemma_auto_spec_u64_to_from_le_bytes};

verus! {

/// An opaque account identifier. The host addresses every long-lived record
/// (DAO, sub-DAO, mints, pools) by such a key; the engine only ever compares
/// keys for equality and folds them into derived record keys.
#[derive(Clone, Copy, Debug, PartialEq, Eq, Structural)]
pub struct Pubkey {
    pub id: u64,
}

/// The tag that distinguishes per-epoch DAO records from every other kind of
/// derived record: the bytes of "dao_epoch_info".
pub open spec fn epoch_info_tag() -> Seq<u8> {
    seq![100u8, 97u8, 111u8, 95u8, 101u8, 112u8, 111u8, 99u8, 104u8, 95u8, 105u8, 110u8, 102u8, 111u8]
}

/// The storage key of the per-epoch snapshot record of `dao` for `epoch`:
/// a fixed tag, then the DAO's key, then the epoch index, both little-endian.
pub open spec fn spec_dao_epoch_info_key(dao: Pubkey, epoch: u64) -> Seq<u8> {
    epoch_info_tag() + spec_u64_to_le_bytes(dao.id) + spec_u64_to_le_bytes(epoch)
}

/// Derives the storage key under which the per-epoch snapshot of `dao` for
/// `epoch` is kept. The derivation is a pure function of its inputs, so any
/// two parties derive the same key and can locate the record without an
/// index.
pub fn dao_epoch_info_key(dao: Pubkey, epoch: u64) -> (key: Vec<u8>)
    ensures
        key@ == spec_dao_epoch_info_key(dao, epoch),
{
    let mut key: Vec<u8> = vec![100u8, 97u8, 111u8, 95u8, 101u8, 112u8, 111u8, 99u8, 104u8, 95u8, 105u8, 110u8, 102u8, 111u8];
    assert(key@ =~= epoch_info_tag());
    let mut dao_bytes = u64_to_le_bytes(dao.id);
    let mut epoch_bytes = u64_to_le_bytes(epoch);
    key.append(&mut dao_bytes);
    key.append(&mut epoch_bytes);
    assert(key@ =~= spec_dao_epoch_info_key(dao, epoch));
    key
}

/// Distinct `(dao, epoch)` pairs derive distinct storage keys, so no two
/// snapshot records can collide.
pub proof fn lemma_dao_epoch_info_key_injective(d1: Pubkey, e1: u64, d2: Pubkey, e2: u64)
    requires
        spec_dao_epoch_info_key(d1, e1) == spec_dao_epoch_info_key(d2, e2),
    ensures
        d1 == d2,
        e1 == e2,
{
    lemma_auto_spec_u64_to_from_le_bytes();
    let k1 = spec_dao_epoch_info_key(d1, e1);
    let k2 = spec_dao_epoch_info_key(d2, e2);
    assert(spec_u64_to_le_bytes(d1.id) =~= k1.subrange(14, 22));
    assert(spec_u64_to_le_bytes(e1) =~= k1.subrange(22, 30));
    assert(spec_u64_to_le_bytes(d2.id) =~= k2.subrange(14, 22));
    assert(spec_u64_to_le_bytes(e2) =~= k2.subrange(22, 30));
}

} // verus!
