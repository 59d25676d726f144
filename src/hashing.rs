use frame_support::sp_runtime::traits::BlakeTwo256;
use vstd::prelude::*;

use crate::types::{AccountId, AssetId};

verus! {

/// The identifier that the runtime's hasher gives the record `{ name, owner }`.
pub uninterp spec fn asset_id_of(name: Seq<u8>, owner: AccountId) -> Seq<u8>;

/// Relies on `BlakeTwo256::hash_of` of sp_runtime (through frame_support): the
/// BLAKE2-256 digest of the SCALE encoding of the record, which for a name and
/// an owner is that of the pair `(name, owner)`. It depends on these two alone.
#[verifier::external_body]
pub(crate) fn hash_asset(name: &Vec<u8>, owner: AccountId) -> (r: AssetId)
    ensures
        r@ == asset_id_of(name@, owner),
{
    <BlakeTwo256 as frame_support::sp_runtime::traits::Hash>::hash_of(&(name, owner)).0
}

} // verus!
