use vstd::prelude::*;

use crate::hashing::asset_id_of;
use crate::pallet::RegistryState;
use crate::types::{AccountId, Error};

verus! {

/// Adding the same asset twice, with the same caller and name, yields the same
/// identifier both times.
pub proof fn law_asset_id_is_deterministic(
    s: RegistryState,
    caller: AccountId,
    name: Seq<u8>,
    meta: Option<Seq<u8>>,
)
    requires
        3 < name.len() < 32,
    ensures
        s.add_asset(caller, name, meta).1 is Ok,
        s.add_asset(caller, name, meta).0.add_asset(caller, name, meta).1 == s.add_asset(
            caller,
            name,
            meta,
        ).1,
{
}

/// A name of at most 3 bytes is refused as short and changes nothing; one of
/// exactly 4 bytes is accepted.
pub proof fn law_short_names_refused(
    s: RegistryState,
    caller: AccountId,
    name: Seq<u8>,
    meta: Option<Seq<u8>>,
)
    ensures
        name.len() <= 3 ==> s.add_asset(caller, name, meta) == (s, Err::<Seq<u8>, Error>(
            Error::ShortNameProvided,
        )),
        name.len() == 4 ==> s.add_asset(caller, name, meta).1 is Ok,
{
}

/// A name of 32 bytes or more is refused as long and changes nothing; one of
/// exactly 31 bytes is accepted.
pub proof fn law_long_names_refused(
    s: RegistryState,
    caller: AccountId,
    name: Seq<u8>,
    meta: Option<Seq<u8>>,
)
    ensures
        name.len() >= 32 ==> s.add_asset(caller, name, meta) == (s, Err::<Seq<u8>, Error>(
            Error::LongNameProvided,
        )),
        name.len() == 31 ==> s.add_asset(caller, name, meta).1 is Ok,
{
}

/// Once `a` has added an asset, nobody else can transfer it, and `a` can: the
/// asset then belongs to the destination.
pub proof fn law_only_owner_transfers(
    s: RegistryState,
    a: AccountId,
    b: AccountId,
    c: AccountId,
    name: Seq<u8>,
    meta: Option<Seq<u8>>,
)
    requires
        3 < name.len() < 32,
        b != a,
    ensures
        ({
            let s1 = s.add_asset(a, name, meta).0;
            let h = asset_id_of(name, a);
            &&& s.add_asset(a, name, meta).1 == Ok::<Seq<u8>, Error>(h)
            &&& s1.transfer_asset(b, h, c) == (s1, Err::<(), Error>(Error::InvalidOwner))
            &&& s1.transfer_asset(a, h, c).1 is Ok
            &&& s1.transfer_asset(a, h, c).0.assets[h].owner == c
            &&& s1.transfer_asset(a, h, c).0.assets[h].name == name
        }),
{
}

/// Transferring an identifier under which nothing is stored is refused with
/// `InvalidHash` and changes nothing.
pub proof fn law_transfer_of_unknown_asset_refused(
    s: RegistryState,
    caller: AccountId,
    id: Seq<u8>,
    destination: AccountId,
)
    requires
        !s.assets.contains_key(id),
    ensures
        s.transfer_asset(caller, id, destination) == (s, Err::<(), Error>(Error::InvalidHash)),
{
}

/// The account that added an asset holds a metadata slot on it; an account
/// with no slot there cannot update it.
pub proof fn law_creator_holds_metadata_slot(
    s: RegistryState,
    a: AccountId,
    z: AccountId,
    name: Seq<u8>,
    meta: Option<Seq<u8>>,
    new_meta: Option<Seq<u8>>,
)
    requires
        3 < name.len() < 32,
        z != a,
        !s.metadata.contains_key((asset_id_of(name, a), z)),
    ensures
        ({
            let s1 = s.add_asset(a, name, meta).0;
            let h = asset_id_of(name, a);
            &&& s1.update_meta(a, h, new_meta).1 is Ok
            &&& s1.update_meta(a, h, new_meta).0.metadata[(h, a)] == new_meta
            &&& s1.update_meta(z, h, new_meta) == (s1, Err::<(), Error>(Error::InvalidOwner))
        }),
{
}

/// The owner of an asset can register an admin, who can then update the
/// metadata; anyone else is refused with `InvalidOwner`.
pub proof fn law_owner_registers_admins(
    s: RegistryState,
    owner: AccountId,
    other: AccountId,
    admin: AccountId,
    h: Seq<u8>,
    meta: Option<Seq<u8>>,
)
    requires
        s.assets.contains_key(h),
        s.assets[h].owner == owner,
        other != owner,
    ensures
        s.register_admin(owner, h, admin).1 is Ok,
        s.register_admin(owner, h, admin).0.metadata[(h, admin)] == None::<Seq<u8>>,
        s.register_admin(owner, h, admin).0.update_meta(admin, h, meta).1 is Ok,
        s.register_admin(other, h, admin) == (s, Err::<(), Error>(Error::InvalidOwner)),
{
}

/// A transfer leaves every metadata slot in place: the former owner, and any
/// admin, can still update their slots afterwards.
pub proof fn law_transfer_keeps_metadata_slots(
    s: RegistryState,
    owner: AccountId,
    holder: AccountId,
    destination: AccountId,
    h: Seq<u8>,
    meta: Option<Seq<u8>>,
)
    requires
        s.assets.contains_key(h),
        s.assets[h].owner == owner,
        s.metadata.contains_key((h, holder)),
    ensures
        s.transfer_asset(owner, h, destination).1 is Ok,
        s.transfer_asset(owner, h, destination).0.metadata == s.metadata,
        s.transfer_asset(owner, h, destination).0.update_meta(holder, h, meta).1 is Ok,
{
}

/// Every operation keeps each metadata slot attached to a stored asset.
pub proof fn law_operations_keep_consistency(
    s: RegistryState,
    caller: AccountId,
    other: AccountId,
    name: Seq<u8>,
    id: Seq<u8>,
    meta: Option<Seq<u8>>,
)
    requires
        s.consistent(),
    ensures
        RegistryState::initial().consistent(),
        s.add_asset(caller, name, meta).0.consistent(),
        s.transfer_asset(caller, id, other).0.consistent(),
        s.update_meta(caller, id, meta).0.consistent(),
        s.register_admin(caller, id, other).0.consistent(),
{
    let a = s.add_asset(caller, name, meta).0;
    assert forall|k: (Seq<u8>, AccountId)| #[trigger] a.metadata.contains_key(k) implies a.assets.contains_key(k.0) by {
        if !s.metadata.contains_key(k) {
            assert(k.0 == asset_id_of(name, caller));
        }
    }
    let t = s.transfer_asset(caller, id, other).0;
    assert forall|k: (Seq<u8>, AccountId)| #[trigger] t.metadata.contains_key(k) implies t.assets.contains_key(k.0) by {
        assert(s.assets.contains_key(k.0));
    }
    let r = s.register_admin(caller, id, other).0;
    assert forall|k: (Seq<u8>, AccountId)| #[trigger] r.metadata.contains_key(k) implies r.assets.contains_key(k.0) by {
        if !s.metadata.contains_key(k) {
            assert(k.0 == id);
        }
    }
}

} // verus!
