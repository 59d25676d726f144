use vstd::prelude::*;

use crate::hashing::{asset_id_of, hash_asset};
use crate::store::{AssetsStore, MetadataStore};
use crate::types::{meta_view, AccountId, AssetId, AssetItem, AssetRecord, Error, Event};

verus! {

/// The mathematical value of an `Event`.
pub enum EventRecord {
    AssetWasStored(Seq<u8>, AccountId),
}

impl View for Event {
    type V = EventRecord;

    open spec fn view(&self) -> EventRecord {
        match self {
            Event::AssetWasStored(name, who) => EventRecord::AssetWasStored(name@, *who),
        }
    }
}

/// The registry as a mathematical value: the two stores and the events
/// emitted so far, oldest first.
pub struct RegistryState {
    pub assets: Map<Seq<u8>, AssetRecord>,
    pub metadata: Map<(Seq<u8>, AccountId), Option<Seq<u8>>>,
    pub events: Seq<EventRecord>,
}

impl RegistryState {
    /// The registry before any operation.
    pub open spec fn initial() -> RegistryState {
        RegistryState { assets: Map::empty(), metadata: Map::empty(), events: Seq::empty() }
    }

    /// Every metadata slot belongs to a stored asset.
    pub open spec fn consistent(self) -> bool {
        forall|k: (Seq<u8>, AccountId)|
            #[trigger] self.metadata.contains_key(k) ==> self.assets.contains_key(k.0)
    }

    /// `caller` stores an asset named `name` under the identifier derived from
    /// `(name, caller)`, with `meta` in its own slot. The name must have more
    /// than 3 and fewer than 32 bytes.
    pub open spec fn add_asset(self, caller: AccountId, name: Seq<u8>, meta: Option<Seq<u8>>) -> (
        RegistryState,
        Result<Seq<u8>, Error>,
    ) {
        if name.len() <= 3 {
            (self, Err(Error::ShortNameProvided))
        } else if name.len() >= 32 {
            (self, Err(Error::LongNameProvided))
        } else {
            let id = asset_id_of(name, caller);
            (
                RegistryState {
                    assets: self.assets.insert(id, AssetRecord { name, owner: caller }),
                    metadata: self.metadata.insert((id, caller), meta),
                    events: self.events.push(EventRecord::AssetWasStored(name, caller)),
                },
                Ok(id),
            )
        }
    }

    /// The owner of asset `id` hands it to `destination`; metadata slots stay.
    pub open spec fn transfer_asset(self, caller: AccountId, id: Seq<u8>, destination: AccountId) -> (
        RegistryState,
        Result<(), Error>,
    ) {
        if !self.assets.contains_key(id) {
            (self, Err(Error::InvalidHash))
        } else if self.assets[id].owner != caller {
            (self, Err(Error::InvalidOwner))
        } else {
            (
                RegistryState {
                    assets: self.assets.insert(
                        id,
                        AssetRecord { name: self.assets[id].name, owner: destination },
                    ),
                    metadata: self.metadata,
                    events: self.events,
                },
                Ok(()),
            )
        }
    }

    /// A holder of the slot `(id, caller)` overwrites it with `meta`.
    pub open spec fn update_meta(self, caller: AccountId, id: Seq<u8>, meta: Option<Seq<u8>>) -> (
        RegistryState,
        Result<(), Error>,
    ) {
        if !self.metadata.contains_key((id, caller)) {
            (self, Err(Error::InvalidOwner))
        } else {
            (
                RegistryState {
                    assets: self.assets,
                    metadata: self.metadata.insert((id, caller), meta),
                    events: self.events,
                },
                Ok(()),
            )
        }
    }

    /// The owner of asset `id` gives `admin` an empty slot on it.
    pub open spec fn register_admin(self, caller: AccountId, id: Seq<u8>, admin: AccountId) -> (
        RegistryState,
        Result<(), Error>,
    ) {
        if !self.assets.contains_key(id) {
            (self, Err(Error::InvalidHash))
        } else if self.assets[id].owner != caller {
            (self, Err(Error::InvalidOwner))
        } else {
            (
                RegistryState {
                    assets: self.assets,
                    metadata: self.metadata.insert((id, admin), None),
                    events: self.events,
                },
                Ok(()),
            )
        }
    }
}

/// The mathematical value of the result of `add_asset`.
pub open spec fn id_result(r: Result<AssetId, Error>) -> Result<Seq<u8>, Error> {
    match r {
        Ok(id) => Ok(id@),
        Err(e) => Err(e),
    }
}

/// The asset registry: asset records, metadata slots and the events emitted.
pub struct Pallet {
    assets: AssetsStore,
    metadata: MetadataStore,
    events: Vec<Event>,
}

impl View for Pallet {
    type V = RegistryState;

    closed spec fn view(&self) -> RegistryState {
        RegistryState {
            assets: self.assets@,
            metadata: self.metadata@,
            events: self.events@.map_values(|e: Event| e@),
        }
    }
}

impl Pallet {
    pub closed spec fn wf(&self) -> bool {
        self.assets.wf() && self.metadata.wf()
    }

    /// An empty registry.
    pub fn new() -> (r: Pallet)
        ensures
            r.wf(),
            r@ == RegistryState::initial(),
    {
        let r = Pallet { assets: AssetsStore::new(), metadata: MetadataStore::new(), events: Vec::new() };
        assert(r@.events =~= Seq::<EventRecord>::empty());
        r
    }

    /// Stores the asset `name` for `caller` with `meta` in the caller's slot,
    /// and returns its identifier.
    pub fn add_asset(&mut self, caller: AccountId, asset_name: Vec<u8>, meta: Option<Vec<u8>>) -> (r:
        Result<AssetId, Error>)
        requires
            old(self).wf(),
        ensures
            final(self).wf(),
            (final(self)@, id_result(r)) == old(self)@.add_asset(caller, asset_name@, meta_view(meta)),
    {
        if asset_name.len() <= 3 {
            return Err(Error::ShortNameProvided);
        }
        if asset_name.len() >= 32 {
            return Err(Error::LongNameProvided);
        }
        let id = hash_asset(&asset_name, caller);
        let name = asset_name.clone();
        assert(name@ =~= asset_name@);
        let ghost before = self.events@;
        self.assets.insert(id, AssetItem { name, owner: caller });
        self.metadata.insert(id, caller, meta);
        self.events.push(Event::AssetWasStored(asset_name, caller));
        assert(self.events@.map_values(|e: Event| e@) =~= before.map_values(|e: Event| e@).push(
            EventRecord::AssetWasStored(asset_name@, caller),
        ));
        Ok(id)
    }

    /// Hands the asset `hash` from its owner `caller` to `destination`.
    pub fn transfer_asset(&mut self, caller: AccountId, hash: AssetId, destination: AccountId) -> (r:
        Result<(), Error>)
        requires
            old(self).wf(),
        ensures
            final(self).wf(),
            (final(self)@, r) == old(self)@.transfer_asset(caller, hash@, destination),
    {
        let name = match self.assets.get(&hash) {
            None => {
                return Err(Error::InvalidHash);
            },
            Some(item) => {
                if item.owner != caller {
                    return Err(Error::InvalidOwner);
                }
                let name = item.name.clone();
                assert(name@ =~= item.name@);
                name
            },
        };
        self.assets.insert(hash, AssetItem { name, owner: destination });
        Ok(())
    }

    /// Overwrites the slot of `caller` on asset `hash` with `meta`; the slot
    /// must exist.
    pub fn update_meta(&mut self, caller: AccountId, hash: AssetId, meta: Option<Vec<u8>>) -> (r:
        Result<(), Error>)
        requires
            old(self).wf(),
        ensures
            final(self).wf(),
            (final(self)@, r) == old(self)@.update_meta(caller, hash@, meta_view(meta)),
    {
        if !self.metadata.contains_key(&hash, caller) {
            return Err(Error::InvalidOwner);
        }
        self.metadata.insert(hash, caller, meta);
        Ok(())
    }

    /// Gives `admin_address` an empty slot on asset `hash`, which lets it
    /// update its metadata there; only the owner may do so.
    pub fn register_admin(&mut self, caller: AccountId, hash: AssetId, admin_address: AccountId) -> (r:
        Result<(), Error>)
        requires
            old(self).wf(),
        ensures
            final(self).wf(),
            (final(self)@, r) == old(self)@.register_admin(caller, hash@, admin_address),
    {
        match self.assets.get(&hash) {
            None => {
                return Err(Error::InvalidHash);
            },
            Some(item) => {
                if item.owner != caller {
                    return Err(Error::InvalidOwner);
                }
            },
        }
        self.metadata.insert(hash, admin_address, None);
        Ok(())
    }

    /// The record of asset `hash`, if it is stored.
    pub fn assets(&self, hash: &AssetId) -> (r: Option<AssetItem>)
        requires
            self.wf(),
        ensures
            match r {
                Some(item) => self@.assets.contains_key(hash@) && self@.assets[hash@] == item@,
                None => !self@.assets.contains_key(hash@),
            },
    {
        match self.assets.get(hash) {
            Some(item) => Some(item.duplicate()),
            None => None,
        }
    }

    /// The slot of `who` on asset `hash`: `None` where it does not exist.
    pub fn assets_meta(&self, hash: &AssetId, who: AccountId) -> (r: Option<Option<Vec<u8>>>)
        requires
            self.wf(),
        ensures
            match r {
                Some(m) => self@.metadata.contains_key((hash@, who)) && self@.metadata[(hash@, who)]
                    == meta_view(m),
                None => !self@.metadata.contains_key((hash@, who)),
            },
    {
        self.metadata.get(hash, who)
    }

    /// The events emitted so far, oldest first.
    pub fn events(&self) -> (r: &Vec<Event>)
        ensures
            r@.map_values(|e: Event| e@) == self@.events,
    {
        &self.events
    }
}

} // verus!
