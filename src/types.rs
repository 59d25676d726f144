use vstd::prelude::*;

verus! {

/// An account, as handed over by the authentication layer.
pub type AccountId = u64;

/// A 32-byte digest that identifies an asset.
pub type AssetId = [u8; 32];

/// The stored record of an asset.
pub struct AssetItem {
    pub name: Vec<u8>,
    pub owner: AccountId,
}

/// The mathematical value of an `AssetItem`.
pub struct AssetRecord {
    pub name: Seq<u8>,
    pub owner: AccountId,
}

impl View for AssetItem {
    type V = AssetRecord;

    open spec fn view(&self) -> AssetRecord {
        AssetRecord { name: self.name@, owner: self.owner }
    }
}

impl AssetItem {
    /// A copy of the record.
    pub fn duplicate(&self) -> (r: AssetItem)
        ensures
            r@ == self@,
    {
        let name = self.name.clone();
        assert(name@ =~= self.name@);
        AssetItem { name, owner: self.owner }
    }
}

/// What the registry reports to the event sink.
pub enum Event {
    /// An asset with this name was stored for this owner.
    AssetWasStored(Vec<u8>, AccountId),
}

/// Why an operation was refused. A refused operation changes nothing.
#[derive(Debug, Clone, Copy, PartialEq, Eq, Structural)]
pub enum Error {
    /// The asset name has 3 bytes or fewer.
    ShortNameProvided,
    /// The asset name has 32 bytes or more.
    LongNameProvided,
    /// The caller lacks the authority the operation needs.
    InvalidOwner,
    /// No asset is stored under the identifier.
    InvalidHash,
}

/// The mathematical value of a metadata blob that may be empty.
pub open spec fn meta_view(m: Option<Vec<u8>>) -> Option<Seq<u8>> {
    match m {
        Some(v) => Some(v@),
        None => None,
    }
}

/// A copy of a metadata blob.
pub fn duplicate_meta(m: &Option<Vec<u8>>) -> (r: Option<Vec<u8>>)
    ensures
        meta_view(r) == meta_view(*m),
{
    match m {
        Some(v) => {
            let c = v.clone();
            assert(c@ =~= v@);
            Some(c)
        },
        None => None,
    }
}

/// Whether two identifiers hold the same bytes.
pub fn same_id(a: &AssetId, b: &AssetId) -> (r: bool)
    ensures
        r == (a@ == b@),
{
    let mut i: usize = 0;
    while i < 32
        invariant
            i <= 32,
            a@.len() == 32,
            b@.len() == 32,
            forall|j: int| 0 <= j < i ==> a@[j] == b@[j],
        decreases 32 - i,
    {
        if a[i] != b[i] {
            return false;
        }
        i += 1;
    }
    assert(a@ =~= b@);
    true
}

} // verus!
