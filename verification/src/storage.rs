//! The durable storage substrate: a growable byte-addressable space split
//! into named regions, a durable scalar cell, and an ordered byte-record
//! map, all backed by `ic_stable_structures`.
//!
//! These are the crate's trusted items: their contracts state what the
//! `ic_stable_structures` sources show, and Verus believes them without
//! proof. Every region handle minted here is moved into exactly one cell or
//! map, so no two handles in use ever alias the same region.

use vstd::prelude::*;
use ic_stable_structures::memory_manager::{MemoryId, MemoryManager, VirtualMemory};
use ic_stable_structures::{Cell, DefaultMemoryImpl, StableBTreeMap};

verus! {

/// One linear, growable byte-addressable storage space, partitioned into
/// independently growable named regions.
///
/// Relies on `MemoryManager<DefaultMemoryImpl>` of `ic_stable_structures`:
/// regions handed out for distinct ids never overlap.
#[verifier::external_body]
pub struct StorageSpace {
    manager: MemoryManager<DefaultMemoryImpl>,
}

/// A named, independently growable region of a [`StorageSpace`].
///
/// Relies on `VirtualMemory<DefaultMemoryImpl>` of `ic_stable_structures`.
#[verifier::external_body]
pub struct Region {
    memory: VirtualMemory<DefaultMemoryImpl>,
}

impl StorageSpace {
    /// Relies on `MemoryManager::init` over a fresh default backing memory.
    /// Exhaustion of the backing storage is fatal and aborts, per the
    /// design: out-of-space is propagated, never recovered.
    #[verifier::external_body]
    pub fn new() -> (s: StorageSpace) {
        StorageSpace { manager: MemoryManager::init(DefaultMemoryImpl::default()) }
    }

    /// Relies on `MemoryManager::get`: the same id always resolves to the
    /// same region, and regions of distinct ids never overlap.
    /// `MemoryId::new` rejects the reserved id 255.
    #[verifier::external_body]
    pub(crate) fn region(&self, id: u8) -> (r: Region)
        requires
            id < 255,
    {
        Region { memory: self.manager.get(MemoryId::new(id)) }
    }
}

/// A durable scalar cell: one `u64` living in its own region, whose value
/// survives process restarts by residing there.
#[verifier::external_body]
pub struct IdCell {
    cell: Cell<u64, VirtualMemory<DefaultMemoryImpl>>,
}

/// The value currently held by a durable scalar cell.
pub uninterp spec fn id_cell_value(c: IdCell) -> u64;

impl IdCell {
    /// Relies on `Cell::new` of `ic_stable_structures`: it writes `initial`
    /// to the region, overwriting previous contents, and aborts only on
    /// storage exhaustion.
    #[verifier::external_body]
    pub(crate) fn new(region: Region, initial: u64) -> (c: IdCell)
        ensures
            id_cell_value(c) == initial,
    {
        IdCell { cell: Cell::new(region.memory, initial) }
    }

    /// Relies on `Cell::init` of `ic_stable_structures`: if the region
    /// already holds a cell, its persisted value is loaded; otherwise
    /// `default` is written. Nothing is promised of the loaded value — a
    /// caller must validate what it reads. Aborts on an incompatible cell
    /// layout or storage exhaustion, the fatal corruption case.
    #[verifier::external_body]
    pub(crate) fn init(region: Region, default: u64) -> (c: IdCell) {
        IdCell { cell: Cell::init(region.memory, default) }
    }

    /// Relies on `Cell::get`: a pure read of the current value.
    #[verifier::external_body]
    pub(crate) fn get(&self) -> (r: u64)
        ensures
            r == id_cell_value(*self),
    {
        *self.cell.get()
    }

    /// Relies on `Cell::set`: it overwrites the value and returns the
    /// previous one, aborting only on storage exhaustion.
    #[verifier::external_body]
    pub(crate) fn set(&mut self, v: u64) -> (prev: u64)
        ensures
            id_cell_value(*final(self)) == v,
            prev == id_cell_value(*old(self)),
    {
        self.cell.set(v)
    }
}

/// An ordered durable map from a 64-bit key to one encoded record, bound to
/// its own region. All mutations are immediately durable.
#[verifier::external_body]
pub struct ByteMap {
    map: StableBTreeMap<u64, Vec<u8>, VirtualMemory<DefaultMemoryImpl>>,
}

/// The entries currently held by a byte-record map.
pub uninterp spec fn byte_map_entries(m: ByteMap) -> Map<u64, Seq<u8>>;

/// The entries of a freshly laid-out byte-record map: none.
pub open spec fn byte_map_empty() -> Map<u64, Seq<u8>> {
    Map::empty()
}

impl ByteMap {
    /// Relies on `StableBTreeMap::new` of `ic_stable_structures`: it lays
    /// out an empty map in the region, overwriting previous contents.
    #[verifier::external_body]
    pub(crate) fn new(region: Region) -> (m: ByteMap)
        ensures
            byte_map_entries(m) == byte_map_empty(),
    {
        ByteMap { map: StableBTreeMap::new(region.memory) }
    }

    /// Relies on `StableBTreeMap::init` of `ic_stable_structures`: if the
    /// region already holds a map, its persisted entries are loaded;
    /// otherwise an empty map is laid out. Nothing is promised of the loaded
    /// entries — a caller must validate what it reads. Aborts on an
    /// incompatibly laid-out region, the fatal corruption case.
    #[verifier::external_body]
    pub(crate) fn init(region: Region) -> (m: ByteMap) {
        ByteMap { map: StableBTreeMap::init(region.memory) }
    }

    /// Relies on `StableBTreeMap::insert`: it stores `value` under `key` and
    /// returns the previous value of `key`, if any. The node layout records
    /// a value's length as 32 bits, so longer values are excluded.
    #[verifier::external_body]
    pub(crate) fn insert(&mut self, key: u64, value: Vec<u8>) -> (prev: Option<Vec<u8>>)
        requires
            value@.len() <= u32::MAX,
        ensures
            byte_map_entries(*final(self)) == byte_map_entries(*old(self)).insert(key, value@),
            (match prev {
                Some(p) => byte_map_entries(*old(self)).contains_key(key) && p@ == byte_map_entries(
                    *old(self),
                )[key],
                None => !byte_map_entries(*old(self)).contains_key(key),
            }),
    {
        self.map.insert(key, value)
    }

    /// Relies on `StableBTreeMap::get`: it returns the value stored under
    /// `key`, if any.
    #[verifier::external_body]
    pub(crate) fn get(&self, key: u64) -> (r: Option<Vec<u8>>)
        ensures
            (match r {
                Some(v) => byte_map_entries(*self).contains_key(key) && v@ == byte_map_entries(
                    *self,
                )[key],
                None => !byte_map_entries(*self).contains_key(key),
            }),
    {
        self.map.get(&key)
    }

    /// Relies on `StableBTreeMap::iter`: it yields every entry of the map
    /// exactly once, sorted by key in ascending order.
    #[verifier::external_body]
    pub(crate) fn entries(&self) -> (r: Vec<(u64, Vec<u8>)>)
        ensures
            forall|i: int|
                0 <= i < r@.len() ==> byte_map_entries(*self).contains_key((#[trigger] r@[i]).0),
            forall|i: int|
                0 <= i < r@.len() ==> (#[trigger] r@[i]).1@ == byte_map_entries(*self)[r@[i].0],
            forall|i: int, j: int|
                #![trigger r@[i], r@[j]]
                0 <= i < j < r@.len() ==> r@[i].0 < r@[j].0,
            forall|k: u64|
                #[trigger] byte_map_entries(*self).contains_key(k) ==> exists|i: int|
                    0 <= i < r@.len() && r@[i].0 == k,
    {
        self.map.iter().map(|e| e.into_pair()).collect()
    }
}

} // verus!
