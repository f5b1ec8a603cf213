//! The fleet store: one durable scalar cell for identifier allocation and
//! one keyed record store per entity type, each bound to its own region of
//! a single storage space.

use vstd::prelude::*;
use crate::storage::{StorageSpace, IdCell, ByteMap, id_cell_value, byte_map_entries};
use crate::records::driver::{DriverV, spec_decode_driver, decode_driver};
use crate::records::vehicle::{VehicleV, spec_decode_vehicle, decode_vehicle};
use crate::records::booking::{BookingV, spec_decode_booking, decode_booking};
use crate::records::fuel::{FuelConsumptionV, spec_decode_fuel, decode_fuel};
use crate::records::maintenance::{MaintenanceV, spec_decode_maintenance, decode_maintenance};
use crate::records::emergency::{EmergencyAssistanceV, spec_decode_emergency, decode_emergency};
use crate::records::route::{RouteV, spec_decode_route, decode_route};
use crate::Message;
use crate::MAX_RECORD_BYTES;

verus! {

/// A map holds no key at all.
pub open spec fn map_is_empty<V>(m: Map<u64, V>) -> bool {
    forall|k: u64| !m.contains_key(k)
}

/// `v` lists exactly the records of `m`: every element is a stored record,
/// the ids strictly ascend, and every stored record appears.
pub open spec fn complete_ascending<T: View>(
    v: Seq<T>,
    m: Map<u64, <T as View>::V>,
    id_of: spec_fn(<T as View>::V) -> u64,
) -> bool {
    &&& forall|i: int|
        0 <= i < v.len() ==> m.contains_key(id_of((#[trigger] v[i])@)) && m[id_of(v[i]@)] == v[i]@
    &&& forall|i: int, j: int|
        0 <= i < j < v.len() ==> id_of((#[trigger] v[i])@) < id_of((#[trigger] v[j])@)
    &&& forall|k: u64|
        #[trigger] m.contains_key(k) ==> exists|i: int|
            0 <= i < v.len() && id_of((#[trigger] v[i])@) == k
}

/// The entry stored under key `k` is well formed: its byte sequence is
/// within the size bound and decodes to a record whose id is `k`, and `k`
/// was issued by the allocator (it lies in `1 ..= last`). `id_of` reads the
/// id out of the decoded record.
pub open spec fn wf_entry<V>(
    e: Map<u64, Seq<u8>>,
    dec: spec_fn(Seq<u8>) -> Option<V>,
    id_of: spec_fn(V) -> u64,
    last: u64,
    k: u64,
) -> bool {
    &&& e[k].len() <= MAX_RECORD_BYTES
    &&& dec(e[k]) is Some
    &&& id_of(dec(e[k]).unwrap()) == k
    &&& 1 <= k <= last
}

/// Every entry of one keyed record store is well formed.
pub open spec fn wf_entries<V>(
    e: Map<u64, Seq<u8>>,
    dec: spec_fn(Seq<u8>) -> Option<V>,
    id_of: spec_fn(V) -> u64,
    last: u64,
) -> bool {
    forall|k: u64| #[trigger] e.contains_key(k) ==> wf_entry(e, dec, id_of, last, k)
}

/// The decoded view of one keyed record store.
pub open spec fn decoded_entries<V>(e: Map<u64, Seq<u8>>, dec: spec_fn(Seq<u8>) -> Option<V>) -> Map<
    u64,
    V,
> {
    Map::new(|k: u64| e.contains_key(k), |k: u64| dec(e[k]).unwrap())
}

/// The store of every entity type, plus the shared identifier cell. The
/// stores exclusively own the records; entities refer to each other by id
/// only, resolved by lookup at call time.
pub struct FleetStore {
    pub(crate) space: StorageSpace,
    pub(crate) id_cell: IdCell,
    pub(crate) driver_map: ByteMap,
    pub(crate) vehicle_map: ByteMap,
    pub(crate) booking_map: ByteMap,
    pub(crate) fuel_map: ByteMap,
    pub(crate) maintenance_map: ByteMap,
    pub(crate) emergency_map: ByteMap,
    pub(crate) route_map: ByteMap,
}

impl FleetStore {
    /// The last identifier issued; zero before any was.
    pub open(crate) spec fn last_id(&self) -> u64 {
        id_cell_value(self.id_cell)
    }

    pub open(crate) spec fn drivers(&self) -> Map<u64, DriverV> {
        decoded_entries(byte_map_entries(self.driver_map), |b: Seq<u8>| spec_decode_driver(b))
    }

    pub open(crate) spec fn vehicles(&self) -> Map<u64, VehicleV> {
        decoded_entries(byte_map_entries(self.vehicle_map), |b: Seq<u8>| spec_decode_vehicle(b))
    }

    pub open(crate) spec fn bookings(&self) -> Map<u64, BookingV> {
        decoded_entries(byte_map_entries(self.booking_map), |b: Seq<u8>| spec_decode_booking(b))
    }

    pub open(crate) spec fn fuel_consumptions(&self) -> Map<u64, FuelConsumptionV> {
        decoded_entries(byte_map_entries(self.fuel_map), |b: Seq<u8>| spec_decode_fuel(b))
    }

    pub open(crate) spec fn maintenances(&self) -> Map<u64, MaintenanceV> {
        decoded_entries(
            byte_map_entries(self.maintenance_map),
            |b: Seq<u8>| spec_decode_maintenance(b),
        )
    }

    pub open(crate) spec fn emergency_assistances(&self) -> Map<u64, EmergencyAssistanceV> {
        decoded_entries(
            byte_map_entries(self.emergency_map),
            |b: Seq<u8>| spec_decode_emergency(b),
        )
    }

    pub open(crate) spec fn routes(&self) -> Map<u64, RouteV> {
        decoded_entries(byte_map_entries(self.route_map), |b: Seq<u8>| spec_decode_route(b))
    }

    /// The store invariant: every record of every store decodes to a record
    /// whose id is its key, and every key was issued by the allocator.
    pub open(crate) spec fn wf(&self) -> bool {
        &&& wf_entries(
            byte_map_entries(self.driver_map),
            |b: Seq<u8>| spec_decode_driver(b),
            |d: DriverV| d.id,
            self.last_id(),
        )
        &&& wf_entries(
            byte_map_entries(self.vehicle_map),
            |b: Seq<u8>| spec_decode_vehicle(b),
            |d: VehicleV| d.id,
            self.last_id(),
        )
        &&& wf_entries(
            byte_map_entries(self.booking_map),
            |b: Seq<u8>| spec_decode_booking(b),
            |d: BookingV| d.id,
            self.last_id(),
        )
        &&& wf_entries(
            byte_map_entries(self.fuel_map),
            |b: Seq<u8>| spec_decode_fuel(b),
            |d: FuelConsumptionV| d.id,
            self.last_id(),
        )
        &&& wf_entries(
            byte_map_entries(self.maintenance_map),
            |b: Seq<u8>| spec_decode_maintenance(b),
            |d: MaintenanceV| d.id,
            self.last_id(),
        )
        &&& wf_entries(
            byte_map_entries(self.emergency_map),
            |b: Seq<u8>| spec_decode_emergency(b),
            |d: EmergencyAssistanceV| d.id,
            self.last_id(),
        )
        &&& wf_entries(
            byte_map_entries(self.route_map),
            |b: Seq<u8>| spec_decode_route(b),
            |d: RouteV| d.id,
            self.last_id(),
        )
    }

    /// Lay out a fresh fleet store in the given storage space, discarding
    /// whatever the regions held before: the identifier cell at region 0 and
    /// one record store per entity type at regions 1 through 7. To reopen
    /// persisted state instead, use [`FleetStore::resume`]. The space is
    /// consumed, so no second store can alias its regions; create exactly
    /// one storage space per process, since two spaces over one shared
    /// backing memory would alias each other's regions.
    pub fn init(space: StorageSpace) -> (s: FleetStore)
        ensures
            s.wf(),
            s.last_id() == 0,
            map_is_empty(s.drivers()),
            map_is_empty(s.vehicles()),
            map_is_empty(s.bookings()),
            map_is_empty(s.fuel_consumptions()),
            map_is_empty(s.maintenances()),
            map_is_empty(s.emergency_assistances()),
            map_is_empty(s.routes()),
    {
        let id_cell = IdCell::new(space.region(0), 0);
        let driver_map = ByteMap::new(space.region(1));
        let vehicle_map = ByteMap::new(space.region(2));
        let booking_map = ByteMap::new(space.region(3));
        let fuel_map = ByteMap::new(space.region(4));
        let maintenance_map = ByteMap::new(space.region(5));
        let emergency_map = ByteMap::new(space.region(6));
        let route_map = ByteMap::new(space.region(7));
        FleetStore {
            space,
            id_cell,
            driver_map,
            vehicle_map,
            booking_map,
            fuel_map,
            maintenance_map,
            emergency_map,
            route_map,
        }
    }

    /// Reopen the fleet store persisted in the given storage space: load the
    /// identifier cell and the record stores from regions 0 through 7, then
    /// validate every loaded record against the store invariant. The loading
    /// constructors promise nothing about recovered contents, so the
    /// invariant is re-established here in verified code; a record that
    /// fails validation means the regions were corrupted or written by an
    /// incompatible schema, and the reopen is refused — corruption is an
    /// unrecoverable fault, never silently returned as data. On a space
    /// whose regions were never written, the store starts empty with the
    /// counter at zero. The space is consumed, so no second store can alias
    /// its regions; create exactly one storage space per process, since two
    /// spaces over one shared backing memory would alias each other's
    /// regions.
    pub fn resume(space: StorageSpace) -> (r: Result<FleetStore, Message>)
        ensures
            r matches Ok(s) ==> s.wf(),
    {
        let id_cell = IdCell::init(space.region(0), 0);
        let driver_map = ByteMap::init(space.region(1));
        let vehicle_map = ByteMap::init(space.region(2));
        let booking_map = ByteMap::init(space.region(3));
        let fuel_map = ByteMap::init(space.region(4));
        let maintenance_map = ByteMap::init(space.region(5));
        let emergency_map = ByteMap::init(space.region(6));
        let route_map = ByteMap::init(space.region(7));
        let last = id_cell.get();
        let valid = check_driver_entries(&driver_map, last) && check_vehicle_entries(
            &vehicle_map,
            last,
        ) && check_booking_entries(&booking_map, last) && check_fuel_entries(&fuel_map, last)
            && check_maintenance_entries(&maintenance_map, last) && check_emergency_entries(
            &emergency_map,
            last,
        ) && check_route_entries(&route_map, last);
        if !valid {
            return Err(Message::Error("Stored records failed validation.".to_owned()));
        }
        Ok(
            FleetStore {
                space,
                id_cell,
                driver_map,
                vehicle_map,
                booking_map,
                fuel_map,
                maintenance_map,
                emergency_map,
                route_map,
            },
        )
    }

    /// Close the store: drop the open cell and map handles and hand the
    /// storage space back, so the same regions can be reopened with
    /// [`FleetStore::resume`].
    pub fn close(self) -> StorageSpace {
        self.space
    }

    /// The last identifier issued; zero before any was. Creation entry
    /// points require this to be below `u64::MAX`, so callers can test it.
    pub fn last_issued_id(&self) -> (r: u64)
        ensures
            r == self.last_id(),
    {
        self.id_cell.get()
    }

    /// Issue the next identifier: strictly greater than every identifier
    /// issued before, starting at 1, shared by all entity types.
    pub(crate) fn alloc_id(&mut self) -> (id: u64)
        requires
            old(self).last_id() < u64::MAX,
        ensures
            id == old(self).last_id() + 1,
            final(self).last_id() == id,
            final(self).driver_map == old(self).driver_map,
            final(self).vehicle_map == old(self).vehicle_map,
            final(self).booking_map == old(self).booking_map,
            final(self).fuel_map == old(self).fuel_map,
            final(self).maintenance_map == old(self).maintenance_map,
            final(self).emergency_map == old(self).emergency_map,
            final(self).route_map == old(self).route_map,
    {
        let current = self.id_cell.get();
        let id = current + 1;
        let _previous = self.id_cell.set(id);
        id
    }
}


/// Whether every loaded driver record satisfies the store invariant:
/// within the size bound, decodes, id equals its key, key issued.
fn check_driver_entries(m: &ByteMap, last: u64) -> (r: bool)
    ensures
        r == wf_entries(
            byte_map_entries(*m),
            |b: Seq<u8>| spec_decode_driver(b),
            |d: DriverV| d.id,
            last,
        ),
{
    let entries = m.entries();
    let mut idx: usize = 0;
    while idx < entries.len()
        invariant
            idx <= entries@.len(),
            forall|i: int|
                0 <= i < entries@.len() ==> byte_map_entries(*m).contains_key(
                    (#[trigger] entries@[i]).0,
                ),
            forall|i: int|
                0 <= i < entries@.len() ==> (#[trigger] entries@[i]).1@ == byte_map_entries(
                    *m,
                )[entries@[i].0],
            forall|k: u64|
                #[trigger] byte_map_entries(*m).contains_key(k) ==> exists|i: int|
                    0 <= i < entries@.len() && entries@[i].0 == k,
            forall|i: int|
                0 <= i < idx ==> wf_entry(
                    byte_map_entries(*m),
                    |b: Seq<u8>| spec_decode_driver(b),
                    |d: DriverV| d.id,
                    last,
                    (#[trigger] entries@[i]).0,
                ),
        decreases entries@.len() - idx,
    {
        let pair = &entries[idx];
        let within = pair.1.len() <= MAX_RECORD_BYTES;
        let ok = match decode_driver(&pair.1) {
            Some(d) => within && d.id == pair.0 && pair.0 >= 1 && pair.0 <= last,
            None => false,
        };
        if !ok {
            proof {
                assert(byte_map_entries(*m).contains_key(entries@[idx as int].0));
                assert(byte_map_entries(*m)[entries@[idx as int].0] == entries@[idx as int].1@);
            }
            return false;
        }
        idx += 1;
    }
    proof {
        assert forall|k: u64| #[trigger] byte_map_entries(*m).contains_key(k) implies wf_entry(
            byte_map_entries(*m),
            |b: Seq<u8>| spec_decode_driver(b),
            |d: DriverV| d.id,
            last,
            k,
        ) by {
            let i = choose|i: int| 0 <= i < entries@.len() && entries@[i].0 == k;
            assert(0 <= i < entries@.len() && entries@[i].0 == k);
        }
    }
    true
}

/// Whether every loaded vehicle record satisfies the store invariant:
/// within the size bound, decodes, id equals its key, key issued.
fn check_vehicle_entries(m: &ByteMap, last: u64) -> (r: bool)
    ensures
        r == wf_entries(
            byte_map_entries(*m),
            |b: Seq<u8>| spec_decode_vehicle(b),
            |d: VehicleV| d.id,
            last,
        ),
{
    let entries = m.entries();
    let mut idx: usize = 0;
    while idx < entries.len()
        invariant
            idx <= entries@.len(),
            forall|i: int|
                0 <= i < entries@.len() ==> byte_map_entries(*m).contains_key(
                    (#[trigger] entries@[i]).0,
                ),
            forall|i: int|
                0 <= i < entries@.len() ==> (#[trigger] entries@[i]).1@ == byte_map_entries(
                    *m,
                )[entries@[i].0],
            forall|k: u64|
                #[trigger] byte_map_entries(*m).contains_key(k) ==> exists|i: int|
                    0 <= i < entries@.len() && entries@[i].0 == k,
            forall|i: int|
                0 <= i < idx ==> wf_entry(
                    byte_map_entries(*m),
                    |b: Seq<u8>| spec_decode_vehicle(b),
                    |d: VehicleV| d.id,
                    last,
                    (#[trigger] entries@[i]).0,
                ),
        decreases entries@.len() - idx,
    {
        let pair = &entries[idx];
        let within = pair.1.len() <= MAX_RECORD_BYTES;
        let ok = match decode_vehicle(&pair.1) {
            Some(d) => within && d.id == pair.0 && pair.0 >= 1 && pair.0 <= last,
            None => false,
        };
        if !ok {
            proof {
                assert(byte_map_entries(*m).contains_key(entries@[idx as int].0));
                assert(byte_map_entries(*m)[entries@[idx as int].0] == entries@[idx as int].1@);
            }
            return false;
        }
        idx += 1;
    }
    proof {
        assert forall|k: u64| #[trigger] byte_map_entries(*m).contains_key(k) implies wf_entry(
            byte_map_entries(*m),
            |b: Seq<u8>| spec_decode_vehicle(b),
            |d: VehicleV| d.id,
            last,
            k,
        ) by {
            let i = choose|i: int| 0 <= i < entries@.len() && entries@[i].0 == k;
            assert(0 <= i < entries@.len() && entries@[i].0 == k);
        }
    }
    true
}

/// Whether every loaded booking record satisfies the store invariant:
/// within the size bound, decodes, id equals its key, key issued.
fn check_booking_entries(m: &ByteMap, last: u64) -> (r: bool)
    ensures
        r == wf_entries(
            byte_map_entries(*m),
            |b: Seq<u8>| spec_decode_booking(b),
            |d: BookingV| d.id,
            last,
        ),
{
    let entries = m.entries();
    let mut idx: usize = 0;
    while idx < entries.len()
        invariant
            idx <= entries@.len(),
            forall|i: int|
                0 <= i < entries@.len() ==> byte_map_entries(*m).contains_key(
                    (#[trigger] entries@[i]).0,
                ),
            forall|i: int|
                0 <= i < entries@.len() ==> (#[trigger] entries@[i]).1@ == byte_map_entries(
                    *m,
                )[entries@[i].0],
            forall|k: u64|
                #[trigger] byte_map_entries(*m).contains_key(k) ==> exists|i: int|
                    0 <= i < entries@.len() && entries@[i].0 == k,
            forall|i: int|
                0 <= i < idx ==> wf_entry(
                    byte_map_entries(*m),
                    |b: Seq<u8>| spec_decode_booking(b),
                    |d: BookingV| d.id,
                    last,
                    (#[trigger] entries@[i]).0,
                ),
        decreases entries@.len() - idx,
    {
        let pair = &entries[idx];
        let within = pair.1.len() <= MAX_RECORD_BYTES;
        let ok = match decode_booking(&pair.1) {
            Some(d) => within && d.id == pair.0 && pair.0 >= 1 && pair.0 <= last,
            None => false,
        };
        if !ok {
            proof {
                assert(byte_map_entries(*m).contains_key(entries@[idx as int].0));
                assert(byte_map_entries(*m)[entries@[idx as int].0] == entries@[idx as int].1@);
            }
            return false;
        }
        idx += 1;
    }
    proof {
        assert forall|k: u64| #[trigger] byte_map_entries(*m).contains_key(k) implies wf_entry(
            byte_map_entries(*m),
            |b: Seq<u8>| spec_decode_booking(b),
            |d: BookingV| d.id,
            last,
            k,
        ) by {
            let i = choose|i: int| 0 <= i < entries@.len() && entries@[i].0 == k;
            assert(0 <= i < entries@.len() && entries@[i].0 == k);
        }
    }
    true
}

/// Whether every loaded fuel consumption record satisfies the store invariant:
/// within the size bound, decodes, id equals its key, key issued.
fn check_fuel_entries(m: &ByteMap, last: u64) -> (r: bool)
    ensures
        r == wf_entries(
            byte_map_entries(*m),
            |b: Seq<u8>| spec_decode_fuel(b),
            |d: FuelConsumptionV| d.id,
            last,
        ),
{
    let entries = m.entries();
    let mut idx: usize = 0;
    while idx < entries.len()
        invariant
            idx <= entries@.len(),
            forall|i: int|
                0 <= i < entries@.len() ==> byte_map_entries(*m).contains_key(
                    (#[trigger] entries@[i]).0,
                ),
            forall|i: int|
                0 <= i < entries@.len() ==> (#[trigger] entries@[i]).1@ == byte_map_entries(
                    *m,
                )[entries@[i].0],
            forall|k: u64|
                #[trigger] byte_map_entries(*m).contains_key(k) ==> exists|i: int|
                    0 <= i < entries@.len() && entries@[i].0 == k,
            forall|i: int|
                0 <= i < idx ==> wf_entry(
                    byte_map_entries(*m),
                    |b: Seq<u8>| spec_decode_fuel(b),
                    |d: FuelConsumptionV| d.id,
                    last,
                    (#[trigger] entries@[i]).0,
                ),
        decreases entries@.len() - idx,
    {
        let pair = &entries[idx];
        let within = pair.1.len() <= MAX_RECORD_BYTES;
        let ok = match decode_fuel(&pair.1) {
            Some(d) => within && d.id == pair.0 && pair.0 >= 1 && pair.0 <= last,
            None => false,
        };
        if !ok {
            proof {
                assert(byte_map_entries(*m).contains_key(entries@[idx as int].0));
                assert(byte_map_entries(*m)[entries@[idx as int].0] == entries@[idx as int].1@);
            }
            return false;
        }
        idx += 1;
    }
    proof {
        assert forall|k: u64| #[trigger] byte_map_entries(*m).contains_key(k) implies wf_entry(
            byte_map_entries(*m),
            |b: Seq<u8>| spec_decode_fuel(b),
            |d: FuelConsumptionV| d.id,
            last,
            k,
        ) by {
            let i = choose|i: int| 0 <= i < entries@.len() && entries@[i].0 == k;
            assert(0 <= i < entries@.len() && entries@[i].0 == k);
        }
    }
    true
}

/// Whether every loaded maintenance record satisfies the store invariant:
/// within the size bound, decodes, id equals its key, key issued.
fn check_maintenance_entries(m: &ByteMap, last: u64) -> (r: bool)
    ensures
        r == wf_entries(
            byte_map_entries(*m),
            |b: Seq<u8>| spec_decode_maintenance(b),
            |d: MaintenanceV| d.id,
            last,
        ),
{
    let entries = m.entries();
    let mut idx: usize = 0;
    while idx < entries.len()
        invariant
            idx <= entries@.len(),
            forall|i: int|
                0 <= i < entries@.len() ==> byte_map_entries(*m).contains_key(
                    (#[trigger] entries@[i]).0,
                ),
            forall|i: int|
                0 <= i < entries@.len() ==> (#[trigger] entries@[i]).1@ == byte_map_entries(
                    *m,
                )[entries@[i].0],
            forall|k: u64|
                #[trigger] byte_map_entries(*m).contains_key(k) ==> exists|i: int|
                    0 <= i < entries@.len() && entries@[i].0 == k,
            forall|i: int|
                0 <= i < idx ==> wf_entry(
                    byte_map_entries(*m),
                    |b: Seq<u8>| spec_decode_maintenance(b),
                    |d: MaintenanceV| d.id,
                    last,
                    (#[trigger] entries@[i]).0,
                ),
        decreases entries@.len() - idx,
    {
        let pair = &entries[idx];
        let within = pair.1.len() <= MAX_RECORD_BYTES;
        let ok = match decode_maintenance(&pair.1) {
            Some(d) => within && d.id == pair.0 && pair.0 >= 1 && pair.0 <= last,
            None => false,
        };
        if !ok {
            proof {
                assert(byte_map_entries(*m).contains_key(entries@[idx as int].0));
                assert(byte_map_entries(*m)[entries@[idx as int].0] == entries@[idx as int].1@);
            }
            return false;
        }
        idx += 1;
    }
    proof {
        assert forall|k: u64| #[trigger] byte_map_entries(*m).contains_key(k) implies wf_entry(
            byte_map_entries(*m),
            |b: Seq<u8>| spec_decode_maintenance(b),
            |d: MaintenanceV| d.id,
            last,
            k,
        ) by {
            let i = choose|i: int| 0 <= i < entries@.len() && entries@[i].0 == k;
            assert(0 <= i < entries@.len() && entries@[i].0 == k);
        }
    }
    true
}

/// Whether every loaded emergency assistance record satisfies the store invariant:
/// within the size bound, decodes, id equals its key, key issued.
fn check_emergency_entries(m: &ByteMap, last: u64) -> (r: bool)
    ensures
        r == wf_entries(
            byte_map_entries(*m),
            |b: Seq<u8>| spec_decode_emergency(b),
            |d: EmergencyAssistanceV| d.id,
            last,
        ),
{
    let entries = m.entries();
    let mut idx: usize = 0;
    while idx < entries.len()
        invariant
            idx <= entries@.len(),
            forall|i: int|
                0 <= i < entries@.len() ==> byte_map_entries(*m).contains_key(
                    (#[trigger] entries@[i]).0,
                ),
            forall|i: int|
                0 <= i < entries@.len() ==> (#[trigger] entries@[i]).1@ == byte_map_entries(
                    *m,
                )[entries@[i].0],
            forall|k: u64|
                #[trigger] byte_map_entries(*m).contains_key(k) ==> exists|i: int|
                    0 <= i < entries@.len() && entries@[i].0 == k,
            forall|i: int|
                0 <= i < idx ==> wf_entry(
                    byte_map_entries(*m),
                    |b: Seq<u8>| spec_decode_emergency(b),
                    |d: EmergencyAssistanceV| d.id,
                    last,
                    (#[trigger] entries@[i]).0,
                ),
        decreases entries@.len() - idx,
    {
        let pair = &entries[idx];
        let within = pair.1.len() <= MAX_RECORD_BYTES;
        let ok = match decode_emergency(&pair.1) {
            Some(d) => within && d.id == pair.0 && pair.0 >= 1 && pair.0 <= last,
            None => false,
        };
        if !ok {
            proof {
                assert(byte_map_entries(*m).contains_key(entries@[idx as int].0));
                assert(byte_map_entries(*m)[entries@[idx as int].0] == entries@[idx as int].1@);
            }
            return false;
        }
        idx += 1;
    }
    proof {
        assert forall|k: u64| #[trigger] byte_map_entries(*m).contains_key(k) implies wf_entry(
            byte_map_entries(*m),
            |b: Seq<u8>| spec_decode_emergency(b),
            |d: EmergencyAssistanceV| d.id,
            last,
            k,
        ) by {
            let i = choose|i: int| 0 <= i < entries@.len() && entries@[i].0 == k;
            assert(0 <= i < entries@.len() && entries@[i].0 == k);
        }
    }
    true
}

/// Whether every loaded route record satisfies the store invariant:
/// within the size bound, decodes, id equals its key, key issued.
fn check_route_entries(m: &ByteMap, last: u64) -> (r: bool)
    ensures
        r == wf_entries(
            byte_map_entries(*m),
            |b: Seq<u8>| spec_decode_route(b),
            |d: RouteV| d.id,
            last,
        ),
{
    let entries = m.entries();
    let mut idx: usize = 0;
    while idx < entries.len()
        invariant
            idx <= entries@.len(),
            forall|i: int|
                0 <= i < entries@.len() ==> byte_map_entries(*m).contains_key(
                    (#[trigger] entries@[i]).0,
                ),
            forall|i: int|
                0 <= i < entries@.len() ==> (#[trigger] entries@[i]).1@ == byte_map_entries(
                    *m,
                )[entries@[i].0],
            forall|k: u64|
                #[trigger] byte_map_entries(*m).contains_key(k) ==> exists|i: int|
                    0 <= i < entries@.len() && entries@[i].0 == k,
            forall|i: int|
                0 <= i < idx ==> wf_entry(
                    byte_map_entries(*m),
                    |b: Seq<u8>| spec_decode_route(b),
                    |d: RouteV| d.id,
                    last,
                    (#[trigger] entries@[i]).0,
                ),
        decreases entries@.len() - idx,
    {
        let pair = &entries[idx];
        let within = pair.1.len() <= MAX_RECORD_BYTES;
        let ok = match decode_route(&pair.1) {
            Some(d) => within && d.id == pair.0 && pair.0 >= 1 && pair.0 <= last,
            None => false,
        };
        if !ok {
            proof {
                assert(byte_map_entries(*m).contains_key(entries@[idx as int].0));
                assert(byte_map_entries(*m)[entries@[idx as int].0] == entries@[idx as int].1@);
            }
            return false;
        }
        idx += 1;
    }
    proof {
        assert forall|k: u64| #[trigger] byte_map_entries(*m).contains_key(k) implies wf_entry(
            byte_map_entries(*m),
            |b: Seq<u8>| spec_decode_route(b),
            |d: RouteV| d.id,
            last,
            k,
        ) by {
            let i = choose|i: int| 0 <= i < entries@.len() && entries@[i].0 == k;
            assert(0 <= i < entries@.len() && entries@[i].0 == k);
        }
    }
    true
}

} // verus!
