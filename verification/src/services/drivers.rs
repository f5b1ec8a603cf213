//! The driver domain service: payload validation, the driver license rule,
//! and the driver store.

use vstd::prelude::*;
use crate::Message;
use crate::MAX_RECORD_BYTES;
use crate::store::{FleetStore, map_is_empty, complete_ascending};
use crate::storage::byte_map_entries;
use crate::records::driver::{Driver, DriverV, spec_encode_driver,
    encode_driver, decode_driver, lemma_driver_round_trip};
use crate::services::vehicles::some_vehicle_has_registration;

verus! {

/// What a caller supplies to create a driver.
pub struct DriverPayload {
    pub name: String,
    pub license_number: String,
    pub contact_info: String,
}

/// The payload's required fields are all present (non-empty).
pub open spec fn driver_payload_ok(p: DriverPayload) -> bool {
    &&& p.name@.len() > 0
    &&& p.license_number@.len() > 0
    &&& p.contact_info@.len() > 0
}

/// The driver record a successful creation commits: zero points, stamped
/// with the issued id and the creation time.
pub open spec fn driver_from_payload(p: DriverPayload, id: u64, now: u64) -> DriverV {
    DriverV {
        id,
        name: p.name@,
        license_number: p.license_number@,
        contact_info: p.contact_info@,
        points: 0,
        created_at: now,
    }
}

impl FleetStore {
    /// Create a driver. Besides the structural checks, the license rule
    /// must hold: some existing vehicle's registration number equals the
    /// payload's license number.
    pub fn create_driver(&mut self, payload: DriverPayload, now: u64) -> (r: Result<
        Driver,
        Message,
    >)
        requires
            old(self).wf(),
            old(self).last_id() < u64::MAX,
        ensures
            final(self).wf(),
            ({
                let id = (old(self).last_id() + 1) as u64;
                let d = driver_from_payload(payload, id, now);
                let licensed = some_vehicle_has_registration(
                    old(self).vehicles(),
                    payload.license_number@,
                );
                &&& (r is Ok <==> driver_payload_ok(payload) && licensed && spec_encode_driver(
                    d,
                ).len() <= MAX_RECORD_BYTES)
                &&& (r matches Ok(out) ==> {
                    &&& out@ == d
                    &&& final(self).last_id() == id
                    &&& final(self).drivers() =~= old(self).drivers().insert(id, d)
                    &&& final(self).vehicles() == old(self).vehicles()
                    &&& final(self).bookings() == old(self).bookings()
                    &&& final(self).fuel_consumptions() == old(self).fuel_consumptions()
                    &&& final(self).maintenances() == old(self).maintenances()
                    &&& final(self).emergency_assistances() == old(self).emergency_assistances()
                    &&& final(self).routes() == old(self).routes()
                })
                &&& (r matches Err(m) ==> *final(self) == *old(self) && (match m {
                    Message::InvalidPayload(_) => !(driver_payload_ok(payload) && licensed),
                    Message::Error(_) => driver_payload_ok(payload) && licensed
                        && spec_encode_driver(d).len() > MAX_RECORD_BYTES,
                    _ => false,
                }))
            }),
    {
        if payload.name.as_str().is_empty() || payload.license_number.as_str().is_empty()
            || payload.contact_info.as_str().is_empty() {
            return Err(
                Message::InvalidPayload(
                    "Ensure 'name', 'license_number', and 'contact_info' are provided.".to_owned(),
                ),
            );
        }
        let license_exists = self.has_vehicle_with_registration(&payload.license_number);
        if !license_exists {
            return Err(
                Message::InvalidPayload(
                    "Driver's license number does not exist in any vehicle.".to_owned(),
                ),
            );
        }
        let id = self.id_cell.get() + 1;
        let driver = Driver {
            id,
            name: payload.name,
            license_number: payload.license_number,
            contact_info: payload.contact_info,
            points: 0,
            created_at: now,
        };
        let bytes = match encode_driver(&driver) {
            Some(b) => b,
            None => {
                return Err(Message::Error("Record exceeds the maximum encoded size.".to_owned()));
            },
        };
        proof {
            lemma_driver_round_trip(driver@);
        }
        let _issued = self.alloc_id();
        let _previous = self.driver_map.insert(id, bytes);
        Ok(driver)
    }

    /// List every driver in ascending id order; `NotFound` when none exist.
    pub fn get_drivers(&self) -> (r: Result<Vec<Driver>, Message>)
        requires
            self.wf(),
        ensures
            (match r {
                Ok(v) => v@.len() > 0 && complete_ascending(v@, self.drivers(), |d: DriverV| d.id),
                Err(m) => m matches Message::NotFound(_) && map_is_empty(self.drivers()),
            }),
    {
        let entries = self.driver_map.entries();
        let mut out: Vec<Driver> = Vec::new();
        let mut idx: usize = 0;
        while idx < entries.len()
            invariant
                self.wf(),
                idx <= entries@.len(),
                out@.len() == idx,
                forall|i: int|
                    0 <= i < entries@.len() ==> byte_map_entries(self.driver_map).contains_key(
                        (#[trigger] entries@[i]).0,
                    ),
                forall|i: int|
                    0 <= i < entries@.len() ==> (#[trigger] entries@[i]).1@ == byte_map_entries(
                        self.driver_map,
                    )[entries@[i].0],
                forall|i: int, j: int|
                    #![trigger entries@[i], entries@[j]]
                    0 <= i < j < entries@.len() ==> entries@[i].0 < entries@[j].0,
                forall|k: u64|
                    #[trigger] byte_map_entries(self.driver_map).contains_key(k) ==> exists|i: int|
                        0 <= i < entries@.len() && entries@[i].0 == k,
                forall|i: int|
                    0 <= i < idx ==> (#[trigger] out@[i])@ == self.drivers()[entries@[i].0]
                        && out@[i]@.id == entries@[i].0,
            decreases entries@.len() - idx,
        {
            let pair = &entries[idx];
            let d = match decode_driver(&pair.1) {
                Some(d) => d,
                None => {
                    return vstd::pervasive::unreached();
                },
            };
            out.push(d);
            idx += 1;
        }
        if out.len() == 0 {
            proof {
                assert forall|k: u64| !self.drivers().contains_key(k) by {
                    if byte_map_entries(self.driver_map).contains_key(k) {
                        let i = choose|i: int| 0 <= i < entries@.len() && entries@[i].0 == k;
                        assert(false);
                    }
                }
            }
            Err(Message::NotFound("No drivers found".to_owned()))
        } else {
            proof {
                assert forall|k: u64| #[trigger] self.drivers().contains_key(k) implies exists|
                    i: int,
                |
                    0 <= i < out@.len() && (#[trigger] out@[i])@.id == k by {
                    let i = choose|i: int| 0 <= i < entries@.len() && entries@[i].0 == k;
                    assert(0 <= i < out@.len() && out@[i]@.id == k);
                }
            }
            Ok(out)
        }
    }

    /// Fetch the driver with the given id; `NotFound` when absent.
    pub fn get_driver_by_id(&self, id: u64) -> (r: Result<Driver, Message>)
        requires
            self.wf(),
        ensures
            (match r {
                Ok(d) => self.drivers().contains_key(id) && d@ == self.drivers()[id],
                Err(m) => m matches Message::NotFound(_) && !self.drivers().contains_key(id),
            }),
    {
        match self.driver_map.get(id) {
            Some(bytes) => match decode_driver(&bytes) {
                Some(d) => Ok(d),
                None => vstd::pervasive::unreached(),
            },
            None => Err(Message::NotFound("Driver not found".to_owned())),
        }
    }
}

} // verus!
