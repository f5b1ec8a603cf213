//! The vehicle domain service: payload validation and the vehicle store.

use vstd::prelude::*;
use crate::Message;
use crate::MAX_RECORD_BYTES;
use crate::store::{FleetStore, map_is_empty, complete_ascending};
use crate::storage::byte_map_entries;
use crate::records::vehicle::{Vehicle, VehicleV, VehicleStatus, spec_encode_vehicle,
    encode_vehicle, decode_vehicle, lemma_vehicle_round_trip};

verus! {

/// What a caller supplies to create a vehicle.
pub struct VehiclePayload {
    pub registration_number: String,
    pub model: String,
    pub capacity: u64,
    pub location: String,
}

/// The payload's required fields are present: non-empty strings and a
/// positive capacity.
pub open spec fn vehicle_payload_ok(p: VehiclePayload) -> bool {
    &&& p.registration_number@.len() > 0
    &&& p.model@.len() > 0
    &&& p.capacity > 0
    &&& p.location@.len() > 0
}

/// The vehicle record a successful creation commits: `Available`, stamped
/// with the issued id and the creation time.
pub open spec fn vehicle_from_payload(p: VehiclePayload, id: u64, now: u64) -> VehicleV {
    VehicleV {
        id,
        registration_number: p.registration_number@,
        model: p.model@,
        capacity: p.capacity,
        status: VehicleStatus::Available,
        location: p.location@,
        created_at: now,
    }
}

/// Some existing vehicle's registration number equals `lic`.
pub open spec fn some_vehicle_has_registration(
    vehicles: Map<u64, VehicleV>,
    lic: Seq<char>,
) -> bool {
    exists|k: u64| #[trigger] vehicles.contains_key(k) && vehicles[k].registration_number == lic
}

impl FleetStore {
    /// Whether some stored vehicle's registration number equals `lic`.
    pub fn has_vehicle_with_registration(&self, lic: &String) -> (r: bool)
        requires
            self.wf(),
        ensures
            r == some_vehicle_has_registration(self.vehicles(), lic@),
    {
        let entries = self.vehicle_map.entries();
        let mut idx: usize = 0;
        while idx < entries.len()
            invariant
                self.wf(),
                idx <= entries@.len(),
                forall|i: int|
                    0 <= i < entries@.len() ==> byte_map_entries(self.vehicle_map).contains_key(
                        (#[trigger] entries@[i]).0,
                    ),
                forall|i: int|
                    0 <= i < entries@.len() ==> (#[trigger] entries@[i]).1@ == byte_map_entries(
                        self.vehicle_map,
                    )[entries@[i].0],
                forall|k: u64|
                    #[trigger] byte_map_entries(self.vehicle_map).contains_key(k) ==> exists|i: int|
                        0 <= i < entries@.len() && entries@[i].0 == k,
                forall|i: int|
                    0 <= i < idx ==> self.vehicles()[(#[trigger] entries@[i]).0].registration_number
                        != lic@,
            decreases entries@.len() - idx,
        {
            let pair = &entries[idx];
            let v = match decode_vehicle(&pair.1) {
                Some(v) => v,
                None => {
                    return vstd::pervasive::unreached();
                },
            };
            if v.registration_number == *lic {
                proof {
                    assert(self.vehicles().contains_key(entries@[idx as int].0));
                    assert(self.vehicles()[entries@[idx as int].0].registration_number == lic@);
                }
                return true;
            }
            idx += 1;
        }
        proof {
            assert forall|k: u64| #[trigger] self.vehicles().contains_key(k) implies self.vehicles()[
                k
            ].registration_number != lic@ by {
                let i = choose|i: int|
                    0 <= i < entries@.len() && entries@[i].0 == k;
                assert(self.vehicles()[entries@[i].0].registration_number != lic@);
            }
        }
        false
    }

    /// Create a vehicle: validate the payload, issue an id, and commit the
    /// record. A new vehicle is always `Available`.
    pub fn create_vehicle(&mut self, payload: VehiclePayload, now: u64) -> (r: Result<
        Vehicle,
        Message,
    >)
        requires
            old(self).wf(),
            old(self).last_id() < u64::MAX,
        ensures
            final(self).wf(),
            ({
                let id = (old(self).last_id() + 1) as u64;
                let v = vehicle_from_payload(payload, id, now);
                &&& (r is Ok <==> vehicle_payload_ok(payload) && spec_encode_vehicle(v).len()
                    <= MAX_RECORD_BYTES)
                &&& (r matches Ok(out) ==> {
                    &&& out@ == v
                    &&& final(self).last_id() == id
                    &&& final(self).vehicles() =~= old(self).vehicles().insert(id, v)
                    &&& final(self).drivers() == old(self).drivers()
                    &&& final(self).bookings() == old(self).bookings()
                    &&& final(self).fuel_consumptions() == old(self).fuel_consumptions()
                    &&& final(self).maintenances() == old(self).maintenances()
                    &&& final(self).emergency_assistances() == old(self).emergency_assistances()
                    &&& final(self).routes() == old(self).routes()
                })
                &&& (r matches Err(m) ==> *final(self) == *old(self) && (match m {
                    Message::InvalidPayload(_) => !vehicle_payload_ok(payload),
                    Message::Error(_) => vehicle_payload_ok(payload) && spec_encode_vehicle(v).len()
                        > MAX_RECORD_BYTES,
                    _ => false,
                }))
            }),
    {
        if payload.registration_number.as_str().is_empty() || payload.model.as_str().is_empty() || payload.capacity
            == 0 || payload.location.as_str().is_empty() {
            return Err(
                Message::InvalidPayload(
                    "Ensure 'registration_number', 'model', 'capacity', and 'location' are provided.".to_owned(),
                ),
            );
        }
        let id = self.id_cell.get() + 1;
        let vehicle = Vehicle {
            id,
            registration_number: payload.registration_number,
            model: payload.model,
            capacity: payload.capacity,
            status: VehicleStatus::Available,
            location: payload.location,
            created_at: now,
        };
        let bytes = match encode_vehicle(&vehicle) {
            Some(b) => b,
            None => {
                return Err(Message::Error("Record exceeds the maximum encoded size.".to_owned()));
            },
        };
        proof {
            lemma_vehicle_round_trip(vehicle@);
        }
        let _issued = self.alloc_id();
        let _previous = self.vehicle_map.insert(id, bytes);
        Ok(vehicle)
    }

    /// List every vehicle in ascending id order; `NotFound` when none exist.
    pub fn get_vehicles(&self) -> (r: Result<Vec<Vehicle>, Message>)
        requires
            self.wf(),
        ensures
            (match r {
                Ok(v) => v@.len() > 0 && complete_ascending(
                    v@,
                    self.vehicles(),
                    |d: VehicleV| d.id,
                ),
                Err(m) => m matches Message::NotFound(_) && map_is_empty(self.vehicles()),
            }),
    {
        let entries = self.vehicle_map.entries();
        let mut out: Vec<Vehicle> = Vec::new();
        let mut idx: usize = 0;
        while idx < entries.len()
            invariant
                self.wf(),
                idx <= entries@.len(),
                out@.len() == idx,
                forall|i: int|
                    0 <= i < entries@.len() ==> byte_map_entries(self.vehicle_map).contains_key(
                        (#[trigger] entries@[i]).0,
                    ),
                forall|i: int|
                    0 <= i < entries@.len() ==> (#[trigger] entries@[i]).1@ == byte_map_entries(
                        self.vehicle_map,
                    )[entries@[i].0],
                forall|i: int, j: int|
                    #![trigger entries@[i], entries@[j]]
                    0 <= i < j < entries@.len() ==> entries@[i].0 < entries@[j].0,
                forall|k: u64|
                    #[trigger] byte_map_entries(self.vehicle_map).contains_key(k) ==> exists|i: int|
                        0 <= i < entries@.len() && entries@[i].0 == k,
                forall|i: int|
                    0 <= i < idx ==> (#[trigger] out@[i])@ == self.vehicles()[entries@[i].0]
                        && out@[i]@.id == entries@[i].0,
            decreases entries@.len() - idx,
        {
            let pair = &entries[idx];
            let v = match decode_vehicle(&pair.1) {
                Some(v) => v,
                None => {
                    return vstd::pervasive::unreached();
                },
            };
            out.push(v);
            idx += 1;
        }
        if out.len() == 0 {
            proof {
                assert forall|k: u64| !self.vehicles().contains_key(k) by {
                    if byte_map_entries(self.vehicle_map).contains_key(k) {
                        let i = choose|i: int|
                            0 <= i < entries@.len() && entries@[i].0 == k;
                        assert(false);
                    }
                }
            }
            Err(Message::NotFound("No vehicles found".to_owned()))
        } else {
            proof {
                assert forall|k: u64| #[trigger] self.vehicles().contains_key(k) implies exists|
                    i: int,
                |
                    0 <= i < out@.len() && (#[trigger] out@[i])@.id == k by {
                    let i = choose|i: int| 0 <= i < entries@.len() && entries@[i].0 == k;
                    assert(0 <= i < out@.len() && out@[i]@.id == k);
                }
            }
            Ok(out)
        }
    }

    /// Fetch the vehicle with the given id; `NotFound` when absent.
    pub fn get_vehicle_by_id(&self, id: u64) -> (r: Result<Vehicle, Message>)
        requires
            self.wf(),
        ensures
            (match r {
                Ok(v) => self.vehicles().contains_key(id) && v@ == self.vehicles()[id],
                Err(m) => m matches Message::NotFound(_) && !self.vehicles().contains_key(id),
            }),
    {
        match self.vehicle_map.get(id) {
            Some(bytes) => match decode_vehicle(&bytes) {
                Some(v) => Ok(v),
                None => vstd::pervasive::unreached(),
            },
            None => Err(Message::NotFound("Vehicle not found".to_owned())),
        }
    }
}

} // verus!
