//! The booking domain service: referential checks against drivers and
//! vehicles, the availability rule, and the atomic two-record commit.

use vstd::prelude::*;
use crate::Message;
use crate::MAX_RECORD_BYTES;
use crate::store::{FleetStore, map_is_empty, complete_ascending};
use crate::storage::byte_map_entries;
use crate::records::booking::{Booking, BookingV, spec_encode_booking,
    encode_booking, decode_booking, lemma_booking_round_trip};
use crate::records::vehicle::{Vehicle, VehicleV, VehicleStatus, spec_encode_vehicle,
    encode_vehicle, decode_vehicle, lemma_vehicle_round_trip};

verus! {

/// What a caller supplies to create a booking.
pub struct BookingPayload {
    pub vehicle_id: u64,
    pub driver_id: u64,
    pub from_location: String,
    pub to_location: String,
    pub start_time: u64,
    pub end_time: u64,
}

/// The payload's required fields are present (non-empty locations).
pub open spec fn booking_payload_ok(p: BookingPayload) -> bool {
    &&& p.from_location@.len() > 0
    &&& p.to_location@.len() > 0
}

/// The booking record a successful creation commits: status `"pending"`,
/// stamped with the issued id and the creation time.
pub open spec fn booking_from_payload(p: BookingPayload, id: u64, now: u64) -> BookingV {
    BookingV {
        id,
        vehicle_id: p.vehicle_id,
        driver_id: p.driver_id,
        from_location: p.from_location@,
        to_location: p.to_location@,
        start_time: p.start_time,
        end_time: p.end_time,
        status: "pending"@,
        created_at: now,
    }
}

/// The vehicle as a successful booking rewrites it: status `Booked`, every
/// other field kept.
pub open spec fn booked_vehicle(v: VehicleV) -> VehicleV {
    VehicleV { status: VehicleStatus::Booked, ..v }
}

impl FleetStore {
    /// Create a booking. The driver and vehicle must exist and the vehicle
    /// must be `Available`; on success the vehicle moves to `Booked` and the
    /// booking is inserted, as one atomic step — a failure commits nothing.
    pub fn create_booking(&mut self, payload: BookingPayload, now: u64) -> (r: Result<
        Booking,
        Message,
    >)
        requires
            old(self).wf(),
            old(self).last_id() < u64::MAX,
        ensures
            final(self).wf(),
            ({
                let id = (old(self).last_id() + 1) as u64;
                let b = booking_from_payload(payload, id, now);
                let drv_ok = old(self).drivers().contains_key(payload.driver_id);
                let veh_ok = old(self).vehicles().contains_key(payload.vehicle_id);
                let avail = veh_ok && old(self).vehicles()[payload.vehicle_id].status
                    == VehicleStatus::Available;
                let fits = spec_encode_booking(b).len() <= MAX_RECORD_BYTES && spec_encode_vehicle(
                    booked_vehicle(old(self).vehicles()[payload.vehicle_id]),
                ).len() <= MAX_RECORD_BYTES;
                &&& (r is Ok <==> booking_payload_ok(payload) && drv_ok && avail && fits)
                &&& (r matches Ok(out) ==> {
                    &&& out@ == b
                    &&& final(self).last_id() == id
                    &&& final(self).bookings() =~= old(self).bookings().insert(id, b)
                    &&& final(self).vehicles() =~= old(self).vehicles().insert(
                        payload.vehicle_id,
                        booked_vehicle(old(self).vehicles()[payload.vehicle_id]),
                    )
                    &&& final(self).drivers() == old(self).drivers()
                    &&& final(self).fuel_consumptions() == old(self).fuel_consumptions()
                    &&& final(self).maintenances() == old(self).maintenances()
                    &&& final(self).emergency_assistances() == old(self).emergency_assistances()
                    &&& final(self).routes() == old(self).routes()
                })
                &&& (r matches Err(m) ==> *final(self) == *old(self) && (match m {
                    Message::InvalidPayload(_) => !booking_payload_ok(payload) || (
                    booking_payload_ok(payload) && drv_ok && veh_ok && !avail),
                    Message::NotFound(_) => booking_payload_ok(payload) && (!drv_ok || !veh_ok),
                    Message::Error(_) => booking_payload_ok(payload) && drv_ok && avail && !fits,
                    _ => false,
                }))
            }),
    {
        if payload.from_location.as_str().is_empty() || payload.to_location.as_str().is_empty() {
            return Err(
                Message::InvalidPayload(
                    "Ensure 'from_location', 'to_location', and valid 'start_time' and 'end_time' are provided.".to_owned(),
                ),
            );
        }
        let driver_found = match self.driver_map.get(payload.driver_id) {
            Some(_) => true,
            None => false,
        };
        if !driver_found {
            return Err(Message::NotFound("Driver not found".to_owned()));
        }
        let vehicle = match self.vehicle_map.get(payload.vehicle_id) {
            Some(bytes) => match decode_vehicle(&bytes) {
                Some(v) => v,
                None => {
                    return vstd::pervasive::unreached();
                },
            },
            None => {
                return Err(Message::NotFound("Vehicle not found".to_owned()));
            },
        };
        if !matches!(vehicle.status, VehicleStatus::Available) {
            return Err(Message::InvalidPayload("Vehicle is not available.".to_owned()));
        }
        let id = self.id_cell.get() + 1;
        let booking = Booking {
            id,
            vehicle_id: payload.vehicle_id,
            driver_id: payload.driver_id,
            from_location: payload.from_location,
            to_location: payload.to_location,
            start_time: payload.start_time,
            end_time: payload.end_time,
            status: "pending".to_owned(),
            created_at: now,
        };
        let updated_vehicle = Vehicle {
            id: vehicle.id,
            registration_number: vehicle.registration_number,
            model: vehicle.model,
            capacity: vehicle.capacity,
            status: VehicleStatus::Booked,
            location: vehicle.location,
            created_at: vehicle.created_at,
        };
        let booking_bytes = match encode_booking(&booking) {
            Some(b) => b,
            None => {
                return Err(Message::Error("Record exceeds the maximum encoded size.".to_owned()));
            },
        };
        let vehicle_bytes = match encode_vehicle(&updated_vehicle) {
            Some(b) => b,
            None => {
                return Err(Message::Error("Record exceeds the maximum encoded size.".to_owned()));
            },
        };
        proof {
            lemma_booking_round_trip(booking@);
            lemma_vehicle_round_trip(updated_vehicle@);
        }
        let _issued = self.alloc_id();
        let _previous_vehicle = self.vehicle_map.insert(payload.vehicle_id, vehicle_bytes);
        let _previous_booking = self.booking_map.insert(id, booking_bytes);
        Ok(booking)
    }

    /// List every booking in ascending id order; `NotFound` when none exist.
    pub fn get_bookings(&self) -> (r: Result<Vec<Booking>, Message>)
        requires
            self.wf(),
        ensures
            (match r {
                Ok(v) => v@.len() > 0 && complete_ascending(
                    v@,
                    self.bookings(),
                    |d: BookingV| d.id,
                ),
                Err(m) => m matches Message::NotFound(_) && map_is_empty(self.bookings()),
            }),
    {
        let entries = self.booking_map.entries();
        let mut out: Vec<Booking> = Vec::new();
        let mut idx: usize = 0;
        while idx < entries.len()
            invariant
                self.wf(),
                idx <= entries@.len(),
                out@.len() == idx,
                forall|i: int|
                    0 <= i < entries@.len() ==> byte_map_entries(self.booking_map).contains_key(
                        (#[trigger] entries@[i]).0,
                    ),
                forall|i: int|
                    0 <= i < entries@.len() ==> (#[trigger] entries@[i]).1@ == byte_map_entries(
                        self.booking_map,
                    )[entries@[i].0],
                forall|i: int, j: int|
                    #![trigger entries@[i], entries@[j]]
                    0 <= i < j < entries@.len() ==> entries@[i].0 < entries@[j].0,
                forall|k: u64|
                    #[trigger] byte_map_entries(self.booking_map).contains_key(k) ==> exists|i: int|
                        0 <= i < entries@.len() && entries@[i].0 == k,
                forall|i: int|
                    0 <= i < idx ==> (#[trigger] out@[i])@ == self.bookings()[entries@[i].0]
                        && out@[i]@.id == entries@[i].0,
            decreases entries@.len() - idx,
        {
            let pair = &entries[idx];
            let b = match decode_booking(&pair.1) {
                Some(b) => b,
                None => {
                    return vstd::pervasive::unreached();
                },
            };
            out.push(b);
            idx += 1;
        }
        if out.len() == 0 {
            proof {
                assert forall|k: u64| !self.bookings().contains_key(k) by {
                    if byte_map_entries(self.booking_map).contains_key(k) {
                        let i = choose|i: int| 0 <= i < entries@.len() && entries@[i].0 == k;
                        assert(false);
                    }
                }
            }
            Err(Message::NotFound("No bookings found".to_owned()))
        } else {
            proof {
                assert forall|k: u64| #[trigger] self.bookings().contains_key(k) implies exists|
                    i: int,
                |
                    0 <= i < out@.len() && (#[trigger] out@[i])@.id == k by {
                    let i = choose|i: int| 0 <= i < entries@.len() && entries@[i].0 == k;
                    assert(0 <= i < out@.len() && out@[i]@.id == k);
                }
            }
            Ok(out)
        }
    }

    /// Fetch the booking with the given id; `NotFound` when absent.
    pub fn get_booking_by_id(&self, id: u64) -> (r: Result<Booking, Message>)
        requires
            self.wf(),
        ensures
            (match r {
                Ok(b) => self.bookings().contains_key(id) && b@ == self.bookings()[id],
                Err(m) => m matches Message::NotFound(_) && !self.bookings().contains_key(id),
            }),
    {
        match self.booking_map.get(id) {
            Some(bytes) => match decode_booking(&bytes) {
                Some(b) => Ok(b),
                None => vstd::pervasive::unreached(),
            },
            None => Err(Message::NotFound("Booking not found".to_owned())),
        }
    }
}

} // verus!
