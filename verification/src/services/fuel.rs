//! The fuel consumption domain service.

use vstd::prelude::*;
use vstd::bytes::lemma_auto_spec_u64_to_from_le_bytes;
use crate::Message;
use crate::store::{FleetStore, map_is_empty, complete_ascending};
use crate::storage::byte_map_entries;
use crate::records::fuel::{FuelConsumption, FuelConsumptionV,
    encode_fuel, decode_fuel, lemma_fuel_round_trip};

verus! {

/// What a caller supplies to record fuel consumption.
pub struct FuelConsumptionPayload {
    pub vehicle_id: u64,
    pub amount: u64,
    pub date: u64,
}

/// The fuel record a successful creation commits.
pub open spec fn fuel_from_payload(p: FuelConsumptionPayload, id: u64) -> FuelConsumptionV {
    FuelConsumptionV { id, vehicle_id: p.vehicle_id, amount: p.amount, date: p.date }
}

impl FleetStore {
    /// Record fuel consumption: the amount must be positive and the vehicle
    /// must exist. A fuel record has fixed size, so it always fits the bound.
    pub fn record_fuel_consumption(&mut self, payload: FuelConsumptionPayload) -> (r: Result<
        FuelConsumption,
        Message,
    >)
        requires
            old(self).wf(),
            old(self).last_id() < u64::MAX,
        ensures
            final(self).wf(),
            ({
                let id = (old(self).last_id() + 1) as u64;
                let f = fuel_from_payload(payload, id);
                let veh_ok = old(self).vehicles().contains_key(payload.vehicle_id);
                &&& (r is Ok <==> payload.amount > 0 && veh_ok)
                &&& (r matches Ok(out) ==> {
                    &&& out@ == f
                    &&& final(self).last_id() == id
                    &&& final(self).fuel_consumptions() =~= old(self).fuel_consumptions().insert(
                        id,
                        f,
                    )
                    &&& final(self).drivers() == old(self).drivers()
                    &&& final(self).vehicles() == old(self).vehicles()
                    &&& final(self).bookings() == old(self).bookings()
                    &&& final(self).maintenances() == old(self).maintenances()
                    &&& final(self).emergency_assistances() == old(self).emergency_assistances()
                    &&& final(self).routes() == old(self).routes()
                })
                &&& (r matches Err(m) ==> *final(self) == *old(self) && (match m {
                    Message::InvalidPayload(_) => payload.amount == 0,
                    Message::NotFound(_) => payload.amount > 0 && !veh_ok,
                    _ => false,
                }))
            }),
    {
        if payload.amount == 0 {
            return Err(
                Message::InvalidPayload("Ensure 'amount' is greater than zero.".to_owned()),
            );
        }
        let vehicle_found = match self.vehicle_map.get(payload.vehicle_id) {
            Some(_) => true,
            None => false,
        };
        if !vehicle_found {
            return Err(Message::NotFound("Vehicle not found".to_owned()));
        }
        let id = self.id_cell.get() + 1;
        let fuel = FuelConsumption {
            id,
            vehicle_id: payload.vehicle_id,
            amount: payload.amount,
            date: payload.date,
        };
        let bytes = match encode_fuel(&fuel) {
            Some(b) => b,
            None => {
                proof {
                    lemma_auto_spec_u64_to_from_le_bytes();
                }
                return vstd::pervasive::unreached();
            },
        };
        proof {
            lemma_fuel_round_trip(fuel@);
        }
        let _issued = self.alloc_id();
        let _previous = self.fuel_map.insert(id, bytes);
        Ok(fuel)
    }

    /// List every fuel record in ascending id order; `NotFound` when none
    /// exist.
    pub fn get_fuel_consumptions(&self) -> (r: Result<Vec<FuelConsumption>, Message>)
        requires
            self.wf(),
        ensures
            (match r {
                Ok(v) => v@.len() > 0 && complete_ascending(
                    v@,
                    self.fuel_consumptions(),
                    |d: FuelConsumptionV| d.id,
                ),
                Err(m) => m matches Message::NotFound(_) && map_is_empty(self.fuel_consumptions()),
            }),
    {
        let entries = self.fuel_map.entries();
        let mut out: Vec<FuelConsumption> = Vec::new();
        let mut idx: usize = 0;
        while idx < entries.len()
            invariant
                self.wf(),
                idx <= entries@.len(),
                out@.len() == idx,
                forall|i: int|
                    0 <= i < entries@.len() ==> byte_map_entries(self.fuel_map).contains_key(
                        (#[trigger] entries@[i]).0,
                    ),
                forall|i: int|
                    0 <= i < entries@.len() ==> (#[trigger] entries@[i]).1@ == byte_map_entries(
                        self.fuel_map,
                    )[entries@[i].0],
                forall|i: int, j: int|
                    #![trigger entries@[i], entries@[j]]
                    0 <= i < j < entries@.len() ==> entries@[i].0 < entries@[j].0,
                forall|k: u64|
                    #[trigger] byte_map_entries(self.fuel_map).contains_key(k) ==> exists|i: int|
                        0 <= i < entries@.len() && entries@[i].0 == k,
                forall|i: int|
                    0 <= i < idx ==> (#[trigger] out@[i])@ == self.fuel_consumptions()[entries@[i].0]
                        && out@[i]@.id == entries@[i].0,
            decreases entries@.len() - idx,
        {
            let pair = &entries[idx];
            let f = match decode_fuel(&pair.1) {
                Some(f) => f,
                None => {
                    return vstd::pervasive::unreached();
                },
            };
            out.push(f);
            idx += 1;
        }
        if out.len() == 0 {
            proof {
                assert forall|k: u64| !self.fuel_consumptions().contains_key(k) by {
                    if byte_map_entries(self.fuel_map).contains_key(k) {
                        let i = choose|i: int| 0 <= i < entries@.len() && entries@[i].0 == k;
                        assert(false);
                    }
                }
            }
            Err(Message::NotFound("No fuel consumption records found".to_owned()))
        } else {
            proof {
                assert forall|k: u64| #[trigger] self.fuel_consumptions().contains_key(k) implies
                    exists|i: int|
                        0 <= i < out@.len() && (#[trigger] out@[i])@.id == k by {
                    let i = choose|i: int| 0 <= i < entries@.len() && entries@[i].0 == k;
                    assert(0 <= i < out@.len() && out@[i]@.id == k);
                }
            }
            Ok(out)
        }
    }

    /// Fetch the fuel record with the given id; `NotFound` when absent.
    pub fn get_fuel_consumption_by_id(&self, id: u64) -> (r: Result<FuelConsumption, Message>)
        requires
            self.wf(),
        ensures
            (match r {
                Ok(f) => self.fuel_consumptions().contains_key(id) && f@
                    == self.fuel_consumptions()[id],
                Err(m) => m matches Message::NotFound(_) && !self.fuel_consumptions().contains_key(
                    id,
                ),
            }),
    {
        match self.fuel_map.get(id) {
            Some(bytes) => match decode_fuel(&bytes) {
                Some(f) => Ok(f),
                None => vstd::pervasive::unreached(),
            },
            None => Err(Message::NotFound("Fuel consumption record not found".to_owned())),
        }
    }
}

} // verus!
