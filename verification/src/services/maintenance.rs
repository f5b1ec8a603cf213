//! The maintenance domain service.

use vstd::prelude::*;
use crate::Message;
use crate::MAX_RECORD_BYTES;
use crate::store::{FleetStore, map_is_empty, complete_ascending};
use crate::storage::byte_map_entries;
use crate::records::maintenance::{Maintenance, MaintenanceV, spec_encode_maintenance,
    encode_maintenance, decode_maintenance, lemma_maintenance_round_trip};

verus! {

/// What a caller supplies to schedule maintenance.
pub struct MaintenancePayload {
    pub vehicle_id: u64,
    pub description: String,
    pub scheduled_date: u64,
}

/// The payload's required fields are present and the scheduled date lies
/// strictly in the future.
pub open spec fn maintenance_payload_ok(p: MaintenancePayload, now: u64) -> bool {
    &&& p.description@.len() > 0
    &&& p.scheduled_date > now
}

/// The maintenance record a successful creation commits: status
/// `"pending"`, stamped with the issued id and the creation time.
pub open spec fn maintenance_from_payload(p: MaintenancePayload, id: u64, now: u64) -> MaintenanceV {
    MaintenanceV {
        id,
        vehicle_id: p.vehicle_id,
        description: p.description@,
        scheduled_date: p.scheduled_date,
        status: "pending"@,
        created_at: now,
    }
}

impl FleetStore {
    /// Schedule maintenance: the description must be present, the scheduled
    /// date strictly after `now`, and the vehicle must exist.
    pub fn schedule_maintenance(&mut self, payload: MaintenancePayload, now: u64) -> (r: Result<
        Maintenance,
        Message,
    >)
        requires
            old(self).wf(),
            old(self).last_id() < u64::MAX,
        ensures
            final(self).wf(),
            ({
                let id = (old(self).last_id() + 1) as u64;
                let m_rec = maintenance_from_payload(payload, id, now);
                let veh_ok = old(self).vehicles().contains_key(payload.vehicle_id);
                &&& (r is Ok <==> maintenance_payload_ok(payload, now) && veh_ok
                    && spec_encode_maintenance(m_rec).len() <= MAX_RECORD_BYTES)
                &&& (r matches Ok(out) ==> {
                    &&& out@ == m_rec
                    &&& final(self).last_id() == id
                    &&& final(self).maintenances() =~= old(self).maintenances().insert(id, m_rec)
                    &&& final(self).drivers() == old(self).drivers()
                    &&& final(self).vehicles() == old(self).vehicles()
                    &&& final(self).bookings() == old(self).bookings()
                    &&& final(self).fuel_consumptions() == old(self).fuel_consumptions()
                    &&& final(self).emergency_assistances() == old(self).emergency_assistances()
                    &&& final(self).routes() == old(self).routes()
                })
                &&& (r matches Err(m) ==> *final(self) == *old(self) && (match m {
                    Message::InvalidPayload(_) => !maintenance_payload_ok(payload, now),
                    Message::NotFound(_) => maintenance_payload_ok(payload, now) && !veh_ok,
                    Message::Error(_) => maintenance_payload_ok(payload, now) && veh_ok
                        && spec_encode_maintenance(m_rec).len() > MAX_RECORD_BYTES,
                    _ => false,
                }))
            }),
    {
        if payload.description.as_str().is_empty() || payload.scheduled_date <= now {
            return Err(
                Message::InvalidPayload(
                    "Ensure 'description' and valid 'scheduled_date' are provided.".to_owned(),
                ),
            );
        }
        let vehicle_found = match self.vehicle_map.get(payload.vehicle_id) {
            Some(_) => true,
            None => false,
        };
        if !vehicle_found {
            return Err(Message::NotFound("Vehicle not found".to_owned()));
        }
        let id = self.id_cell.get() + 1;
        let maintenance = Maintenance {
            id,
            vehicle_id: payload.vehicle_id,
            description: payload.description,
            scheduled_date: payload.scheduled_date,
            status: "pending".to_owned(),
            created_at: now,
        };
        let bytes = match encode_maintenance(&maintenance) {
            Some(b) => b,
            None => {
                return Err(Message::Error("Record exceeds the maximum encoded size.".to_owned()));
            },
        };
        proof {
            lemma_maintenance_round_trip(maintenance@);
        }
        let _issued = self.alloc_id();
        let _previous = self.maintenance_map.insert(id, bytes);
        Ok(maintenance)
    }

    /// List every maintenance record in ascending id order; `NotFound` when
    /// none exist.
    pub fn get_maintenances(&self) -> (r: Result<Vec<Maintenance>, Message>)
        requires
            self.wf(),
        ensures
            (match r {
                Ok(v) => v@.len() > 0 && complete_ascending(
                    v@,
                    self.maintenances(),
                    |d: MaintenanceV| d.id,
                ),
                Err(m) => m matches Message::NotFound(_) && map_is_empty(self.maintenances()),
            }),
    {
        let entries = self.maintenance_map.entries();
        let mut out: Vec<Maintenance> = Vec::new();
        let mut idx: usize = 0;
        while idx < entries.len()
            invariant
                self.wf(),
                idx <= entries@.len(),
                out@.len() == idx,
                forall|i: int|
                    0 <= i < entries@.len() ==> byte_map_entries(self.maintenance_map).contains_key(
                        (#[trigger] entries@[i]).0,
                    ),
                forall|i: int|
                    0 <= i < entries@.len() ==> (#[trigger] entries@[i]).1@ == byte_map_entries(
                        self.maintenance_map,
                    )[entries@[i].0],
                forall|i: int, j: int|
                    #![trigger entries@[i], entries@[j]]
                    0 <= i < j < entries@.len() ==> entries@[i].0 < entries@[j].0,
                forall|k: u64|
                    #[trigger] byte_map_entries(self.maintenance_map).contains_key(k) ==> exists|
                        i: int,
                    |
                        0 <= i < entries@.len() && entries@[i].0 == k,
                forall|i: int|
                    0 <= i < idx ==> (#[trigger] out@[i])@ == self.maintenances()[entries@[i].0]
                        && out@[i]@.id == entries@[i].0,
            decreases entries@.len() - idx,
        {
            let pair = &entries[idx];
            let m = match decode_maintenance(&pair.1) {
                Some(m) => m,
                None => {
                    return vstd::pervasive::unreached();
                },
            };
            out.push(m);
            idx += 1;
        }
        if out.len() == 0 {
            proof {
                assert forall|k: u64| !self.maintenances().contains_key(k) by {
                    if byte_map_entries(self.maintenance_map).contains_key(k) {
                        let i = choose|i: int| 0 <= i < entries@.len() && entries@[i].0 == k;
                        assert(false);
                    }
                }
            }
            Err(Message::NotFound("No maintenance records found".to_owned()))
        } else {
            proof {
                assert forall|k: u64| #[trigger] self.maintenances().contains_key(k) implies exists|
                    i: int,
                |
                    0 <= i < out@.len() && (#[trigger] out@[i])@.id == k by {
                    let i = choose|i: int| 0 <= i < entries@.len() && entries@[i].0 == k;
                    assert(0 <= i < out@.len() && out@[i]@.id == k);
                }
            }
            Ok(out)
        }
    }

    /// Fetch the maintenance record with the given id; `NotFound` when
    /// absent.
    pub fn get_maintenance_by_id(&self, id: u64) -> (r: Result<Maintenance, Message>)
        requires
            self.wf(),
        ensures
            (match r {
                Ok(m) => self.maintenances().contains_key(id) && m@ == self.maintenances()[id],
                Err(m) => m matches Message::NotFound(_) && !self.maintenances().contains_key(id),
            }),
    {
        match self.maintenance_map.get(id) {
            Some(bytes) => match decode_maintenance(&bytes) {
                Some(m) => Ok(m),
                None => vstd::pervasive::unreached(),
            },
            None => Err(Message::NotFound("Maintenance record not found".to_owned())),
        }
    }
}

} // verus!
