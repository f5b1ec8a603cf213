//! The emergency assistance domain service.

use vstd::prelude::*;
use crate::Message;
use crate::MAX_RECORD_BYTES;
use crate::store::{FleetStore, map_is_empty, complete_ascending};
use crate::storage::byte_map_entries;
use crate::records::emergency::{EmergencyAssistance, EmergencyAssistanceV, spec_encode_emergency,
    encode_emergency, decode_emergency, lemma_emergency_round_trip};

verus! {

/// What a caller supplies to request emergency assistance.
pub struct EmergencyAssistancePayload {
    pub vehicle_id: u64,
    pub description: String,
    pub location: String,
}

/// The payload's required fields are all present (non-empty).
pub open spec fn emergency_payload_ok(p: EmergencyAssistancePayload) -> bool {
    &&& p.description@.len() > 0
    &&& p.location@.len() > 0
}

/// The emergency record a successful creation commits: status `"pending"`,
/// stamped with the issued id and the creation time.
pub open spec fn emergency_from_payload(
    p: EmergencyAssistancePayload,
    id: u64,
    now: u64,
) -> EmergencyAssistanceV {
    EmergencyAssistanceV {
        id,
        vehicle_id: p.vehicle_id,
        description: p.description@,
        location: p.location@,
        status: "pending"@,
        created_at: now,
    }
}

impl FleetStore {
    /// Request emergency assistance: description and location must be
    /// present, and the vehicle must exist.
    pub fn request_emergency_assistance(
        &mut self,
        payload: EmergencyAssistancePayload,
        now: u64,
    ) -> (r: Result<EmergencyAssistance, Message>)
        requires
            old(self).wf(),
            old(self).last_id() < u64::MAX,
        ensures
            final(self).wf(),
            ({
                let id = (old(self).last_id() + 1) as u64;
                let e_rec = emergency_from_payload(payload, id, now);
                let veh_ok = old(self).vehicles().contains_key(payload.vehicle_id);
                &&& (r is Ok <==> emergency_payload_ok(payload) && veh_ok && spec_encode_emergency(
                    e_rec,
                ).len() <= MAX_RECORD_BYTES)
                &&& (r matches Ok(out) ==> {
                    &&& out@ == e_rec
                    &&& final(self).last_id() == id
                    &&& final(self).emergency_assistances() =~= old(
                        self,
                    ).emergency_assistances().insert(id, e_rec)
                    &&& final(self).drivers() == old(self).drivers()
                    &&& final(self).vehicles() == old(self).vehicles()
                    &&& final(self).bookings() == old(self).bookings()
                    &&& final(self).fuel_consumptions() == old(self).fuel_consumptions()
                    &&& final(self).maintenances() == old(self).maintenances()
                    &&& final(self).routes() == old(self).routes()
                })
                &&& (r matches Err(m) ==> *final(self) == *old(self) && (match m {
                    Message::InvalidPayload(_) => !emergency_payload_ok(payload),
                    Message::NotFound(_) => emergency_payload_ok(payload) && !veh_ok,
                    Message::Error(_) => emergency_payload_ok(payload) && veh_ok
                        && spec_encode_emergency(e_rec).len() > MAX_RECORD_BYTES,
                    _ => false,
                }))
            }),
    {
        if payload.description.as_str().is_empty() || payload.location.as_str().is_empty() {
            return Err(
                Message::InvalidPayload(
                    "Ensure 'description' and 'location' are provided.".to_owned(),
                ),
            );
        }
        let vehicle_found = match self.vehicle_map.get(payload.vehicle_id) {
            Some(_) => true,
            None => false,
        };
        if !vehicle_found {
            return Err(Message::NotFound("Vehicle not found".to_owned()));
        }
        let id = self.id_cell.get() + 1;
        let assistance = EmergencyAssistance {
            id,
            vehicle_id: payload.vehicle_id,
            description: payload.description,
            location: payload.location,
            status: "pending".to_owned(),
            created_at: now,
        };
        let bytes = match encode_emergency(&assistance) {
            Some(b) => b,
            None => {
                return Err(Message::Error("Record exceeds the maximum encoded size.".to_owned()));
            },
        };
        proof {
            lemma_emergency_round_trip(assistance@);
        }
        let _issued = self.alloc_id();
        let _previous = self.emergency_map.insert(id, bytes);
        Ok(assistance)
    }

    /// List every emergency record in ascending id order; `NotFound` when
    /// none exist.
    pub fn get_emergency_assistances(&self) -> (r: Result<Vec<EmergencyAssistance>, Message>)
        requires
            self.wf(),
        ensures
            (match r {
                Ok(v) => v@.len() > 0 && complete_ascending(
                    v@,
                    self.emergency_assistances(),
                    |d: EmergencyAssistanceV| d.id,
                ),
                Err(m) => m matches Message::NotFound(_) && map_is_empty(
                    self.emergency_assistances(),
                ),
            }),
    {
        let entries = self.emergency_map.entries();
        let mut out: Vec<EmergencyAssistance> = Vec::new();
        let mut idx: usize = 0;
        while idx < entries.len()
            invariant
                self.wf(),
                idx <= entries@.len(),
                out@.len() == idx,
                forall|i: int|
                    0 <= i < entries@.len() ==> byte_map_entries(self.emergency_map).contains_key(
                        (#[trigger] entries@[i]).0,
                    ),
                forall|i: int|
                    0 <= i < entries@.len() ==> (#[trigger] entries@[i]).1@ == byte_map_entries(
                        self.emergency_map,
                    )[entries@[i].0],
                forall|i: int, j: int|
                    #![trigger entries@[i], entries@[j]]
                    0 <= i < j < entries@.len() ==> entries@[i].0 < entries@[j].0,
                forall|k: u64|
                    #[trigger] byte_map_entries(self.emergency_map).contains_key(k) ==> exists|
                        i: int,
                    |
                        0 <= i < entries@.len() && entries@[i].0 == k,
                forall|i: int|
                    0 <= i < idx ==> (#[trigger] out@[i])@ == self.emergency_assistances()[entries@[i].0]
                        && out@[i]@.id == entries@[i].0,
            decreases entries@.len() - idx,
        {
            let pair = &entries[idx];
            let e = match decode_emergency(&pair.1) {
                Some(e) => e,
                None => {
                    return vstd::pervasive::unreached();
                },
            };
            out.push(e);
            idx += 1;
        }
        if out.len() == 0 {
            proof {
                assert forall|k: u64| !self.emergency_assistances().contains_key(k) by {
                    if byte_map_entries(self.emergency_map).contains_key(k) {
                        let i = choose|i: int| 0 <= i < entries@.len() && entries@[i].0 == k;
                        assert(false);
                    }
                }
            }
            Err(Message::NotFound("No emergency assistance records found".to_owned()))
        } else {
            proof {
                assert forall|k: u64|
                    #[trigger] self.emergency_assistances().contains_key(k) implies exists|i: int|
                        0 <= i < out@.len() && (#[trigger] out@[i])@.id == k by {
                    let i = choose|i: int| 0 <= i < entries@.len() && entries@[i].0 == k;
                    assert(0 <= i < out@.len() && out@[i]@.id == k);
                }
            }
            Ok(out)
        }
    }

    /// Fetch the emergency record with the given id; `NotFound` when absent.
    pub fn get_emergency_assistance_by_id(&self, id: u64) -> (r: Result<
        EmergencyAssistance,
        Message,
    >)
        requires
            self.wf(),
        ensures
            (match r {
                Ok(e) => self.emergency_assistances().contains_key(id) && e@
                    == self.emergency_assistances()[id],
                Err(m) => m matches Message::NotFound(_)
                    && !self.emergency_assistances().contains_key(id),
            }),
    {
        match self.emergency_map.get(id) {
            Some(bytes) => match decode_emergency(&bytes) {
                Some(e) => Ok(e),
                None => vstd::pervasive::unreached(),
            },
            None => Err(Message::NotFound("Emergency assistance record not found".to_owned())),
        }
    }
}

} // verus!
