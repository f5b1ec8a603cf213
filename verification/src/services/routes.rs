//! The route domain service. Route "optimization" is a stub strategy: the
//! optimized route is a fixed descriptive string synthesized from the two
//! locations, and distance and time estimate are fixed placeholder values,
//! behind the same interface a real optimizer would have.

use vstd::prelude::*;
use vstd::string::StringExecFns;
use crate::Message;
use crate::MAX_RECORD_BYTES;
use crate::store::{FleetStore, map_is_empty, complete_ascending};
use crate::storage::byte_map_entries;
use crate::records::route::{Route, RouteV, spec_encode_route, encode_route,
    decode_route, lemma_route_round_trip};

verus! {

/// The placeholder distance of every synthesized route.
pub const ROUTE_DISTANCE_PLACEHOLDER: u64 = 100;

/// The placeholder time estimate, in seconds, of every synthesized route.
pub const ROUTE_TIME_ESTIMATE_PLACEHOLDER: u64 = 3600;

/// What a caller supplies to create a route.
pub struct RoutePayload {
    pub from_location: String,
    pub to_location: String,
}

/// The payload's required fields are all present (non-empty).
pub open spec fn route_payload_ok(p: RoutePayload) -> bool {
    &&& p.from_location@.len() > 0
    &&& p.to_location@.len() > 0
}

/// The descriptive text the stub optimizer synthesizes from two locations.
pub open spec fn optimized_route_text(from: Seq<char>, to: Seq<char>) -> Seq<char> {
    "Optimized route from "@ + from + " to "@ + to
}

/// The route record a successful creation commits: the synthesized text and
/// the placeholder distance and time estimate.
pub open spec fn route_from_payload(p: RoutePayload, id: u64) -> RouteV {
    RouteV {
        id,
        from_location: p.from_location@,
        to_location: p.to_location@,
        optimized_route: optimized_route_text(p.from_location@, p.to_location@),
        distance: ROUTE_DISTANCE_PLACEHOLDER,
        time_estimate: ROUTE_TIME_ESTIMATE_PLACEHOLDER,
    }
}

impl FleetStore {
    /// Create a route: validate the two locations, synthesize the stub
    /// optimization fields, issue an id, and commit the record.
    pub fn create_route(&mut self, payload: RoutePayload) -> (r: Result<Route, Message>)
        requires
            old(self).wf(),
            old(self).last_id() < u64::MAX,
        ensures
            final(self).wf(),
            ({
                let id = (old(self).last_id() + 1) as u64;
                let rt = route_from_payload(payload, id);
                &&& (r is Ok <==> route_payload_ok(payload) && spec_encode_route(rt).len()
                    <= MAX_RECORD_BYTES)
                &&& (r matches Ok(out) ==> {
                    &&& out@ == rt
                    &&& final(self).last_id() == id
                    &&& final(self).routes() =~= old(self).routes().insert(id, rt)
                    &&& final(self).drivers() == old(self).drivers()
                    &&& final(self).vehicles() == old(self).vehicles()
                    &&& final(self).bookings() == old(self).bookings()
                    &&& final(self).fuel_consumptions() == old(self).fuel_consumptions()
                    &&& final(self).maintenances() == old(self).maintenances()
                    &&& final(self).emergency_assistances() == old(self).emergency_assistances()
                })
                &&& (r matches Err(m) ==> *final(self) == *old(self) && (match m {
                    Message::InvalidPayload(_) => !route_payload_ok(payload),
                    Message::Error(_) => route_payload_ok(payload) && spec_encode_route(rt).len()
                        > MAX_RECORD_BYTES,
                    _ => false,
                }))
            }),
    {
        if payload.from_location.as_str().is_empty() || payload.to_location.as_str().is_empty() {
            return Err(
                Message::InvalidPayload(
                    "Ensure 'from_location' and 'to_location' are provided.".to_owned(),
                ),
            );
        }
        let id = self.id_cell.get() + 1;
        let optimized_route = "Optimized route from ".to_owned().concat(
            payload.from_location.as_str(),
        ).concat(" to ").concat(payload.to_location.as_str());
        let route = Route {
            id,
            from_location: payload.from_location,
            to_location: payload.to_location,
            optimized_route,
            distance: ROUTE_DISTANCE_PLACEHOLDER,
            time_estimate: ROUTE_TIME_ESTIMATE_PLACEHOLDER,
        };
        let bytes = match encode_route(&route) {
            Some(b) => b,
            None => {
                return Err(Message::Error("Record exceeds the maximum encoded size.".to_owned()));
            },
        };
        proof {
            lemma_route_round_trip(route@);
        }
        let _issued = self.alloc_id();
        let _previous = self.route_map.insert(id, bytes);
        Ok(route)
    }

    /// List every route in ascending id order; `NotFound` when none exist.
    pub fn get_routes(&self) -> (r: Result<Vec<Route>, Message>)
        requires
            self.wf(),
        ensures
            (match r {
                Ok(v) => v@.len() > 0 && complete_ascending(v@, self.routes(), |d: RouteV| d.id),
                Err(m) => m matches Message::NotFound(_) && map_is_empty(self.routes()),
            }),
    {
        let entries = self.route_map.entries();
        let mut out: Vec<Route> = Vec::new();
        let mut idx: usize = 0;
        while idx < entries.len()
            invariant
                self.wf(),
                idx <= entries@.len(),
                out@.len() == idx,
                forall|i: int|
                    0 <= i < entries@.len() ==> byte_map_entries(self.route_map).contains_key(
                        (#[trigger] entries@[i]).0,
                    ),
                forall|i: int|
                    0 <= i < entries@.len() ==> (#[trigger] entries@[i]).1@ == byte_map_entries(
                        self.route_map,
                    )[entries@[i].0],
                forall|i: int, j: int|
                    #![trigger entries@[i], entries@[j]]
                    0 <= i < j < entries@.len() ==> entries@[i].0 < entries@[j].0,
                forall|k: u64|
                    #[trigger] byte_map_entries(self.route_map).contains_key(k) ==> exists|i: int|
                        0 <= i < entries@.len() && entries@[i].0 == k,
                forall|i: int|
                    0 <= i < idx ==> (#[trigger] out@[i])@ == self.routes()[entries@[i].0]
                        && out@[i]@.id == entries@[i].0,
            decreases entries@.len() - idx,
        {
            let pair = &entries[idx];
            let rt = match decode_route(&pair.1) {
                Some(rt) => rt,
                None => {
                    return vstd::pervasive::unreached();
                },
            };
            out.push(rt);
            idx += 1;
        }
        if out.len() == 0 {
            proof {
                assert forall|k: u64| !self.routes().contains_key(k) by {
                    if byte_map_entries(self.route_map).contains_key(k) {
                        let i = choose|i: int| 0 <= i < entries@.len() && entries@[i].0 == k;
                        assert(false);
                    }
                }
            }
            Err(Message::NotFound("No routes found".to_owned()))
        } else {
            proof {
                assert forall|k: u64| #[trigger] self.routes().contains_key(k) implies exists|
                    i: int,
                |
                    0 <= i < out@.len() && (#[trigger] out@[i])@.id == k by {
                    let i = choose|i: int| 0 <= i < entries@.len() && entries@[i].0 == k;
                    assert(0 <= i < out@.len() && out@[i]@.id == k);
                }
            }
            Ok(out)
        }
    }

    /// Fetch the route with the given id; `NotFound` when absent.
    pub fn get_route_by_id(&self, id: u64) -> (r: Result<Route, Message>)
        requires
            self.wf(),
        ensures
            (match r {
                Ok(rt) => self.routes().contains_key(id) && rt@ == self.routes()[id],
                Err(m) => m matches Message::NotFound(_) && !self.routes().contains_key(id),
            }),
    {
        match self.route_map.get(id) {
            Some(bytes) => match decode_route(&bytes) {
                Some(rt) => Ok(rt),
                None => vstd::pervasive::unreached(),
            },
            None => Err(Message::NotFound("Route not found".to_owned())),
        }
    }
}

} // verus!
