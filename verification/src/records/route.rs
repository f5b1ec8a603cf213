//! The route record and its codec.

use vstd::prelude::*;
use crate::codec::{spec_enc_u64, spec_enc_str, spec_read_u64, spec_read_str, lemma_read_u64_enc,
    lemma_read_str_enc, write_u64, write_str, read_u64, read_str};
use crate::MAX_RECORD_BYTES;

verus! {

/// A route between two locations. `optimized_route`, `distance` and
/// `time_estimate` are placeholder values synthesized by a stub strategy,
/// not computed from geodata.
pub struct Route {
    pub id: u64,
    pub from_location: String,
    pub to_location: String,
    pub optimized_route: String,
    pub distance: u64,
    pub time_estimate: u64,
}

/// The mathematical value of a route record.
#[verifier::ext_equal]
pub ghost struct RouteV {
    pub id: u64,
    pub from_location: Seq<char>,
    pub to_location: Seq<char>,
    pub optimized_route: Seq<char>,
    pub distance: u64,
    pub time_estimate: u64,
}

impl View for Route {
    type V = RouteV;

    open spec fn view(&self) -> RouteV {
        RouteV {
            id: self.id,
            from_location: self.from_location@,
            to_location: self.to_location@,
            optimized_route: self.optimized_route@,
            distance: self.distance,
            time_estimate: self.time_estimate,
        }
    }
}

/// The byte encoding of a route record: its fields in declaration order.
pub open spec fn spec_encode_route(d: RouteV) -> Seq<u8> {
    spec_enc_u64(d.id) + spec_enc_str(d.from_location) + spec_enc_str(d.to_location) + spec_enc_str(
        d.optimized_route,
    ) + spec_enc_u64(d.distance) + spec_enc_u64(d.time_estimate)
}

/// Decoding of a route record; the bytes must be consumed exactly.
pub open spec fn spec_decode_route(b: Seq<u8>) -> Option<RouteV> {
    match spec_read_u64(b) {
        None => None,
        Some((id, b)) => match spec_read_str(b) {
            None => None,
            Some((from_location, b)) => match spec_read_str(b) {
                None => None,
                Some((to_location, b)) => match spec_read_str(b) {
                    None => None,
                    Some((optimized_route, b)) => match spec_read_u64(b) {
                        None => None,
                        Some((distance, b)) => match spec_read_u64(b) {
                            None => None,
                            Some((time_estimate, b)) => if b.len() == 0 {
                                Some(
                                    RouteV {
                                        id,
                                        from_location,
                                        to_location,
                                        optimized_route,
                                        distance,
                                        time_estimate,
                                    },
                                )
                            } else {
                                None
                            },
                        },
                    },
                },
            },
        },
    }
}

/// Decoding inverts encoding for every route record within the size bound.
pub proof fn lemma_route_round_trip(d: RouteV)
    requires
        spec_encode_route(d).len() <= MAX_RECORD_BYTES,
    ensures
        spec_decode_route(spec_encode_route(d)) == Some(d),
{
    let e1 = spec_enc_u64(d.id);
    let e2 = spec_enc_str(d.from_location);
    let e3 = spec_enc_str(d.to_location);
    let e4 = spec_enc_str(d.optimized_route);
    let e5 = spec_enc_u64(d.distance);
    let e6 = spec_enc_u64(d.time_estimate);
    assert(spec_encode_route(d) =~= e1 + (e2 + (e3 + (e4 + (e5 + e6)))));
    lemma_read_u64_enc(d.id, e2 + (e3 + (e4 + (e5 + e6))));
    lemma_read_str_enc(d.from_location, e3 + (e4 + (e5 + e6)));
    lemma_read_str_enc(d.to_location, e4 + (e5 + e6));
    lemma_read_str_enc(d.optimized_route, e5 + e6);
    lemma_read_u64_enc(d.distance, e6);
    assert(e6 =~= e6 + Seq::<u8>::empty());
    lemma_read_u64_enc(d.time_estimate, Seq::<u8>::empty());
}

/// Encode a route record, enforcing the declared size bound.
pub fn encode_route(d: &Route) -> (r: Option<Vec<u8>>)
    ensures
        r matches Some(v) ==> v@ == spec_encode_route(d@) && v@.len() <= MAX_RECORD_BYTES,
        r is None <==> spec_encode_route(d@).len() > MAX_RECORD_BYTES,
{
    let mut out: Vec<u8> = Vec::new();
    write_u64(&mut out, d.id);
    write_str(&mut out, d.from_location.as_str());
    write_str(&mut out, d.to_location.as_str());
    write_str(&mut out, d.optimized_route.as_str());
    write_u64(&mut out, d.distance);
    write_u64(&mut out, d.time_estimate);
    proof {
        assert(out@ =~= spec_encode_route(d@));
    }
    if out.len() <= MAX_RECORD_BYTES {
        Some(out)
    } else {
        None
    }
}

/// Decode a route record from the exact bytes of its encoding.
pub fn decode_route(v: &Vec<u8>) -> (r: Option<Route>)
    ensures
        r matches Some(d) ==> spec_decode_route(v@) == Some(d@),
        r is None ==> spec_decode_route(v@) is None,
{
    proof {
        assert(v@.skip(0) =~= v@);
    }
    let (id, pos) = match read_u64(v, 0) {
        Some(t) => t,
        None => {
            return None;
        },
    };
    let (from_location, pos) = match read_str(v, pos) {
        Some(t) => t,
        None => {
            return None;
        },
    };
    let (to_location, pos) = match read_str(v, pos) {
        Some(t) => t,
        None => {
            return None;
        },
    };
    let (optimized_route, pos) = match read_str(v, pos) {
        Some(t) => t,
        None => {
            return None;
        },
    };
    let (distance, pos) = match read_u64(v, pos) {
        Some(t) => t,
        None => {
            return None;
        },
    };
    let (time_estimate, pos) = match read_u64(v, pos) {
        Some(t) => t,
        None => {
            return None;
        },
    };
    if pos != v.len() {
        return None;
    }
    Some(Route { id, from_location, to_location, optimized_route, distance, time_estimate })
}

} // verus!
