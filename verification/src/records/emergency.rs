//! The emergency assistance record and its codec.

use vstd::prelude::*;
use crate::codec::{spec_enc_u64, spec_enc_str, spec_read_u64, spec_read_str, lemma_read_u64_enc,
    lemma_read_str_enc, write_u64, write_str, read_u64, read_str};
use crate::MAX_RECORD_BYTES;

verus! {

/// An emergency assistance request for a vehicle; the status starts as
/// `"pending"`.
pub struct EmergencyAssistance {
    pub id: u64,
    pub vehicle_id: u64,
    pub description: String,
    pub location: String,
    pub status: String,
    pub created_at: u64,
}

/// The mathematical value of an emergency assistance record.
#[verifier::ext_equal]
pub ghost struct EmergencyAssistanceV {
    pub id: u64,
    pub vehicle_id: u64,
    pub description: Seq<char>,
    pub location: Seq<char>,
    pub status: Seq<char>,
    pub created_at: u64,
}

impl View for EmergencyAssistance {
    type V = EmergencyAssistanceV;

    open spec fn view(&self) -> EmergencyAssistanceV {
        EmergencyAssistanceV {
            id: self.id,
            vehicle_id: self.vehicle_id,
            description: self.description@,
            location: self.location@,
            status: self.status@,
            created_at: self.created_at,
        }
    }
}

/// The byte encoding of an emergency record: its fields in declaration order.
pub open spec fn spec_encode_emergency(d: EmergencyAssistanceV) -> Seq<u8> {
    spec_enc_u64(d.id) + spec_enc_u64(d.vehicle_id) + spec_enc_str(d.description) + spec_enc_str(
        d.location,
    ) + spec_enc_str(d.status) + spec_enc_u64(d.created_at)
}

/// Decoding of an emergency record; the bytes must be consumed exactly.
pub open spec fn spec_decode_emergency(b: Seq<u8>) -> Option<EmergencyAssistanceV> {
    match spec_read_u64(b) {
        None => None,
        Some((id, b)) => match spec_read_u64(b) {
            None => None,
            Some((vehicle_id, b)) => match spec_read_str(b) {
                None => None,
                Some((description, b)) => match spec_read_str(b) {
                    None => None,
                    Some((location, b)) => match spec_read_str(b) {
                        None => None,
                        Some((status, b)) => match spec_read_u64(b) {
                            None => None,
                            Some((created_at, b)) => if b.len() == 0 {
                                Some(
                                    EmergencyAssistanceV {
                                        id,
                                        vehicle_id,
                                        description,
                                        location,
                                        status,
                                        created_at,
                                    },
                                )
                            } else {
                                None
                            },
                        },
                    },
                },
            },
        },
    }
}

/// Decoding inverts encoding for every emergency record within the size bound.
pub proof fn lemma_emergency_round_trip(d: EmergencyAssistanceV)
    requires
        spec_encode_emergency(d).len() <= MAX_RECORD_BYTES,
    ensures
        spec_decode_emergency(spec_encode_emergency(d)) == Some(d),
{
    let e1 = spec_enc_u64(d.id);
    let e2 = spec_enc_u64(d.vehicle_id);
    let e3 = spec_enc_str(d.description);
    let e4 = spec_enc_str(d.location);
    let e5 = spec_enc_str(d.status);
    let e6 = spec_enc_u64(d.created_at);
    assert(spec_encode_emergency(d) =~= e1 + (e2 + (e3 + (e4 + (e5 + e6)))));
    lemma_read_u64_enc(d.id, e2 + (e3 + (e4 + (e5 + e6))));
    lemma_read_u64_enc(d.vehicle_id, e3 + (e4 + (e5 + e6)));
    lemma_read_str_enc(d.description, e4 + (e5 + e6));
    lemma_read_str_enc(d.location, e5 + e6);
    lemma_read_str_enc(d.status, e6);
    assert(e6 =~= e6 + Seq::<u8>::empty());
    lemma_read_u64_enc(d.created_at, Seq::<u8>::empty());
}

/// Encode an emergency record, enforcing the declared size bound.
pub fn encode_emergency(d: &EmergencyAssistance) -> (r: Option<Vec<u8>>)
    ensures
        r matches Some(v) ==> v@ == spec_encode_emergency(d@) && v@.len() <= MAX_RECORD_BYTES,
        r is None <==> spec_encode_emergency(d@).len() > MAX_RECORD_BYTES,
{
    let mut out: Vec<u8> = Vec::new();
    write_u64(&mut out, d.id);
    write_u64(&mut out, d.vehicle_id);
    write_str(&mut out, d.description.as_str());
    write_str(&mut out, d.location.as_str());
    write_str(&mut out, d.status.as_str());
    write_u64(&mut out, d.created_at);
    proof {
        assert(out@ =~= spec_encode_emergency(d@));
    }
    if out.len() <= MAX_RECORD_BYTES {
        Some(out)
    } else {
        None
    }
}

/// Decode an emergency record from the exact bytes of its encoding.
pub fn decode_emergency(v: &Vec<u8>) -> (r: Option<EmergencyAssistance>)
    ensures
        r matches Some(d) ==> spec_decode_emergency(v@) == Some(d@),
        r is None ==> spec_decode_emergency(v@) is None,
{
    proof {
        assert(v@.skip(0) =~= v@);
    }
    let (id, pos) = match read_u64(v, 0) {
        Some(t) => t,
        None => {
            return None;
        },
    };
    let (vehicle_id, pos) = match read_u64(v, pos) {
        Some(t) => t,
        None => {
            return None;
        },
    };
    let (description, pos) = match read_str(v, pos) {
        Some(t) => t,
        None => {
            return None;
        },
    };
    let (location, pos) = match read_str(v, pos) {
        Some(t) => t,
        None => {
            return None;
        },
    };
    let (status, pos) = match read_str(v, pos) {
        Some(t) => t,
        None => {
            return None;
        },
    };
    let (created_at, pos) = match read_u64(v, pos) {
        Some(t) => t,
        None => {
            return None;
        },
    };
    if pos != v.len() {
        return None;
    }
    Some(EmergencyAssistance { id, vehicle_id, description, location, status, created_at })
}

} // verus!
