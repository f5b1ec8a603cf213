//! The vehicle record, its status, and their codec.

use vstd::prelude::*;
use crate::codec::{spec_enc_u64, spec_enc_str, spec_read_u64, spec_read_str, lemma_read_u64_enc,
    lemma_read_str_enc, write_u64, write_str, read_u64, read_str};
use crate::MAX_RECORD_BYTES;

verus! {

/// The lifecycle state of a vehicle. A vehicle starts `Available` and moves
/// to `Booked` when a booking is created against it.
#[derive(Clone, Copy, PartialEq, Eq, Structural, Debug, Hash)]
pub enum VehicleStatus {
    Available,
    Booked,
    Maintenance,
}

/// A vehicle of the fleet, keyed by its registration number for the driver
/// license rule.
pub struct Vehicle {
    pub id: u64,
    pub registration_number: String,
    pub model: String,
    pub capacity: u64,
    pub status: VehicleStatus,
    pub location: String,
    pub created_at: u64,
}

/// The mathematical value of a vehicle record.
#[verifier::ext_equal]
pub ghost struct VehicleV {
    pub id: u64,
    pub registration_number: Seq<char>,
    pub model: Seq<char>,
    pub capacity: u64,
    pub status: VehicleStatus,
    pub location: Seq<char>,
    pub created_at: u64,
}

impl View for Vehicle {
    type V = VehicleV;

    open spec fn view(&self) -> VehicleV {
        VehicleV {
            id: self.id,
            registration_number: self.registration_number@,
            model: self.model@,
            capacity: self.capacity,
            status: self.status,
            location: self.location@,
            created_at: self.created_at,
        }
    }
}

/// The encoding of a status field: one tag byte.
pub open spec fn spec_enc_status(st: VehicleStatus) -> Seq<u8> {
    match st {
        VehicleStatus::Available => seq![0u8],
        VehicleStatus::Booked => seq![1u8],
        VehicleStatus::Maintenance => seq![2u8],
    }
}

/// Consume a status field from the front of `b`; the rest is handed back.
pub open spec fn spec_read_status(b: Seq<u8>) -> Option<(VehicleStatus, Seq<u8>)> {
    if b.len() >= 1 {
        if b[0] == 0u8 {
            Some((VehicleStatus::Available, b.skip(1)))
        } else if b[0] == 1u8 {
            Some((VehicleStatus::Booked, b.skip(1)))
        } else if b[0] == 2u8 {
            Some((VehicleStatus::Maintenance, b.skip(1)))
        } else {
            None
        }
    } else {
        None
    }
}

/// Reading a status field off its own encoding yields the status back.
pub proof fn lemma_read_status_enc(st: VehicleStatus, rest: Seq<u8>)
    ensures
        spec_read_status(spec_enc_status(st) + rest) == Some((st, rest)),
{
    assert((spec_enc_status(st) + rest).skip(1) =~= rest);
}

/// Append the encoding of a status field.
pub fn write_status(out: &mut Vec<u8>, st: VehicleStatus)
    ensures
        final(out)@ == old(out)@ + spec_enc_status(st),
{
    let tag: u8 = match st {
        VehicleStatus::Available => 0,
        VehicleStatus::Booked => 1,
        VehicleStatus::Maintenance => 2,
    };
    out.push(tag);
    proof {
        assert(final(out)@ =~= old(out)@ + spec_enc_status(st));
    }
}

/// Read a status field at byte offset `pos`.
pub fn read_status(v: &Vec<u8>, pos: usize) -> (r: Option<(VehicleStatus, usize)>)
    requires
        pos <= v@.len(),
    ensures
        (match r {
            Some(t) => t.1 == pos + 1 && t.1 <= v@.len() && spec_read_status(v@.skip(pos as int))
                == Some((t.0, v@.skip(t.1 as int))),
            None => spec_read_status(v@.skip(pos as int)) is None,
        }),
{
    if v.len() - pos >= 1 {
        let tag = v[pos];
        proof {
            assert(v@.skip(pos as int)[0] == v@[pos as int]);
            assert(v@.skip(pos as int).skip(1) =~= v@.skip(pos as int + 1));
        }
        match tag {
            0 => Some((VehicleStatus::Available, pos + 1)),
            1 => Some((VehicleStatus::Booked, pos + 1)),
            2 => Some((VehicleStatus::Maintenance, pos + 1)),
            _ => None,
        }
    } else {
        None
    }
}

/// The byte encoding of a vehicle record: its fields in declaration order.
pub open spec fn spec_encode_vehicle(d: VehicleV) -> Seq<u8> {
    spec_enc_u64(d.id) + spec_enc_str(d.registration_number) + spec_enc_str(d.model) + spec_enc_u64(
        d.capacity,
    ) + spec_enc_status(d.status) + spec_enc_str(d.location) + spec_enc_u64(d.created_at)
}

/// Decoding of a vehicle record; the bytes must be consumed exactly.
pub open spec fn spec_decode_vehicle(b: Seq<u8>) -> Option<VehicleV> {
    match spec_read_u64(b) {
        None => None,
        Some((id, b)) => match spec_read_str(b) {
            None => None,
            Some((registration_number, b)) => match spec_read_str(b) {
                None => None,
                Some((model, b)) => match spec_read_u64(b) {
                    None => None,
                    Some((capacity, b)) => match spec_read_status(b) {
                        None => None,
                        Some((status, b)) => match spec_read_str(b) {
                            None => None,
                            Some((location, b)) => match spec_read_u64(b) {
                                None => None,
                                Some((created_at, b)) => if b.len() == 0 {
                                    Some(
                                        VehicleV {
                                            id,
                                            registration_number,
                                            model,
                                            capacity,
                                            status,
                                            location,
                                            created_at,
                                        },
                                    )
                                } else {
                                    None
                                },
                            },
                        },
                    },
                },
            },
        },
    }
}

/// Decoding inverts encoding for every vehicle record within the size bound.
pub proof fn lemma_vehicle_round_trip(d: VehicleV)
    requires
        spec_encode_vehicle(d).len() <= MAX_RECORD_BYTES,
    ensures
        spec_decode_vehicle(spec_encode_vehicle(d)) == Some(d),
{
    let e1 = spec_enc_u64(d.id);
    let e2 = spec_enc_str(d.registration_number);
    let e3 = spec_enc_str(d.model);
    let e4 = spec_enc_u64(d.capacity);
    let e5 = spec_enc_status(d.status);
    let e6 = spec_enc_str(d.location);
    let e7 = spec_enc_u64(d.created_at);
    assert(spec_encode_vehicle(d) =~= e1 + (e2 + (e3 + (e4 + (e5 + (e6 + e7))))));
    lemma_read_u64_enc(d.id, e2 + (e3 + (e4 + (e5 + (e6 + e7)))));
    lemma_read_str_enc(d.registration_number, e3 + (e4 + (e5 + (e6 + e7))));
    lemma_read_str_enc(d.model, e4 + (e5 + (e6 + e7)));
    lemma_read_u64_enc(d.capacity, e5 + (e6 + e7));
    lemma_read_status_enc(d.status, e6 + e7);
    lemma_read_str_enc(d.location, e7);
    assert(e7 =~= e7 + Seq::<u8>::empty());
    lemma_read_u64_enc(d.created_at, Seq::<u8>::empty());
}

/// Encode a vehicle record, enforcing the declared size bound.
pub fn encode_vehicle(d: &Vehicle) -> (r: Option<Vec<u8>>)
    ensures
        r matches Some(v) ==> v@ == spec_encode_vehicle(d@) && v@.len() <= MAX_RECORD_BYTES,
        r is None <==> spec_encode_vehicle(d@).len() > MAX_RECORD_BYTES,
{
    let mut out: Vec<u8> = Vec::new();
    write_u64(&mut out, d.id);
    write_str(&mut out, d.registration_number.as_str());
    write_str(&mut out, d.model.as_str());
    write_u64(&mut out, d.capacity);
    write_status(&mut out, d.status);
    write_str(&mut out, d.location.as_str());
    write_u64(&mut out, d.created_at);
    proof {
        assert(out@ =~= spec_encode_vehicle(d@));
    }
    if out.len() <= MAX_RECORD_BYTES {
        Some(out)
    } else {
        None
    }
}

/// Decode a vehicle record from the exact bytes of its encoding.
pub fn decode_vehicle(v: &Vec<u8>) -> (r: Option<Vehicle>)
    ensures
        r matches Some(d) ==> spec_decode_vehicle(v@) == Some(d@),
        r is None ==> spec_decode_vehicle(v@) is None,
{
    proof {
        assert(v@.skip(0) =~= v@);
    }
    let (id, pos) = match read_u64(v, 0) {
        Some(t) => t,
        None => {
            return None;
        },
    };
    let (registration_number, pos) = match read_str(v, pos) {
        Some(t) => t,
        None => {
            return None;
        },
    };
    let (model, pos) = match read_str(v, pos) {
        Some(t) => t,
        None => {
            return None;
        },
    };
    let (capacity, pos) = match read_u64(v, pos) {
        Some(t) => t,
        None => {
            return None;
        },
    };
    let (status, pos) = match read_status(v, pos) {
        Some(t) => t,
        None => {
            return None;
        },
    };
    let (location, pos) = match read_str(v, pos) {
        Some(t) => t,
        None => {
            return None;
        },
    };
    let (created_at, pos) = match read_u64(v, pos) {
        Some(t) => t,
        None => {
            return None;
        },
    };
    if pos != v.len() {
        return None;
    }
    Some(Vehicle { id, registration_number, model, capacity, status, location, created_at })
}

} // verus!
