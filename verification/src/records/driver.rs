//! The driver record and its codec.

use vstd::prelude::*;
use vstd::utf8::encode_utf8;
use crate::codec::{spec_enc_u64, spec_enc_str, spec_read_u64, spec_read_str, lemma_read_u64_enc, lemma_read_str_enc, write_u64, write_str, read_u64, read_str};
use crate::MAX_RECORD_BYTES;

verus! {

/// A registered driver. `license_number` must match the registration number
/// of some vehicle at creation time; `points` starts at zero.
pub struct Driver {
    pub id: u64,
    pub name: String,
    pub license_number: String,
    pub contact_info: String,
    pub points: u64,
    pub created_at: u64,
}

/// The mathematical value of a driver record.
#[verifier::ext_equal]
pub ghost struct DriverV {
    pub id: u64,
    pub name: Seq<char>,
    pub license_number: Seq<char>,
    pub contact_info: Seq<char>,
    pub points: u64,
    pub created_at: u64,
}

impl View for Driver {
    type V = DriverV;

    open spec fn view(&self) -> DriverV {
        DriverV {
            id: self.id,
            name: self.name@,
            license_number: self.license_number@,
            contact_info: self.contact_info@,
            points: self.points,
            created_at: self.created_at,
        }
    }
}

/// The byte encoding of a driver record: its fields in declaration order.
pub open spec fn spec_encode_driver(d: DriverV) -> Seq<u8> {
    spec_enc_u64(d.id) + spec_enc_str(d.name) + spec_enc_str(d.license_number) + spec_enc_str(
        d.contact_info,
    ) + spec_enc_u64(d.points) + spec_enc_u64(d.created_at)
}

/// Decoding of a driver record; the bytes must be consumed exactly.
pub open spec fn spec_decode_driver(b: Seq<u8>) -> Option<DriverV> {
    match spec_read_u64(b) {
        None => None,
        Some((id, b)) => match spec_read_str(b) {
            None => None,
            Some((name, b)) => match spec_read_str(b) {
                None => None,
                Some((license_number, b)) => match spec_read_str(b) {
                    None => None,
                    Some((contact_info, b)) => match spec_read_u64(b) {
                        None => None,
                        Some((points, b)) => match spec_read_u64(b) {
                            None => None,
                            Some((created_at, b)) => if b.len() == 0 {
                                Some(
                                    DriverV {
                                        id,
                                        name,
                                        license_number,
                                        contact_info,
                                        points,
                                        created_at,
                                    },
                                )
                            } else {
                                None
                            },
                        },
                    },
                },
            },
        },
    }
}

/// Decoding inverts encoding: every driver record within the declared size
/// bound is recovered exactly from its own encoding.
pub proof fn lemma_driver_round_trip(d: DriverV)
    requires
        spec_encode_driver(d).len() <= MAX_RECORD_BYTES,
    ensures
        spec_decode_driver(spec_encode_driver(d)) == Some(d),
{
    let e1 = spec_enc_u64(d.id);
    let e2 = spec_enc_str(d.name);
    let e3 = spec_enc_str(d.license_number);
    let e4 = spec_enc_str(d.contact_info);
    let e5 = spec_enc_u64(d.points);
    let e6 = spec_enc_u64(d.created_at);
    let b = spec_encode_driver(d);
    assert(b =~= e1 + (e2 + (e3 + (e4 + (e5 + e6)))));
    lemma_read_u64_enc(d.id, e2 + (e3 + (e4 + (e5 + e6))));
    lemma_read_str_enc(d.name, e3 + (e4 + (e5 + e6)));
    lemma_read_str_enc(d.license_number, e4 + (e5 + e6));
    lemma_read_str_enc(d.contact_info, e5 + e6);
    lemma_read_u64_enc(d.points, e6);
    assert(e6 =~= e6 + Seq::<u8>::empty());
    lemma_read_u64_enc(d.created_at, Seq::<u8>::empty());
}

/// Encode a driver record, enforcing the declared size bound.
pub fn encode_driver(d: &Driver) -> (r: Option<Vec<u8>>)
    ensures
        r matches Some(v) ==> v@ == spec_encode_driver(d@) && v@.len() <= MAX_RECORD_BYTES,
        r is None <==> spec_encode_driver(d@).len() > MAX_RECORD_BYTES,
{
    let mut out: Vec<u8> = Vec::new();
    write_u64(&mut out, d.id);
    write_str(&mut out, d.name.as_str());
    write_str(&mut out, d.license_number.as_str());
    write_str(&mut out, d.contact_info.as_str());
    write_u64(&mut out, d.points);
    write_u64(&mut out, d.created_at);
    proof {
        assert(out@ =~= spec_encode_driver(d@));
    }
    if out.len() <= MAX_RECORD_BYTES {
        Some(out)
    } else {
        None
    }
}

/// Decode a driver record from the exact bytes of its encoding.
pub fn decode_driver(v: &Vec<u8>) -> (r: Option<Driver>)
    ensures
        r matches Some(d) ==> spec_decode_driver(v@) == Some(d@),
        r is None ==> spec_decode_driver(v@) is None,
{
    proof {
        assert(v@.skip(0) =~= v@);
    }
    let (id, pos) = match read_u64(v, 0) {
        Some(t) => t,
        None => {
            return None;
        },
    };
    let (name, pos) = match read_str(v, pos) {
        Some(t) => t,
        None => {
            return None;
        },
    };
    let (license_number, pos) = match read_str(v, pos) {
        Some(t) => t,
        None => {
            return None;
        },
    };
    let (contact_info, pos) = match read_str(v, pos) {
        Some(t) => t,
        None => {
            return None;
        },
    };
    let (points, pos) = match read_u64(v, pos) {
        Some(t) => t,
        None => {
            return None;
        },
    };
    let (created_at, pos) = match read_u64(v, pos) {
        Some(t) => t,
        None => {
            return None;
        },
    };
    if pos != v.len() {
        return None;
    }
    Some(Driver { id, name, license_number, contact_info, points, created_at })
}

} // verus!
