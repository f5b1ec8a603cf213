//! The booking record and its codec.

use vstd::prelude::*;
use crate::codec::{spec_enc_u64, spec_enc_str, spec_read_u64, spec_read_str, lemma_read_u64_enc,
    lemma_read_str_enc, write_u64, write_str, read_u64, read_str};
use crate::MAX_RECORD_BYTES;

verus! {

/// A booking of a vehicle by a driver. Creating one moves the vehicle to
/// `Booked`; the booking itself starts in the free-form status `"pending"`.
pub struct Booking {
    pub id: u64,
    pub vehicle_id: u64,
    pub driver_id: u64,
    pub from_location: String,
    pub to_location: String,
    pub start_time: u64,
    pub end_time: u64,
    pub status: String,
    pub created_at: u64,
}

/// The mathematical value of a booking record.
#[verifier::ext_equal]
pub ghost struct BookingV {
    pub id: u64,
    pub vehicle_id: u64,
    pub driver_id: u64,
    pub from_location: Seq<char>,
    pub to_location: Seq<char>,
    pub start_time: u64,
    pub end_time: u64,
    pub status: Seq<char>,
    pub created_at: u64,
}

impl View for Booking {
    type V = BookingV;

    open spec fn view(&self) -> BookingV {
        BookingV {
            id: self.id,
            vehicle_id: self.vehicle_id,
            driver_id: self.driver_id,
            from_location: self.from_location@,
            to_location: self.to_location@,
            start_time: self.start_time,
            end_time: self.end_time,
            status: self.status@,
            created_at: self.created_at,
        }
    }
}

/// The byte encoding of a booking record: its fields in declaration order.
pub open spec fn spec_encode_booking(d: BookingV) -> Seq<u8> {
    spec_enc_u64(d.id) + spec_enc_u64(d.vehicle_id) + spec_enc_u64(d.driver_id) + spec_enc_str(
        d.from_location,
    ) + spec_enc_str(d.to_location) + spec_enc_u64(d.start_time) + spec_enc_u64(d.end_time)
        + spec_enc_str(d.status) + spec_enc_u64(d.created_at)
}

/// Decoding of a booking record; the bytes must be consumed exactly.
pub open spec fn spec_decode_booking(b: Seq<u8>) -> Option<BookingV> {
    match spec_read_u64(b) {
        None => None,
        Some((id, b)) => match spec_read_u64(b) {
            None => None,
            Some((vehicle_id, b)) => match spec_read_u64(b) {
                None => None,
                Some((driver_id, b)) => match spec_read_str(b) {
                    None => None,
                    Some((from_location, b)) => match spec_read_str(b) {
                        None => None,
                        Some((to_location, b)) => match spec_read_u64(b) {
                            None => None,
                            Some((start_time, b)) => match spec_read_u64(b) {
                                None => None,
                                Some((end_time, b)) => match spec_read_str(b) {
                                    None => None,
                                    Some((status, b)) => match spec_read_u64(b) {
                                        None => None,
                                        Some((created_at, b)) => if b.len() == 0 {
                                            Some(
                                                BookingV {
                                                    id,
                                                    vehicle_id,
                                                    driver_id,
                                                    from_location,
                                                    to_location,
                                                    start_time,
                                                    end_time,
                                                    status,
                                                    created_at,
                                                },
                                            )
                                        } else {
                                            None
                                        },
                                    },
                                },
                            },
                        },
                    },
                },
            },
        },
    }
}

/// Decoding inverts encoding for every booking record within the size bound.
pub proof fn lemma_booking_round_trip(d: BookingV)
    requires
        spec_encode_booking(d).len() <= MAX_RECORD_BYTES,
    ensures
        spec_decode_booking(spec_encode_booking(d)) == Some(d),
{
    let e1 = spec_enc_u64(d.id);
    let e2 = spec_enc_u64(d.vehicle_id);
    let e3 = spec_enc_u64(d.driver_id);
    let e4 = spec_enc_str(d.from_location);
    let e5 = spec_enc_str(d.to_location);
    let e6 = spec_enc_u64(d.start_time);
    let e7 = spec_enc_u64(d.end_time);
    let e8 = spec_enc_str(d.status);
    let e9 = spec_enc_u64(d.created_at);
    assert(spec_encode_booking(d) =~= e1 + (e2 + (e3 + (e4 + (e5 + (e6 + (e7 + (e8 + e9))))))));
    lemma_read_u64_enc(d.id, e2 + (e3 + (e4 + (e5 + (e6 + (e7 + (e8 + e9)))))));
    lemma_read_u64_enc(d.vehicle_id, e3 + (e4 + (e5 + (e6 + (e7 + (e8 + e9))))));
    lemma_read_u64_enc(d.driver_id, e4 + (e5 + (e6 + (e7 + (e8 + e9)))));
    lemma_read_str_enc(d.from_location, e5 + (e6 + (e7 + (e8 + e9))));
    lemma_read_str_enc(d.to_location, e6 + (e7 + (e8 + e9)));
    lemma_read_u64_enc(d.start_time, e7 + (e8 + e9));
    lemma_read_u64_enc(d.end_time, e8 + e9);
    lemma_read_str_enc(d.status, e9);
    assert(e9 =~= e9 + Seq::<u8>::empty());
    lemma_read_u64_enc(d.created_at, Seq::<u8>::empty());
}

/// Encode a booking record, enforcing the declared size bound.
pub fn encode_booking(d: &Booking) -> (r: Option<Vec<u8>>)
    ensures
        r matches Some(v) ==> v@ == spec_encode_booking(d@) && v@.len() <= MAX_RECORD_BYTES,
        r is None <==> spec_encode_booking(d@).len() > MAX_RECORD_BYTES,
{
    let mut out: Vec<u8> = Vec::new();
    write_u64(&mut out, d.id);
    write_u64(&mut out, d.vehicle_id);
    write_u64(&mut out, d.driver_id);
    write_str(&mut out, d.from_location.as_str());
    write_str(&mut out, d.to_location.as_str());
    write_u64(&mut out, d.start_time);
    write_u64(&mut out, d.end_time);
    write_str(&mut out, d.status.as_str());
    write_u64(&mut out, d.created_at);
    proof {
        assert(out@ =~= spec_encode_booking(d@));
    }
    if out.len() <= MAX_RECORD_BYTES {
        Some(out)
    } else {
        None
    }
}

/// Decode a booking record from the exact bytes of its encoding.
pub fn decode_booking(v: &Vec<u8>) -> (r: Option<Booking>)
    ensures
        r matches Some(d) ==> spec_decode_booking(v@) == Some(d@),
        r is None ==> spec_decode_booking(v@) is None,
{
    proof {
        assert(v@.skip(0) =~= v@);
    }
    let (id, pos) = match read_u64(v, 0) {
        Some(t) => t,
        None => {
            return None;
        },
    };
    let (vehicle_id, pos) = match read_u64(v, pos) {
        Some(t) => t,
        None => {
            return None;
        },
    };
    let (driver_id, pos) = match read_u64(v, pos) {
        Some(t) => t,
        None => {
            return None;
        },
    };
    let (from_location, pos) = match read_str(v, pos) {
        Some(t) => t,
        None => {
            return None;
        },
    };
    let (to_location, pos) = match read_str(v, pos) {
        Some(t) => t,
        None => {
            return None;
        },
    };
    let (start_time, pos) = match read_u64(v, pos) {
        Some(t) => t,
        None => {
            return None;
        },
    };
    let (end_time, pos) = match read_u64(v, pos) {
        Some(t) => t,
        None => {
            return None;
        },
    };
    let (status, pos) = match read_str(v, pos) {
        Some(t) => t,
        None => {
            return None;
        },
    };
    let (created_at, pos) = match read_u64(v, pos) {
        Some(t) => t,
        None => {
            return None;
        },
    };
    if pos != v.len() {
        return None;
    }
    Some(
        Booking {
            id,
            vehicle_id,
            driver_id,
            from_location,
            to_location,
            start_time,
            end_time,
            status,
            created_at,
        },
    )
}

} // verus!
