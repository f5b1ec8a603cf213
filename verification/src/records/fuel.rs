//! The fuel consumption record and its codec.

use vstd::prelude::*;
use crate::codec::{spec_enc_u64, spec_read_u64, lemma_read_u64_enc, write_u64, read_u64};
use crate::MAX_RECORD_BYTES;

verus! {

/// A fuel consumption entry for a vehicle. `amount` is a whole number of
/// fuel units and must be positive.
pub struct FuelConsumption {
    pub id: u64,
    pub vehicle_id: u64,
    pub amount: u64,
    pub date: u64,
}

/// The mathematical value of a fuel consumption record.
#[verifier::ext_equal]
pub ghost struct FuelConsumptionV {
    pub id: u64,
    pub vehicle_id: u64,
    pub amount: u64,
    pub date: u64,
}

impl View for FuelConsumption {
    type V = FuelConsumptionV;

    open spec fn view(&self) -> FuelConsumptionV {
        FuelConsumptionV {
            id: self.id,
            vehicle_id: self.vehicle_id,
            amount: self.amount,
            date: self.date,
        }
    }
}

/// The byte encoding of a fuel record: its fields in declaration order.
pub open spec fn spec_encode_fuel(d: FuelConsumptionV) -> Seq<u8> {
    spec_enc_u64(d.id) + spec_enc_u64(d.vehicle_id) + spec_enc_u64(d.amount) + spec_enc_u64(d.date)
}

/// Decoding of a fuel record; the bytes must be consumed exactly.
pub open spec fn spec_decode_fuel(b: Seq<u8>) -> Option<FuelConsumptionV> {
    match spec_read_u64(b) {
        None => None,
        Some((id, b)) => match spec_read_u64(b) {
            None => None,
            Some((vehicle_id, b)) => match spec_read_u64(b) {
                None => None,
                Some((amount, b)) => match spec_read_u64(b) {
                    None => None,
                    Some((date, b)) => if b.len() == 0 {
                        Some(FuelConsumptionV { id, vehicle_id, amount, date })
                    } else {
                        None
                    },
                },
            },
        },
    }
}

/// Decoding inverts encoding for every fuel record within the size bound.
pub proof fn lemma_fuel_round_trip(d: FuelConsumptionV)
    requires
        spec_encode_fuel(d).len() <= MAX_RECORD_BYTES,
    ensures
        spec_decode_fuel(spec_encode_fuel(d)) == Some(d),
{
    let e1 = spec_enc_u64(d.id);
    let e2 = spec_enc_u64(d.vehicle_id);
    let e3 = spec_enc_u64(d.amount);
    let e4 = spec_enc_u64(d.date);
    assert(spec_encode_fuel(d) =~= e1 + (e2 + (e3 + e4)));
    lemma_read_u64_enc(d.id, e2 + (e3 + e4));
    lemma_read_u64_enc(d.vehicle_id, e3 + e4);
    lemma_read_u64_enc(d.amount, e4);
    assert(e4 =~= e4 + Seq::<u8>::empty());
    lemma_read_u64_enc(d.date, Seq::<u8>::empty());
}

/// Encode a fuel record, enforcing the declared size bound.
pub fn encode_fuel(d: &FuelConsumption) -> (r: Option<Vec<u8>>)
    ensures
        r matches Some(v) ==> v@ == spec_encode_fuel(d@) && v@.len() <= MAX_RECORD_BYTES,
        r is None <==> spec_encode_fuel(d@).len() > MAX_RECORD_BYTES,
{
    let mut out: Vec<u8> = Vec::new();
    write_u64(&mut out, d.id);
    write_u64(&mut out, d.vehicle_id);
    write_u64(&mut out, d.amount);
    write_u64(&mut out, d.date);
    proof {
        assert(out@ =~= spec_encode_fuel(d@));
    }
    if out.len() <= MAX_RECORD_BYTES {
        Some(out)
    } else {
        None
    }
}

/// Decode a fuel record from the exact bytes of its encoding.
pub fn decode_fuel(v: &Vec<u8>) -> (r: Option<FuelConsumption>)
    ensures
        r matches Some(d) ==> spec_decode_fuel(v@) == Some(d@),
        r is None ==> spec_decode_fuel(v@) is None,
{
    proof {
        assert(v@.skip(0) =~= v@);
    }
    let (id, pos) = match read_u64(v, 0) {
        Some(t) => t,
        None => {
            return None;
        },
    };
    let (vehicle_id, pos) = match read_u64(v, pos) {
        Some(t) => t,
        None => {
            return None;
        },
    };
    let (amount, pos) = match read_u64(v, pos) {
        Some(t) => t,
        None => {
            return None;
        },
    };
    let (date, pos) = match read_u64(v, pos) {
        Some(t) => t,
        None => {
            return None;
        },
    };
    if pos != v.len() {
        return None;
    }
    Some(FuelConsumption { id, vehicle_id, amount, date })
}

} // verus!
