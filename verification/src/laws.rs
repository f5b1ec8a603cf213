//! Laws of the identifier allocator, stated over the whole store.
//!
//! Each creation entry point ensures that the record it returns carries the
//! id `last_id() + 1` and that `last_id()` advances to exactly that value,
//! while every other operation leaves `last_id()` unchanged. The lemmas here
//! complete the picture: every identifier found in any store was issued, so
//! the next identifier is fresh across all entity types at once.

use vstd::prelude::*;
use crate::store::FleetStore;

verus! {

/// Every identifier stored in any of the seven entity stores was issued by
/// the allocator: it lies in `1 ..= last_id()`. Together with the creation
/// contracts — each successful creation returns `last_id() + 1` and advances
/// `last_id()` — the identifiers returned by any sequence of creations, over
/// any mix of entity types, strictly increase.
pub proof fn lemma_stored_ids_issued(s: FleetStore)
    requires
        s.wf(),
    ensures
        forall|k: u64| #[trigger] s.drivers().contains_key(k) ==> 1 <= k <= s.last_id(),
        forall|k: u64| #[trigger] s.vehicles().contains_key(k) ==> 1 <= k <= s.last_id(),
        forall|k: u64| #[trigger] s.bookings().contains_key(k) ==> 1 <= k <= s.last_id(),
        forall|k: u64| #[trigger] s.fuel_consumptions().contains_key(k) ==> 1 <= k <= s.last_id(),
        forall|k: u64| #[trigger] s.maintenances().contains_key(k) ==> 1 <= k <= s.last_id(),
        forall|k: u64|
            #[trigger] s.emergency_assistances().contains_key(k) ==> 1 <= k <= s.last_id(),
        forall|k: u64| #[trigger] s.routes().contains_key(k) ==> 1 <= k <= s.last_id(),
{
}

/// An identifier currently in use by a record of any entity type.
pub open(crate) spec fn id_in_use(s: FleetStore, k: u64) -> bool {
    ||| s.drivers().contains_key(k)
    ||| s.vehicles().contains_key(k)
    ||| s.bookings().contains_key(k)
    ||| s.fuel_consumptions().contains_key(k)
    ||| s.maintenances().contains_key(k)
    ||| s.emergency_assistances().contains_key(k)
    ||| s.routes().contains_key(k)
}

/// Identifiers strictly increase over any sequence of creations, over any
/// mix of entity types. Each creation's contract returns `last_id() + 1`,
/// advances `last_id()` to exactly that value, commits the returned record
/// under its id, and on failure changes nothing; reads leave the store
/// untouched and nothing ever deletes a record. So an identifier `k`
/// returned by an earlier creation is in use in every later state, and by
/// this lemma the identifier the next successful creation returns strictly
/// exceeds it: no identifier is ever repeated or reused, across all entity
/// types at once.
pub proof fn lemma_creation_ids_strictly_increase(s: FleetStore, k: u64)
    requires
        s.wf(),
        id_in_use(s, k),
        s.last_id() < u64::MAX,
    ensures
        k < (s.last_id() + 1) as u64,
{
    lemma_stored_ids_issued(s);
}

/// The identifier the next successful creation will return is globally
/// fresh: no record of any entity type is stored under it.
pub proof fn lemma_next_id_fresh(s: FleetStore)
    requires
        s.wf(),
        s.last_id() < u64::MAX,
    ensures
        !s.drivers().contains_key((s.last_id() + 1) as u64),
        !s.vehicles().contains_key((s.last_id() + 1) as u64),
        !s.bookings().contains_key((s.last_id() + 1) as u64),
        !s.fuel_consumptions().contains_key((s.last_id() + 1) as u64),
        !s.maintenances().contains_key((s.last_id() + 1) as u64),
        !s.emergency_assistances().contains_key((s.last_id() + 1) as u64),
        !s.routes().contains_key((s.last_id() + 1) as u64),
{
    lemma_stored_ids_issued(s);
}

} // verus!
