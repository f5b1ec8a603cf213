//! The domain services: one per entity type, each validating payloads,
//! enforcing cross-entity rules, and committing through the keyed record
//! stores.

pub mod vehicles;
pub mod drivers;
pub mod bookings;
pub mod fuel;
pub mod maintenance;
pub mod emergency;
pub mod routes;
