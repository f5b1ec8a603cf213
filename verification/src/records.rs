//! The entity record types, their mathematical views, and their codecs.

pub mod driver;
pub mod vehicle;
pub mod booking;
pub mod fuel;
pub mod maintenance;
pub mod emergency;
pub mod route;
