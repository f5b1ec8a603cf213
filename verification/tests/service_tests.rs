//! Tests of the domain services: the empty-store listing policy, the
//! referential checks, the driver license rule, and each error variant.

use fleet_store::Message;
use fleet_store::store::FleetStore;
use fleet_store::storage::StorageSpace;
use fleet_store::records::vehicle::VehicleStatus;
use fleet_store::services::drivers::DriverPayload;
use fleet_store::services::vehicles::VehiclePayload;
use fleet_store::services::bookings::BookingPayload;
use fleet_store::services::fuel::FuelConsumptionPayload;
use fleet_store::services::maintenance::MaintenancePayload;
use fleet_store::services::emergency::EmergencyAssistancePayload;
use fleet_store::services::routes::RoutePayload;

fn fresh_store() -> FleetStore {
    FleetStore::init(StorageSpace::new())
}

fn vehicle_payload(reg: &str) -> VehiclePayload {
    VehiclePayload {
        registration_number: reg.to_string(),
        model: "Model T".to_string(),
        capacity: 4,
        location: "Depot".to_string(),
    }
}

fn add_vehicle(store: &mut FleetStore, reg: &str) -> u64 {
    store.create_vehicle(vehicle_payload(reg), 10).expect("vehicle created").id
}

#[test]
fn listings_return_not_found_when_empty() {
    let s = fresh_store();
    assert!(matches!(s.get_drivers(), Err(Message::NotFound(_))));
    assert!(matches!(s.get_vehicles(), Err(Message::NotFound(_))));
    assert!(matches!(s.get_bookings(), Err(Message::NotFound(_))));
    assert!(matches!(s.get_fuel_consumptions(), Err(Message::NotFound(_))));
    assert!(matches!(s.get_maintenances(), Err(Message::NotFound(_))));
    assert!(matches!(s.get_emergency_assistances(), Err(Message::NotFound(_))));
    assert!(matches!(s.get_routes(), Err(Message::NotFound(_))));
}

#[test]
fn listing_returns_exactly_the_inserted_records() {
    let mut s = fresh_store();
    let id_a = add_vehicle(&mut s, "V-1");
    let id_b = add_vehicle(&mut s, "V-2");
    let vehicles = s.get_vehicles().expect("two vehicles stored");
    assert_eq!(vehicles.len(), 2);
    assert_eq!(vehicles[0].id, id_a);
    assert_eq!(vehicles[0].registration_number, "V-1");
    assert_eq!(vehicles[1].id, id_b);
    assert_eq!(vehicles[1].registration_number, "V-2");
}

#[test]
fn get_by_id_when_absent_is_not_found() {
    let s = fresh_store();
    assert!(matches!(s.get_driver_by_id(1), Err(Message::NotFound(_))));
    assert!(matches!(s.get_vehicle_by_id(1), Err(Message::NotFound(_))));
    assert!(matches!(s.get_booking_by_id(1), Err(Message::NotFound(_))));
    assert!(matches!(s.get_fuel_consumption_by_id(1), Err(Message::NotFound(_))));
    assert!(matches!(s.get_maintenance_by_id(1), Err(Message::NotFound(_))));
    assert!(matches!(s.get_emergency_assistance_by_id(1), Err(Message::NotFound(_))));
    assert!(matches!(s.get_route_by_id(1), Err(Message::NotFound(_))));
}

#[test]
fn create_vehicle_rejects_missing_fields() {
    let mut s = fresh_store();
    let mut p = vehicle_payload("V-1");
    p.registration_number = String::new();
    assert!(matches!(s.create_vehicle(p, 10), Err(Message::InvalidPayload(_))));
    let mut p = vehicle_payload("V-1");
    p.capacity = 0;
    assert!(matches!(s.create_vehicle(p, 10), Err(Message::InvalidPayload(_))));
    assert!(matches!(s.get_vehicles(), Err(Message::NotFound(_))));
}

#[test]
fn driver_license_rule() {
    let mut s = fresh_store();
    add_vehicle(&mut s, "V-7");
    let unlicensed = DriverPayload {
        name: "Ada".to_string(),
        license_number: "V-9".to_string(),
        contact_info: "ada@example.com".to_string(),
    };
    assert!(matches!(s.create_driver(unlicensed, 20), Err(Message::InvalidPayload(_))));
    assert!(matches!(s.get_drivers(), Err(Message::NotFound(_))));
    let licensed = DriverPayload {
        name: "Ada".to_string(),
        license_number: "V-7".to_string(),
        contact_info: "ada@example.com".to_string(),
    };
    let d = s.create_driver(licensed, 20).expect("license matches a vehicle");
    assert_eq!(d.license_number, "V-7");
    assert_eq!(d.points, 0);
    assert_eq!(d.created_at, 20);
}

#[test]
fn create_driver_rejects_missing_fields() {
    let mut s = fresh_store();
    add_vehicle(&mut s, "V-1");
    let p = DriverPayload {
        name: String::new(),
        license_number: "V-1".to_string(),
        contact_info: "c".to_string(),
    };
    assert!(matches!(s.create_driver(p, 20), Err(Message::InvalidPayload(_))));
}

#[test]
fn booking_with_unknown_driver_or_vehicle_is_not_found() {
    let mut s = fresh_store();
    let vid = add_vehicle(&mut s, "V-1");
    let p = BookingPayload {
        vehicle_id: vid,
        driver_id: 999,
        from_location: "A".to_string(),
        to_location: "B".to_string(),
        start_time: 1,
        end_time: 2,
    };
    assert!(matches!(s.create_booking(p, 30), Err(Message::NotFound(_))));
    let d = s
        .create_driver(
            DriverPayload {
                name: "Ada".to_string(),
                license_number: "V-1".to_string(),
                contact_info: "c".to_string(),
            },
            20,
        )
        .expect("driver created");
    let p = BookingPayload {
        vehicle_id: 999,
        driver_id: d.id,
        from_location: "A".to_string(),
        to_location: "B".to_string(),
        start_time: 1,
        end_time: 2,
    };
    assert!(matches!(s.create_booking(p, 30), Err(Message::NotFound(_))));
    // No booking was committed, and the vehicle is still available.
    assert!(matches!(s.get_bookings(), Err(Message::NotFound(_))));
    let v = s.get_vehicle_by_id(vid).expect("vehicle stored");
    assert_eq!(v.status, VehicleStatus::Available);
}

#[test]
fn booking_rejects_empty_locations() {
    let mut s = fresh_store();
    let p = BookingPayload {
        vehicle_id: 1,
        driver_id: 1,
        from_location: String::new(),
        to_location: "B".to_string(),
        start_time: 1,
        end_time: 2,
    };
    assert!(matches!(s.create_booking(p, 30), Err(Message::InvalidPayload(_))));
}

#[test]
fn fuel_amount_zero_is_invalid_regardless_of_vehicle() {
    let mut s = fresh_store();
    // No vehicle stored at all: the amount check still comes first.
    let p = FuelConsumptionPayload { vehicle_id: 1, amount: 0, date: 5 };
    assert!(matches!(s.record_fuel_consumption(p), Err(Message::InvalidPayload(_))));
    let vid = add_vehicle(&mut s, "V-1");
    let p = FuelConsumptionPayload { vehicle_id: vid, amount: 0, date: 5 };
    assert!(matches!(s.record_fuel_consumption(p), Err(Message::InvalidPayload(_))));
}

#[test]
fn fuel_with_positive_amount_is_recorded_and_retrievable() {
    let mut s = fresh_store();
    let vid = add_vehicle(&mut s, "V-1");
    let p = FuelConsumptionPayload { vehicle_id: vid, amount: 5, date: 77 };
    let f = s.record_fuel_consumption(p).expect("recorded");
    let fetched = s.get_fuel_consumption_by_id(f.id).expect("retrievable by id");
    assert_eq!(fetched.id, f.id);
    assert_eq!(fetched.vehicle_id, vid);
    assert_eq!(fetched.amount, 5);
    assert_eq!(fetched.date, 77);
}

#[test]
fn fuel_with_unknown_vehicle_is_not_found() {
    let mut s = fresh_store();
    let p = FuelConsumptionPayload { vehicle_id: 42, amount: 5, date: 77 };
    assert!(matches!(s.record_fuel_consumption(p), Err(Message::NotFound(_))));
}

#[test]
fn maintenance_requires_future_date_and_existing_vehicle() {
    let mut s = fresh_store();
    let vid = add_vehicle(&mut s, "V-1");
    let past = MaintenancePayload {
        vehicle_id: vid,
        description: "oil".to_string(),
        scheduled_date: 10,
    };
    assert!(matches!(s.schedule_maintenance(past, 10), Err(Message::InvalidPayload(_))));
    let unknown = MaintenancePayload {
        vehicle_id: 999,
        description: "oil".to_string(),
        scheduled_date: 11,
    };
    assert!(matches!(s.schedule_maintenance(unknown, 10), Err(Message::NotFound(_))));
    let good = MaintenancePayload {
        vehicle_id: vid,
        description: "oil".to_string(),
        scheduled_date: 11,
    };
    let m = s.schedule_maintenance(good, 10).expect("scheduled");
    assert_eq!(m.status, "pending");
    assert_eq!(m.created_at, 10);
    let fetched = s.get_maintenance_by_id(m.id).expect("retrievable");
    assert_eq!(fetched.description, "oil");
}

#[test]
fn emergency_requires_fields_and_existing_vehicle() {
    let mut s = fresh_store();
    let vid = add_vehicle(&mut s, "V-1");
    let missing = EmergencyAssistancePayload {
        vehicle_id: vid,
        description: String::new(),
        location: "here".to_string(),
    };
    assert!(matches!(
        s.request_emergency_assistance(missing, 10),
        Err(Message::InvalidPayload(_))
    ));
    let unknown = EmergencyAssistancePayload {
        vehicle_id: 999,
        description: "stuck".to_string(),
        location: "here".to_string(),
    };
    assert!(matches!(s.request_emergency_assistance(unknown, 10), Err(Message::NotFound(_))));
    let good = EmergencyAssistancePayload {
        vehicle_id: vid,
        description: "stuck".to_string(),
        location: "here".to_string(),
    };
    let e = s.request_emergency_assistance(good, 10).expect("requested");
    assert_eq!(e.status, "pending");
    let fetched = s.get_emergency_assistance_by_id(e.id).expect("retrievable");
    assert_eq!(fetched.location, "here");
}

#[test]
fn route_synthesizes_placeholder_optimization() {
    let mut s = fresh_store();
    let empty = RoutePayload { from_location: String::new(), to_location: "B".to_string() };
    assert!(matches!(s.create_route(empty), Err(Message::InvalidPayload(_))));
    let p = RoutePayload { from_location: "Harbor".to_string(), to_location: "Airport".to_string() };
    let r = s.create_route(p).expect("created");
    assert_eq!(r.optimized_route, "Optimized route from Harbor to Airport");
    assert_eq!(r.distance, 100);
    assert_eq!(r.time_estimate, 3600);
    let fetched = s.get_route_by_id(r.id).expect("retrievable");
    assert_eq!(fetched.optimized_route, "Optimized route from Harbor to Airport");
}

#[test]
fn oversized_record_is_reported_not_truncated() {
    let mut s = fresh_store();
    let p = RoutePayload {
        from_location: "x".repeat(600),
        to_location: "y".repeat(600),
    };
    assert!(matches!(s.create_route(p), Err(Message::Error(_))));
    assert!(matches!(s.get_routes(), Err(Message::NotFound(_))));
}
