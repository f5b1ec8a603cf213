//! Round-trip tests of the record codec: decoding an encoding yields the
//! record back, for every entity type, and the size bound is enforced.

use fleet_store::records::driver::{Driver, encode_driver, decode_driver};
use fleet_store::records::vehicle::{Vehicle, VehicleStatus, encode_vehicle, decode_vehicle};
use fleet_store::records::booking::{Booking, encode_booking, decode_booking};
use fleet_store::records::fuel::{FuelConsumption, encode_fuel, decode_fuel};
use fleet_store::records::maintenance::{Maintenance, encode_maintenance, decode_maintenance};
use fleet_store::records::emergency::{
    EmergencyAssistance, encode_emergency, decode_emergency,
};
use fleet_store::records::route::{Route, encode_route, decode_route};

#[test]
fn driver_round_trip() {
    let d = Driver {
        id: 7,
        name: "Grace Hopper".to_string(),
        license_number: "V-42".to_string(),
        contact_info: "grace@example.com".to_string(),
        points: 12,
        created_at: 1_700_000_000,
    };
    let bytes = encode_driver(&d).expect("within the size bound");
    assert!(bytes.len() <= fleet_store::MAX_RECORD_BYTES);
    let back = decode_driver(&bytes).expect("decodes");
    assert_eq!(back.id, 7);
    assert_eq!(back.name, "Grace Hopper");
    assert_eq!(back.license_number, "V-42");
    assert_eq!(back.contact_info, "grace@example.com");
    assert_eq!(back.points, 12);
    assert_eq!(back.created_at, 1_700_000_000);
}

#[test]
fn driver_round_trip_unicode_and_empty_fields() {
    let d = Driver {
        id: u64::MAX,
        name: "Đuro Škrlec 🚚".to_string(),
        license_number: String::new(),
        contact_info: "ø".to_string(),
        points: 0,
        created_at: 0,
    };
    let bytes = encode_driver(&d).expect("within the size bound");
    let back = decode_driver(&bytes).expect("decodes");
    assert_eq!(back.id, u64::MAX);
    assert_eq!(back.name, "Đuro Škrlec 🚚");
    assert_eq!(back.license_number, "");
    assert_eq!(back.contact_info, "ø");
}

#[test]
fn vehicle_round_trip() {
    let v = Vehicle {
        id: 3,
        registration_number: "ZG-1234-AB".to_string(),
        model: "Crown Victoria".to_string(),
        capacity: 5,
        status: VehicleStatus::Booked,
        location: "Lot 49".to_string(),
        created_at: 99,
    };
    let bytes = encode_vehicle(&v).expect("within the size bound");
    let back = decode_vehicle(&bytes).expect("decodes");
    assert_eq!(back.id, 3);
    assert_eq!(back.registration_number, "ZG-1234-AB");
    assert_eq!(back.model, "Crown Victoria");
    assert_eq!(back.capacity, 5);
    assert_eq!(back.status, VehicleStatus::Booked);
    assert_eq!(back.location, "Lot 49");
    assert_eq!(back.created_at, 99);
}

#[test]
fn vehicle_round_trip_each_status() {
    for status in [VehicleStatus::Available, VehicleStatus::Booked, VehicleStatus::Maintenance] {
        let v = Vehicle {
            id: 1,
            registration_number: "R".to_string(),
            model: "M".to_string(),
            capacity: 1,
            status,
            location: "L".to_string(),
            created_at: 1,
        };
        let bytes = encode_vehicle(&v).expect("within the size bound");
        let back = decode_vehicle(&bytes).expect("decodes");
        assert_eq!(back.status, status);
    }
}

#[test]
fn booking_round_trip() {
    let b = Booking {
        id: 11,
        vehicle_id: 3,
        driver_id: 7,
        from_location: "North Depot".to_string(),
        to_location: "South Depot".to_string(),
        start_time: 100,
        end_time: 200,
        status: "pending".to_string(),
        created_at: 50,
    };
    let bytes = encode_booking(&b).expect("within the size bound");
    let back = decode_booking(&bytes).expect("decodes");
    assert_eq!(back.id, 11);
    assert_eq!(back.vehicle_id, 3);
    assert_eq!(back.driver_id, 7);
    assert_eq!(back.from_location, "North Depot");
    assert_eq!(back.to_location, "South Depot");
    assert_eq!(back.start_time, 100);
    assert_eq!(back.end_time, 200);
    assert_eq!(back.status, "pending");
    assert_eq!(back.created_at, 50);
}

#[test]
fn fuel_round_trip() {
    let f = FuelConsumption { id: 4, vehicle_id: 3, amount: 55, date: 20240101 };
    let bytes = encode_fuel(&f).expect("within the size bound");
    let back = decode_fuel(&bytes).expect("decodes");
    assert_eq!(back.id, 4);
    assert_eq!(back.vehicle_id, 3);
    assert_eq!(back.amount, 55);
    assert_eq!(back.date, 20240101);
}

#[test]
fn maintenance_round_trip() {
    let m = Maintenance {
        id: 5,
        vehicle_id: 3,
        description: "brake pads".to_string(),
        scheduled_date: 777,
        status: "pending".to_string(),
        created_at: 42,
    };
    let bytes = encode_maintenance(&m).expect("within the size bound");
    let back = decode_maintenance(&bytes).expect("decodes");
    assert_eq!(back.id, 5);
    assert_eq!(back.vehicle_id, 3);
    assert_eq!(back.description, "brake pads");
    assert_eq!(back.scheduled_date, 777);
    assert_eq!(back.status, "pending");
    assert_eq!(back.created_at, 42);
}

#[test]
fn emergency_round_trip() {
    let e = EmergencyAssistance {
        id: 6,
        vehicle_id: 3,
        description: "flat tire".to_string(),
        location: "Route 66".to_string(),
        status: "pending".to_string(),
        created_at: 43,
    };
    let bytes = encode_emergency(&e).expect("within the size bound");
    let back = decode_emergency(&bytes).expect("decodes");
    assert_eq!(back.id, 6);
    assert_eq!(back.vehicle_id, 3);
    assert_eq!(back.description, "flat tire");
    assert_eq!(back.location, "Route 66");
    assert_eq!(back.status, "pending");
    assert_eq!(back.created_at, 43);
}

#[test]
fn route_round_trip() {
    let r = Route {
        id: 9,
        from_location: "A".to_string(),
        to_location: "B".to_string(),
        optimized_route: "Optimized route from A to B".to_string(),
        distance: 100,
        time_estimate: 3600,
    };
    let bytes = encode_route(&r).expect("within the size bound");
    let back = decode_route(&bytes).expect("decodes");
    assert_eq!(back.id, 9);
    assert_eq!(back.from_location, "A");
    assert_eq!(back.to_location, "B");
    assert_eq!(back.optimized_route, "Optimized route from A to B");
    assert_eq!(back.distance, 100);
    assert_eq!(back.time_estimate, 3600);
}

#[test]
fn encode_rejects_oversized_record() {
    let d = Driver {
        id: 1,
        name: "x".repeat(2000),
        license_number: "V-1".to_string(),
        contact_info: "c".to_string(),
        points: 0,
        created_at: 0,
    };
    assert!(encode_driver(&d).is_none());
}

#[test]
fn decode_rejects_truncated_bytes() {
    let d = Driver {
        id: 1,
        name: "n".to_string(),
        license_number: "V-1".to_string(),
        contact_info: "c".to_string(),
        points: 0,
        created_at: 0,
    };
    let mut bytes = encode_driver(&d).expect("within the size bound");
    bytes.pop();
    assert!(decode_driver(&bytes).is_none());
    assert!(decode_driver(&Vec::new()).is_none());
}
