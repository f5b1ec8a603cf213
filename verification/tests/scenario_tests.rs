//! End-to-end scenarios: the booking lifecycle and the global identifier
//! sequence across a mix of entity types.

use fleet_store::Message;
use fleet_store::store::FleetStore;
use fleet_store::storage::StorageSpace;
use fleet_store::records::vehicle::VehicleStatus;
use fleet_store::services::drivers::DriverPayload;
use fleet_store::services::vehicles::VehiclePayload;
use fleet_store::services::bookings::BookingPayload;
use fleet_store::services::fuel::FuelConsumptionPayload;
use fleet_store::services::routes::RoutePayload;

#[test]
fn booking_lifecycle_scenario() {
    let mut s = FleetStore::init(StorageSpace::new());

    // Create vehicle A with registration "V-1" and capacity 4: it gets id 1.
    let vehicle_a = s
        .create_vehicle(
            VehiclePayload {
                registration_number: "V-1".to_string(),
                model: "Sprinter".to_string(),
                capacity: 4,
                location: "Depot".to_string(),
            },
            100,
        )
        .expect("vehicle created");
    assert_eq!(vehicle_a.id, 1);
    assert_eq!(vehicle_a.status, VehicleStatus::Available);

    // Create driver D with license "V-1": it succeeds with id 2 and 0 points.
    let driver_d = s
        .create_driver(
            DriverPayload {
                name: "Dana".to_string(),
                license_number: "V-1".to_string(),
                contact_info: "dana@example.com".to_string(),
            },
            110,
        )
        .expect("driver created");
    assert_eq!(driver_d.id, 2);
    assert_eq!(driver_d.points, 0);

    // Book A for D: the booking starts pending and A becomes Booked.
    let booking = s
        .create_booking(
            BookingPayload {
                vehicle_id: vehicle_a.id,
                driver_id: driver_d.id,
                from_location: "Depot".to_string(),
                to_location: "Harbor".to_string(),
                start_time: 120,
                end_time: 130,
            },
            115,
        )
        .expect("booking created");
    assert_eq!(booking.id, 3);
    assert_eq!(booking.status, "pending");
    assert_eq!(booking.vehicle_id, vehicle_a.id);
    assert_eq!(booking.driver_id, driver_d.id);
    let a_after = s.get_vehicle_by_id(vehicle_a.id).expect("vehicle stored");
    assert_eq!(a_after.status, VehicleStatus::Booked);

    // A second booking against A fails: the vehicle is no longer available,
    // and nothing changes.
    let second = s.create_booking(
        BookingPayload {
            vehicle_id: vehicle_a.id,
            driver_id: driver_d.id,
            from_location: "Harbor".to_string(),
            to_location: "Depot".to_string(),
            start_time: 140,
            end_time: 150,
        },
        135,
    );
    assert!(matches!(second, Err(Message::InvalidPayload(_))));
    let bookings = s.get_bookings().expect("one booking stored");
    assert_eq!(bookings.len(), 1);
    assert_eq!(bookings[0].id, booking.id);
    let a_still = s.get_vehicle_by_id(vehicle_a.id).expect("vehicle stored");
    assert_eq!(a_still.status, VehicleStatus::Booked);
}

#[test]
fn ids_strictly_increase_across_entity_types() {
    let mut s = FleetStore::init(StorageSpace::new());
    let v1 = s
        .create_vehicle(
            VehiclePayload {
                registration_number: "V-1".to_string(),
                model: "M".to_string(),
                capacity: 2,
                location: "L".to_string(),
            },
            10,
        )
        .expect("vehicle created");
    let r1 = s
        .create_route(RoutePayload {
            from_location: "A".to_string(),
            to_location: "B".to_string(),
        })
        .expect("route created");
    let f1 = s
        .record_fuel_consumption(FuelConsumptionPayload {
            vehicle_id: v1.id,
            amount: 9,
            date: 1,
        })
        .expect("fuel recorded");
    let d1 = s
        .create_driver(
            DriverPayload {
                name: "N".to_string(),
                license_number: "V-1".to_string(),
                contact_info: "c".to_string(),
            },
            20,
        )
        .expect("driver created");
    let ids = [v1.id, r1.id, f1.id, d1.id];
    assert_eq!(ids, [1, 2, 3, 4]);
    for w in ids.windows(2) {
        assert!(w[0] < w[1]);
    }
    // A failed creation issues no identifier.
    let rejected = s.record_fuel_consumption(FuelConsumptionPayload {
        vehicle_id: v1.id,
        amount: 0,
        date: 1,
    });
    assert!(matches!(rejected, Err(Message::InvalidPayload(_))));
    let v2 = s
        .create_vehicle(
            VehiclePayload {
                registration_number: "V-2".to_string(),
                model: "M".to_string(),
                capacity: 2,
                location: "L".to_string(),
            },
            30,
        )
        .expect("vehicle created");
    assert_eq!(v2.id, 5);
}

#[test]
fn listings_hold_records_of_their_own_type_only() {
    let mut s = FleetStore::init(StorageSpace::new());
    let v = s
        .create_vehicle(
            VehiclePayload {
                registration_number: "V-1".to_string(),
                model: "M".to_string(),
                capacity: 2,
                location: "L".to_string(),
            },
            10,
        )
        .expect("vehicle created");
    s.create_driver(
        DriverPayload {
            name: "N".to_string(),
            license_number: "V-1".to_string(),
            contact_info: "c".to_string(),
        },
        20,
    )
    .expect("driver created");
    assert_eq!(s.get_vehicles().expect("stored").len(), 1);
    assert_eq!(s.get_drivers().expect("stored").len(), 1);
    assert!(matches!(s.get_bookings(), Err(Message::NotFound(_))));
    assert_eq!(s.get_vehicle_by_id(v.id).expect("stored").model, "M");
}
