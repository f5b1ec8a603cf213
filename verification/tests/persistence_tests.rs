//! Tests of persistence: a store reopened over the same storage space holds
//! the records and the identifier counter a previous owner committed.

use fleet_store::Message;
use fleet_store::store::FleetStore;
use fleet_store::storage::StorageSpace;
use fleet_store::records::vehicle::VehicleStatus;
use fleet_store::services::drivers::DriverPayload;
use fleet_store::services::vehicles::VehiclePayload;
use fleet_store::services::routes::RoutePayload;

#[test]
fn resume_on_fresh_space_starts_empty() {
    let s = FleetStore::resume(StorageSpace::new()).expect("fresh regions validate");
    assert_eq!(s.last_issued_id(), 0);
    assert!(matches!(s.get_vehicles(), Err(Message::NotFound(_))));
    assert!(matches!(s.get_drivers(), Err(Message::NotFound(_))));
}

#[test]
fn store_reopens_with_its_records_and_counter() {
    let mut s = FleetStore::resume(StorageSpace::new()).expect("fresh regions validate");
    let v = s
        .create_vehicle(
            VehiclePayload {
                registration_number: "V-1".to_string(),
                model: "Sprinter".to_string(),
                capacity: 4,
                location: "Depot".to_string(),
            },
            100,
        )
        .expect("vehicle created");
    let d = s
        .create_driver(
            DriverPayload {
                name: "Dana".to_string(),
                license_number: "V-1".to_string(),
                contact_info: "dana@example.com".to_string(),
            },
            110,
        )
        .expect("driver created");
    assert_eq!((v.id, d.id), (1, 2));

    // Hand the storage space back and reopen it: the records and the
    // identifier counter must still be there.
    let space = s.close();
    let mut s = FleetStore::resume(space).expect("persisted regions validate");
    assert_eq!(s.last_issued_id(), 2);
    let vehicles = s.get_vehicles().expect("the vehicle persisted");
    assert_eq!(vehicles.len(), 1);
    assert_eq!(vehicles[0].registration_number, "V-1");
    assert_eq!(vehicles[0].status, VehicleStatus::Available);
    let drivers = s.get_drivers().expect("the driver persisted");
    assert_eq!(drivers.len(), 1);
    assert_eq!(drivers[0].name, "Dana");
    assert_eq!(drivers[0].points, 0);

    // The identifier sequence continues where the previous owner stopped.
    let r = s
        .create_route(RoutePayload {
            from_location: "A".to_string(),
            to_location: "B".to_string(),
        })
        .expect("route created");
    assert_eq!(r.id, 3);
}

#[test]
fn init_discards_what_the_regions_held() {
    let mut s = FleetStore::resume(StorageSpace::new()).expect("fresh regions validate");
    s.create_vehicle(
        VehiclePayload {
            registration_number: "V-1".to_string(),
            model: "M".to_string(),
            capacity: 1,
            location: "L".to_string(),
        },
        10,
    )
    .expect("vehicle created");
    let space = s.close();
    let s = FleetStore::init(space);
    assert_eq!(s.last_issued_id(), 0);
    assert!(matches!(s.get_vehicles(), Err(Message::NotFound(_))));
}
