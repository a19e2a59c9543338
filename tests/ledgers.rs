use flats::error::FlatsError;
use flats::house::{House, HouseInfo};
use flats::ledger::{Date, HouseContract};
use flats::units::UnitLedger;
use flats::NEAR;

const IMAGE: &str = "https://dynamic-media-cdn.tripadvisor.com/media/photo-o/1c/d3/c1/64/exterior.jpg?w=800&h=-1&s=1";

fn dummy_house(name: &str) -> House {
    House::new(
        name.to_string(),
        NEAR * 15,
        "-1.227807,36.989969".to_string(),
        "Wifi,2 Swimming pools".to_string(),
        IMAGE.to_string(),
    )
    .unwrap()
}

fn dummy_flat_contract() -> HouseContract {
    HouseContract::new("borwe.near".to_string(), dummy_house("flat.rental")).unwrap()
}

fn towers(units: usize) -> UnitLedger {
    UnitLedger::new("borwe.near".to_string(), dummy_house("borwe_towers"), units).unwrap()
}

#[test]
fn test_handling_rooms() {
    let mut contract = dummy_flat_contract();
    assert!(contract.check_date_available(1, 1, 2022) == true, "Room shouldn't be available");
    assert!(
        contract.book_house(1, 1, 2022, "bob.near".to_string(), NEAR * 15, 0) == Ok(true),
        "Should be able to book this room"
    );
    assert!(contract.check_date_available(1, 1, 2022) == false, "Room shouldn't be available");
}

#[test]
fn test_flat_creation() {
    let flat = House::new(
        "borwe_towers".to_string(),
        NEAR * 15,
        "1.000,1.000".to_string(),
        "Wifi, 2 Swimming pools".to_string(),
        IMAGE.to_string(),
    );
    assert!(flat.is_ok());
}

#[test]
#[should_panic]
fn test_flat_creation_failure() {
    let _flat = House::new(
        "borwe_towers".to_string(),
        NEAR * 15,
        "1.000,1.000,1.000".to_string(),
        "Wifi,2 Swimming pools".to_string(),
        IMAGE.to_string(),
    )
    .unwrap();
}

#[test]
fn house_features_split_at_commas() {
    let h = dummy_house("borwe_towers");
    assert_eq!(h.features, vec!["Wifi".to_string(), "2 Swimming pools".to_string()]);
    let h = House::new("x".to_string(), 1, "1,2".to_string(), "".to_string(), "".to_string()).unwrap();
    assert_eq!(h.features, vec!["".to_string()]);
    let h = House::new("x".to_string(), 1, "1,2".to_string(), "a,,b,".to_string(), "".to_string()).unwrap();
    assert_eq!(h.features, vec!["a".to_string(), "".to_string(), "b".to_string(), "".to_string()]);
}

#[test]
fn house_invariants_are_checked() {
    let bad_price = House::new("x".to_string(), 0, "1,2".to_string(), "a".to_string(), "".to_string());
    assert_eq!(bad_price.err(), Some(FlatsError::InvalidProperty));
    let bad_name = House::new("".to_string(), 5, "1,2".to_string(), "a".to_string(), "".to_string());
    assert_eq!(bad_name.err(), Some(FlatsError::InvalidProperty));
    let no_comma = House::new("x".to_string(), 5, "12".to_string(), "a".to_string(), "".to_string());
    assert_eq!(no_comma.err(), Some(FlatsError::InvalidProperty));
    let h = dummy_house("x");
    assert!(h.assert_location_valid());
    let mut h2 = dummy_house("x");
    h2.location = "1,2,3".to_string();
    assert!(!h2.assert_location_valid());
    assert_eq!(HouseContract::new("o".to_string(), h2).err(), Some(FlatsError::InvalidProperty));
}

#[test]
fn house_info_projects_the_house() {
    let info: HouseInfo = dummy_flat_contract().get_house_info();
    assert_eq!(info.name, "flat.rental");
    assert_eq!(info.price, NEAR * 15);
    assert_eq!(info.location, "-1.227807,36.989969");
    assert_eq!(info.features.len(), 2);
    assert_eq!(info.image, IMAGE);
    let units_info = towers(3).get_house_info();
    assert_eq!(units_info.name, "borwe_towers");
    assert_eq!(units_info.features, vec!["Wifi".to_string(), "2 Swimming pools".to_string()]);
}

#[test]
fn free_date_books_and_becomes_unavailable() {
    let mut c = dummy_flat_contract();
    for day in 1..5u32 {
        assert!(c.check_date_available(day, 3, 2024));
        assert_eq!(c.book_house(day, 3, 2024, "amy.near".to_string(), NEAR * 15, 7), Ok(true));
        assert!(!c.check_date_available(day, 3, 2024));
    }
    assert!(c.check_date_available(5, 3, 2024));
}

#[test]
fn second_booking_of_a_date_is_unavailable() {
    let mut c = dummy_flat_contract();
    assert_eq!(c.book_house(2, 2, 2023, "bob.near".to_string(), NEAR * 15, 1), Ok(true));
    assert_eq!(
        c.book_house(2, 2, 2023, "bob.near".to_string(), NEAR * 15, 2),
        Err(FlatsError::Unavailable)
    );
    assert_eq!(c.payment_history(&"bob.near".to_string()).len(), 1);
}

#[test]
fn booking_with_wrong_amount_is_refused() {
    let mut c = dummy_flat_contract();
    let p = NEAR * 15;
    for amount in [p - 1, p + 1, 0] {
        assert_eq!(
            c.book_house(9, 9, 2024, "bob.near".to_string(), amount, 0),
            Err(FlatsError::PriceMismatch)
        );
        assert!(c.check_date_available(9, 9, 2024));
    }
    let mut u = towers(5);
    for amount in [p - 1, p + 1, 0] {
        assert_eq!(u.book_unit(2, "bob.near".to_string(), amount, 0), Err(FlatsError::PriceMismatch));
        assert!(u.room_is_available(2));
    }
}

#[test]
fn booking_a_non_positive_year_is_invalid() {
    let mut c = dummy_flat_contract();
    assert_eq!(
        c.book_house(1, 1, 0, "bob.near".to_string(), NEAR * 15, 0),
        Err(FlatsError::InvalidInput)
    );
    assert_eq!(
        c.book_house(1, 1, -3, "bob.near".to_string(), NEAR * 15, 0),
        Err(FlatsError::InvalidInput)
    );
    // Calendar-invalid dates are accepted: only the year is checked.
    assert_eq!(c.book_house(40, 13, 2022, "bob.near".to_string(), NEAR * 15, 0), Ok(true));
}

#[test]
fn verify_tells_the_occupant() {
    let mut c = dummy_flat_contract();
    assert!(!c.verify(1, 1, 2022, &"bob.near".to_string()));
    c.book_house(1, 1, 2022, "bob.near".to_string(), NEAR * 15, 0).unwrap();
    assert!(c.verify(1, 1, 2022, &"bob.near".to_string()));
    assert!(!c.verify(1, 1, 2022, &"eve.near".to_string()));
    assert!(!c.verify(2, 1, 2022, &"bob.near".to_string()));
    assert_eq!(c.get_owner(), "borwe.near");
}

#[test]
fn payments_are_recorded_per_account() {
    let mut c = dummy_flat_contract();
    c.book_house(1, 1, 2022, "bob.near".to_string(), NEAR * 15, 100).unwrap();
    c.book_house(2, 1, 2022, "amy.near".to_string(), NEAR * 15, 200).unwrap();
    c.book_house(3, 1, 2022, "bob.near".to_string(), NEAR * 15, 300).unwrap();
    let h = c.payment_history(&"bob.near".to_string());
    assert_eq!(h.len(), 2);
    assert_eq!(h[0].time_of_payment, 100);
    assert_eq!(h[0].book_date, Date::new(1, 1, 2022));
    assert_eq!(h[0].price, NEAR * 15);
    assert_eq!(h[1].time_of_payment, 300);
    assert_eq!(h[1].book_date, Date::new(3, 1, 2022));
    assert!(c.payment_history(&"zed.near".to_string()).is_empty());
}

#[test]
fn unlock_without_notice_answers_false() {
    let mut u = towers(4);
    let owner = "borwe.near".to_string();
    assert_eq!(u.unlock_unit(1, &owner), Ok(false));
    u.book_unit(1, "amy.near".to_string(), NEAR * 15, 0).unwrap();
    assert_eq!(u.unlock_unit(1, &owner), Ok(false));
    assert!(!u.room_is_available(1));
    assert_eq!(u.flag_non_renewal(1, &"amy.near".to_string()), Ok(true));
    assert_eq!(u.unlock_unit(1, &owner), Ok(true));
    assert!(u.room_is_available(1));
    assert_eq!(u.unlock_unit(1, &owner), Ok(false));
}

#[test]
fn only_the_occupant_flags_and_only_the_owner_unlocks() {
    let mut u = towers(4);
    u.book_unit(3, "amy.near".to_string(), NEAR * 15, 0).unwrap();
    assert_eq!(u.flag_non_renewal(3, &"eve.near".to_string()), Err(FlatsError::Forbidden));
    assert_eq!(u.flag_non_renewal(3, &"borwe.near".to_string()), Err(FlatsError::Forbidden));
    assert_eq!(u.flag_non_renewal(3, &"amy.near".to_string()), Ok(true));
    assert_eq!(u.unlock_unit(3, &"amy.near".to_string()), Err(FlatsError::Forbidden));
    assert_eq!(u.unlock_unit(3, &"eve.near".to_string()), Err(FlatsError::Forbidden));
    assert!(!u.room_is_available(3));
}

#[test]
fn unit_errors() {
    let mut u = towers(2);
    assert_eq!(u.book_unit(2, "amy.near".to_string(), NEAR * 15, 0), Err(FlatsError::NotFound));
    assert_eq!(u.flag_non_renewal(7, &"amy.near".to_string()), Err(FlatsError::NotFound));
    assert_eq!(u.unlock_unit(7, &"borwe.near".to_string()), Err(FlatsError::NotFound));
    assert_eq!(u.flag_non_renewal(0, &"amy.near".to_string()), Err(FlatsError::NotOccupied));
    u.book_unit(0, "amy.near".to_string(), NEAR * 15, 0).unwrap();
    assert_eq!(u.book_unit(0, "bob.near".to_string(), NEAR * 15, 0), Err(FlatsError::Unavailable));
    assert!(!u.room_is_available(2));
    assert!(u.verify_occupant(0, &"amy.near".to_string()));
    assert!(!u.verify_occupant(0, &"bob.near".to_string()));
    assert!(!u.verify_occupant(1, &"amy.near".to_string()));
    assert_eq!(u.unit_count(), 2);
    assert_eq!(u.get_owner(), "borwe.near");
}

#[test]
fn pending_units_listed_by_ascending_id() {
    let mut u = towers(6);
    for (id, who) in [(4usize, "d.near"), (1, "a.near"), (2, "b.near")] {
        u.book_unit(id, who.to_string(), NEAR * 15, 0).unwrap();
    }
    assert!(u.list_pending_vacate().is_empty());
    u.flag_non_renewal(4, &"d.near".to_string()).unwrap();
    u.flag_non_renewal(1, &"a.near".to_string()).unwrap();
    let pending = u.list_pending_vacate();
    let ids: Vec<usize> = pending.iter().map(|x| x.id).collect();
    assert_eq!(ids, vec![1, 4]);
    assert_eq!(pending[1].occupant, Some("d.near".to_string()));
    assert!(pending[0].pending_vacate && !pending[0].is_available);
}

#[test]
fn borwe_towers_unit_cycle() {
    let p = NEAR * 15;
    let mut u = towers(300);
    assert_eq!(u.unit_count(), 300);
    assert!(u.room_is_available(10));
    assert_eq!(u.book_unit(10, "a.near".to_string(), p, 0), Ok(true));
    assert!(!u.room_is_available(10));
    assert_eq!(u.flag_non_renewal(10, &"a.near".to_string()), Ok(true));
    let pending = u.list_pending_vacate();
    assert_eq!(pending.len(), 1);
    assert_eq!(pending[0].id, 10);
    assert_eq!(u.unlock_unit(10, &"borwe.near".to_string()), Ok(true));
    assert!(u.room_is_available(10));
    assert_eq!(u.book_unit(10, "b.near".to_string(), p, 1), Ok(true));
    assert!(u.verify_occupant(10, &"b.near".to_string()));
}
