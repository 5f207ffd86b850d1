use gtfs_objects::codec::bool_default_true;
use gtfs_objects::enums::{
    default_location_type, Availability, BikesAllowedType, ContinuousPickupDropOff, DirectionType,
    Exception, LocationType, PaymentMethod, PickupDropOffType, RouteType, Transfers,
    WheelChairAccessibleType,
};
use gtfs_objects::Error;

#[test]
fn route_type_classifies_legacy_codes() {
    assert_eq!(RouteType::decode(0), RouteType::Tramway);
    assert_eq!(RouteType::decode(1), RouteType::Subway);
    assert_eq!(RouteType::decode(2), RouteType::Rail);
    assert_eq!(RouteType::decode(3), RouteType::Bus);
    assert_eq!(RouteType::decode(4), RouteType::Ferry);
    assert_eq!(RouteType::decode(5), RouteType::CableCar);
    assert_eq!(RouteType::decode(6), RouteType::Gondola);
    assert_eq!(RouteType::decode(7), RouteType::Funicular);
}

#[test]
fn route_type_classifies_extended_codes() {
    assert_eq!(RouteType::decode(200), RouteType::Coach);
    assert_eq!(RouteType::decode(1100), RouteType::Air);
    assert_eq!(RouteType::decode(900), RouteType::Tramway);
    assert_eq!(RouteType::decode(1500), RouteType::Taxi);
    assert_eq!(RouteType::decode(101), RouteType::Rail);
    assert_eq!(RouteType::decode(405), RouteType::Subway);
    assert_eq!(RouteType::decode(700), RouteType::Bus);
    assert_eq!(RouteType::decode(873), RouteType::Bus);
    assert_eq!(RouteType::decode(1000), RouteType::Ferry);
    assert_eq!(RouteType::decode(1200), RouteType::Ferry);
    assert_eq!(RouteType::decode(1300), RouteType::Gondola);
    assert_eq!(RouteType::decode(1400), RouteType::Funicular);
}

#[test]
fn route_type_keeps_unrecognized_codes_exactly() {
    assert_eq!(RouteType::decode(1900), RouteType::Other(1900));
    assert_eq!(RouteType::decode(613), RouteType::Other(613));
    assert_eq!(RouteType::decode(1900).encode(), 1900);
}

#[test]
fn route_type_encodes_representative_codes() {
    assert_eq!(RouteType::Coach.encode(), 200);
    assert_eq!(RouteType::Air.encode(), 1100);
    assert_eq!(RouteType::Taxi.encode(), 1500);
    assert_eq!(RouteType::Tramway.encode(), 0);
    assert_eq!(RouteType::Bus.encode(), 3);
    // The named buckets normalize lossily: 900 decodes to the tramway
    // bucket, which re-encodes as the representative code 0.
    assert_eq!(RouteType::decode(900).encode(), 0);
    assert_eq!(RouteType::default(), RouteType::Bus);
}

#[test]
fn transfers_distinguish_absent_from_zero() {
    assert_eq!(Transfers::decode(None), Transfers::Unlimited);
    assert_eq!(Transfers::decode(Some(0)), Transfers::NoTransfer);
    assert_eq!(Transfers::decode(Some(1)), Transfers::UniqueTransfer);
    assert_eq!(Transfers::decode(Some(2)), Transfers::TwoTransfers);
    assert_eq!(Transfers::decode(Some(5)), Transfers::Other(5));
    assert_eq!(Transfers::Unlimited.encode(), None);
    assert_eq!(Transfers::NoTransfer.encode(), Some(0));
    assert_eq!(Transfers::Other(5).encode(), Some(5));
    assert_eq!(Transfers::default(), Transfers::Unlimited);
}

#[test]
fn transfers_survive_a_round_trip() {
    for code in [None, Some(0), Some(1), Some(2), Some(7), Some(60000)] {
        assert_eq!(Transfers::decode(code).encode(), code);
    }
}

#[test]
fn location_type_is_lenient() {
    assert_eq!(LocationType::decode("1"), LocationType::StopArea);
    assert_eq!(LocationType::decode("2"), LocationType::StationEntrance);
    assert_eq!(LocationType::decode("3"), LocationType::GenericNode);
    assert_eq!(LocationType::decode("4"), LocationType::BoardingArea);
    assert_eq!(LocationType::decode("0"), LocationType::StopPoint);
    assert_eq!(LocationType::decode(""), LocationType::StopPoint);
    assert_eq!(LocationType::decode("7"), LocationType::StopPoint);
    assert_eq!(LocationType::decode("garbage"), LocationType::StopPoint);
    assert_eq!(default_location_type(), LocationType::StopPoint);
    assert_eq!(LocationType::default(), LocationType::StopPoint);
}

#[test]
fn availability_defaults_on_absent_values_only() {
    assert_eq!(
        Availability::decode(None),
        Ok(Availability::InformationNotAvailable)
    );
    assert_eq!(
        Availability::decode(Some("0")),
        Ok(Availability::InformationNotAvailable)
    );
    assert_eq!(Availability::decode(Some("1")), Ok(Availability::Available));
    assert_eq!(Availability::decode(Some("2")), Ok(Availability::NotAvailable));
    assert!(matches!(Availability::decode(Some("9")), Err(Error::Decode(_))));
    assert_eq!(Availability::default(), Availability::InformationNotAvailable);
}

#[test]
fn pickup_drop_off_defaults_on_absent_values_only() {
    assert_eq!(
        PickupDropOffType::decode(None),
        Ok(PickupDropOffType::Regular)
    );
    assert_eq!(
        PickupDropOffType::decode(Some("3")),
        Ok(PickupDropOffType::CoordinateWithDriver)
    );
    assert!(matches!(
        PickupDropOffType::decode(Some("x")),
        Err(Error::Decode(_))
    ));
    assert_eq!(PickupDropOffType::default(), PickupDropOffType::Regular);
}

#[test]
fn continuous_pickup_drop_off_defaults_to_not_available() {
    assert_eq!(
        ContinuousPickupDropOff::decode(None),
        Ok(ContinuousPickupDropOff::NotAvailable)
    );
    assert_eq!(
        ContinuousPickupDropOff::decode(Some("0")),
        Ok(ContinuousPickupDropOff::Continuous)
    );
    assert!(matches!(
        ContinuousPickupDropOff::decode(Some("5")),
        Err(Error::Decode(_))
    ));
    assert_eq!(
        ContinuousPickupDropOff::default(),
        ContinuousPickupDropOff::NotAvailable
    );
}

#[test]
fn strict_enumerations_fail_closed() {
    assert_eq!(DirectionType::decode("0"), Ok(DirectionType::Outbound));
    assert_eq!(DirectionType::decode("1"), Ok(DirectionType::Inbound));
    assert!(matches!(DirectionType::decode("2"), Err(Error::Decode(_))));
    assert_eq!(
        BikesAllowedType::decode("1"),
        Ok(BikesAllowedType::AtLeastOneBike)
    );
    assert!(matches!(BikesAllowedType::decode(""), Err(Error::Decode(_))));
    assert_eq!(PaymentMethod::decode("0"), Ok(PaymentMethod::Aboard));
    assert_eq!(PaymentMethod::decode("1"), Ok(PaymentMethod::PreBoarding));
    assert!(matches!(PaymentMethod::decode("2"), Err(Error::Decode(_))));
    assert_eq!(Exception::decode("1"), Ok(Exception::Added));
    assert_eq!(Exception::decode("2"), Ok(Exception::Deleted));
    assert!(matches!(Exception::decode("0"), Err(Error::Decode(_))));
    assert!(bool_default_true());
}

#[test]
fn wheelchair_accessibility_decodes_strictly() {
    assert_eq!(
        WheelChairAccessibleType::decode("0"),
        Ok(WheelChairAccessibleType::NoAccessibilityInfo)
    );
    assert_eq!(
        WheelChairAccessibleType::decode("2"),
        Ok(WheelChairAccessibleType::NotWheelChairAccessible)
    );
    assert!(matches!(
        WheelChairAccessibleType::decode("3"),
        Err(Error::Decode(_))
    ));
}
