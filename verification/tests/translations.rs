use std::sync::Arc;

use gtfs_objects::entities::{
    Agency, Calendar, Id, RawStopTime, Stop, StopTime, Translatable, Trip, Type,
};
use gtfs_objects::date::Date;
use gtfs_objects::enums::{Availability, LocationType, ObjectType};
use gtfs_objects::translation::{
    resolve_translation, FieldEntry, Translation, TranslationByIdKey, TranslationByValueKey,
    TranslationIndex,
};
use gtfs_objects::Error;

fn field(name: &str, value: Option<&str>) -> FieldEntry {
    FieldEntry {
        name: name.to_string(),
        value: value.map(|v| v.to_string()),
    }
}

fn plain_stop(id: &str, name: &str) -> Stop {
    Stop {
        id: id.to_string(),
        code: Some(format!("{}-code", id)),
        name: name.to_string(),
        description: "a description".to_string(),
        location_type: LocationType::StopPoint,
        parent_station: None,
        zone_id: Some("zone-1".to_string()),
        url: Some("http://example.com/stop".to_string()),
        longitude: Some("2.3488".to_string()),
        latitude: Some("48.8534".to_string()),
        timezone: None,
        wheelchair_boarding: Availability::InformationNotAvailable,
        level_id: None,
        platform_code: None,
    }
}

fn id_key(table: &str, fieldname: &str, language: &str, record_id: &str) -> TranslationByIdKey {
    TranslationByIdKey {
        table_name: table.to_string(),
        field_name: fieldname.to_string(),
        language: language.to_string(),
        record_id: record_id.to_string(),
        record_sub_id: None,
    }
}

#[test]
fn resolver_prefers_the_alternate_shape() {
    // All three alternate-shape fields are present, so the record is the
    // alternate shape even though every generic-shape field is present too.
    let fields = vec![
        field("table_name", Some("stops")),
        field("field_name", Some("stop_name")),
        field("language", Some("fr")),
        field("translation", Some("Gare Centrale")),
        field("record_id", Some("stop-1")),
        field("record_sub_id", None),
        field("field_value", None),
        field("trans_id", Some("t-42")),
        field("lang", Some("fr")),
    ];
    let resolved = resolve_translation(&fields).unwrap();
    match resolved {
        Translation::Nmbs(n) => {
            assert_eq!(n.trans_id, "t-42");
            assert_eq!(n.lang, "fr");
            assert_eq!(n.translation, "Gare Centrale");
        }
        Translation::Gtfs(_) => panic!("expected the alternate shape"),
    }
}

#[test]
fn resolver_accepts_the_generic_shape() {
    let fields = vec![
        field("record_sub_id", None),
        field("translation", Some("Gare Centrale")),
        field("field_value", Some("Central Station")),
        field("table_name", Some("stops")),
        field("language", Some("fr")),
        field("record_id", Some("stop-1")),
        field("field_name", Some("stop_name")),
    ];
    let resolved = resolve_translation(&fields).unwrap();
    match resolved {
        Translation::Gtfs(g) => {
            assert_eq!(g.table_name, "stops");
            assert_eq!(g.field_name, "stop_name");
            assert_eq!(g.language, "fr");
            assert_eq!(g.translation, "Gare Centrale");
            assert_eq!(g.record_id, Some("stop-1".to_string()));
            assert_eq!(g.record_sub_id, None);
            assert_eq!(g.field_value, Some("Central Station".to_string()));
        }
        Translation::Nmbs(_) => panic!("expected the generic shape"),
    }
}

#[test]
fn resolver_fails_when_neither_shape_is_satisfied() {
    // "lang" and "trans_id" without "translation", and only a fragment of
    // the generic shape: neither required set is complete.
    let fields = vec![
        field("lang", Some("fr")),
        field("trans_id", Some("t-42")),
        field("table_name", Some("stops")),
    ];
    assert!(matches!(resolve_translation(&fields), Err(Error::Decode(_))));
    let no_fields: Vec<FieldEntry> = Vec::new();
    assert!(matches!(resolve_translation(&no_fields), Err(Error::Decode(_))));
}

#[test]
fn resolver_requires_text_on_text_only_fields() {
    let fields = vec![
        field("lang", Some("fr")),
        field("trans_id", Some("t-42")),
        field("translation", None),
    ];
    assert!(matches!(resolve_translation(&fields), Err(Error::Decode(_))));
}

#[test]
fn resolver_lets_later_duplicates_win() {
    let fields = vec![
        field("lang", Some("fr")),
        field("trans_id", Some("t-1")),
        field("trans_id", Some("t-2")),
        field("translation", Some("texte")),
    ];
    match resolve_translation(&fields).unwrap() {
        Translation::Nmbs(n) => assert_eq!(n.trans_id, "t-2"),
        Translation::Gtfs(_) => panic!("expected the alternate shape"),
    }
}

#[test]
fn index_lookup_finds_inserted_text() {
    let mut index = TranslationIndex::new();
    index.insert_by_id(
        id_key("stops", "stop_name", "fr", "stop-1"),
        "Gare Centrale".to_string(),
    );
    let hit = index.lookup_by_id(&id_key("stops", "stop_name", "fr", "stop-1"));
    assert_eq!(hit, Some(&"Gare Centrale".to_string()));
    let miss = index.lookup_by_id(&id_key("stops", "stop_name", "de", "stop-1"));
    assert_eq!(miss, None);
}

#[test]
fn index_later_insertions_overwrite() {
    let mut index = TranslationIndex::new();
    index.insert_by_id(id_key("stops", "stop_name", "fr", "s"), "premier".to_string());
    index.insert_by_id(id_key("stops", "stop_name", "fr", "s"), "second".to_string());
    let hit = index.lookup_by_id(&id_key("stops", "stop_name", "fr", "s"));
    assert_eq!(hit, Some(&"second".to_string()));
}

#[test]
fn index_value_keys_are_a_separate_namespace() {
    let mut index = TranslationIndex::new();
    index.insert_by_value(
        TranslationByValueKey {
            table_name: "stops".to_string(),
            field_name: "stop_name".to_string(),
            language: "fr".to_string(),
            field_value: "Central Station".to_string(),
        },
        "Gare Centrale".to_string(),
    );
    let hit = index.lookup_by_value(&TranslationByValueKey {
        table_name: "stops".to_string(),
        field_name: "stop_name".to_string(),
        language: "fr".to_string(),
        field_value: "Central Station".to_string(),
    });
    assert_eq!(hit, Some(&"Gare Centrale".to_string()));
    // The id-keyed side of the index does not see text-anchored entries.
    assert_eq!(
        index.lookup_by_id(&id_key("stops", "stop_name", "fr", "Central Station")),
        None
    );
}

#[test]
fn translate_stop_replaces_only_indexed_fields() {
    let mut index = TranslationIndex::new();
    index.insert_by_id(
        id_key("stops", "stop_name", "fr", "stop-1"),
        "Gare Centrale".to_string(),
    );
    let stop = plain_stop("stop-1", "Central Station");
    let localized = stop.translate(&index, "fr");
    // The source is untouched.
    assert_eq!(stop.name, "Central Station");
    // The localized copy keeps its identity and replaces the indexed field.
    assert_eq!(localized.id, stop.id);
    assert_eq!(localized.name, "Gare Centrale");
    // Fields with no matching index entry keep their original text.
    assert_eq!(localized.description, stop.description);
    assert_eq!(localized.code, stop.code);
    assert_eq!(localized.url, stop.url);
    assert_eq!(localized.zone_id, stop.zone_id);
    assert_eq!(localized.longitude, stop.longitude);
    assert_eq!(localized.latitude, stop.latitude);
}

#[test]
fn translate_stop_misses_other_languages_and_ids() {
    let mut index = TranslationIndex::new();
    index.insert_by_id(
        id_key("stops", "stop_name", "fr", "stop-2"),
        "Autre Gare".to_string(),
    );
    let stop = plain_stop("stop-1", "Central Station");
    let localized = stop.translate(&index, "fr");
    assert_eq!(localized.name, "Central Station");
    let localized = stop.translate(&index, "de");
    assert_eq!(localized.name, "Central Station");
}

#[test]
fn translate_trip_localizes_stops_and_trip_text() {
    let mut index = TranslationIndex::new();
    index.insert_by_id(
        id_key("stops", "stop_name", "fr", "stop-1"),
        "Gare Un".to_string(),
    );
    index.insert_by_id(
        id_key("stops", "stop_name", "fr", "stop-2"),
        "Gare Deux".to_string(),
    );
    index.insert_by_id(
        id_key("trips", "trip_headsign", "fr", "trip-1"),
        "Vers la Gare".to_string(),
    );
    // A headsign under a stop's id must never be picked up for the trip.
    index.insert_by_id(
        id_key("trips", "trip_headsign", "fr", "stop-1"),
        "Faux Cap".to_string(),
    );
    let first = Arc::new(plain_stop("stop-1", "Stop One"));
    let second = Arc::new(plain_stop("stop-2", "Stop Two"));
    let trip = Trip {
        id: "trip-1".to_string(),
        service_id: "svc-1".to_string(),
        route_id: "route-1".to_string(),
        stop_times: vec![
            StopTime {
                arrival_time: Some(3600),
                stop: first.clone(),
                departure_time: Some(3660),
                pickup_type: None,
                drop_off_type: None,
                stop_sequence: 10,
                stop_headsign: Some("Raw Headsign".to_string()),
                continuous_pickup: None,
                continuous_drop_off: None,
                shape_dist_traveled: None,
                timepoint: true,
            },
            StopTime {
                arrival_time: Some(7200),
                stop: second.clone(),
                departure_time: None,
                pickup_type: None,
                drop_off_type: None,
                stop_sequence: 20,
                stop_headsign: None,
                continuous_pickup: None,
                continuous_drop_off: None,
                shape_dist_traveled: None,
                timepoint: false,
            },
        ],
        shape_id: None,
        trip_headsign: Some("To Station".to_string()),
        trip_short_name: None,
        direction_id: None,
        block_id: None,
        wheelchair_accessible: None,
        bikes_allowed: None,
    };
    let localized = trip.translate(&index, "fr");
    // Order and sequence numbers are unchanged.
    assert_eq!(localized.stop_times.len(), 2);
    assert_eq!(localized.stop_times[0].stop_sequence, 10);
    assert_eq!(localized.stop_times[1].stop_sequence, 20);
    // Each stop time holds an independently localized stop.
    assert_eq!(localized.stop_times[0].stop.name, "Gare Un");
    assert_eq!(localized.stop_times[1].stop.name, "Gare Deux");
    // The trip's headsign resolves through the trip's own id, never a stop's.
    assert_eq!(localized.trip_headsign, Some("Vers la Gare".to_string()));
    // A stop time's own headsign is left alone.
    assert_eq!(
        localized.stop_times[0].stop_headsign,
        Some("Raw Headsign".to_string())
    );
    // The source trip and its shared stops are untouched.
    assert_eq!(trip.stop_times[0].stop.name, "Stop One");
    assert_eq!(first.name, "Stop One");
    assert_eq!(second.name, "Stop Two");
}

#[test]
fn stop_time_from_combines_row_and_shared_stop() {
    let stop = Arc::new(plain_stop("stop-9", "Ninth"));
    let raw = RawStopTime {
        trip_id: "trip-1".to_string(),
        arrival_time: Some(100),
        departure_time: Some(160),
        stop_id: "stop-9".to_string(),
        stop_sequence: 3,
        stop_headsign: Some("Somewhere".to_string()),
        pickup_type: None,
        drop_off_type: None,
        continuous_pickup: None,
        continuous_drop_off: None,
        shape_dist_traveled: Some("12.5".to_string()),
        timepoint: true,
    };
    let st = StopTime::from(&raw, stop.clone());
    assert_eq!(st.arrival_time, Some(100));
    assert_eq!(st.departure_time, Some(160));
    assert_eq!(st.stop_sequence, 3);
    assert_eq!(st.stop.id, "stop-9");
    assert_eq!(st.stop_headsign, Some("Somewhere".to_string()));
    assert_eq!(st.shape_dist_traveled, Some("12.5".to_string()));
    assert!(st.timepoint);
}

#[test]
fn calendar_answers_weekday_flags() {
    let calendar = Calendar {
        id: "svc-1".to_string(),
        monday: true,
        tuesday: false,
        wednesday: false,
        thursday: false,
        friday: false,
        saturday: false,
        sunday: true,
        start_date: Date { year: 2024, month: 1, day: 1 },
        end_date: Date { year: 2024, month: 12, day: 31 },
    };
    // 2024-01-01 is a Monday, 2024-01-02 a Tuesday, 2024-01-07 a Sunday.
    assert!(calendar.valid_weekday(&Date { year: 2024, month: 1, day: 1 }));
    assert!(!calendar.valid_weekday(&Date { year: 2024, month: 1, day: 2 }));
    assert!(calendar.valid_weekday(&Date { year: 2024, month: 1, day: 7 }));
    assert_eq!(calendar.id(), "svc-1");
    assert_eq!(calendar.object_type(), ObjectType::Calendar);
}

#[test]
fn agency_identity_treats_absent_as_empty() {
    let agency = Agency {
        id: None,
        name: "Metro".to_string(),
        url: "http://example.com".to_string(),
        timezone: "Europe/Paris".to_string(),
        lang: None,
        phone: None,
        fare_url: None,
        email: None,
    };
    assert_eq!(agency.id(), "");
    assert_eq!(agency.object_type(), ObjectType::Agency);
    let named = Agency {
        id: Some("ag-1".to_string()),
        ..agency
    };
    assert_eq!(named.id(), "ag-1");
}

#[test]
fn index_distinguishes_record_sub_ids() {
    let mut index = TranslationIndex::new();
    let sub_key = TranslationByIdKey {
        table_name: "stop_times".to_string(),
        field_name: "stop_headsign".to_string(),
        language: "fr".to_string(),
        record_id: "trip-1".to_string(),
        record_sub_id: Some("3".to_string()),
    };
    index.insert_by_id(sub_key.clone(), "Cap Trois".to_string());
    assert_eq!(index.lookup_by_id(&sub_key), Some(&"Cap Trois".to_string()));
    let without_sub = TranslationByIdKey {
        record_sub_id: None,
        ..sub_key
    };
    assert_eq!(index.lookup_by_id(&without_sub), None);
}

#[test]
fn index_translate_hands_back_original_on_a_miss() {
    let mut index = TranslationIndex::new();
    index.insert_by_id(
        id_key("stops", "stop_name", "fr", "stop-1"),
        "Gare Centrale".to_string(),
    );
    let hit = index.translate("stops", "stop_name", "fr", "stop-1", None, "Central Station");
    assert_eq!(hit, "Gare Centrale");
    let miss = index.translate("stops", "stop_name", "nl", "stop-1", None, "Central Station");
    assert_eq!(miss, "Central Station");
}
