//! The canonical shapes of the transit concepts, the capability traits
//! they expose, and the localization overlay that produces
//! language-specific copies of entities through the translation index.

use vstd::prelude::*;

use std::sync::Arc;

use crate::codec::Rgb;
use crate::date::day_of_week;
use crate::date::weekday_number;
use crate::date::Date;
use crate::enums::Availability;
use crate::enums::BikesAllowedType;
use crate::enums::ContinuousPickupDropOff;
use crate::enums::DirectionType;
use crate::enums::Exception;
use crate::enums::LocationType;
use crate::enums::ObjectType;
use crate::enums::PaymentMethod;
use crate::enums::PickupDropOffType;
use crate::enums::RouteType;
use crate::enums::Transfers;
use crate::enums::WheelChairAccessibleType;
use crate::translation::spec_id_key;
use crate::translation::spec_resolve_text;
use crate::translation::IdKeyView;
use crate::translation::TranslationIndex;

verus! {

/// The view of an optional owned text.
pub open spec fn opt_string_view(o: Option<String>) -> Option<Seq<char>> {
    match o {
        None => None,
        Some(s) => Some(s@),
    }
}

/// An entity with a stable identity within its table.
pub trait Id {
    /// The identity text of the entity.
    spec fn spec_id(&self) -> Seq<char>;

    /// Hands the identity out as borrowed text.
    fn id(&self) -> (r: &str)
        ensures
            r@ == self.spec_id(),
    ;
}

/// An entity that knows which table it belongs to.
pub trait Type {
    /// The table of the entity.
    spec fn spec_object_type(&self) -> ObjectType;

    /// Hands the table tag out.
    fn object_type(&self) -> (r: ObjectType)
        ensures
            r == self.spec_object_type(),
    ;
}

/// An entity that can be copied with its text fields replaced by
/// translations looked up in the index. The copy is fresh: the source is
/// never touched, and a field with no matching index entry keeps its
/// original text.
pub trait Translatable: View + Sized {
    /// The localized copy, over the index's row-anchored map.
    spec fn spec_localized(&self, m: Map<IdKeyView, Seq<char>>, language: Seq<char>) -> Self::V;

    /// Builds the localized copy.
    fn translate(&self, index: &TranslationIndex, language: &str) -> (r: Self)
        ensures
            r@ == self.spec_localized(index@.by_id, language@),
    ;
}

/// The operator of services: name, home page and timezone, with an
/// optional identity (an absent id is the empty text, not a null).
#[derive(Debug, Clone)]
pub struct Agency {
    pub id: Option<String>,
    pub name: String,
    pub url: String,
    pub timezone: String,
    pub lang: Option<String>,
    pub phone: Option<String>,
    pub fare_url: Option<String>,
    pub email: Option<String>,
}

impl Type for Agency {
    open spec fn spec_object_type(&self) -> ObjectType {
        ObjectType::Agency
    }

    fn object_type(&self) -> (r: ObjectType) {
        ObjectType::Agency
    }
}

impl Id for Agency {
    open spec fn spec_id(&self) -> Seq<char> {
        match self.id {
            None => Seq::empty(),
            Some(s) => s@,
        }
    }

    fn id(&self) -> (r: &str) {
        match &self.id {
            None => {
                let r = "";
                proof {
                    reveal_strlit("");
                    assert(r@ =~= Seq::<char>::empty());
                }
                r
            },
            Some(id) => id.as_str(),
        }
    }
}

/// A weekly service pattern: seven weekday flags and an inclusive date
/// range. This layer only answers whether a weekday is flagged; range
/// inclusion is the caller's separate check.
#[derive(Debug, Clone)]
pub struct Calendar {
    pub id: String,
    pub monday: bool,
    pub tuesday: bool,
    pub wednesday: bool,
    pub thursday: bool,
    pub friday: bool,
    pub saturday: bool,
    pub sunday: bool,
    pub start_date: Date,
    pub end_date: Date,
}

impl Type for Calendar {
    open spec fn spec_object_type(&self) -> ObjectType {
        ObjectType::Calendar
    }

    fn object_type(&self) -> (r: ObjectType) {
        ObjectType::Calendar
    }
}

impl Id for Calendar {
    open spec fn spec_id(&self) -> Seq<char> {
        self.id@
    }

    fn id(&self) -> (r: &str) {
        self.id.as_str()
    }
}

impl Calendar {
    /// The flag of weekday `w`, numbered 0 for Monday through 6 for
    /// Sunday; any other number is unflagged.
    pub open spec fn spec_weekday_flag(self, w: int) -> bool {
        if w == 0 {
            self.monday
        } else if w == 1 {
            self.tuesday
        } else if w == 2 {
            self.wednesday
        } else if w == 3 {
            self.thursday
        } else if w == 4 {
            self.friday
        } else if w == 5 {
            self.saturday
        } else if w == 6 {
            self.sunday
        } else {
            false
        }
    }

    /// Answers the flag of one weekday number.
    pub fn weekday_flag(&self, w: u8) -> (r: bool)
        ensures
            r == self.spec_weekday_flag(w as int),
    {
        if w == 0 {
            self.monday
        } else if w == 1 {
            self.tuesday
        } else if w == 2 {
            self.wednesday
        } else if w == 3 {
            self.thursday
        } else if w == 4 {
            self.friday
        } else if w == 5 {
            self.saturday
        } else if w == 6 {
            self.sunday
        } else {
            false
        }
    }

    /// Whether this service runs on `date`'s weekday, independent of the
    /// date range.
    pub fn valid_weekday(&self, date: &Date) -> (r: bool)
        requires
            date.well_formed(),
        ensures
            r == self.spec_weekday_flag(
                day_of_week(date.year as int, date.month as int, date.day as int),
            ),
    {
        let w = weekday_number(date);
        self.weekday_flag(w)
    }
}

/// One exception to a weekly service pattern: service added or removed on
/// one date.
#[derive(Debug, Clone)]
pub struct CalendarDate {
    pub service_id: String,
    pub date: Date,
    pub exception_type: Exception,
}

/// One point of a shape polyline: one row per point, not a whole
/// polyline. Coordinates and distances are carried as their source text;
/// their numeric reading is outside this layer.
#[derive(Debug, Clone)]
pub struct Shape {
    pub id: String,
    pub latitude: String,
    pub longitude: String,
    pub sequence: usize,
    pub dist_traveled: Option<String>,
}

impl Type for Shape {
    open spec fn spec_object_type(&self) -> ObjectType {
        ObjectType::Shape
    }

    fn object_type(&self) -> (r: ObjectType) {
        ObjectType::Shape
    }
}

impl Id for Shape {
    open spec fn spec_id(&self) -> Seq<char> {
        self.id@
    }

    fn id(&self) -> (r: &str) {
        self.id.as_str()
    }
}

/// A fare: price kept as raw text (currency precision is not parsed
/// numerically), payment method and transfer allowance.
#[derive(Debug, Clone)]
pub struct FareAttribute {
    pub id: String,
    pub price: String,
    pub currency: String,
    pub payment_method: PaymentMethod,
    pub transfers: Transfers,
    pub agency_id: Option<String>,
    pub transfer_duration: Option<usize>,
}

impl Id for FareAttribute {
    open spec fn spec_id(&self) -> Seq<char> {
        self.id@
    }

    fn id(&self) -> (r: &str) {
        self.id.as_str()
    }
}

impl Type for FareAttribute {
    open spec fn spec_object_type(&self) -> ObjectType {
        ObjectType::Fare
    }

    fn object_type(&self) -> (r: ObjectType) {
        ObjectType::Fare
    }
}

/// The feed's own metadata: publisher, language and validity window. It
/// has no stable identity.
#[derive(Debug, Clone)]
pub struct FeedInfo {
    pub name: String,
    pub url: String,
    pub lang: String,
    pub default_lang: Option<String>,
    pub start_date: Option<Date>,
    pub end_date: Option<Date>,
    pub version: Option<String>,
    pub contact_email: Option<String>,
    pub contact_url: Option<String>,
}

/// A trip as its source row spells it, before its stop times are attached.
#[derive(Debug, Clone)]
pub struct RawTrip {
    pub id: String,
    pub service_id: String,
    pub route_id: String,
    pub shape_id: Option<String>,
    pub trip_headsign: Option<String>,
    pub trip_short_name: Option<String>,
    pub direction_id: Option<DirectionType>,
    pub block_id: Option<String>,
    pub wheelchair_accessible: Option<WheelChairAccessibleType>,
    pub bikes_allowed: Option<BikesAllowedType>,
}

impl Type for RawTrip {
    open spec fn spec_object_type(&self) -> ObjectType {
        ObjectType::Trip
    }

    fn object_type(&self) -> (r: ObjectType) {
        ObjectType::Trip
    }
}

impl Id for RawTrip {
    open spec fn spec_id(&self) -> Seq<char> {
        self.id@
    }

    fn id(&self) -> (r: &str) {
        self.id.as_str()
    }
}

/// A stop time as its source row spells it, keyed by a stop id, before
/// the shared stop handle is resolved. Distances are carried as source
/// text; arrival and departure may be absent for interpolated stops.
#[derive(Debug, Clone)]
pub struct RawStopTime {
    pub trip_id: String,
    pub arrival_time: Option<u32>,
    pub departure_time: Option<u32>,
    pub stop_id: String,
    pub stop_sequence: u16,
    pub stop_headsign: Option<String>,
    pub pickup_type: Option<PickupDropOffType>,
    pub drop_off_type: Option<PickupDropOffType>,
    pub continuous_pickup: Option<ContinuousPickupDropOff>,
    pub continuous_drop_off: Option<ContinuousPickupDropOff>,
    pub shape_dist_traveled: Option<String>,
    pub timepoint: bool,
}

/// Copies an optional text.
fn clone_opt_string(o: &Option<String>) -> (r: Option<String>)
    ensures
        opt_string_view(r) == opt_string_view(*o),
{
    match o {
        None => None,
        Some(s) => Some(s.clone()),
    }
}

/// The replacement of one required text field of one entity: the indexed
/// translation, or the original text when the index has none.
pub open spec fn spec_localized_text(
    m: Map<IdKeyView, Seq<char>>,
    table: Seq<char>,
    field: Seq<char>,
    language: Seq<char>,
    id: Seq<char>,
    original: Seq<char>,
) -> Seq<char> {
    spec_resolve_text(m, spec_id_key(table, field, language, id, None), original)
}

/// The replacement of one optional text field: a field holding no text is
/// never looked up.
pub open spec fn spec_localized_opt_text(
    m: Map<IdKeyView, Seq<char>>,
    table: Seq<char>,
    field: Seq<char>,
    language: Seq<char>,
    id: Seq<char>,
    original: Option<Seq<char>>,
) -> Option<Seq<char>> {
    match original {
        None => None,
        Some(t) => Some(spec_localized_text(m, table, field, language, id, t)),
    }
}

/// A place vehicles stop at. Coordinates are carried as their source
/// text; their numeric reading is outside this layer.
#[derive(Debug, Clone)]
pub struct Stop {
    pub id: String,
    pub code: Option<String>,
    pub name: String,
    pub description: String,
    pub location_type: LocationType,
    pub parent_station: Option<String>,
    pub zone_id: Option<String>,
    pub url: Option<String>,
    pub longitude: Option<String>,
    pub latitude: Option<String>,
    pub timezone: Option<String>,
    pub wheelchair_boarding: Availability,
    pub level_id: Option<String>,
    pub platform_code: Option<String>,
}

/// The mathematical shadow of a [`Stop`].
#[verifier::ext_equal]
pub struct StopView {
    pub id: Seq<char>,
    pub code: Option<Seq<char>>,
    pub name: Seq<char>,
    pub description: Seq<char>,
    pub location_type: LocationType,
    pub parent_station: Option<Seq<char>>,
    pub zone_id: Option<Seq<char>>,
    pub url: Option<Seq<char>>,
    pub longitude: Option<Seq<char>>,
    pub latitude: Option<Seq<char>>,
    pub timezone: Option<Seq<char>>,
    pub wheelchair_boarding: Availability,
    pub level_id: Option<Seq<char>>,
    pub platform_code: Option<Seq<char>>,
}

impl View for Stop {
    type V = StopView;

    open spec fn view(&self) -> StopView {
        StopView {
            id: self.id@,
            code: opt_string_view(self.code),
            name: self.name@,
            description: self.description@,
            location_type: self.location_type,
            parent_station: opt_string_view(self.parent_station),
            zone_id: opt_string_view(self.zone_id),
            url: opt_string_view(self.url),
            longitude: opt_string_view(self.longitude),
            latitude: opt_string_view(self.latitude),
            timezone: opt_string_view(self.timezone),
            wheelchair_boarding: self.wheelchair_boarding,
            level_id: opt_string_view(self.level_id),
            platform_code: opt_string_view(self.platform_code),
        }
    }
}

/// The localized copy of a stop: its code, name, description, page and
/// platform text resolved against the stops table under the stop's own
/// id; everything else copied unchanged.
pub open spec fn spec_localized_stop(
    s: StopView,
    m: Map<IdKeyView, Seq<char>>,
    language: Seq<char>,
) -> StopView {
    StopView {
        id: s.id,
        code: spec_localized_opt_text(m, "stops"@, "stop_code"@, language, s.id, s.code),
        name: spec_localized_text(m, "stops"@, "stop_name"@, language, s.id, s.name),
        description: spec_localized_text(m, "stops"@, "stop_desc"@, language, s.id, s.description),
        location_type: s.location_type,
        parent_station: s.parent_station,
        zone_id: s.zone_id,
        url: spec_localized_opt_text(m, "stops"@, "stop_url"@, language, s.id, s.url),
        longitude: s.longitude,
        latitude: s.latitude,
        timezone: s.timezone,
        wheelchair_boarding: s.wheelchair_boarding,
        level_id: s.level_id,
        platform_code: spec_localized_opt_text(
            m,
            "stops"@,
            "platform_code"@,
            language,
            s.id,
            s.platform_code,
        ),
    }
}

impl Type for Stop {
    open spec fn spec_object_type(&self) -> ObjectType {
        ObjectType::Stop
    }

    fn object_type(&self) -> (r: ObjectType) {
        ObjectType::Stop
    }
}

impl Id for Stop {
    open spec fn spec_id(&self) -> Seq<char> {
        self.id@
    }

    fn id(&self) -> (r: &str) {
        self.id.as_str()
    }
}

impl Translatable for Stop {
    open spec fn spec_localized(&self, m: Map<IdKeyView, Seq<char>>, language: Seq<char>) -> StopView {
        spec_localized_stop(self@, m, language)
    }

    fn translate(&self, index: &TranslationIndex, language: &str) -> (r: Stop) {
        let r = Stop {
            id: self.id.clone(),
            code: match &self.code {
                None => None,
                Some(code) => Some(
                    index.translate(
                        "stops",
                        "stop_code",
                        language,
                        self.id.as_str(),
                        None,
                        code.as_str(),
                    ),
                ),
            },
            name: index.translate(
                "stops",
                "stop_name",
                language,
                self.id.as_str(),
                None,
                self.name.as_str(),
            ),
            description: index.translate(
                "stops",
                "stop_desc",
                language,
                self.id.as_str(),
                None,
                self.description.as_str(),
            ),
            location_type: self.location_type,
            parent_station: clone_opt_string(&self.parent_station),
            zone_id: clone_opt_string(&self.zone_id),
            url: match &self.url {
                None => None,
                Some(url) => Some(
                    index.translate(
                        "stops",
                        "stop_url",
                        language,
                        self.id.as_str(),
                        None,
                        url.as_str(),
                    ),
                ),
            },
            longitude: clone_opt_string(&self.longitude),
            latitude: clone_opt_string(&self.latitude),
            timezone: clone_opt_string(&self.timezone),
            wheelchair_boarding: self.wheelchair_boarding,
            level_id: clone_opt_string(&self.level_id),
            platform_code: match &self.platform_code {
                None => None,
                Some(platform_code) => Some(
                    index.translate(
                        "stops",
                        "platform_code",
                        language,
                        self.id.as_str(),
                        None,
                        platform_code.as_str(),
                    ),
                ),
            },
        };
        proof {
            assert(r@ =~= spec_localized_stop(self@, index@.by_id, language@));
        }
        r
    }
}

/// One scheduled halt of a trip at a stop. The stop itself is a shared,
/// reference-counted handle: many stop times across many trips may name
/// the same stop instance, so an update must replace the shared instance
/// rather than write through one holder.
#[derive(Debug, Clone)]
pub struct StopTime {
    pub arrival_time: Option<u32>,
    pub stop: Arc<Stop>,
    pub departure_time: Option<u32>,
    pub pickup_type: Option<PickupDropOffType>,
    pub drop_off_type: Option<PickupDropOffType>,
    pub stop_sequence: u16,
    pub stop_headsign: Option<String>,
    pub continuous_pickup: Option<ContinuousPickupDropOff>,
    pub continuous_drop_off: Option<ContinuousPickupDropOff>,
    pub shape_dist_traveled: Option<String>,
    pub timepoint: bool,
}

/// The mathematical shadow of a [`StopTime`].
#[verifier::ext_equal]
pub struct StopTimeView {
    pub arrival_time: Option<u32>,
    pub stop: StopView,
    pub departure_time: Option<u32>,
    pub pickup_type: Option<PickupDropOffType>,
    pub drop_off_type: Option<PickupDropOffType>,
    pub stop_sequence: u16,
    pub stop_headsign: Option<Seq<char>>,
    pub continuous_pickup: Option<ContinuousPickupDropOff>,
    pub continuous_drop_off: Option<ContinuousPickupDropOff>,
    pub shape_dist_traveled: Option<Seq<char>>,
    pub timepoint: bool,
}

impl View for StopTime {
    type V = StopTimeView;

    open spec fn view(&self) -> StopTimeView {
        StopTimeView {
            arrival_time: self.arrival_time,
            stop: self.stop@,
            departure_time: self.departure_time,
            pickup_type: self.pickup_type,
            drop_off_type: self.drop_off_type,
            stop_sequence: self.stop_sequence,
            stop_headsign: opt_string_view(self.stop_headsign),
            continuous_pickup: self.continuous_pickup,
            continuous_drop_off: self.continuous_drop_off,
            shape_dist_traveled: opt_string_view(self.shape_dist_traveled),
            timepoint: self.timepoint,
        }
    }
}

/// The localized copy of a stop time: only the referenced stop is
/// localized, into a fresh shared handle. The headsign is deliberately
/// left alone: a stop time holds no back-reference to its owning trip, so
/// trip-scoped keys cannot be resolved from here.
pub open spec fn spec_localized_stop_time(
    st: StopTimeView,
    m: Map<IdKeyView, Seq<char>>,
    language: Seq<char>,
) -> StopTimeView {
    StopTimeView {
        arrival_time: st.arrival_time,
        stop: spec_localized_stop(st.stop, m, language),
        departure_time: st.departure_time,
        pickup_type: st.pickup_type,
        drop_off_type: st.drop_off_type,
        stop_sequence: st.stop_sequence,
        stop_headsign: st.stop_headsign,
        continuous_pickup: st.continuous_pickup,
        continuous_drop_off: st.continuous_drop_off,
        shape_dist_traveled: st.shape_dist_traveled,
        timepoint: st.timepoint,
    }
}

impl Translatable for StopTime {
    open spec fn spec_localized(&self, m: Map<IdKeyView, Seq<char>>, language: Seq<char>) -> StopTimeView {
        spec_localized_stop_time(self@, m, language)
    }

    fn translate(&self, index: &TranslationIndex, language: &str) -> (r: StopTime) {
        let localized_stop = self.stop.translate(index, language);
        let r = StopTime {
            arrival_time: self.arrival_time,
            stop: Arc::new(localized_stop),
            departure_time: self.departure_time,
            pickup_type: self.pickup_type,
            drop_off_type: self.drop_off_type,
            stop_sequence: self.stop_sequence,
            stop_headsign: clone_opt_string(&self.stop_headsign),
            continuous_pickup: self.continuous_pickup,
            continuous_drop_off: self.continuous_drop_off,
            shape_dist_traveled: clone_opt_string(&self.shape_dist_traveled),
            timepoint: self.timepoint,
        };
        proof {
            assert(r@ =~= spec_localized_stop_time(self@, index@.by_id, language@));
        }
        r
    }
}

impl StopTime {
    /// Combines a raw row with an already-resolved shared stop handle.
    pub fn from(stop_time_gtfs: &RawStopTime, stop: Arc<Stop>) -> (r: StopTime)
        ensures
            r.arrival_time == stop_time_gtfs.arrival_time,
            r.departure_time == stop_time_gtfs.departure_time,
            r.stop == stop,
            r.pickup_type == stop_time_gtfs.pickup_type,
            r.drop_off_type == stop_time_gtfs.drop_off_type,
            r.stop_sequence == stop_time_gtfs.stop_sequence,
            opt_string_view(r.stop_headsign) == opt_string_view(stop_time_gtfs.stop_headsign),
            r.continuous_pickup == stop_time_gtfs.continuous_pickup,
            r.continuous_drop_off == stop_time_gtfs.continuous_drop_off,
            opt_string_view(r.shape_dist_traveled) == opt_string_view(
                stop_time_gtfs.shape_dist_traveled,
            ),
            r.timepoint == stop_time_gtfs.timepoint,
    {
        StopTime {
            arrival_time: stop_time_gtfs.arrival_time,
            departure_time: stop_time_gtfs.departure_time,
            stop,
            pickup_type: stop_time_gtfs.pickup_type,
            drop_off_type: stop_time_gtfs.drop_off_type,
            stop_sequence: stop_time_gtfs.stop_sequence,
            stop_headsign: clone_opt_string(&stop_time_gtfs.stop_headsign),
            continuous_pickup: stop_time_gtfs.continuous_pickup,
            continuous_drop_off: stop_time_gtfs.continuous_drop_off,
            shape_dist_traveled: clone_opt_string(&stop_time_gtfs.shape_dist_traveled),
            timepoint: stop_time_gtfs.timepoint,
        }
    }
}

/// A line riders see as one service: display names, classification and
/// colors.
#[derive(Debug, Clone)]
pub struct Route {
    pub id: String,
    pub short_name: String,
    pub long_name: String,
    pub desc: Option<String>,
    pub route_type: RouteType,
    pub url: Option<String>,
    pub agency_id: Option<String>,
    pub route_order: Option<u32>,
    pub route_color: Option<Rgb>,
    pub route_text_color: Option<Rgb>,
    pub continuous_pickup: Option<ContinuousPickupDropOff>,
    pub continuous_drop_off: Option<ContinuousPickupDropOff>,
}

/// The mathematical shadow of a [`Route`].
#[verifier::ext_equal]
pub struct RouteView {
    pub id: Seq<char>,
    pub short_name: Seq<char>,
    pub long_name: Seq<char>,
    pub desc: Option<Seq<char>>,
    pub route_type: RouteType,
    pub url: Option<Seq<char>>,
    pub agency_id: Option<Seq<char>>,
    pub route_order: Option<u32>,
    pub route_color: Option<Rgb>,
    pub route_text_color: Option<Rgb>,
    pub continuous_pickup: Option<ContinuousPickupDropOff>,
    pub continuous_drop_off: Option<ContinuousPickupDropOff>,
}

impl View for Route {
    type V = RouteView;

    open spec fn view(&self) -> RouteView {
        RouteView {
            id: self.id@,
            short_name: self.short_name@,
            long_name: self.long_name@,
            desc: opt_string_view(self.desc),
            route_type: self.route_type,
            url: opt_string_view(self.url),
            agency_id: opt_string_view(self.agency_id),
            route_order: self.route_order,
            route_color: self.route_color,
            route_text_color: self.route_text_color,
            continuous_pickup: self.continuous_pickup,
            continuous_drop_off: self.continuous_drop_off,
        }
    }
}

/// The localized copy of a route: its names, description and page
/// resolved against the routes table under the route's own id; everything
/// else copied unchanged.
pub open spec fn spec_localized_route(
    r: RouteView,
    m: Map<IdKeyView, Seq<char>>,
    language: Seq<char>,
) -> RouteView {
    RouteView {
        id: r.id,
        short_name: spec_localized_text(m, "routes"@, "route_short_name"@, language, r.id, r.short_name),
        long_name: spec_localized_text(m, "routes"@, "route_long_name"@, language, r.id, r.long_name),
        desc: spec_localized_opt_text(m, "routes"@, "route_desc"@, language, r.id, r.desc),
        route_type: r.route_type,
        url: spec_localized_opt_text(m, "routes"@, "route_url"@, language, r.id, r.url),
        agency_id: r.agency_id,
        route_order: r.route_order,
        route_color: r.route_color,
        route_text_color: r.route_text_color,
        continuous_pickup: r.continuous_pickup,
        continuous_drop_off: r.continuous_drop_off,
    }
}

impl Type for Route {
    open spec fn spec_object_type(&self) -> ObjectType {
        ObjectType::Route
    }

    fn object_type(&self) -> (r: ObjectType) {
        ObjectType::Route
    }
}

impl Id for Route {
    open spec fn spec_id(&self) -> Seq<char> {
        self.id@
    }

    fn id(&self) -> (r: &str) {
        self.id.as_str()
    }
}

impl Route {
    /// The text riders see for this route: the long name when it is
    /// non-empty, the short name otherwise (at least one is expected to
    /// be non-empty).
    pub fn display_name(&self) -> (r: &str)
        ensures
            r@ == (if self.long_name@.len() > 0 {
                self.long_name@
            } else {
                self.short_name@
            }),
    {
        if !self.long_name.as_str().is_empty() {
            self.long_name.as_str()
        } else {
            self.short_name.as_str()
        }
    }
}

impl Translatable for Route {
    open spec fn spec_localized(&self, m: Map<IdKeyView, Seq<char>>, language: Seq<char>) -> RouteView {
        spec_localized_route(self@, m, language)
    }

    fn translate(&self, index: &TranslationIndex, language: &str) -> (r: Route) {
        let r = Route {
            id: self.id.clone(),
            short_name: index.translate(
                "routes",
                "route_short_name",
                language,
                self.id.as_str(),
                None,
                self.short_name.as_str(),
            ),
            long_name: index.translate(
                "routes",
                "route_long_name",
                language,
                self.id.as_str(),
                None,
                self.long_name.as_str(),
            ),
            desc: match &self.desc {
                None => None,
                Some(desc) => Some(
                    index.translate(
                        "routes",
                        "route_desc",
                        language,
                        self.id.as_str(),
                        None,
                        desc.as_str(),
                    ),
                ),
            },
            route_type: self.route_type,
            url: match &self.url {
                None => None,
                Some(url) => Some(
                    index.translate(
                        "routes",
                        "route_url",
                        language,
                        self.id.as_str(),
                        None,
                        url.as_str(),
                    ),
                ),
            },
            agency_id: clone_opt_string(&self.agency_id),
            route_order: self.route_order,
            route_color: self.route_color,
            route_text_color: self.route_text_color,
            continuous_pickup: self.continuous_pickup,
            continuous_drop_off: self.continuous_drop_off,
        };
        proof {
            assert(r@ =~= spec_localized_route(self@, index@.by_id, language@));
        }
        r
    }
}

/// One run of a vehicle along a route, owning its ordered stop times.
/// Ordering within a trip is by ascending sequence number, which need not
/// be contiguous.
#[derive(Debug, Clone)]
pub struct Trip {
    pub id: String,
    pub service_id: String,
    pub route_id: String,
    pub stop_times: Vec<StopTime>,
    pub shape_id: Option<String>,
    pub trip_headsign: Option<String>,
    pub trip_short_name: Option<String>,
    pub direction_id: Option<DirectionType>,
    pub block_id: Option<String>,
    pub wheelchair_accessible: Option<WheelChairAccessibleType>,
    pub bikes_allowed: Option<BikesAllowedType>,
}

/// The mathematical shadow of a [`Trip`].
#[verifier::ext_equal]
pub struct TripView {
    pub id: Seq<char>,
    pub service_id: Seq<char>,
    pub route_id: Seq<char>,
    pub stop_times: Seq<StopTimeView>,
    pub shape_id: Option<Seq<char>>,
    pub trip_headsign: Option<Seq<char>>,
    pub trip_short_name: Option<Seq<char>>,
    pub direction_id: Option<DirectionType>,
    pub block_id: Option<Seq<char>>,
    pub wheelchair_accessible: Option<WheelChairAccessibleType>,
    pub bikes_allowed: Option<BikesAllowedType>,
}

impl View for Trip {
    type V = TripView;

    open spec fn view(&self) -> TripView {
        TripView {
            id: self.id@,
            service_id: self.service_id@,
            route_id: self.route_id@,
            stop_times: Seq::new(self.stop_times@.len(), |i: int| self.stop_times@[i]@),
            shape_id: opt_string_view(self.shape_id),
            trip_headsign: opt_string_view(self.trip_headsign),
            trip_short_name: opt_string_view(self.trip_short_name),
            direction_id: self.direction_id,
            block_id: opt_string_view(self.block_id),
            wheelchair_accessible: self.wheelchair_accessible,
            bikes_allowed: self.bikes_allowed,
        }
    }
}

/// The localized copy of a trip: each owned stop time localized in
/// unchanged order, and the trip's headsign and short name resolved
/// against the trips table under the trip's own id — never under a
/// stop's.
pub open spec fn spec_localized_trip(
    t: TripView,
    m: Map<IdKeyView, Seq<char>>,
    language: Seq<char>,
) -> TripView {
    TripView {
        id: t.id,
        service_id: t.service_id,
        route_id: t.route_id,
        stop_times: t.stop_times.map_values(|st: StopTimeView| spec_localized_stop_time(st, m, language)),
        shape_id: t.shape_id,
        trip_headsign: spec_localized_opt_text(m, "trips"@, "trip_headsign"@, language, t.id, t.trip_headsign),
        trip_short_name: spec_localized_opt_text(m, "trips"@, "trip_short_name"@, language, t.id, t.trip_short_name),
        direction_id: t.direction_id,
        block_id: t.block_id,
        wheelchair_accessible: t.wheelchair_accessible,
        bikes_allowed: t.bikes_allowed,
    }
}

impl Type for Trip {
    open spec fn spec_object_type(&self) -> ObjectType {
        ObjectType::Trip
    }

    fn object_type(&self) -> (r: ObjectType) {
        ObjectType::Trip
    }
}

impl Id for Trip {
    open spec fn spec_id(&self) -> Seq<char> {
        self.id@
    }

    fn id(&self) -> (r: &str) {
        self.id.as_str()
    }
}

impl Translatable for Trip {
    open spec fn spec_localized(&self, m: Map<IdKeyView, Seq<char>>, language: Seq<char>) -> TripView {
        spec_localized_trip(self@, m, language)
    }

    fn translate(&self, index: &TranslationIndex, language: &str) -> (r: Trip) {
        let n = self.stop_times.len();
        let mut localized_times: Vec<StopTime> = Vec::new();
        let mut i: usize = 0;
        while i < n
            invariant
                i <= n,
                n == self.stop_times@.len(),
                localized_times@.len() == i,
                forall|j: int|
                    0 <= j < i ==> #[trigger] localized_times@[j]@ == spec_localized_stop_time(
                        self.stop_times@[j]@,
                        index@.by_id,
                        language@,
                    ),
            decreases n - i,
        {
            localized_times.push(self.stop_times[i].translate(index, language));
            i = i + 1;
        }
        let r = Trip {
            id: self.id.clone(),
            service_id: self.service_id.clone(),
            route_id: self.route_id.clone(),
            stop_times: localized_times,
            shape_id: clone_opt_string(&self.shape_id),
            trip_headsign: match &self.trip_headsign {
                None => None,
                Some(headsign) => Some(
                    index.translate(
                        "trips",
                        "trip_headsign",
                        language,
                        self.id.as_str(),
                        None,
                        headsign.as_str(),
                    ),
                ),
            },
            trip_short_name: match &self.trip_short_name {
                None => None,
                Some(short_name) => Some(
                    index.translate(
                        "trips",
                        "trip_short_name",
                        language,
                        self.id.as_str(),
                        None,
                        short_name.as_str(),
                    ),
                ),
            },
            direction_id: self.direction_id,
            block_id: clone_opt_string(&self.block_id),
            wheelchair_accessible: self.wheelchair_accessible,
            bikes_allowed: self.bikes_allowed,
        };
        proof {
            assert(r@.stop_times =~= spec_localized_trip(self@, index@.by_id, language@).stop_times);
            assert(r@ =~= spec_localized_trip(self@, index@.by_id, language@));
        }
        r
    }
}

/// Localizing a stop never touches its identity, and a field with no
/// matching index entry keeps its original value: the result's id equals
/// the original id, every translatable field without an entry under the
/// stop's id equals the original field, and every non-text field is
/// copied unchanged.
pub proof fn lemma_stop_localization_preserves(
    s: StopView,
    m: Map<IdKeyView, Seq<char>>,
    language: Seq<char>,
)
    ensures
        spec_localized_stop(s, m, language).id == s.id,
        !m.contains_key(spec_id_key("stops"@, "stop_code"@, language, s.id, None))
            ==> spec_localized_stop(s, m, language).code == s.code,
        !m.contains_key(spec_id_key("stops"@, "stop_name"@, language, s.id, None))
            ==> spec_localized_stop(s, m, language).name == s.name,
        !m.contains_key(spec_id_key("stops"@, "stop_desc"@, language, s.id, None))
            ==> spec_localized_stop(s, m, language).description == s.description,
        !m.contains_key(spec_id_key("stops"@, "stop_url"@, language, s.id, None))
            ==> spec_localized_stop(s, m, language).url == s.url,
        !m.contains_key(spec_id_key("stops"@, "platform_code"@, language, s.id, None))
            ==> spec_localized_stop(s, m, language).platform_code == s.platform_code,
        spec_localized_stop(s, m, language).location_type == s.location_type,
        spec_localized_stop(s, m, language).parent_station == s.parent_station,
        spec_localized_stop(s, m, language).zone_id == s.zone_id,
        spec_localized_stop(s, m, language).longitude == s.longitude,
        spec_localized_stop(s, m, language).latitude == s.latitude,
        spec_localized_stop(s, m, language).timezone == s.timezone,
        spec_localized_stop(s, m, language).wheelchair_boarding == s.wheelchair_boarding,
        spec_localized_stop(s, m, language).level_id == s.level_id,
{
}

/// Localizing a trip keeps its stop times in unchanged order, localizes
/// each stop time's stop independently, leaves each stop time's headsign
/// alone, and resolves the trip's own headsign through the trip's id —
/// never through any stop's id.
pub proof fn lemma_trip_localization_shape(
    t: TripView,
    m: Map<IdKeyView, Seq<char>>,
    language: Seq<char>,
)
    ensures
        spec_localized_trip(t, m, language).id == t.id,
        spec_localized_trip(t, m, language).stop_times.len() == t.stop_times.len(),
        forall|i: int|
            0 <= i < t.stop_times.len() ==> #[trigger] spec_localized_trip(
                t,
                m,
                language,
            ).stop_times[i].stop_sequence == t.stop_times[i].stop_sequence,
        forall|i: int|
            0 <= i < t.stop_times.len() ==> #[trigger] spec_localized_trip(
                t,
                m,
                language,
            ).stop_times[i].stop == spec_localized_stop(t.stop_times[i].stop, m, language),
        forall|i: int|
            0 <= i < t.stop_times.len() ==> #[trigger] spec_localized_trip(
                t,
                m,
                language,
            ).stop_times[i].stop_headsign == t.stop_times[i].stop_headsign,
        spec_localized_trip(t, m, language).trip_headsign == spec_localized_opt_text(
            m,
            "trips"@,
            "trip_headsign"@,
            language,
            t.id,
            t.trip_headsign,
        ),
{
}

} // verus!
