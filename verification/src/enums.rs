//! Closed and open-ended enumerations of the format, with their numeric and
//! textual codecs.
//!
//! Two leniency policies live side by side and must not be unified: the
//! classifications marked lenient (`LocationType`, `Availability`, the
//! pickup/drop-off kinds) default on blank input, while the strict codecs of
//! the codec module fail closed on anything malformed.

use vstd::prelude::*;

use crate::codec::opt_str_view;
use crate::Error;

verus! {

/// The table a decoded entity belongs to.
#[derive(Debug, Eq, PartialEq, Hash, Clone, Structural)]
pub enum ObjectType {
    Agency,
    Stop,
    Route,
    Trip,
    Calendar,
    Shape,
    Fare,
    StopTime,
    FeedInfo,
}

/// What a `Stop` row stands for. Lenient: any unrecognized code decodes to
/// `StopPoint`, the default.
#[derive(Debug, Copy, Clone, PartialEq, Eq, Structural)]
pub enum LocationType {
    StopPoint,
    StopArea,
    StationEntrance,
    GenericNode,
    BoardingArea,
}

/// The route classification: eleven named cases plus a lossless raw-code
/// fallback. Classification is total: every representable code maps to
/// exactly one case and is never coerced to an arbitrary default.
#[derive(Debug, Copy, Clone, PartialEq, Eq, Hash, Structural)]
pub enum RouteType {
    Tramway,
    Subway,
    Rail,
    Bus,
    Ferry,
    CableCar,
    Gondola,
    Funicular,
    Coach,
    Air,
    Taxi,
    Other(u16),
}

/// The classification of a numeric route-type code; first match wins, with
/// `hundreds` the integer quotient of the code by 100.
pub open spec fn spec_route_type_of(code: u16) -> RouteType {
    let hundreds = code / 100;
    if code == 0 || hundreds == 9 {
        RouteType::Tramway
    } else if code == 1 || hundreds == 4 {
        RouteType::Subway
    } else if code == 2 || hundreds == 1 {
        RouteType::Rail
    } else if code == 3 || hundreds == 7 || hundreds == 8 {
        RouteType::Bus
    } else if code == 4 || hundreds == 10 || hundreds == 12 {
        RouteType::Ferry
    } else if code == 5 {
        RouteType::CableCar
    } else if code == 6 || hundreds == 13 {
        RouteType::Gondola
    } else if code == 7 || hundreds == 14 {
        RouteType::Funicular
    } else if hundreds == 2 {
        RouteType::Coach
    } else if hundreds == 11 {
        RouteType::Air
    } else if hundreds == 15 {
        RouteType::Taxi
    } else {
        RouteType::Other(code)
    }
}

/// The representative code a route type encodes to: named cases emit their
/// canonical code (a documented, intentionally lossy normalization for the
/// extended buckets), `Other` re-emits its original code exactly.
pub open spec fn spec_route_type_code(t: RouteType) -> u16 {
    match t {
        RouteType::Tramway => 0,
        RouteType::Subway => 1,
        RouteType::Rail => 2,
        RouteType::Bus => 3,
        RouteType::Ferry => 4,
        RouteType::CableCar => 5,
        RouteType::Gondola => 6,
        RouteType::Funicular => 7,
        RouteType::Coach => 200,
        RouteType::Air => 1100,
        RouteType::Taxi => 1500,
        RouteType::Other(i) => i,
    }
}

impl RouteType {
    /// Classifies a numeric route-type code.
    pub fn decode(code: u16) -> (r: RouteType)
        ensures
            r == spec_route_type_of(code),
    {
        let hundreds = code / 100;
        if code == 0 || hundreds == 9 {
            RouteType::Tramway
        } else if code == 1 || hundreds == 4 {
            RouteType::Subway
        } else if code == 2 || hundreds == 1 {
            RouteType::Rail
        } else if code == 3 || hundreds == 7 || hundreds == 8 {
            RouteType::Bus
        } else if code == 4 || hundreds == 10 || hundreds == 12 {
            RouteType::Ferry
        } else if code == 5 {
            RouteType::CableCar
        } else if code == 6 || hundreds == 13 {
            RouteType::Gondola
        } else if code == 7 || hundreds == 14 {
            RouteType::Funicular
        } else if hundreds == 2 {
            RouteType::Coach
        } else if hundreds == 11 {
            RouteType::Air
        } else if hundreds == 15 {
            RouteType::Taxi
        } else {
            RouteType::Other(code)
        }
    }

    /// Emits the representative code of this route type.
    pub fn encode(&self) -> (r: u16)
        ensures
            r == spec_route_type_code(*self),
    {
        match self {
            RouteType::Tramway => 0,
            RouteType::Subway => 1,
            RouteType::Rail => 2,
            RouteType::Bus => 3,
            RouteType::Ferry => 4,
            RouteType::CableCar => 5,
            RouteType::Gondola => 6,
            RouteType::Funicular => 7,
            RouteType::Coach => 200,
            RouteType::Air => 1100,
            RouteType::Taxi => 1500,
            RouteType::Other(i) => *i,
        }
    }
}

impl Default for RouteType {
    /// The default classification is `Bus`.
    fn default() -> (r: RouteType)
        ensures
            r == RouteType::Bus,
    {
        RouteType::Bus
    }
}

/// Encoding a named (non-`Other`) route type and classifying the emitted
/// representative code gives the same named case back: the lossy
/// normalization loses the precise extended code, never the bucket.
pub proof fn lemma_route_type_code_round_trip(t: RouteType)
    requires
        !(t is Other),
    ensures
        spec_route_type_of(spec_route_type_code(t)) == t,
{
}

/// How many rides a fare allows onward transfers for. An absent wire value
/// means unlimited, which is distinct from the explicit code 0 (no
/// transfer); the distinction survives round-tripping.
#[derive(Debug, Copy, Clone, PartialEq, Eq, Structural)]
pub enum Transfers {
    Unlimited,
    NoTransfer,
    UniqueTransfer,
    TwoTransfers,
    Other(u16),
}

/// The transfer allowance a wire value decodes to: absent means unlimited,
/// the codes 0, 1 and 2 are named, and any other code is kept exactly.
pub open spec fn spec_transfers_of(code: Option<u16>) -> Transfers {
    match code {
        Some(0u16) => Transfers::NoTransfer,
        Some(1u16) => Transfers::UniqueTransfer,
        Some(2u16) => Transfers::TwoTransfers,
        Some(a) => Transfers::Other(a),
        None => Transfers::Unlimited,
    }
}

/// The wire value a transfer allowance encodes to: unlimited becomes the
/// absent value, every other case its numeric code.
pub open spec fn spec_transfers_code(t: Transfers) -> Option<u16> {
    match t {
        Transfers::Unlimited => None,
        Transfers::NoTransfer => Some(0u16),
        Transfers::UniqueTransfer => Some(1u16),
        Transfers::TwoTransfers => Some(2u16),
        Transfers::Other(a) => Some(a),
    }
}

impl Transfers {
    /// Decodes an optional numeric transfer allowance.
    pub fn decode(code: Option<u16>) -> (r: Transfers)
        ensures
            r == spec_transfers_of(code),
    {
        match code {
            Some(0u16) => Transfers::NoTransfer,
            Some(1u16) => Transfers::UniqueTransfer,
            Some(2u16) => Transfers::TwoTransfers,
            Some(a) => Transfers::Other(a),
            None => Transfers::Unlimited,
        }
    }

    /// Emits the optional numeric code of this transfer allowance.
    pub fn encode(&self) -> (r: Option<u16>)
        ensures
            r == spec_transfers_code(*self),
    {
        match self {
            Transfers::Unlimited => None,
            Transfers::NoTransfer => Some(0u16),
            Transfers::UniqueTransfer => Some(1u16),
            Transfers::TwoTransfers => Some(2u16),
            Transfers::Other(a) => Some(*a),
        }
    }
}

impl Default for Transfers {
    /// The default allowance is `Unlimited`, matching an absent wire value.
    fn default() -> (r: Transfers)
        ensures
            r == Transfers::Unlimited,
    {
        Transfers::Unlimited
    }
}

/// Decoding a wire value and encoding the result reproduces the wire value
/// exactly; in particular the absent value and the explicit code 0 each
/// survive the round trip unchanged.
pub proof fn lemma_transfers_round_trip(code: Option<u16>)
    ensures
        spec_transfers_code(spec_transfers_of(code)) == code,
{
}

/// The location a text decodes to: lenient, any unrecognized text falls
/// back to `StopPoint`.
pub open spec fn spec_location_type_of(s: Seq<char>) -> LocationType {
    if s.len() == 1 && s[0] == '1' {
        LocationType::StopArea
    } else if s.len() == 1 && s[0] == '2' {
        LocationType::StationEntrance
    } else if s.len() == 1 && s[0] == '3' {
        LocationType::GenericNode
    } else if s.len() == 1 && s[0] == '4' {
        LocationType::BoardingArea
    } else {
        LocationType::StopPoint
    }
}

impl LocationType {
    /// Decodes a location-type text; never fails.
    pub fn decode(s: &str) -> (r: LocationType)
        ensures
            r == spec_location_type_of(s@),
    {
        let n = s.unicode_len();
        if n == 1 {
            let c = s.get_char(0);
            if c == '1' {
                return LocationType::StopArea;
            }
            if c == '2' {
                return LocationType::StationEntrance;
            }
            if c == '3' {
                return LocationType::GenericNode;
            }
            if c == '4' {
                return LocationType::BoardingArea;
            }
        }
        LocationType::StopPoint
    }
}

impl Default for LocationType {
    /// The default location is an ordinary stop point.
    fn default() -> (r: LocationType)
        ensures
            r == LocationType::StopPoint,
    {
        LocationType::StopPoint
    }
}

/// The default location, for rows that leave the field out entirely.
pub fn default_location_type() -> (r: LocationType)
    ensures
        r == LocationType::StopPoint,
{
    LocationType::StopPoint
}

/// Whether a facility (wheelchair boarding, and the like) is available.
/// Lenient: an absent value decodes to `InformationNotAvailable`.
#[derive(Debug, PartialEq, Eq, Hash, Clone, Copy, Structural)]
pub enum Availability {
    InformationNotAvailable,
    Available,
    NotAvailable,
}

/// The availability an optional text decodes to: absent means no
/// information, the codes 0 through 2 are named, any other text fails.
pub open spec fn spec_availability_of(s: Option<Seq<char>>) -> Option<Availability> {
    match s {
        None => Some(Availability::InformationNotAvailable),
        Some(t) => if t.len() == 1 && t[0] == '0' {
            Some(Availability::InformationNotAvailable)
        } else if t.len() == 1 && t[0] == '1' {
            Some(Availability::Available)
        } else if t.len() == 1 && t[0] == '2' {
            Some(Availability::NotAvailable)
        } else {
            None
        },
    }
}

impl Availability {
    /// Decodes an optional availability text.
    pub fn decode(s: Option<&str>) -> (r: Result<Availability, Error>)
        ensures
            match r {
                Ok(v) => spec_availability_of(opt_str_view(s)) == Some(v),
                Err(e) => spec_availability_of(opt_str_view(s)) is None && e is Decode,
            },
    {
        match s {
            None => Ok(Availability::InformationNotAvailable),
            Some(t) => {
                let n = t.unicode_len();
                if n == 1 {
                    let c = t.get_char(0);
                    if c == '0' {
                        return Ok(Availability::InformationNotAvailable);
                    }
                    if c == '1' {
                        return Ok(Availability::Available);
                    }
                    if c == '2' {
                        return Ok(Availability::NotAvailable);
                    }
                }
                Err(Error::Decode(t.to_owned()))
            },
        }
    }
}

impl Default for Availability {
    /// The default is `InformationNotAvailable`, matching an absent value.
    fn default() -> (r: Availability)
        ensures
            r == Availability::InformationNotAvailable,
    {
        Availability::InformationNotAvailable
    }
}

/// How a rider boards or alights at a stop time. Lenient: an absent value
/// decodes to the default, `Regular`.
#[derive(Debug, Copy, Clone, PartialEq, Eq, Structural)]
pub enum PickupDropOffType {
    Regular,
    NotAvailable,
    ArrangeByPhone,
    CoordinateWithDriver,
}

/// The pickup or drop-off kind an optional text decodes to: absent means
/// `Regular`, the codes 0 through 3 are named, any other text fails.
pub open spec fn spec_pickup_drop_off_of(s: Option<Seq<char>>) -> Option<PickupDropOffType> {
    match s {
        None => Some(PickupDropOffType::Regular),
        Some(t) => if t.len() == 1 && t[0] == '0' {
            Some(PickupDropOffType::Regular)
        } else if t.len() == 1 && t[0] == '1' {
            Some(PickupDropOffType::NotAvailable)
        } else if t.len() == 1 && t[0] == '2' {
            Some(PickupDropOffType::ArrangeByPhone)
        } else if t.len() == 1 && t[0] == '3' {
            Some(PickupDropOffType::CoordinateWithDriver)
        } else {
            None
        },
    }
}

impl PickupDropOffType {
    /// Decodes an optional pickup or drop-off kind.
    pub fn decode(s: Option<&str>) -> (r: Result<PickupDropOffType, Error>)
        ensures
            match r {
                Ok(v) => spec_pickup_drop_off_of(opt_str_view(s)) == Some(v),
                Err(e) => spec_pickup_drop_off_of(opt_str_view(s)) is None && e is Decode,
            },
    {
        match s {
            None => Ok(PickupDropOffType::Regular),
            Some(t) => {
                let n = t.unicode_len();
                if n == 1 {
                    let c = t.get_char(0);
                    if c == '0' {
                        return Ok(PickupDropOffType::Regular);
                    }
                    if c == '1' {
                        return Ok(PickupDropOffType::NotAvailable);
                    }
                    if c == '2' {
                        return Ok(PickupDropOffType::ArrangeByPhone);
                    }
                    if c == '3' {
                        return Ok(PickupDropOffType::CoordinateWithDriver);
                    }
                }
                Err(Error::Decode(t.to_owned()))
            },
        }
    }
}

impl Default for PickupDropOffType {
    /// The default kind is `Regular`, matching an absent value.
    fn default() -> (r: PickupDropOffType)
        ensures
            r == PickupDropOffType::Regular,
    {
        PickupDropOffType::Regular
    }
}

/// Whether riders can board or alight anywhere along a route or trip.
/// Lenient: an absent value decodes to the default, `NotAvailable`.
#[derive(Debug, Copy, Clone, PartialEq, Eq, Structural)]
pub enum ContinuousPickupDropOff {
    Continuous,
    NotAvailable,
    ArrangeByPhone,
    CoordinateWithDriver,
}

/// The continuous pickup or drop-off kind an optional text decodes to:
/// absent means `NotAvailable`, the codes 0 through 3 are named, any other
/// text fails.
pub open spec fn spec_continuous_pickup_drop_off_of(s: Option<Seq<char>>) -> Option<
    ContinuousPickupDropOff,
> {
    match s {
        None => Some(ContinuousPickupDropOff::NotAvailable),
        Some(t) => if t.len() == 1 && t[0] == '0' {
            Some(ContinuousPickupDropOff::Continuous)
        } else if t.len() == 1 && t[0] == '1' {
            Some(ContinuousPickupDropOff::NotAvailable)
        } else if t.len() == 1 && t[0] == '2' {
            Some(ContinuousPickupDropOff::ArrangeByPhone)
        } else if t.len() == 1 && t[0] == '3' {
            Some(ContinuousPickupDropOff::CoordinateWithDriver)
        } else {
            None
        },
    }
}

impl ContinuousPickupDropOff {
    /// Decodes an optional continuous pickup or drop-off kind.
    pub fn decode(s: Option<&str>) -> (r: Result<ContinuousPickupDropOff, Error>)
        ensures
            match r {
                Ok(v) => spec_continuous_pickup_drop_off_of(opt_str_view(s)) == Some(v),
                Err(e) => spec_continuous_pickup_drop_off_of(opt_str_view(s)) is None
                    && e is Decode,
            },
    {
        match s {
            None => Ok(ContinuousPickupDropOff::NotAvailable),
            Some(t) => {
                let n = t.unicode_len();
                if n == 1 {
                    let c = t.get_char(0);
                    if c == '0' {
                        return Ok(ContinuousPickupDropOff::Continuous);
                    }
                    if c == '1' {
                        return Ok(ContinuousPickupDropOff::NotAvailable);
                    }
                    if c == '2' {
                        return Ok(ContinuousPickupDropOff::ArrangeByPhone);
                    }
                    if c == '3' {
                        return Ok(ContinuousPickupDropOff::CoordinateWithDriver);
                    }
                }
                Err(Error::Decode(t.to_owned()))
            },
        }
    }
}

impl Default for ContinuousPickupDropOff {
    /// The default kind is `NotAvailable`, matching an absent value.
    fn default() -> (r: ContinuousPickupDropOff)
        ensures
            r == ContinuousPickupDropOff::NotAvailable,
    {
        ContinuousPickupDropOff::NotAvailable
    }
}

/// Which direction of travel a trip runs in.
#[derive(Debug, Copy, Clone, PartialEq, Eq, Structural)]
pub enum DirectionType {
    Outbound,
    Inbound,
}

/// The direction a text decodes to: strictly "0" or "1".
pub open spec fn spec_direction_of(s: Seq<char>) -> Option<DirectionType> {
    if s.len() == 1 && s[0] == '0' {
        Some(DirectionType::Outbound)
    } else if s.len() == 1 && s[0] == '1' {
        Some(DirectionType::Inbound)
    } else {
        None
    }
}

impl DirectionType {
    /// Decodes a direction text.
    pub fn decode(s: &str) -> (r: Result<DirectionType, Error>)
        ensures
            match r {
                Ok(v) => spec_direction_of(s@) == Some(v),
                Err(e) => spec_direction_of(s@) is None && (e matches Error::Decode(t) && t@
                    == s@),
            },
    {
        let n = s.unicode_len();
        if n == 1 {
            let c = s.get_char(0);
            if c == '0' {
                return Ok(DirectionType::Outbound);
            }
            if c == '1' {
                return Ok(DirectionType::Inbound);
            }
        }
        Err(Error::Decode(s.to_owned()))
    }
}

/// Whether a trip's vehicle can take at least one wheelchair.
#[derive(Debug, Copy, Clone, PartialEq, Eq, Structural)]
pub enum WheelChairAccessibleType {
    NoAccessibilityInfo,
    AtLeastOneWheelChair,
    NotWheelChairAccessible,
}

/// The accessibility a text decodes to: strictly "0", "1" or "2".
pub open spec fn spec_wheelchair_accessible_of(s: Seq<char>) -> Option<WheelChairAccessibleType> {
    if s.len() == 1 && s[0] == '0' {
        Some(WheelChairAccessibleType::NoAccessibilityInfo)
    } else if s.len() == 1 && s[0] == '1' {
        Some(WheelChairAccessibleType::AtLeastOneWheelChair)
    } else if s.len() == 1 && s[0] == '2' {
        Some(WheelChairAccessibleType::NotWheelChairAccessible)
    } else {
        None
    }
}

impl WheelChairAccessibleType {
    /// Decodes a wheelchair-accessibility text.
    pub fn decode(s: &str) -> (r: Result<WheelChairAccessibleType, Error>)
        ensures
            match r {
                Ok(v) => spec_wheelchair_accessible_of(s@) == Some(v),
                Err(e) => spec_wheelchair_accessible_of(s@) is None && (
                e matches Error::Decode(t) && t@ == s@),
            },
    {
        let n = s.unicode_len();
        if n == 1 {
            let c = s.get_char(0);
            if c == '0' {
                return Ok(WheelChairAccessibleType::NoAccessibilityInfo);
            }
            if c == '1' {
                return Ok(WheelChairAccessibleType::AtLeastOneWheelChair);
            }
            if c == '2' {
                return Ok(WheelChairAccessibleType::NotWheelChairAccessible);
            }
        }
        Err(Error::Decode(s.to_owned()))
    }
}

/// Whether a trip's vehicle can take at least one bicycle.
#[derive(Debug, Copy, Clone, PartialEq, Eq, Structural)]
pub enum BikesAllowedType {
    NoBikeInfo,
    AtLeastOneBike,
    NoBikesAllowed,
}

/// The bike allowance a text decodes to: strictly "0", "1" or "2".
pub open spec fn spec_bikes_allowed_of(s: Seq<char>) -> Option<BikesAllowedType> {
    if s.len() == 1 && s[0] == '0' {
        Some(BikesAllowedType::NoBikeInfo)
    } else if s.len() == 1 && s[0] == '1' {
        Some(BikesAllowedType::AtLeastOneBike)
    } else if s.len() == 1 && s[0] == '2' {
        Some(BikesAllowedType::NoBikesAllowed)
    } else {
        None
    }
}

impl BikesAllowedType {
    /// Decodes a bikes-allowed text.
    pub fn decode(s: &str) -> (r: Result<BikesAllowedType, Error>)
        ensures
            match r {
                Ok(v) => spec_bikes_allowed_of(s@) == Some(v),
                Err(e) => spec_bikes_allowed_of(s@) is None && (e matches Error::Decode(t) && t@
                    == s@),
            },
    {
        let n = s.unicode_len();
        if n == 1 {
            let c = s.get_char(0);
            if c == '0' {
                return Ok(BikesAllowedType::NoBikeInfo);
            }
            if c == '1' {
                return Ok(BikesAllowedType::AtLeastOneBike);
            }
            if c == '2' {
                return Ok(BikesAllowedType::NoBikesAllowed);
            }
        }
        Err(Error::Decode(s.to_owned()))
    }
}

/// When a fare is paid.
#[derive(Debug, Copy, Clone, PartialEq, Eq, Structural)]
pub enum PaymentMethod {
    Aboard,
    PreBoarding,
}

/// The payment method a text decodes to: strictly "0" or "1".
pub open spec fn spec_payment_method_of(s: Seq<char>) -> Option<PaymentMethod> {
    if s.len() == 1 && s[0] == '0' {
        Some(PaymentMethod::Aboard)
    } else if s.len() == 1 && s[0] == '1' {
        Some(PaymentMethod::PreBoarding)
    } else {
        None
    }
}

impl PaymentMethod {
    /// Decodes a payment-method text.
    pub fn decode(s: &str) -> (r: Result<PaymentMethod, Error>)
        ensures
            match r {
                Ok(v) => spec_payment_method_of(s@) == Some(v),
                Err(e) => spec_payment_method_of(s@) is None && (e matches Error::Decode(t) && t@
                    == s@),
            },
    {
        let n = s.unicode_len();
        if n == 1 {
            let c = s.get_char(0);
            if c == '0' {
                return Ok(PaymentMethod::Aboard);
            }
            if c == '1' {
                return Ok(PaymentMethod::PreBoarding);
            }
        }
        Err(Error::Decode(s.to_owned()))
    }
}

/// Whether a calendar-date row adds or removes service on its date.
#[derive(Debug, PartialEq, Eq, Hash, Clone, Copy, Structural)]
pub enum Exception {
    Added,
    Deleted,
}

/// The exception a text decodes to: strictly "1" or "2".
pub open spec fn spec_exception_of(s: Seq<char>) -> Option<Exception> {
    if s.len() == 1 && s[0] == '1' {
        Some(Exception::Added)
    } else if s.len() == 1 && s[0] == '2' {
        Some(Exception::Deleted)
    } else {
        None
    }
}

impl Exception {
    /// Decodes a service-exception text.
    pub fn decode(s: &str) -> (r: Result<Exception, Error>)
        ensures
            match r {
                Ok(v) => spec_exception_of(s@) == Some(v),
                Err(e) => spec_exception_of(s@) is None && (e matches Error::Decode(t) && t@
                    == s@),
            },
    {
        let n = s.unicode_len();
        if n == 1 {
            let c = s.get_char(0);
            if c == '1' {
                return Ok(Exception::Added);
            }
            if c == '2' {
                return Ok(Exception::Deleted);
            }
        }
        Err(Error::Decode(s.to_owned()))
    }
}

} // verus!
