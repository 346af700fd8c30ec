//! The transit value types: time offsets, calendar dates, and the coded
//! enumerations, plus one typed record per feed table.
//!
//! A coded enumeration is a closed set of variants addressed by a small
//! non-negative integer; many of them name a default variant that an empty
//! cell denotes.

use vstd::prelude::*;

use crate::error::digit_char;
use crate::error::lemma_u64_digits_value;
use crate::error::lemma_u64_digits_wf;
use crate::error::spec_u64_digits;
use crate::error::u64_to_string;
use crate::parse::days_in_month;
use crate::parse::is_digit;
use crate::parse::is_space;
use crate::parse::lemma_leading_zero;
use crate::parse::lemma_split_append_seg;
use crate::parse::lemma_split_append_sep;
use crate::parse::lemma_split_single;
use crate::parse::lemma_trim_noop;
use crate::parse::spec_parse_time;
use crate::parse::spec_parse_u32;
use crate::parse::spec_split;
use crate::parse::spec_trim;
use crate::parse::uint_digits;
use crate::parse::uint_value;
use crate::parse::parse_u32;
use crate::parse::trim_str;

verus! {

/// A closed set of variants addressed by a small non-negative integer code.
///
/// Each implementing type declares its code table, whether an empty cell
/// selects a default variant, and the diagnostic its cells carry when they
/// name no variant.
pub trait CodedEnum: Sized {
    /// The variant a code denotes, if any.
    spec fn spec_from_code(code: u32) -> Option<Self>;

    /// The variant an empty cell denotes, if the enumeration has a default.
    spec fn spec_blank() -> Option<Self>;

    /// The diagnostic for a cell that names no variant.
    spec fn spec_reason() -> Seq<char>;

    /// Executable code table, faithful to [`Self::spec_from_code`].
    fn from_code(code: u32) -> (r: Option<Self>)
        ensures
            r == Self::spec_from_code(code),
    ;

    /// Executable default, faithful to [`Self::spec_blank`].
    fn blank() -> (r: Option<Self>)
        ensures
            r == Self::spec_blank(),
    ;

    /// Executable diagnostic, faithful to [`Self::spec_reason`].
    fn reason() -> (r: String)
        ensures
            r@ == Self::spec_reason(),
    ;
}

/// What decoding a coded-enumeration cell yields: surrounding whitespace is
/// ignored; an empty cell selects the enumeration's default variant if it
/// has one; anything else must be a non-negative integer in the code table.
pub open spec fn spec_decode_enum<E: CodedEnum>(raw: Seq<char>) -> Option<E> {
    let t = spec_trim(raw);
    if t.len() == 0 {
        E::spec_blank()
    } else {
        match spec_parse_u32(t) {
            Some(code) => E::spec_from_code(code),
            None => None,
        }
    }
}

/// Decode a coded-enumeration cell exactly as [`spec_decode_enum`]
/// describes.
pub fn decode_enum<E: CodedEnum>(raw: &str) -> (r: Option<E>)
    ensures
        r == spec_decode_enum::<E>(raw@),
{
    let t = trim_str(raw);
    if t.as_str().unicode_len() == 0 {
        E::blank()
    } else {
        match parse_u32(t.as_str()) {
            Some(code) => E::from_code(code),
            None => None,
        }
    }
}

/// Whether a stop is a plain stop or a station.
#[derive(Debug, PartialEq, Eq, Structural, Clone, Copy)]
pub enum LocationType {
    Stop,
    Station,
}

impl Default for LocationType {
    fn default() -> (r: Self)
        ensures
            r == LocationType::Stop,
    {
        LocationType::Stop
    }
}

impl CodedEnum for LocationType {
    open spec fn spec_from_code(code: u32) -> Option<Self> {
        if code == 0 {
            Some(LocationType::Stop)
        } else if code == 1 {
            Some(LocationType::Station)
        } else {
            None
        }
    }

    open spec fn spec_blank() -> Option<Self> {
        Some(LocationType::Stop)
    }

    open spec fn spec_reason() -> Seq<char> {
        "Location type must (currently) be 0 or 1"@
    }

    fn from_code(code: u32) -> (r: Option<Self>) {
        if code == 0 {
            Some(LocationType::Stop)
        } else if code == 1 {
            Some(LocationType::Station)
        } else {
            None
        }
    }

    fn blank() -> (r: Option<Self>) {
        Some(LocationType::Stop)
    }

    fn reason() -> (r: String) {
        String::from_str("Location type must (currently) be 0 or 1")
    }
}

/// Wheelchair accessibility of a stop.
#[derive(Debug, PartialEq, Eq, Structural, Clone, Copy)]
pub enum WheelchairBoarding {
    NoInformation,
    SomeAccessibility,
    NoAccessibility,
}

impl Default for WheelchairBoarding {
    fn default() -> (r: Self)
        ensures
            r == WheelchairBoarding::NoInformation,
    {
        WheelchairBoarding::NoInformation
    }
}

impl CodedEnum for WheelchairBoarding {
    open spec fn spec_from_code(code: u32) -> Option<Self> {
        if code == 0 {
            Some(WheelchairBoarding::NoInformation)
        } else if code == 1 {
            Some(WheelchairBoarding::SomeAccessibility)
        } else if code == 2 {
            Some(WheelchairBoarding::NoAccessibility)
        } else {
            None
        }
    }

    open spec fn spec_blank() -> Option<Self> {
        Some(WheelchairBoarding::NoInformation)
    }

    open spec fn spec_reason() -> Seq<char> {
        "Wheelchair boarding must be between 0 and 2"@
    }

    fn from_code(code: u32) -> (r: Option<Self>) {
        if code == 0 {
            Some(WheelchairBoarding::NoInformation)
        } else if code == 1 {
            Some(WheelchairBoarding::SomeAccessibility)
        } else if code == 2 {
            Some(WheelchairBoarding::NoAccessibility)
        } else {
            None
        }
    }

    fn blank() -> (r: Option<Self>) {
        Some(WheelchairBoarding::NoInformation)
    }

    fn reason() -> (r: String) {
        String::from_str("Wheelchair boarding must be between 0 and 2")
    }
}

/// The mode of travel of a route.
#[derive(Debug, PartialEq, Eq, Structural, Clone, Copy)]
pub enum RouteType {
    LightRail,
    Subway,
    Rail,
    Bus,
    Ferry,
    CableCar,
    Gondola,
    Funicular,
}

impl CodedEnum for RouteType {
    open spec fn spec_from_code(code: u32) -> Option<Self> {
        if code == 0 {
            Some(RouteType::LightRail)
        } else if code == 1 {
            Some(RouteType::Subway)
        } else if code == 2 {
            Some(RouteType::Rail)
        } else if code == 3 {
            Some(RouteType::Bus)
        } else if code == 4 {
            Some(RouteType::Ferry)
        } else if code == 5 {
            Some(RouteType::CableCar)
        } else if code == 6 {
            Some(RouteType::Gondola)
        } else if code == 7 {
            Some(RouteType::Funicular)
        } else {
            None
        }
    }

    open spec fn spec_blank() -> Option<Self> {
        None
    }

    open spec fn spec_reason() -> Seq<char> {
        "Route type must (currently) be 0-7"@
    }

    fn from_code(code: u32) -> (r: Option<Self>) {
        if code == 0 {
            Some(RouteType::LightRail)
        } else if code == 1 {
            Some(RouteType::Subway)
        } else if code == 2 {
            Some(RouteType::Rail)
        } else if code == 3 {
            Some(RouteType::Bus)
        } else if code == 4 {
            Some(RouteType::Ferry)
        } else if code == 5 {
            Some(RouteType::CableCar)
        } else if code == 6 {
            Some(RouteType::Gondola)
        } else if code == 7 {
            Some(RouteType::Funicular)
        } else {
            None
        }
    }

    fn blank() -> (r: Option<Self>) {
        None
    }

    fn reason() -> (r: String) {
        String::from_str("Route type must (currently) be 0-7")
    }
}

/// Wheelchair accessibility of a trip.
#[derive(Debug, PartialEq, Eq, Structural, Clone, Copy)]
pub enum WheelchairAccessible {
    NoInformation,
    SomeAccessibility,
    NoAccessibility,
}

impl Default for WheelchairAccessible {
    fn default() -> (r: Self)
        ensures
            r == WheelchairAccessible::NoInformation,
    {
        WheelchairAccessible::NoInformation
    }
}

impl CodedEnum for WheelchairAccessible {
    open spec fn spec_from_code(code: u32) -> Option<Self> {
        if code == 0 {
            Some(WheelchairAccessible::NoInformation)
        } else if code == 1 {
            Some(WheelchairAccessible::SomeAccessibility)
        } else if code == 2 {
            Some(WheelchairAccessible::NoAccessibility)
        } else {
            None
        }
    }

    open spec fn spec_blank() -> Option<Self> {
        Some(WheelchairAccessible::NoInformation)
    }

    open spec fn spec_reason() -> Seq<char> {
        "Wheelchair accessibility must be between 0 and 2"@
    }

    fn from_code(code: u32) -> (r: Option<Self>) {
        if code == 0 {
            Some(WheelchairAccessible::NoInformation)
        } else if code == 1 {
            Some(WheelchairAccessible::SomeAccessibility)
        } else if code == 2 {
            Some(WheelchairAccessible::NoAccessibility)
        } else {
            None
        }
    }

    fn blank() -> (r: Option<Self>) {
        Some(WheelchairAccessible::NoInformation)
    }

    fn reason() -> (r: String) {
        String::from_str("Wheelchair accessibility must be between 0 and 2")
    }
}

/// Whether bicycles are allowed on a trip.
#[derive(Debug, PartialEq, Eq, Structural, Clone, Copy)]
pub enum BikesAllowed {
    NoInformation,
    SomeBikes,
    NoBikes,
}

impl Default for BikesAllowed {
    fn default() -> (r: Self)
        ensures
            r == BikesAllowed::NoInformation,
    {
        BikesAllowed::NoInformation
    }
}

impl CodedEnum for BikesAllowed {
    open spec fn spec_from_code(code: u32) -> Option<Self> {
        if code == 0 {
            Some(BikesAllowed::NoInformation)
        } else if code == 1 {
            Some(BikesAllowed::SomeBikes)
        } else if code == 2 {
            Some(BikesAllowed::NoBikes)
        } else {
            None
        }
    }

    open spec fn spec_blank() -> Option<Self> {
        Some(BikesAllowed::NoInformation)
    }

    open spec fn spec_reason() -> Seq<char> {
        "Bikes allowed must be between 0 and 2"@
    }

    fn from_code(code: u32) -> (r: Option<Self>) {
        if code == 0 {
            Some(BikesAllowed::NoInformation)
        } else if code == 1 {
            Some(BikesAllowed::SomeBikes)
        } else if code == 2 {
            Some(BikesAllowed::NoBikes)
        } else {
            None
        }
    }

    fn blank() -> (r: Option<Self>) {
        Some(BikesAllowed::NoInformation)
    }

    fn reason() -> (r: String) {
        String::from_str("Bikes allowed must be between 0 and 2")
    }
}

/// How boarding works at a stop of a trip.
#[derive(Debug, PartialEq, Eq, Structural, Clone, Copy)]
pub enum PickupType {
    RegularlyScheduled,
    NoPickupAvailable,
    MustPhoneAgency,
    MustCoordinateWithDriver,
}

impl Default for PickupType {
    fn default() -> (r: Self)
        ensures
            r == PickupType::RegularlyScheduled,
    {
        PickupType::RegularlyScheduled
    }
}

impl CodedEnum for PickupType {
    open spec fn spec_from_code(code: u32) -> Option<Self> {
        if code == 0 {
            Some(PickupType::RegularlyScheduled)
        } else if code == 1 {
            Some(PickupType::NoPickupAvailable)
        } else if code == 2 {
            Some(PickupType::MustPhoneAgency)
        } else if code == 3 {
            Some(PickupType::MustCoordinateWithDriver)
        } else {
            None
        }
    }

    open spec fn spec_blank() -> Option<Self> {
        Some(PickupType::RegularlyScheduled)
    }

    open spec fn spec_reason() -> Seq<char> {
        "Pickup type must be between 0 and 3"@
    }

    fn from_code(code: u32) -> (r: Option<Self>) {
        if code == 0 {
            Some(PickupType::RegularlyScheduled)
        } else if code == 1 {
            Some(PickupType::NoPickupAvailable)
        } else if code == 2 {
            Some(PickupType::MustPhoneAgency)
        } else if code == 3 {
            Some(PickupType::MustCoordinateWithDriver)
        } else {
            None
        }
    }

    fn blank() -> (r: Option<Self>) {
        Some(PickupType::RegularlyScheduled)
    }

    fn reason() -> (r: String) {
        String::from_str("Pickup type must be between 0 and 3")
    }
}

/// How alighting works at a stop of a trip.
#[derive(Debug, PartialEq, Eq, Structural, Clone, Copy)]
pub enum DropoffType {
    RegularlyScheduled,
    NoDropoffAvailable,
    MustPhoneAgency,
    MustCoordinateWithDriver,
}

impl Default for DropoffType {
    fn default() -> (r: Self)
        ensures
            r == DropoffType::RegularlyScheduled,
    {
        DropoffType::RegularlyScheduled
    }
}

impl CodedEnum for DropoffType {
    open spec fn spec_from_code(code: u32) -> Option<Self> {
        if code == 0 {
            Some(DropoffType::RegularlyScheduled)
        } else if code == 1 {
            Some(DropoffType::NoDropoffAvailable)
        } else if code == 2 {
            Some(DropoffType::MustPhoneAgency)
        } else if code == 3 {
            Some(DropoffType::MustCoordinateWithDriver)
        } else {
            None
        }
    }

    open spec fn spec_blank() -> Option<Self> {
        Some(DropoffType::RegularlyScheduled)
    }

    open spec fn spec_reason() -> Seq<char> {
        "Dropoff type must be between 0 and 3"@
    }

    fn from_code(code: u32) -> (r: Option<Self>) {
        if code == 0 {
            Some(DropoffType::RegularlyScheduled)
        } else if code == 1 {
            Some(DropoffType::NoDropoffAvailable)
        } else if code == 2 {
            Some(DropoffType::MustPhoneAgency)
        } else if code == 3 {
            Some(DropoffType::MustCoordinateWithDriver)
        } else {
            None
        }
    }

    fn blank() -> (r: Option<Self>) {
        Some(DropoffType::RegularlyScheduled)
    }

    fn reason() -> (r: String) {
        String::from_str("Dropoff type must be between 0 and 3")
    }
}

/// Whether a stop time is exact or approximate.
#[derive(Debug, PartialEq, Eq, Structural, Clone, Copy)]
pub enum Timepoint {
    Approximate,
    Exact,
}

impl Default for Timepoint {
    fn default() -> (r: Self)
        ensures
            r == Timepoint::Exact,
    {
        Timepoint::Exact
    }
}

impl CodedEnum for Timepoint {
    open spec fn spec_from_code(code: u32) -> Option<Self> {
        if code == 0 {
            Some(Timepoint::Approximate)
        } else if code == 1 {
            Some(Timepoint::Exact)
        } else {
            None
        }
    }

    open spec fn spec_blank() -> Option<Self> {
        Some(Timepoint::Exact)
    }

    open spec fn spec_reason() -> Seq<char> {
        "Timepoint must be 0 or 1"@
    }

    fn from_code(code: u32) -> (r: Option<Self>) {
        if code == 0 {
            Some(Timepoint::Approximate)
        } else if code == 1 {
            Some(Timepoint::Exact)
        } else {
            None
        }
    }

    fn blank() -> (r: Option<Self>) {
        Some(Timepoint::Exact)
    }

    fn reason() -> (r: String) {
        String::from_str("Timepoint must be 0 or 1")
    }
}

/// Whether a calendar exception adds or removes service.
#[derive(Debug, PartialEq, Eq, Structural, Clone, Copy)]
pub enum ExceptionType {
    ServiceAdded,
    ServiceRemoved,
}

impl CodedEnum for ExceptionType {
    open spec fn spec_from_code(code: u32) -> Option<Self> {
        if code == 1 {
            Some(ExceptionType::ServiceAdded)
        } else if code == 2 {
            Some(ExceptionType::ServiceRemoved)
        } else {
            None
        }
    }

    open spec fn spec_blank() -> Option<Self> {
        None
    }

    open spec fn spec_reason() -> Seq<char> {
        "Exception type field was not 1 or 2"@
    }

    fn from_code(code: u32) -> (r: Option<Self>) {
        if code == 1 {
            Some(ExceptionType::ServiceAdded)
        } else if code == 2 {
            Some(ExceptionType::ServiceRemoved)
        } else {
            None
        }
    }

    fn blank() -> (r: Option<Self>) {
        None
    }

    fn reason() -> (r: String) {
        String::from_str("Exception type field was not 1 or 2")
    }
}

/// When a fare is paid.
#[derive(Debug, PartialEq, Eq, Structural, Clone, Copy)]
pub enum PaymentMethod {
    PaidOnboard,
    PaidBefore,
}

impl CodedEnum for PaymentMethod {
    open spec fn spec_from_code(code: u32) -> Option<Self> {
        if code == 0 {
            Some(PaymentMethod::PaidOnboard)
        } else if code == 1 {
            Some(PaymentMethod::PaidBefore)
        } else {
            None
        }
    }

    open spec fn spec_blank() -> Option<Self> {
        None
    }

    open spec fn spec_reason() -> Seq<char> {
        "payment method must be 0 or 1"@
    }

    fn from_code(code: u32) -> (r: Option<Self>) {
        if code == 0 {
            Some(PaymentMethod::PaidOnboard)
        } else if code == 1 {
            Some(PaymentMethod::PaidBefore)
        } else {
            None
        }
    }

    fn blank() -> (r: Option<Self>) {
        None
    }

    fn reason() -> (r: String) {
        String::from_str("payment method must be 0 or 1")
    }
}

/// How many transfers a fare permits; blank means unlimited.
#[derive(Debug, PartialEq, Eq, Structural, Clone, Copy)]
pub enum Transfers {
    NoTransfers,
    TransferOnce,
    TransferTwice,
    Unlimited,
}

impl CodedEnum for Transfers {
    open spec fn spec_from_code(code: u32) -> Option<Self> {
        if code == 0 {
            Some(Transfers::NoTransfers)
        } else if code == 1 {
            Some(Transfers::TransferOnce)
        } else if code == 2 {
            Some(Transfers::TransferTwice)
        } else {
            None
        }
    }

    open spec fn spec_blank() -> Option<Self> {
        Some(Transfers::Unlimited)
    }

    open spec fn spec_reason() -> Seq<char> {
        "transfers must be between 0 and 2 or blank"@
    }

    fn from_code(code: u32) -> (r: Option<Self>) {
        if code == 0 {
            Some(Transfers::NoTransfers)
        } else if code == 1 {
            Some(Transfers::TransferOnce)
        } else if code == 2 {
            Some(Transfers::TransferTwice)
        } else {
            None
        }
    }

    fn blank() -> (r: Option<Self>) {
        Some(Transfers::Unlimited)
    }

    fn reason() -> (r: String) {
        String::from_str("transfers must be between 0 and 2 or blank")
    }
}

/// Whether departures follow an exact schedule within a frequency window.
#[derive(Debug, PartialEq, Eq, Structural, Clone, Copy)]
pub enum FrequencyAccuracy {
    Approximate,
    Exact,
}

impl Default for FrequencyAccuracy {
    fn default() -> (r: Self)
        ensures
            r == FrequencyAccuracy::Approximate,
    {
        FrequencyAccuracy::Approximate
    }
}

impl CodedEnum for FrequencyAccuracy {
    open spec fn spec_from_code(code: u32) -> Option<Self> {
        if code == 0 {
            Some(FrequencyAccuracy::Approximate)
        } else if code == 1 {
            Some(FrequencyAccuracy::Exact)
        } else {
            None
        }
    }

    open spec fn spec_blank() -> Option<Self> {
        Some(FrequencyAccuracy::Approximate)
    }

    open spec fn spec_reason() -> Seq<char> {
        "Frequency accuracy must be 0 or 1"@
    }

    fn from_code(code: u32) -> (r: Option<Self>) {
        if code == 0 {
            Some(FrequencyAccuracy::Approximate)
        } else if code == 1 {
            Some(FrequencyAccuracy::Exact)
        } else {
            None
        }
    }

    fn blank() -> (r: Option<Self>) {
        Some(FrequencyAccuracy::Approximate)
    }

    fn reason() -> (r: String) {
        String::from_str("Frequency accuracy must be 0 or 1")
    }
}

/// The nature of a transfer between two stops.
#[derive(Debug, PartialEq, Eq, Structural, Clone, Copy)]
pub enum TransferType {
    Recommended,
    Timed,
    MinimumTime,
    NotPossible,
}

impl CodedEnum for TransferType {
    open spec fn spec_from_code(code: u32) -> Option<Self> {
        if code == 0 {
            Some(TransferType::Recommended)
        } else if code == 1 {
            Some(TransferType::Timed)
        } else if code == 2 {
            Some(TransferType::MinimumTime)
        } else if code == 3 {
            Some(TransferType::NotPossible)
        } else {
            None
        }
    }

    open spec fn spec_blank() -> Option<Self> {
        None
    }

    open spec fn spec_reason() -> Seq<char> {
        "transfer type must be between 0 and 3"@
    }

    fn from_code(code: u32) -> (r: Option<Self>) {
        if code == 0 {
            Some(TransferType::Recommended)
        } else if code == 1 {
            Some(TransferType::Timed)
        } else if code == 2 {
            Some(TransferType::MinimumTime)
        } else if code == 3 {
            Some(TransferType::NotPossible)
        } else {
            None
        }
    }

    fn blank() -> (r: Option<Self>) {
        None
    }

    fn reason() -> (r: String) {
        String::from_str("transfer type must be between 0 and 3")
    }
}

/// An elapsed time since the start of the service day, not a wall-clock
/// time: hours are unbounded so that service past midnight keeps counting
/// upward.
#[derive(Debug, PartialEq, Eq, Structural, Clone, Copy)]
pub struct TimeOffset {
    pub hours: u32,
    pub minutes: u32,
    pub seconds: u32,
}

impl TimeOffset {
    /// Assemble an offset from its parts.
    pub fn from_hms(hours: u32, minutes: u32, seconds: u32) -> (t: TimeOffset)
        ensures
            t == (TimeOffset { hours, minutes, seconds }),
    {
        TimeOffset { hours, minutes, seconds }
    }

    /// The offset as a total count of seconds.
    pub fn duration(&self) -> (r: i64)
        ensures
            r == self.hours as int * 3600 + self.minutes as int * 60 + self.seconds as int,
    {
        (self.hours as i64) * 3600 + (self.minutes as i64) * 60 + (self.seconds as i64)
    }

    /// Render the offset as `H:MM:SS` text, exactly as [`spec_time_text`]
    /// describes.
    pub fn to_text(&self) -> (r: String)
        ensures
            r@ == spec_time_text(*self),
    {
        let mut out = u64_to_string(self.hours as u64);
        out.append(":");
        let m = two_digits(self.minutes);
        out.append(m.as_str());
        out.append(":");
        let s = two_digits(self.seconds);
        out.append(s.as_str());
        proof {
            assert(out@ =~= spec_time_text(*self));
        }
        out
    }
}

/// The decimal rendering of a number padded to at least two digits.
pub open spec fn spec_two_digits(n: nat) -> Seq<char> {
    if n < 10 {
        seq![digit_char(0)] + spec_u64_digits(n)
    } else {
        spec_u64_digits(n)
    }
}

/// Render a number padded to at least two digits.
fn two_digits(n: u32) -> (r: String)
    ensures
        r@ == spec_two_digits(n as nat),
{
    let mut out = String::new();
    if n < 10 {
        out.append("0");
        proof {
            reveal_strlit("0");
        }
    }
    let d = u64_to_string(n as u64);
    out.append(d.as_str());
    proof {
        assert(out@ =~= spec_two_digits(n as nat));
    }
    out
}

/// The `H:MM:SS` rendering of a time offset: unpadded hours, two-digit
/// minutes and seconds.
pub open spec fn spec_time_text(t: TimeOffset) -> Seq<char> {
    spec_u64_digits(t.hours as nat) + ":"@ + spec_two_digits(t.minutes as nat) + ":"@
        + spec_two_digits(t.seconds as nat)
}

/// A padded rendering is never empty, holds digits alone, and reads back
/// as the number it renders.
proof fn lemma_two_digits_wf(n: nat)
    ensures
        spec_two_digits(n).len() >= 1,
        forall|i: int|
            0 <= i < spec_two_digits(n).len() ==> is_digit(#[trigger] spec_two_digits(n)[i]),
        uint_value(spec_two_digits(n)) == n,
{
    lemma_u64_digits_wf(n);
    lemma_u64_digits_value(n);
    if n < 10 {
        lemma_leading_zero(spec_u64_digits(n));
        assert forall|i: int| 0 <= i < spec_two_digits(n).len() implies is_digit(
            #[trigger] spec_two_digits(n)[i],
        ) by {
            if i == 0 {
                assert(spec_two_digits(n)[0] == '0');
            } else {
                assert(spec_two_digits(n)[i] == spec_u64_digits(n)[i - 1]);
            }
        }
    }
}

/// A run of digit text parses as a non-negative integer with its denoted
/// value, provided that value fits.
proof fn lemma_digit_run_parses(s: Seq<char>)
    requires
        s.len() >= 1,
        forall|i: int| 0 <= i < s.len() ==> is_digit(#[trigger] s[i]),
        uint_value(s) <= u32::MAX,
    ensures
        spec_parse_u32(s) == Some(uint_value(s) as u32),
{
    assert(is_digit(s[0]));
    assert(s[0] != '+');
    assert(uint_digits(s) == s);
}

/// Rendering a time offset as text and decoding the text again gives back
/// exactly the same hours, minutes and seconds, whenever the minutes and
/// seconds are within their clock range. Hours are unbounded.
pub proof fn lemma_time_text_round_trip(t: TimeOffset)
    requires
        t.minutes <= 59,
        t.seconds <= 59,
    ensures
        spec_parse_time(spec_time_text(t)) == Some((t.hours, t.minutes, t.seconds)),
{
    let a = spec_u64_digits(t.hours as nat);
    let b = spec_two_digits(t.minutes as nat);
    let c = spec_two_digits(t.seconds as nat);
    let text = spec_time_text(t);
    lemma_u64_digits_wf(t.hours as nat);
    lemma_u64_digits_value(t.hours as nat);
    lemma_two_digits_wf(t.minutes as nat);
    lemma_two_digits_wf(t.seconds as nat);
    reveal_strlit(":");
    assert(":"@ =~= seq![':']);
    assert(text =~= a + seq![':'] + b + seq![':'] + c);
    // Trimming leaves the text alone: it starts and ends with a digit.
    assert(text[0] == a[0]);
    assert(text.last() == c.last());
    assert(!is_space(text[0]));
    assert(!is_space(text.last()));
    lemma_trim_noop(text);
    // The text splits into exactly the three digit runs.
    assert(forall|i: int| 0 <= i < a.len() ==> #[trigger] a[i] != ':');
    assert(forall|i: int| 0 <= i < b.len() ==> #[trigger] b[i] != ':');
    assert(forall|i: int| 0 <= i < c.len() ==> #[trigger] c[i] != ':');
    lemma_split_single(a, ':');
    lemma_split_append_sep(a, ':');
    assert(a.push(':') =~= a + seq![':']);
    assert(spec_split(a + seq![':'], ':') =~~= seq![a, Seq::<char>::empty()]);
    lemma_split_append_seg(a + seq![':'], b, ':');
    assert(Seq::<char>::empty() + b =~= b);
    assert(spec_split(a + seq![':'] + b, ':') =~~= seq![a, b]);
    lemma_split_append_sep(a + seq![':'] + b, ':');
    assert((a + seq![':'] + b).push(':') =~= a + seq![':'] + b + seq![':']);
    assert(spec_split(a + seq![':'] + b + seq![':'], ':') =~~= seq![a, b, Seq::<char>::empty()]);
    lemma_split_append_seg(a + seq![':'] + b + seq![':'], c, ':');
    assert(spec_split(text, ':') =~~= seq![a, b, c]);
    // Each run parses back to the part it rendered.
    lemma_digit_run_parses(a);
    lemma_digit_run_parses(b);
    lemma_digit_run_parses(c);
}

/// A calendar date as plain year, month and day values.
#[derive(Debug, PartialEq, Eq, Structural, Clone, Copy)]
pub struct Date {
    pub year: u32,
    pub month: u32,
    pub day: u32,
}

impl Date {
    /// The date names a real day of the Gregorian calendar.
    pub open spec fn valid(self) -> bool {
        1 <= self.month <= 12 && 1 <= self.day <= days_in_month(
            self.year as int,
            self.month as int,
        )
    }
}

/// An operator of transit services.
#[derive(Debug, PartialEq, Clone)]
pub struct Agency {
    pub agency_id: Option<String>,
    pub agency_name: String,
    pub agency_url: String,
    pub agency_timezone: String,
    pub agency_lang: Option<String>,
    pub agency_phone: Option<String>,
    pub agency_fare_url: Option<String>,
    pub agency_email: Option<String>,
}

/// The model of an [`Agency`].
pub struct AgencyView {
    pub agency_id: Option<Seq<char>>,
    pub agency_name: Seq<char>,
    pub agency_url: Seq<char>,
    pub agency_timezone: Seq<char>,
    pub agency_lang: Option<Seq<char>>,
    pub agency_phone: Option<Seq<char>>,
    pub agency_fare_url: Option<Seq<char>>,
    pub agency_email: Option<Seq<char>>,
}

impl View for Agency {
    type V = AgencyView;

    open spec fn view(&self) -> AgencyView {
        AgencyView {
            agency_id: self.agency_id.deep_view(),
            agency_name: self.agency_name@,
            agency_url: self.agency_url@,
            agency_timezone: self.agency_timezone@,
            agency_lang: self.agency_lang.deep_view(),
            agency_phone: self.agency_phone.deep_view(),
            agency_fare_url: self.agency_fare_url.deep_view(),
            agency_email: self.agency_email.deep_view(),
        }
    }
}

/// A place where vehicles pick up or drop off riders. The latitude and
/// longitude fields hold validated decimal-number text; converting them to a
/// machine number is the consumer's business.
#[derive(Debug, PartialEq, Clone)]
pub struct Stop {
    pub stop_id: String,
    pub stop_code: Option<String>,
    pub stop_name: String,
    pub stop_desc: Option<String>,
    pub stop_lat: String,
    pub stop_lon: String,
    pub zone_id: Option<String>,
    pub stop_url: Option<String>,
    pub location_type: LocationType,
    pub parent_station: Option<String>,
    pub stop_timezone: Option<String>,
    pub wheelchair_boarding: WheelchairBoarding,
}

/// The model of a [`Stop`].
pub struct StopView {
    pub stop_id: Seq<char>,
    pub stop_code: Option<Seq<char>>,
    pub stop_name: Seq<char>,
    pub stop_desc: Option<Seq<char>>,
    pub stop_lat: Seq<char>,
    pub stop_lon: Seq<char>,
    pub zone_id: Option<Seq<char>>,
    pub stop_url: Option<Seq<char>>,
    pub location_type: LocationType,
    pub parent_station: Option<Seq<char>>,
    pub stop_timezone: Option<Seq<char>>,
    pub wheelchair_boarding: WheelchairBoarding,
}

impl View for Stop {
    type V = StopView;

    open spec fn view(&self) -> StopView {
        StopView {
            stop_id: self.stop_id@,
            stop_code: self.stop_code.deep_view(),
            stop_name: self.stop_name@,
            stop_desc: self.stop_desc.deep_view(),
            stop_lat: self.stop_lat@,
            stop_lon: self.stop_lon@,
            zone_id: self.zone_id.deep_view(),
            stop_url: self.stop_url.deep_view(),
            location_type: self.location_type,
            parent_station: self.parent_station.deep_view(),
            stop_timezone: self.stop_timezone.deep_view(),
            wheelchair_boarding: self.wheelchair_boarding,
        }
    }
}

/// A line of service with a name and a mode of travel.
#[derive(Debug, PartialEq, Clone)]
pub struct Route {
    pub route_id: String,
    pub agency_id: Option<String>,
    pub route_short_name: String,
    pub route_long_name: String,
    pub route_desc: Option<String>,
    pub route_type: RouteType,
    pub route_url: Option<String>,
    pub route_color: Option<String>,
    pub route_text_color: Option<String>,
}

/// The model of a [`Route`].
pub struct RouteView {
    pub route_id: Seq<char>,
    pub agency_id: Option<Seq<char>>,
    pub route_short_name: Seq<char>,
    pub route_long_name: Seq<char>,
    pub route_desc: Option<Seq<char>>,
    pub route_type: RouteType,
    pub route_url: Option<Seq<char>>,
    pub route_color: Option<Seq<char>>,
    pub route_text_color: Option<Seq<char>>,
}

impl View for Route {
    type V = RouteView;

    open spec fn view(&self) -> RouteView {
        RouteView {
            route_id: self.route_id@,
            agency_id: self.agency_id.deep_view(),
            route_short_name: self.route_short_name@,
            route_long_name: self.route_long_name@,
            route_desc: self.route_desc.deep_view(),
            route_type: self.route_type,
            route_url: self.route_url.deep_view(),
            route_color: self.route_color.deep_view(),
            route_text_color: self.route_text_color.deep_view(),
        }
    }
}

/// One run of a vehicle along a route.
#[derive(Debug, PartialEq, Clone)]
pub struct Trip {
    pub route_id: String,
    pub service_id: String,
    pub trip_id: String,
    pub trip_headsign: Option<String>,
    pub trip_short_name: Option<String>,
    pub direction_id: Option<String>,
    pub block_id: Option<String>,
    pub shape_id: Option<String>,
    pub wheelchair_accessible: WheelchairAccessible,
    pub bikes_allowed: BikesAllowed,
}

/// The model of a [`Trip`].
pub struct TripView {
    pub route_id: Seq<char>,
    pub service_id: Seq<char>,
    pub trip_id: Seq<char>,
    pub trip_headsign: Option<Seq<char>>,
    pub trip_short_name: Option<Seq<char>>,
    pub direction_id: Option<Seq<char>>,
    pub block_id: Option<Seq<char>>,
    pub shape_id: Option<Seq<char>>,
    pub wheelchair_accessible: WheelchairAccessible,
    pub bikes_allowed: BikesAllowed,
}

impl View for Trip {
    type V = TripView;

    open spec fn view(&self) -> TripView {
        TripView {
            route_id: self.route_id@,
            service_id: self.service_id@,
            trip_id: self.trip_id@,
            trip_headsign: self.trip_headsign.deep_view(),
            trip_short_name: self.trip_short_name.deep_view(),
            direction_id: self.direction_id.deep_view(),
            block_id: self.block_id.deep_view(),
            shape_id: self.shape_id.deep_view(),
            wheelchair_accessible: self.wheelchair_accessible,
            bikes_allowed: self.bikes_allowed,
        }
    }
}

/// A scheduled call of a trip at a stop. The distance field holds validated
/// decimal-number text.
#[derive(Debug, PartialEq, Clone)]
pub struct StopTime {
    pub trip_id: String,
    pub arrival_time: TimeOffset,
    pub departure_time: TimeOffset,
    pub stop_id: String,
    pub stop_sequence: u64,
    pub stop_headsign: Option<String>,
    pub pickup_type: PickupType,
    pub dropoff_type: DropoffType,
    pub shape_dist_traveled: Option<String>,
    pub timepoint: Timepoint,
}

/// The model of a [`StopTime`].
pub struct StopTimeView {
    pub trip_id: Seq<char>,
    pub arrival_time: TimeOffset,
    pub departure_time: TimeOffset,
    pub stop_id: Seq<char>,
    pub stop_sequence: u64,
    pub stop_headsign: Option<Seq<char>>,
    pub pickup_type: PickupType,
    pub dropoff_type: DropoffType,
    pub shape_dist_traveled: Option<Seq<char>>,
    pub timepoint: Timepoint,
}

impl View for StopTime {
    type V = StopTimeView;

    open spec fn view(&self) -> StopTimeView {
        StopTimeView {
            trip_id: self.trip_id@,
            arrival_time: self.arrival_time,
            departure_time: self.departure_time,
            stop_id: self.stop_id@,
            stop_sequence: self.stop_sequence,
            stop_headsign: self.stop_headsign.deep_view(),
            pickup_type: self.pickup_type,
            dropoff_type: self.dropoff_type,
            shape_dist_traveled: self.shape_dist_traveled.deep_view(),
            timepoint: self.timepoint,
        }
    }
}

/// The weekly service pattern of a service identifier.
#[derive(Debug, PartialEq, Clone)]
pub struct Calendar {
    pub service_id: String,
    pub monday: bool,
    pub tuesday: bool,
    pub wednesday: bool,
    pub thursday: bool,
    pub friday: bool,
    pub saturday: bool,
    pub sunday: bool,
    pub start_date: Date,
    pub end_date: Date,
}

/// The model of a [`Calendar`].
pub struct CalendarView {
    pub service_id: Seq<char>,
    pub monday: bool,
    pub tuesday: bool,
    pub wednesday: bool,
    pub thursday: bool,
    pub friday: bool,
    pub saturday: bool,
    pub sunday: bool,
    pub start_date: Date,
    pub end_date: Date,
}

impl View for Calendar {
    type V = CalendarView;

    open spec fn view(&self) -> CalendarView {
        CalendarView {
            service_id: self.service_id@,
            monday: self.monday,
            tuesday: self.tuesday,
            wednesday: self.wednesday,
            thursday: self.thursday,
            friday: self.friday,
            saturday: self.saturday,
            sunday: self.sunday,
            start_date: self.start_date,
            end_date: self.end_date,
        }
    }
}

/// A dated exception to a weekly service pattern.
#[derive(Debug, PartialEq, Clone)]
pub struct CalendarDate {
    pub service_id: String,
    pub date: Date,
    pub exception_type: ExceptionType,
}

/// The model of a [`CalendarDate`].
pub struct CalendarDateView {
    pub service_id: Seq<char>,
    pub date: Date,
    pub exception_type: ExceptionType,
}

impl View for CalendarDate {
    type V = CalendarDateView;

    open spec fn view(&self) -> CalendarDateView {
        CalendarDateView {
            service_id: self.service_id@,
            date: self.date,
            exception_type: self.exception_type,
        }
    }
}

/// The price and rules of a fare. The price field holds validated
/// decimal-number text; the duration is a count of seconds.
#[derive(Debug, PartialEq, Clone)]
pub struct FareAttribute {
    pub fare_id: String,
    pub price: String,
    pub currency_type: String,
    pub payment_method: PaymentMethod,
    pub transfers: Transfers,
    pub transfer_duration: Option<i64>,
}

/// The model of a [`FareAttribute`].
pub struct FareAttributeView {
    pub fare_id: Seq<char>,
    pub price: Seq<char>,
    pub currency_type: Seq<char>,
    pub payment_method: PaymentMethod,
    pub transfers: Transfers,
    pub transfer_duration: Option<i64>,
}

impl View for FareAttribute {
    type V = FareAttributeView;

    open spec fn view(&self) -> FareAttributeView {
        FareAttributeView {
            fare_id: self.fare_id@,
            price: self.price@,
            currency_type: self.currency_type@,
            payment_method: self.payment_method,
            transfers: self.transfers,
            transfer_duration: self.transfer_duration,
        }
    }
}

/// Where a fare applies; the origin, destination and contains fields
/// reference zone identifiers from the stops table.
#[derive(Debug, PartialEq, Clone)]
pub struct FareRule {
    pub fare_id: String,
    pub route_id: Option<String>,
    pub origin_id: Option<String>,
    pub destination_id: Option<String>,
    pub contains_id: Option<String>,
}

/// The model of a [`FareRule`].
pub struct FareRuleView {
    pub fare_id: Seq<char>,
    pub route_id: Option<Seq<char>>,
    pub origin_id: Option<Seq<char>>,
    pub destination_id: Option<Seq<char>>,
    pub contains_id: Option<Seq<char>>,
}

impl View for FareRule {
    type V = FareRuleView;

    open spec fn view(&self) -> FareRuleView {
        FareRuleView {
            fare_id: self.fare_id@,
            route_id: self.route_id.deep_view(),
            origin_id: self.origin_id.deep_view(),
            destination_id: self.destination_id.deep_view(),
            contains_id: self.contains_id.deep_view(),
        }
    }
}

/// One point of the polyline a trip follows. The coordinate and distance
/// fields hold validated decimal-number text.
#[derive(Debug, PartialEq, Clone)]
pub struct Shape {
    pub shape_id: String,
    pub shape_pt_lat: String,
    pub shape_pt_lon: String,
    pub shape_pt_sequence: u64,
    pub shape_dist_traveled: Option<String>,
}

/// The model of a [`Shape`].
pub struct ShapeView {
    pub shape_id: Seq<char>,
    pub shape_pt_lat: Seq<char>,
    pub shape_pt_lon: Seq<char>,
    pub shape_pt_sequence: u64,
    pub shape_dist_traveled: Option<Seq<char>>,
}

impl View for Shape {
    type V = ShapeView;

    open spec fn view(&self) -> ShapeView {
        ShapeView {
            shape_id: self.shape_id@,
            shape_pt_lat: self.shape_pt_lat@,
            shape_pt_lon: self.shape_pt_lon@,
            shape_pt_sequence: self.shape_pt_sequence,
            shape_dist_traveled: self.shape_dist_traveled.deep_view(),
        }
    }
}

/// Headway-based service over a window of the service day.
#[derive(Debug, PartialEq, Clone)]
pub struct Frequency {
    pub trip_id: String,
    pub start_time: TimeOffset,
    pub end_time: TimeOffset,
    pub headway_secs: u64,
    pub exact_times: FrequencyAccuracy,
}

/// The model of a [`Frequency`].
pub struct FrequencyView {
    pub trip_id: Seq<char>,
    pub start_time: TimeOffset,
    pub end_time: TimeOffset,
    pub headway_secs: u64,
    pub exact_times: FrequencyAccuracy,
}

impl View for Frequency {
    type V = FrequencyView;

    open spec fn view(&self) -> FrequencyView {
        FrequencyView {
            trip_id: self.trip_id@,
            start_time: self.start_time,
            end_time: self.end_time,
            headway_secs: self.headway_secs,
            exact_times: self.exact_times,
        }
    }
}

/// A connection between two stops; the minimum time is a count of seconds.
#[derive(Debug, PartialEq, Clone)]
pub struct Transfer {
    pub from_stop_id: String,
    pub to_stop_id: String,
    pub transfer_type: TransferType,
    pub min_transfer_time: Option<i64>,
}

/// The model of a [`Transfer`].
pub struct TransferView {
    pub from_stop_id: Seq<char>,
    pub to_stop_id: Seq<char>,
    pub transfer_type: TransferType,
    pub min_transfer_time: Option<i64>,
}

impl View for Transfer {
    type V = TransferView;

    open spec fn view(&self) -> TransferView {
        TransferView {
            from_stop_id: self.from_stop_id@,
            to_stop_id: self.to_stop_id@,
            transfer_type: self.transfer_type,
            min_transfer_time: self.min_transfer_time,
        }
    }
}

/// The smallest schedule record: which trip arrives when. This is the
/// minimal two-column schema a timetable can carry, and the one the
/// decoder's end-to-end behaviour is stated over.
#[derive(Debug, PartialEq, Clone)]
pub struct TripArrival {
    pub trip_id: String,
    pub arrival_time: TimeOffset,
}

/// The model of a [`TripArrival`].
pub struct TripArrivalView {
    pub trip_id: Seq<char>,
    pub arrival_time: TimeOffset,
}

impl View for TripArrival {
    type V = TripArrivalView;

    open spec fn view(&self) -> TripArrivalView {
        TripArrivalView { trip_id: self.trip_id@, arrival_time: self.arrival_time }
    }
}

/// Who published the feed and for which span of dates.
#[derive(Debug, PartialEq, Clone)]
pub struct FeedInfo {
    pub feed_publisher_name: String,
    pub feed_publisher_url: String,
    pub feed_lang: String,
    pub feed_start_date: Option<Date>,
    pub feed_end_date: Option<Date>,
    pub feed_version: Option<String>,
}

/// The model of a [`FeedInfo`].
pub struct FeedInfoView {
    pub feed_publisher_name: Seq<char>,
    pub feed_publisher_url: Seq<char>,
    pub feed_lang: Seq<char>,
    pub feed_start_date: Option<Date>,
    pub feed_end_date: Option<Date>,
    pub feed_version: Option<Seq<char>>,
}

impl View for FeedInfo {
    type V = FeedInfoView;

    open spec fn view(&self) -> FeedInfoView {
        FeedInfoView {
            feed_publisher_name: self.feed_publisher_name@,
            feed_publisher_url: self.feed_publisher_url@,
            feed_lang: self.feed_lang@,
            feed_start_date: self.feed_start_date,
            feed_end_date: self.feed_end_date,
            feed_version: self.feed_version.deep_view(),
        }
    }
}

} // verus!
