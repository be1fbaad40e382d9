//! Points in time as text: in the machine's time zone, and in UTC.
//!
//! A point in time is a number of milliseconds since the Unix epoch. Calendar arithmetic and the
//! time zone database are those of `chrono` and `chrono_tz`; the name of the machine's own zone
//! comes from `iana_time_zone`. The functions here that hand work to them say what is relied on.
use crate::text::optional_text;
use chrono::TimeZone;
use chrono_tz::OffsetName;
use vstd::prelude::*;

verus! {

/// The last millisecond of the year 262142, the last one that has a calendar date in `chrono`.
pub const MAX_TS: u64 = 8_210_266_876_799_999;

/// How a date and time of day are written in a line of plain text.
pub const TIME_PATTERN: &'static str = "%Y-%m-%d %H:%M:%S";

/// How the name of a zone is written.
pub const ZONE_PATTERN: &'static str = "%Z";

/// The milliseconds of a second.
pub const SECOND: u64 = 1_000;

/// The milliseconds of a day.
pub const DAY: u64 = 86_400_000;

/// The name given to the zone when no better one is known.
pub const UTC_NAME: &'static str = "UTC";

/// The error with which `iana_time_zone` reports that the machine's zone has no known name.
#[verifier::external_type_specification]
#[verifier::external_body]
pub struct ExGetTimezoneError(iana_time_zone::GetTimezoneError);

/// What `chrono` writes for the time `ts` at `offset` seconds east of UTC under `pattern`.
pub uninterp spec fn formatted_time(ts: u64, offset: i32, pattern: Seq<char>) -> Seq<char>;

/// What `chrono` writes for the time `ts` in UTC in the form of RFC 3339.
pub uninterp spec fn rfc3339_time(ts: u64) -> Seq<char>;

/// Whether `name` is the name of a zone in the time zone database of `chrono_tz`.
pub uninterp spec fn is_zone_name(name: Seq<char>) -> bool;

/// The abbreviation that the time zone database has for the zone `name` on the UTC date of `ts`.
pub uninterp spec fn zone_abbreviation(name: Seq<char>, ts: u64) -> Option<Seq<char>>;

/// The start of the second in which `ts` falls.
pub open spec fn second_of(ts: u64) -> u64 {
    (ts - ts % SECOND) as u64
}

/// The start of the UTC date on which `ts` falls.
pub open spec fn date_of(ts: u64) -> u64 {
    (ts - ts % DAY) as u64
}

/// The date and time of day that are shown for `ts` at `offset` seconds east of UTC: those of its
/// second.
pub open spec fn shown_time(ts: u64, offset: i32) -> Seq<char> {
    formatted_time(second_of(ts), offset, TIME_PATTERN@)
}

/// The abbreviation of a zone on the UTC date of `ts`, where the zone is known and has one.
pub open spec fn abbreviation_in_zone(zone: Option<Seq<char>>, ts: u64) -> Option<Seq<char>> {
    match zone {
        Some(name) => if is_zone_name(name) {
            zone_abbreviation(name, date_of(ts))
        } else {
            None
        },
        None => None,
    }
}

/// The label for a zone with the given abbreviation: that abbreviation, or `UTC` where there is
/// none.
pub open spec fn label_text(abbreviation: Option<Seq<char>>) -> Seq<char> {
    match abbreviation {
        Some(text) => text,
        None => UTC_NAME@,
    }
}

/// The short name of the zone with which a time is labelled: its abbreviation on that date, or
/// `UTC` where the zone is not known or has no abbreviation.
pub open spec fn zone_label(zone: Option<Seq<char>>, ts: u64) -> Seq<char> {
    label_text(abbreviation_in_zone(zone, ts))
}

/// The name in an answer of the system about its time zone: none where the answer is an error.
pub open spec fn zone_in_answer(
    answer: Result<String, iana_time_zone::GetTimezoneError>,
) -> Option<String> {
    match answer {
        Ok(name) => Some(name),
        Err(_) => None,
    }
}

/// Whether `zone` is the name in some answer that the system may give about its time zone. Two
/// answers may differ, so more than one name may be such.
pub closed spec fn is_machine_zone(zone: Option<Seq<char>>) -> bool {
    exists|answer: Result<String, iana_time_zone::GetTimezoneError>|
        #[trigger] call_ensures(system_zone, (), answer) && zone == optional_text(
            zone_in_answer(answer),
        )
}

/// Whether the system may answer that at the time `ts` its clocks are `offset` seconds east of
/// UTC.
pub closed spec fn is_local_offset(ts: u64, offset: i32) -> bool {
    call_ensures(local_offset, (ts,), offset)
}

/// Calls the conversion of a `chrono::DateTime<Utc>` into `chrono::DateTime<Local>`, and hands on
/// the offset that it picked, in seconds east of UTC.
///
/// The offset is the machine's own for that time, so nothing is claimed of it but what `chrono`
/// guarantees of every `FixedOffset`: that it is less than a day either way.
#[verifier::external_body]
pub(crate) fn local_offset(ts: u64) -> (offset: i32)
    requires
        ts <= MAX_TS,
    ensures
        -86_400 < offset < 86_400,
{
    let utc = chrono::DateTime::from_timestamp_millis(ts as i64).unwrap();
    chrono::DateTime::<chrono::Local>::from(utc).offset().local_minus_utc()
}

/// Calls `chrono::DateTime::format` for the time `ts` seen at `offset`.
///
/// What is claimed is that the text follows from the time, the offset and the pattern alone. A
/// pattern that `chrono` cannot read makes the text unavailable, hence the one pattern allowed.
#[verifier::external_body]
fn format_time(ts: u64, offset: i32, pattern: &str) -> (text: String)
    requires
        ts <= MAX_TS,
        -86_400 < offset < 86_400,
        pattern@ == TIME_PATTERN@,
    ensures
        text@ == formatted_time(ts, offset, pattern@),
{
    let utc = chrono::DateTime::from_timestamp_millis(ts as i64).unwrap();
    let zone = chrono::FixedOffset::east_opt(offset).unwrap();
    utc.with_timezone(&zone).format(pattern).to_string()
}

/// Calls `chrono::DateTime::format` for a time in UTC, with the pattern that asks for the name of
/// the zone, and claims that the name is `UTC`.
#[verifier::external_body]
fn utc_zone_name(ts: u64, pattern: &str) -> (name: String)
    requires
        ts <= MAX_TS,
        pattern@ == ZONE_PATTERN@,
    ensures
        name@ == UTC_NAME@,
{
    let utc = chrono::DateTime::from_timestamp_millis(ts as i64).unwrap();
    utc.format(pattern).to_string()
}

/// Calls `chrono::DateTime::to_rfc3339_opts` for the time `ts` in UTC, with as many digits of the
/// second as the time needs and a final `Z`. This is the form in which `chrono` serializes a time.
///
/// What is claimed is that the text follows from the time alone, and that it is exact to the
/// millisecond: no other time is written the same.
#[verifier::external_body]
pub(crate) fn format_rfc3339(ts: u64) -> (text: String)
    requires
        ts <= MAX_TS,
    ensures
        text@ == rfc3339_time(ts),
        forall|other: u64|
            other <= MAX_TS && #[trigger] rfc3339_time(other) == text@ ==> other == ts,
{
    let utc = chrono::DateTime::from_timestamp_millis(ts as i64).unwrap();
    utc.to_rfc3339_opts(chrono::SecondsFormat::AutoSi, true)
}

/// Calls `iana_time_zone::get_timezone`. The answer rests on how the machine is set up, so
/// nothing is claimed of it, not even that it is the same each time.
#[verifier::external_body]
pub(crate) fn system_zone() -> (zone: Result<String, iana_time_zone::GetTimezoneError>) {
    iana_time_zone::get_timezone()
}

/// Calls the parser of `chrono_tz::Tz`. What is claimed is that its verdict follows from the name
/// alone.
#[verifier::external_body]
fn zone_is_known(name: &str) -> (known: bool)
    ensures
        known == is_zone_name(name@),
{
    name.parse::<chrono_tz::Tz>().is_ok()
}

/// Calls `offset_from_utc_date` of a `chrono_tz::Tz` for the UTC date of `ts`, and hands on the
/// abbreviation of the offset.
///
/// What is claimed is that the abbreviation follows from the zone and the time alone.
#[verifier::external_body]
fn abbreviation_on_date(name: &str, ts: u64) -> (abbreviation: Option<String>)
    requires
        is_zone_name(name@),
        ts <= MAX_TS,
    ensures
        optional_text(abbreviation) == zone_abbreviation(name@, ts),
{
    let zone: chrono_tz::Tz = name.parse().unwrap();
    let date = chrono::DateTime::from_timestamp_millis(ts as i64).unwrap().date_naive();
    zone.offset_from_utc_date(&date).abbreviation().map(String::from)
}

/// The offset of the machine's clocks at the time `ts`, in seconds east of UTC.
///
/// Which offset it is rests on how the machine is set up. It is always the answer of the system
/// for that time.
pub(crate) fn machine_offset(ts: u64) -> (offset: i32)
    requires
        ts <= MAX_TS,
    ensures
        -86_400 < offset < 86_400,
        is_local_offset(ts, offset),
{
    local_offset(ts)
}

/// The date and time of day of `ts` at `offset` seconds east of UTC, to the second.
pub fn time_at_offset(ts: u64, offset: i32) -> (text: String)
    requires
        ts <= MAX_TS,
        -86_400 < offset < 86_400,
    ensures
        text@ == shown_time(ts, offset),
        text@ == formatted_time((ts - ts % 1_000) as u64, offset, TIME_PATTERN@),
{
    format_time(ts - ts % SECOND, offset, TIME_PATTERN)
}

/// The label for a zone that has the given abbreviation at the time `ts`, or none.
pub fn label_for(abbreviation: Option<String>, ts: u64) -> (label: String)
    requires
        ts <= MAX_TS,
    ensures
        label@ == label_text(optional_text(abbreviation)),
        abbreviation matches Some(text) ==> label@ == text@,
        abbreviation is None ==> label@ == "UTC"@,
{
    match abbreviation {
        Some(text) => text,
        None => utc_zone_name(ts, ZONE_PATTERN),
    }
}

/// The short name of `zone` on the date of `ts`.
pub fn label_in_zone(zone: &Option<String>, ts: u64) -> (label: String)
    requires
        ts <= MAX_TS,
    ensures
        label@ == zone_label(optional_text(*zone), ts),
{
    let abbreviation = match zone {
        Some(name) => if zone_is_known(name.as_str()) {
            abbreviation_on_date(name.as_str(), ts - ts % DAY)
        } else {
            None
        },
        None => None,
    };
    label_for(abbreviation, ts)
}

/// The name in an answer of the system about its time zone, where the answer holds one.
pub fn answered_zone(answer: Result<String, iana_time_zone::GetTimezoneError>) -> (zone: Option<
    String,
>)
    ensures
        zone == zone_in_answer(answer),
        answer matches Ok(name) ==> zone == Some(name),
        answer is Err ==> zone is None,
{
    match answer {
        Ok(name) => Some(name),
        Err(_) => None,
    }
}

/// The name of the machine's time zone, where it has one.
///
/// Which name it is rests on how the machine is set up. It is always taken from an answer of the
/// system.
pub(crate) fn machine_zone() -> (zone: Option<String>)
    ensures
        is_machine_zone(optional_text(zone)),
{
    let answer = system_zone();
    answered_zone(answer)
}

/// All times of one UTC date have the same label in a zone, even where the clocks of the zone
/// change on that date.
pub proof fn law_label_follows_date(zone: Option<Seq<char>>, a: u64, b: u64)
    requires
        a / DAY == b / DAY,
    ensures
        zone_label(zone, a) == zone_label(zone, b),
{
}

/// All times of one second are shown as the same date and time of day.
pub proof fn law_time_is_shown_to_the_second(offset: i32, a: u64, b: u64)
    requires
        a / SECOND == b / SECOND,
    ensures
        shown_time(a, offset) == shown_time(b, offset),
{
}

/// A time is shown at exactly the offset it is asked for, as the whole second it falls in.
pub proof fn law_time_is_shown_at_its_offset(ts: u64, offset: i32, start: u64)
    requires
        start % 1_000 == 0,
        start <= ts < start + 1_000,
    ensures
        shown_time(ts, offset) == formatted_time(start, offset, "%Y-%m-%d %H:%M:%S"@),
{
}

/// A time is labelled with the abbreviation of its zone on its UTC date. It is labelled with `UTC`
/// where the zone has none on that date, where it is unknown, and where none is given.
pub proof fn law_label_is_that_of_the_zone(name: Seq<char>, ts: u64, midnight: u64)
    requires
        midnight % 86_400_000 == 0,
        midnight <= ts < midnight + 86_400_000,
    ensures
        is_zone_name(name) ==> match zone_abbreviation(name, midnight) {
            Some(abbreviation) => zone_label(Some(name), ts) == abbreviation,
            None => zone_label(Some(name), ts) == "UTC"@,
        },
        !is_zone_name(name) ==> zone_label(Some(name), ts) == "UTC"@,
        zone_label(None, ts) == "UTC"@,
{
}

/// An abbreviation is its own label; without one the label is `UTC`.
pub proof fn law_abbreviation_is_the_label(abbreviation: Seq<char>)
    ensures
        label_text(Some(abbreviation)) == abbreviation,
        label_text(None) == "UTC"@,
{
}

/// An answer that names a zone gives that name, an error gives none.
pub proof fn law_zone_is_the_one_answered(name: String, error: iana_time_zone::GetTimezoneError)
    ensures
        zone_in_answer(Ok(name)) == Some(name),
        zone_in_answer(Err(error)) == None::<String>,
{
}

/// The machine's zone is never made up: its name was answered, and it lacks one only where the
/// answer was an error.
pub(crate) proof fn law_machine_zone_was_answered(zone: Option<Seq<char>>)
    requires
        is_machine_zone(zone),
    ensures
        exists|answer: Result<String, iana_time_zone::GetTimezoneError>|
            #[trigger] call_ensures(system_zone, (), answer) && match answer {
                Ok(name) => zone == Some(name@),
                Err(_) => zone is None,
            },
{
    let answer = choose|answer: Result<String, iana_time_zone::GetTimezoneError>|
        #[trigger] call_ensures(system_zone, (), answer) && zone == optional_text(
            zone_in_answer(answer),
        );
    assert(call_ensures(system_zone, (), answer));
}

/// The machine's offset at a time was answered for that very time.
pub(crate) proof fn law_machine_offset_was_answered(ts: u64, offset: i32)
    requires
        is_local_offset(ts, offset),
    ensures
        call_ensures(local_offset, (ts,), offset),
{
}

} // verus!
