//! Identifiers and instants given to new entities.
use chrono::TimeZone;
use vstd::prelude::*;

verus! {

/// An instant in UTC: whole seconds since the Unix epoch and the
/// nanoseconds past that second.
#[derive(Clone, Copy, Debug, PartialEq, Eq, Structural)]
pub struct Timestamp {
    pub secs: i64,
    pub nanos: u32,
}

/// The version number that a UUID, held as its 128-bit big-endian value,
/// carries in bits 76..80.
pub open spec fn uuid_version(id: u128) -> u128 {
    (id >> 76u128) & 0xfu128
}

/// The variant field of a UUID (bits 62..64); `2` is the RFC 9562 variant.
pub open spec fn uuid_variant(id: u128) -> u128 {
    (id >> 62u128) & 0x3u128
}

/// Calls `uuid::Uuid::now_v7` and hands back the UUID as its `u128` value.
/// The value depends on the clock and on random bits, so the contract only
/// states what the uuid documentation promises of every outcome: it is a
/// version 7 UUID of the RFC 9562 variant.
#[verifier::external_body]
pub(crate) fn new_uuid_v7() -> (id: u128)
    ensures
        uuid_version(id) == 7,
        uuid_variant(id) == 2,
{
    uuid::Uuid::now_v7().as_u128()
}

/// Declares `chrono::FixedOffset`, held opaquely.
#[verifier::external_type_specification]
#[verifier::external_body]
pub struct ExFixedOffset(chrono::FixedOffset);

/// Calls `chrono::FixedOffset::east_opt`, which (by chrono's source) gives an
/// offset exactly when it is less than a day either way.
#[verifier::external_body]
fn fixed_offset_east(secs: i32) -> (offset: Option<chrono::FixedOffset>)
    ensures
        offset is Some <==> -86_400 < secs < 86_400,
{
    chrono::FixedOffset::east_opt(secs)
}

/// The first second that chrono can represent, that of
/// `DateTime::<Utc>::MIN_UTC` (-262143-01-01T00:00:00 UTC).
pub const CHRONO_MIN_SECS: i64 = -8_334_601_228_800;

/// The last second that chrono can represent, that of
/// `DateTime::<Utc>::MAX_UTC` (+262142-12-31T23:59:59 UTC).
pub const CHRONO_MAX_SECS: i64 = 8_210_266_876_799;

/// Whether `chrono::DateTime::from_timestamp(secs, nanos)` gives an
/// instant: the second lies in chrono's calendar (years -262143 to 262142),
/// and the nanoseconds stay below one second, or below two where the
/// second is the last of its minute (a leap second).
pub open spec fn chrono_timestamp_valid(secs: i64, nanos: u32) -> bool {
    &&& CHRONO_MIN_SECS <= secs <= CHRONO_MAX_SECS
    &&& (nanos < 1_000_000_000 || (nanos < 2_000_000_000 && secs % 60 == 59))
}

/// Reads the clock with `chrono::Utc::now` and hands back the instant as
/// seconds and nanoseconds. The value is a clock reading, so only this is
/// promised: chrono builds `Utc::now` with `DateTime::from_timestamp`, so the
/// reading is one that chrono can represent.
#[verifier::external_body]
fn utc_now() -> (now: Timestamp)
    ensures
        chrono_timestamp_valid(now.secs, now.nanos),
{
    let now = chrono::Utc::now();
    Timestamp { secs: now.timestamp(), nanos: now.timestamp_subsec_nanos() }
}

/// Builds the instant `t` with `DateTime::from_timestamp`, takes it to the
/// time zone `offset` with `TimeZone::from_utc_datetime` and back to UTC with
/// `DateTime::with_timezone`. By chrono's source these keep the instant, so
/// the result is `t` again.
#[verifier::external_body]
fn through_offset(t: Timestamp, offset: &chrono::FixedOffset) -> (back: Timestamp)
    requires
        chrono_timestamp_valid(t.secs, t.nanos),
    ensures
        back == t,
{
    let utc = chrono::DateTime::from_timestamp(t.secs, t.nanos).unwrap();
    let local = offset.from_utc_datetime(&utc.naive_utc());
    let back = local.with_timezone(&chrono::Utc);
    Timestamp { secs: back.timestamp(), nanos: back.timestamp_subsec_nanos() }
}

/// Japan Standard Time, east of UTC, in seconds.
pub const JST_OFFSET_SECS: i32 = 9 * 3600;

/// The current instant, read in Japan Standard Time and given in UTC: a
/// clock reading that chrono can represent.
pub(crate) fn jst_now_as_utc() -> (now: Timestamp)
    ensures
        chrono_timestamp_valid(now.secs, now.nanos),
{
    match fixed_offset_east(JST_OFFSET_SECS) {
        Some(jst) => {
            let now = utc_now();
            through_offset(now, &jst)
        },
        None => {
            proof {
                assert(false);
            }
            utc_now()
        },
    }
}

} // verus!
