//! Unix timestamps, and the two calendar operations that `chrono` performs for us.

use vstd::prelude::*;

use chrono::DateTime;
use chrono::Local;
use chrono::Utc;

verus! {

/// The smallest Unix timestamp (in seconds) that `chrono` can represent.
pub const MIN_TIMESTAMP: i64 = -8334601228800i64;

/// The largest Unix timestamp (in seconds) that `chrono` can represent.
pub const MAX_TIMESTAMP: i64 = 8210266876799i64;

/// A timestamp that `chrono::DateTime<Utc>` can represent.
pub open spec fn valid_timestamp(secs: int) -> bool {
    MIN_TIMESTAMP <= secs <= MAX_TIMESTAMP
}

/// `chrono::DateTime::<Utc>::from_timestamp(secs, 0).is_some()`.
///
/// chrono returns `Some` exactly when the day that `secs` falls on lies between
/// January 1 of year -262143 and December 31 of year 262142, which is the range
/// `MIN_TIMESTAMP..=MAX_TIMESTAMP`.
#[verifier::external_body]
pub(crate) fn timestamp_is_representable(secs: i64) -> (r: bool)
    ensures
        r == valid_timestamp(secs as int),
{
    DateTime::<Utc>::from_timestamp(secs, 0).is_some()
}

/// Whether `c` is an ASCII decimal digit.
pub open spec fn is_ascii_digit(c: char) -> bool {
    '0' <= c && c <= '9'
}

/// The shape of a `dd/mm HH:MM` text: two digits, `/`, two digits, a space,
/// two digits, `:`, two digits.
pub open spec fn day_month_time_shape(s: Seq<char>) -> bool {
    &&& s.len() == 11
    &&& s[2] == '/'
    &&& s[5] == ' '
    &&& s[8] == ':'
    &&& forall|i: int| 0 <= i < 11 && i != 2 && i != 5 && i != 8 ==> is_ascii_digit(#[trigger] s[i])
}

/// The two decimal digits of `n`, for `0 <= n < 100`.
pub open spec fn two_digits(n: int) -> Seq<char> {
    seq![crate::text::digit_char((n / 10) as nat), crate::text::digit_char((n % 10) as nat)]
}

/// The day of the month and the month (1 to 12) of the day `days` after
/// January 1, 1970, in the proleptic Gregorian calendar.
pub open spec fn civil_day_month(days: int) -> (int, int) {
    let z = days + 719468;
    let era = z / 146097;
    let doe = z - era * 146097;
    let yoe = (doe - doe / 1460 + doe / 36524 - doe / 146096) / 365;
    let doy = doe - (365 * yoe + yoe / 4 - yoe / 100);
    let mp = (5 * doy + 2) / 153;
    let day = doy - (153 * mp + 2) / 5 + 1;
    let month = if mp < 10 { mp + 3 } else { mp - 9 };
    (day, month)
}

/// The `dd/mm HH:MM` text of the Unix time `secs` in UTC.
pub open spec fn utc_day_month_time(secs: int) -> Seq<char> {
    let (day, month) = civil_day_month(secs / 86400);
    let second_of_day = secs % 86400;
    two_digits(day) + seq!['/'] + two_digits(month) + seq![' '] + two_digits(second_of_day / 3600)
        + seq![':'] + two_digits((second_of_day % 3600) / 60)
}

/// `text` is the UTC `dd/mm HH:MM` of a time `local` less than a day from
/// `secs`: `secs` moved by the offset of some time zone.
pub open spec fn is_local_day_month_time(text: Seq<char>, secs: int) -> bool {
    exists|local: int| secs - 86400 < local < secs + 86400 && text == #[trigger] utc_day_month_time(local)
}

/// `DateTime::from_timestamp(secs, 0)` shown with
/// `.with_timezone(&Local).format("%d/%m %H:%M").to_string()`: the day, month,
/// hour and minute of `secs` in the machine's local time zone.
///
/// The local offset depends on the machine's time zone, so it is not named:
/// chrono's `Local` gives a `FixedOffset`, which is always strictly between
/// -86400 and 86400 seconds, and the text is the UTC day and time of `secs`
/// moved by that offset. chrono's `%d`, `%m`, `%H` and `%M` are each two
/// zero-padded digits.
#[verifier::external_body]
pub(crate) fn local_day_month_time(secs: i64) -> (r: String)
    requires
        valid_timestamp(secs as int),
    ensures
        day_month_time_shape(r@),
        is_local_day_month_time(r@, secs as int),
{
    DateTime::from_timestamp(secs, 0).unwrap().with_timezone(&Local).format("%d/%m %H:%M").to_string()
}

} // verus!
