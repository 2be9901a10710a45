//! The trusted boundary to the calendar library: the wire format yields plain
//! day and microsecond counts, and the library renders them as text.

use vstd::prelude::*;
use vstd::arithmetic::div_mod::lemma_fundamental_div_mod;
use vstd::arithmetic::div_mod::lemma_fundamental_div_mod_converse;

verus! {

/// The text that the calendar library renders for the calendar date with the
/// given Julian day number, or nothing when the day lies outside the library's
/// supported range; a function of the day number alone.
pub uninterp spec fn julian_date_text_of(julian_day: int) -> Option<Seq<char>>;

/// The text that the calendar library renders for the time of day that lies
/// `microseconds` past midnight; a function of the count alone.
pub uninterp spec fn time_text_of(microseconds: int) -> Seq<char>;

/// The text that the calendar library renders for the zoneless datetime on the
/// day with the given Julian day number, `microseconds` past midnight.
pub uninterp spec fn datetime_text_of(julian_day: int, microseconds: int) -> Option<Seq<char>>;

/// The text that the calendar library renders for the same instant taken as
/// UTC, with its zero offset shown.
pub uninterp spec fn datetime_utc_text_of(julian_day: int, microseconds: int) -> Option<
    Seq<char>,
>;

/// Relies on `time::Date::from_julian_day` and `Date`'s `Display` rendering:
/// it succeeds exactly on the library's supported day range and the text
/// depends on the day number alone.
#[verifier::external_body]
pub(crate) fn julian_date_string(julian_day: i32) -> (r: Option<String>)
    ensures
        (r is Some) == (julian_date_text_of(julian_day as int) is Some),
        (r matches Some(s) ==> Some(s@) == julian_date_text_of(julian_day as int)),
{
    match time::Date::from_julian_day(julian_day) {
        Ok(d) => Some(d.to_string()),
        Err(_) => None,
    }
}

/// Relies on `time::Time`: midnight advanced by less than one day never
/// fails, and `Display` renders the resulting time of day.
#[verifier::external_body]
pub(crate) fn time_of_day_string(microseconds: i64) -> (r: String)
    requires
        0 <= microseconds < 86_400_000_000,
    ensures
        r@ == time_text_of(microseconds as int),
{
    (time::Time::MIDNIGHT + time::Duration::microseconds(microseconds)).to_string()
}

/// Relies on `time::Date::from_julian_day`, `Date::midnight`,
/// `PrimitiveDateTime::checked_add` and `Display`: the day at `microseconds`
/// past midnight, rendered as text.
#[verifier::external_body]
pub(crate) fn datetime_string(julian_day: i32, microseconds: i64) -> (r: Option<String>)
    requires
        0 <= microseconds < 86_400_000_000,
    ensures
        (r is Some) == (datetime_text_of(julian_day as int, microseconds as int) is Some),
        (r matches Some(s) ==> Some(s@) == datetime_text_of(
            julian_day as int,
            microseconds as int,
        )),
{
    let date = match time::Date::from_julian_day(julian_day) {
        Ok(d) => d,
        Err(_) => return None,
    };
    match date.midnight().checked_add(time::Duration::microseconds(microseconds)) {
        Some(dt) => Some(dt.to_string()),
        None => None,
    }
}

/// Relies on the same calendar calls with `assume_utc`: the instant taken as
/// UTC, rendered as text with its zero offset.
#[verifier::external_body]
pub(crate) fn datetime_utc_string(julian_day: i32, microseconds: i64) -> (r: Option<String>)
    requires
        0 <= microseconds < 86_400_000_000,
    ensures
        (r is Some) == (datetime_utc_text_of(julian_day as int, microseconds as int) is Some),
        (r matches Some(s) ==> Some(s@) == datetime_utc_text_of(
            julian_day as int,
            microseconds as int,
        )),
{
    let date = match time::Date::from_julian_day(julian_day) {
        Ok(d) => d,
        Err(_) => return None,
    };
    match date.midnight().assume_utc().checked_add(time::Duration::microseconds(microseconds)) {
        Some(dt) => Some(dt.to_string()),
        None => None,
    }
}

/// Splits a microsecond count into whole days and the nonnegative remainder
/// within the day, with the quotient rounded toward minus infinity.
pub fn euclid_day_rem(us: i64) -> (qr: (i64, i64))
    ensures
        qr.0 == us as int / 86_400_000_000,
        qr.1 == us as int % 86_400_000_000,
        0 <= qr.1 < 86_400_000_000,
{
    if us >= 0 {
        let uu = us as u64;
        let q = uu / 86_400_000_000u64;
        let r = uu % 86_400_000_000u64;
        proof {
            lemma_fundamental_div_mod(uu as int, 86_400_000_000);
            lemma_fundamental_div_mod_converse(us as int, 86_400_000_000, q as int, r as int);
        }
        (q as i64, r as i64)
    } else {
        let mag = (-(us + 1)) as u64 + 1;
        let q0 = mag / 86_400_000_000u64;
        let r0 = mag % 86_400_000_000u64;
        proof {
            lemma_fundamental_div_mod(mag as int, 86_400_000_000);
        }
        if r0 == 0 {
            proof {
                lemma_fundamental_div_mod_converse(
                    us as int,
                    86_400_000_000,
                    -(q0 as int),
                    0,
                );
            }
            (-(q0 as i64), 0)
        } else {
            let q = -(q0 as i64) - 1;
            let r = 86_400_000_000i64 - (r0 as i64);
            proof {
                lemma_fundamental_div_mod_converse(us as int, 86_400_000_000, q as int, r as int);
            }
            (q, r)
        }
    }
}

} // verus!
