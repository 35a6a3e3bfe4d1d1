use vstd::prelude::*;

verus! {

/// Smallest year that a calendar date can carry.
pub const MIN_YEAR: i32 = -262144;

/// Largest year that a calendar date can carry.
pub const MAX_YEAR: i32 = 262143;

pub open spec fn is_leap_year(y: int) -> bool {
    (y % 4 == 0 && y % 100 != 0) || y % 400 == 0
}

pub open spec fn days_in_month(y: int, m: int) -> int {
    if m == 2 {
        if is_leap_year(y) { 29 } else { 28 }
    } else if m == 4 || m == 6 || m == 9 || m == 11 {
        30
    } else {
        31
    }
}

/// A proleptic Gregorian calendar date within the supported year range.
pub open spec fn valid_ymd(y: int, m: int, d: int) -> bool {
    &&& MIN_YEAR <= y <= MAX_YEAR
    &&& 1 <= m <= 12
    &&& 1 <= d <= days_in_month(y, m)
}

/// Relies on chrono's `NaiveDate::from_ymd_opt`, which gives `None` exactly on
/// an out-of-range year, an invalid month or an invalid day of that month;
/// the accessors `year`, `month` and `day` read the three parts back.
#[verifier::external_body]
fn chrono_ymd(year: i32, month: u32, day: u32) -> (r: Option<(i32, u32, u32)>)
    ensures
        r == (if valid_ymd(year as int, month as int, day as int) {
            Some((year, month, day))
        } else {
            None
        }),
{
    match chrono::NaiveDate::from_ymd_opt(year, month, day) {
        Some(d) => Some((chrono::Datelike::year(&d), chrono::Datelike::month(&d), chrono::Datelike::day(&d))),
        None => None,
    }
}

/// A calendar date (the day on which a drink was had).
#[derive(Clone, Copy, Debug, PartialEq, Eq, Structural)]
pub struct Date {
    pub year: i32,
    pub month: u32,
    pub day: u32,
}

impl Date {
    pub open spec fn wf(&self) -> bool {
        valid_ymd(self.year as int, self.month as int, self.day as int)
    }

    /// The date with the given year, month and day, if there is one.
    pub fn from_ymd(year: i32, month: u32, day: u32) -> (r: Option<Date>)
        ensures
            r is Some <==> valid_ymd(year as int, month as int, day as int),
            r matches Some(d) ==> d.wf() && d.year == year && d.month == month && d.day == day,
    {
        match chrono_ymd(year, month, day) {
            Some((y, m, d)) => Some(Date { year: y, month: m, day: d }),
            None => None,
        }
    }
}

/// A brewery row. Timestamps are seconds since the Unix epoch, UTC.
#[derive(Clone, Debug, PartialEq, Eq)]
pub struct Brewery {
    pub id: i32,
    pub name: String,
    pub created_at: i64,
    pub updated_at: i64,
}

/// The columns of a brewery row that an insert supplies.
#[derive(Clone, Debug, PartialEq, Eq)]
pub struct NewBrewery {
    pub name: String,
}

/// A beer row; `brewery_id` refers to its brewery.
#[derive(Clone, Debug, PartialEq, Eq)]
pub struct Beer {
    pub id: i32,
    pub name: String,
    pub brewery_id: i32,
    pub created_at: i64,
    pub updated_at: i64,
}

/// The columns of a beer row that an insert supplies.
#[derive(Clone, Debug, PartialEq, Eq)]
pub struct NewBeer {
    pub name: String,
    pub brewery_id: i32,
}

/// One drink had by one person.
#[derive(Clone, Debug, PartialEq, Eq)]
pub struct Drink {
    pub id: i32,
    pub person_id: i32,
    pub drank_on: Date,
    pub beer_id: i32,
    pub rating: i16,
    pub comment: Option<String>,
    pub created_at: i64,
    pub updated_at: i64,
}

/// The columns of a drink row that an insert supplies.
#[derive(Clone, Debug, PartialEq, Eq)]
pub struct NewDrink {
    pub person_id: i32,
    pub drank_on: Date,
    pub beer_id: i32,
    pub rating: i16,
    pub comment: Option<String>,
}

/// A drink together with the names of its beer and brewery.
#[derive(Clone, Debug, PartialEq, Eq)]
pub struct ExpandedDrink {
    pub id: i32,
    pub drank_on: Date,
    pub rating: i16,
    pub comment: Option<String>,
    pub beer: Beer,
    pub brewery: Brewery,
}

/// A person; known to the service by id alone.
#[derive(Clone, Copy, Debug, PartialEq, Eq, Structural)]
pub struct Person {
    pub id: i32,
    pub created_at: i64,
    pub updated_at: i64,
}

/// A verified phone number (country code and number written together) that
/// belongs to a person.
#[derive(Clone, Debug, PartialEq, Eq)]
pub struct Identity {
    pub identifier: String,
    pub person_id: i32,
    pub created_at: i64,
    pub updated_at: i64,
}

/// The columns of an identity row that an insert supplies.
#[derive(Clone, Debug, PartialEq, Eq)]
pub struct NewIdentity {
    pub identifier: String,
    pub person_id: i32,
}

/// A login session: `id` is the bearer token.
#[derive(Clone, Debug, PartialEq, Eq)]
pub struct Session {
    pub id: String,
    pub person_id: i32,
    pub created_at: i64,
    pub updated_at: i64,
    pub expires_at: i64,
}

/// The columns of a session row that an insert supplies.
#[derive(Clone, Debug, PartialEq, Eq)]
pub struct NewSession {
    pub id: String,
    pub person_id: i32,
    pub expires_at: i64,
}

/// How a database command failed.
#[derive(Clone, Copy, Debug, PartialEq, Eq, Structural)]
pub enum StoreError {
    /// No connection could be had from the pool.
    Pool,
    /// An insert broke a uniqueness constraint.
    Conflict,
    /// Any other failure of the query.
    Query,
}

} // verus!
