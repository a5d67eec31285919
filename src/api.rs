use crate::date::CalendarDate;
use crate::decode::{
    all_statuses, decode_single, first_invalid, status_value, statuses, to_vec, DecodeError,
};
use crate::request::ApiOptions;
use vstd::prelude::*;

verus! {

/// Why a query gave no answer: the transport failed with `E`, or the body
/// that came back did not decode.
#[derive(Debug)]
pub enum IsDayOffApiError<E> {
    DecodeError(DecodeError),
    RequestError(E),
}

/// The calendar client: what each kind of question asks the service, and how
/// its answer reads.
pub struct IsDayOffApi {}

/// The query for a month; a missing year or month is taken from `now`, each
/// on its own.
pub open spec fn month_options(year: Option<i32>, month: Option<u32>, now: CalendarDate) -> ApiOptions {
    ApiOptions::WithYMD {
        year: year.unwrap_or(now.year),
        month: Some(month.unwrap_or(now.month)),
        day: None,
    }
}

/// A month query with the year or the month left out asks what a query
/// naming today's year or month asks, whatever date the second is made on.
pub proof fn lemma_month_defaults(
    year: Option<i32>,
    month: Option<u32>,
    now: CalendarDate,
    other: CalendarDate,
)
    ensures
        month_options(year, month, now) == month_options(
            Some(year.unwrap_or(now.year)),
            Some(month.unwrap_or(now.month)),
            other,
        ),
        month_options(None, None, now) == month_options(Some(now.year), Some(now.month), other),
{
}

impl IsDayOffApi {
    /// The query for the single day `year-month-day`.
    pub fn date_query(year: i32, month: u32, day: u32) -> (r: ApiOptions)
        ensures
            r == (ApiOptions::WithYMD { year, month: Some(month), day: Some(day) }),
    {
        ApiOptions::WithYMD { year, month: Some(month), day: Some(day) }
    }

    /// The query for the day `now`.
    pub fn today_query_at(now: &CalendarDate) -> (r: ApiOptions)
        ensures
            r == (ApiOptions::WithYMD {
                year: now.year,
                month: Some(now.month),
                day: Some(now.day),
            }),
    {
        Self::date_query(now.year, now.month, now.day)
    }

    /// The query for the host's current local date.
    pub fn today_query() -> (r: ApiOptions)
        ensures
            r matches ApiOptions::WithYMD { month: Some(m), day: Some(d), .. } && 1 <= m <= 12
                && 1 <= d <= 31,
    {
        let now = CalendarDate::local_today();
        Self::today_query_at(&now)
    }

    /// The query for a month, with a missing year or month taken from `now`.
    pub fn month_query_at(year: Option<i32>, month: Option<u32>, now: &CalendarDate) -> (r:
        ApiOptions)
        ensures
            r == month_options(year, month, *now),
    {
        let year = match year {
            Some(y) => y,
            None => now.year,
        };
        let month = match month {
            Some(m) => m,
            None => now.month,
        };
        ApiOptions::WithYMD { year, month: Some(month), day: None }
    }

    /// The query for a month, with a missing year or month taken from the
    /// host's current local date.
    pub fn month_query(year: Option<i32>, month: Option<u32>) -> (r: ApiOptions)
        ensures
            r matches ApiOptions::WithYMD { year: y, month: Some(m), day: None } && (year matches Some(
                v,
            ) ==> y == v) && (month matches Some(v) ==> m == v) && (month is None ==> 1 <= m <= 12),
    {
        let now = CalendarDate::local_today();
        Self::month_query_at(year, month, &now)
    }

    /// The query for a whole year.
    pub fn year_query(year: i32) -> (r: ApiOptions)
        ensures
            r == (ApiOptions::WithYMD { year, month: None, day: None }),
    {
        ApiOptions::WithYMD { year, month: None, day: None }
    }

    /// The query for every day from `start` to `end`, both included.
    pub fn period_query(start: &CalendarDate, end: &CalendarDate) -> (r: ApiOptions)
        ensures
            r == (ApiOptions::WithStartEnd { start: *start, end: *end }),
    {
        ApiOptions::WithStartEnd { start: *start, end: *end }
    }

    /// The statuses that a response to a month, year or period query holds.
    /// A transport failure is passed on as it came.
    pub fn decode_response<E>(response: Result<String, E>) -> (r: Result<
        Vec<u32>,
        IsDayOffApiError<E>,
    >)
        ensures
            match response {
                Err(e) => r == Err::<Vec<u32>, _>(IsDayOffApiError::RequestError(e)),
                Ok(s) => {
                    &&& (r is Ok <==> all_statuses(s@))
                    &&& (r matches Ok(v) ==> v@ == statuses(s@))
                    &&& (!all_statuses(s@) ==> (r matches Err(
                        IsDayOffApiError::DecodeError(
                            DecodeError::InvalidCharacter { position, found },
                        ),
                    ) && first_invalid(s@, position as int) && found == s@[position as int]))
                },
            },
    {
        match response {
            Err(e) => Err(IsDayOffApiError::RequestError(e)),
            Ok(body) => match to_vec(body) {
                Ok(v) => Ok(v),
                Err(e) => Err(IsDayOffApiError::DecodeError(e)),
            },
        }
    }

    /// The status that a response to a single-day query holds. A transport
    /// failure is passed on as it came.
    pub fn decode_single_response<E>(response: Result<String, E>) -> (r: Result<
        u32,
        IsDayOffApiError<E>,
    >)
        ensures
            match response {
                Err(e) => r == Err::<u32, _>(IsDayOffApiError::RequestError(e)),
                Ok(s) => {
                    &&& (r is Ok <==> all_statuses(s@) && s@.len() == 1)
                    &&& (r matches Ok(d) ==> d == status_value(s@[0])->0)
                    &&& (!all_statuses(s@) ==> (r matches Err(
                        IsDayOffApiError::DecodeError(
                            DecodeError::InvalidCharacter { position, found },
                        ),
                    ) && first_invalid(s@, position as int) && found == s@[position as int]))
                    &&& (all_statuses(s@) && s@.len() != 1 ==> (r matches Err(
                        IsDayOffApiError::DecodeError(DecodeError::NotSingle { length }),
                    ) && length == s@.len()))
                },
            },
    {
        match response {
            Err(e) => Err(IsDayOffApiError::RequestError(e)),
            Ok(body) => match decode_single(body) {
                Ok(d) => Ok(d),
                Err(e) => Err(IsDayOffApiError::DecodeError(e)),
            },
        }
    }
}

} // verus!
