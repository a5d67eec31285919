use crate::date::CalendarDate;
use crate::utils::{
    append_decimal, append_signed_decimal, date_chars, decimal, format_date, formattable,
    signed_decimal,
};
use vstd::prelude::*;
use vstd::string::StringExecFns;

verus! {

/// The two shapes of query that the remote calendar answers.
#[derive(Clone, Copy, Debug, PartialEq, Eq)]
pub enum ApiOptions {
    /// A whole year, a month of it, or a single day of that month.
    WithYMD { year: i32, month: Option<u32>, day: Option<u32> },
    /// Every day from `start` to `end`, both included.
    WithStartEnd { start: CalendarDate, end: CalendarDate },
}

impl ApiOptions {
    /// The query can be written as a URL: range bounds render as `YYYYMMDD`.
    pub open spec fn wf(&self) -> bool {
        match *self {
            ApiOptions::WithYMD { .. } => true,
            ApiOptions::WithStartEnd { start, end } => formattable(start) && formattable(end),
        }
    }
}

/// The service's base address.
pub open spec fn api_base() -> Seq<char> {
    "https://isdayoff.ru/api"@
}

/// `&<name>=<value>` where an optional field is present, nothing otherwise.
pub open spec fn optional_param(name: Seq<char>, value: Option<u32>) -> Seq<char> {
    match value {
        Some(v) => name + decimal(v as nat),
        None => Seq::empty(),
    }
}

/// The path and query string of a query.
pub open spec fn request_path(options: ApiOptions) -> Seq<char> {
    match options {
        ApiOptions::WithYMD { year, month, day } => "/getData?year="@ + signed_decimal(year as int)
            + optional_param("&month="@, month) + optional_param("&day="@, day),
        ApiOptions::WithStartEnd { start, end } => "/getData?date1="@ + date_chars(start)
            + "&date2="@ + date_chars(end),
    }
}

fn append_optional_param(s: &mut String, name: &str, value: Option<u32>)
    ensures
        final(s)@ == old(s)@ + optional_param(name@, value),
{
    if let Some(v) = value {
        s.append(name);
        append_decimal(s, v);
        assert(final(s)@ =~= old(s)@ + optional_param(name@, value));
    } else {
        assert(final(s)@ =~= old(s)@ + optional_param(name@, value));
    }
}

/// The absolute URL that asks the service for `options`.
pub fn request_url(options: &ApiOptions) -> (r: String)
    requires
        options.wf(),
    ensures
        r@ == api_base() + request_path(*options),
{
    let mut url = String::from_str("https://isdayoff.ru/api");
    match *options {
        ApiOptions::WithYMD { year, month, day } => {
            url.append("/getData?year=");
            append_signed_decimal(&mut url, year);
            append_optional_param(&mut url, "&month=", month);
            append_optional_param(&mut url, "&day=", day);
        },
        ApiOptions::WithStartEnd { start, end } => {
            url.append("/getData?date1=");
            let first = format_date(&start);
            url.append(first.as_str());
            url.append("&date2=");
            let last = format_date(&end);
            url.append(last.as_str());
        },
    }
    assert(url@ =~= api_base() + request_path(*options));
    url
}

} // verus!
