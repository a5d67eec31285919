//! Client logic for a remote working-day calendar: the queries it accepts,
//! the URLs they become, and the decoding of its digit-string answers.

pub mod api;
pub mod date;
pub mod decode;
pub mod request;
pub mod utils;

pub use api::{IsDayOffApi, IsDayOffApiError};
pub use date::CalendarDate;
pub use decode::DecodeError;
pub use request::ApiOptions;
