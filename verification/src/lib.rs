//! Team polls: the request-handling rules of a team polling service.
//!
//! Each HTTP handler of the service is written here as a sequence of phases.
//! A phase names the database work it needs next; the caller performs that work
//! and hands the answer back to the phase, which decides what comes next. The
//! caller never decides anything itself: it only runs queries and replies.
mod clock;
mod fields;
mod http;
mod ids;

pub mod handlers;

pub use ids::{is_lower_hex, is_uuid_v4_text};
pub mod middleware;

pub use clock::{
    closing_passed, closing_text, closing_time_text, decimal_value, digit_char, digit_value,
    ends_with_time_of_day, fraction_text, has_closing_passed, invalid_nanos, is_poll_closed,
    law_shown_time_is_time_of_day, time_of_day_text, zero_padded,
    law_closed_poll_stays_closed, poll_closed, utc_datetime_text, DbTime,
};
pub use fields::{text_or, text_or_default, text_or_empty};
pub use http::{DbFailure, Status};
