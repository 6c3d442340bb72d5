//! Islamic prayer-time bookkeeping: the order of the daily events, the
//! settings that drive the calculation, calendar and time-zone arithmetic,
//! and the text shown to the user.

pub mod calendar;
pub mod config;
pub mod event;
pub mod location;
pub mod madhab;
pub mod notification_urgency;
pub mod prayer;
pub mod timezone;
