//! Verified core of a Telegram bot that shows the timetable of Samara University.
pub mod bot;
pub mod catalog;
pub mod date;
pub mod keyboard;
pub mod page;
pub mod schedule;
pub mod scrape;
pub mod text;
pub mod timetable;
