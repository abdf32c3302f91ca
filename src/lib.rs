//! A terminal news reader: aggregation of RSS and Atom feeds into one
//! time-ordered list, and the keyboard-driven navigation over that list.
pub mod article;
pub mod feedloader;
pub mod aggregator;
pub mod detail;
pub mod age;
pub mod app;
pub mod handler;
