//! Logic of a small service that publishes daily digests: date keys, page
//! composition and source statistics.

pub mod config;
pub mod date;
pub mod digest_page;
pub mod front;
pub mod index_page;
pub mod markup;
pub mod numeral;
pub mod stats;
pub mod stats_page;
pub mod text;
pub mod usage;
