//! A personal watchlist of shows: whether a show has episodes that the
//! viewer has not watched yet, where a show may be imported from and what
//! its page says about it, and how the list is stored, ordered and searched.
//!
//! The calculator of released episodes stands in `datetime`, over the model
//! in `release`. The calls into chrono and regex stand in `localtime` and
//! `pattern`; what is taken on trust from them is stated there.

pub mod release;
pub mod localtime;
pub mod datetime;
pub mod text;
pub mod pattern;
pub mod show;
pub mod parsers;
pub mod sites;
pub mod database;
pub mod list;
