//! Verified core of a log-watching service: the rolling list of recently seen
//! transaction ids, the log model and its level filter, the query strings and
//! request parameters sent to the logs API, and the search-index schema.

pub mod transaction;
pub mod logs;
pub mod requests;
pub mod index;
pub mod watcher;
