//! Store-status service for three retail chains: adapters for their
//! store-locator payloads, a recurrence resolver for free-text monthly
//! holiday rules, and an open/closed status evaluator over a fixed
//! UTC+9 timezone.

pub mod adapters;
pub mod aggregator;
pub mod dates;
pub mod evaluator;
pub mod recurrence;
pub mod responses;
pub mod textparse;
pub mod upstream;
