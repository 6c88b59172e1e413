//! Reconciliation engine for a point-of-interest (POI) notifier.
//!
//! The library holds the verified core of a bot that periodically polls a
//! speed-camera feed, compares the fresh snapshot with the rows it has already
//! notified about, and decides which POIs need a new notification and which
//! previously sent notifications must be retracted.  Everything that talks to
//! the outside world (the HTTP feed client, the MySQL store, the Telegram
//! channel, configuration loading) lives in the surrounding application; this
//! crate only computes, and every function in it carries a contract.

pub mod configuration;
pub mod lifecycle;
pub mod location_type;
pub mod model;
pub mod reconcile;
pub mod request;
