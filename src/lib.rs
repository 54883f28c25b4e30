//! Trust-and-ingestion gate for federated activities: the instance's domain
//! policy, the decision of whether a remote identifier may be trusted, a
//! single-flight time-bounded policy cache, and an at-most-once record of
//! received activities.

pub mod policy;
pub mod gate;
pub mod cache;
pub mod dedup;
pub mod nodeinfo;
pub mod objects;
