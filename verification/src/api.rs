//! Requests to the service's endpoints for historical data.

pub mod aggregates;
