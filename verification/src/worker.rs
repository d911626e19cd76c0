//! The worker's handling of activity tasks.

pub mod activities;
