//! Tagged Unix-timestamp integers: conversion sources into DateTime values.

use vstd::prelude::*;

verus! {

/// A timestamp in milliseconds since the Unix epoch.
#[derive(Debug, Clone, Copy, PartialEq, Eq, Structural)]
pub struct TimestampMilli(pub i64);

/// A timestamp in microseconds since the Unix epoch.
#[derive(Debug, Clone, Copy, PartialEq, Eq, Structural)]
pub struct TimestampMicro(pub i64);

/// A timestamp in nanoseconds since the Unix epoch.
#[derive(Debug, Clone, Copy, PartialEq, Eq, Structural)]
pub struct TimestampNano(pub i64);

impl From<i64> for TimestampMilli {
    fn from(timestamp: i64) -> (r: TimestampMilli) {
        TimestampMilli(timestamp)
    }
}

impl vstd::std_specs::convert::FromSpecImpl<i64> for TimestampMilli {
    open spec fn obeys_from_spec() -> bool {
        true
    }

    open spec fn from_spec(timestamp: i64) -> TimestampMilli {
        TimestampMilli(timestamp)
    }
}

impl From<i64> for TimestampMicro {
    fn from(timestamp: i64) -> (r: TimestampMicro) {
        TimestampMicro(timestamp)
    }
}

impl vstd::std_specs::convert::FromSpecImpl<i64> for TimestampMicro {
    open spec fn obeys_from_spec() -> bool {
        true
    }

    open spec fn from_spec(timestamp: i64) -> TimestampMicro {
        TimestampMicro(timestamp)
    }
}

impl From<i64> for TimestampNano {
    fn from(timestamp: i64) -> (r: TimestampNano) {
        TimestampNano(timestamp)
    }
}

impl vstd::std_specs::convert::FromSpecImpl<i64> for TimestampNano {
    open spec fn obeys_from_spec() -> bool {
        true
    }

    open spec fn from_spec(timestamp: i64) -> TimestampNano {
        TimestampNano(timestamp)
    }
}

} // verus!
