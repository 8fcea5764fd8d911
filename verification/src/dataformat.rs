//! The record that devices report and the query that selects records.

use vstd::prelude::*;

verus! {

/// One telemetry sample of one device.
#[derive(Debug, Clone, Copy, PartialEq, Eq, Structural)]
pub struct DataFrame {
    pub temp: i16,
    pub rpm: i32,
    pub device_id: i32,
    pub time_stamp: i32,
}

impl Default for DataFrame {
    fn default() -> (r: Self)
        ensures
            r == (DataFrame { temp: 0, rpm: 0, device_id: 0, time_stamp: 0 }),
    {
        DataFrame { temp: 0, rpm: 0, device_id: 0, time_stamp: 0 }
    }
}

/// A selection of records: a device and a bound on the time stamp.
#[derive(Debug, Clone, Copy, PartialEq, Eq, Structural)]
pub struct Query {
    pub device_id: Option<i32>,
    pub time_start: Option<i32>,
    pub time_end: Option<i32>,
    pub time_now: Option<i32>,
}

impl Default for Query {
    fn default() -> (r: Self)
        ensures
            r == (Query { device_id: None, time_start: None, time_end: None, time_now: None }),
    {
        Query {
            device_id: default_device_id(),
            time_start: default_time_start(),
            time_end: default_time_end(),
            time_now: default_time_now(),
        }
    }
}

/// The device of a query that names none.
pub fn default_device_id<T>() -> (r: Option<T>)
    ensures
        r is None,
{
    None
}

/// The lower time bound of a query that names none.
pub fn default_time_start<T>() -> (r: Option<T>)
    ensures
        r is None,
{
    None
}

/// The upper time bound of a query that names none.
pub fn default_time_end<T>() -> (r: Option<T>)
    ensures
        r is None,
{
    None
}

/// The exact time of a query that names none.
pub fn default_time_now<T>() -> (r: Option<T>)
    ensures
        r is None,
{
    None
}

} // verus!
