//! Aggregation over stored logs. The interface is part of the declared
//! contract; no component of the core implements it — grouping belongs
//! to whatever analytics layer a host supplies.

use vstd::prelude::*;

use crate::log::Log;

verus! {

/// Groups a batch of records for analysis.
pub trait Analyze {
    fn group_by_level(logs: Vec<Log>) -> Vec<Log>;

    fn group_by_time(logs: Vec<Log>) -> Vec<Log>;
}

} // verus!
