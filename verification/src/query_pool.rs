//! Query pool types.

use crate::error::{device_error, memory_exhausted, DriverError};
use crate::vk;
use vstd::prelude::*;

verus! {

/// Information used to create a query pool.
#[derive(Clone, Copy, Debug, PartialEq, Eq, Structural)]
pub struct QueryPoolInfo {
    /// Type of queries managed by the pool.
    pub query_type: i32,
    /// Number of queries managed by the pool.
    pub query_count: u32,
    /// Pipeline statistics to query when `query_type` is that of pipeline statistics.
    pub pipeline_statistics: u32,
}

impl QueryPoolInfo {
    /// Creates timestamp query pool information.
    pub fn timestamp(query_count: u32) -> (info: Self)
        ensures
            info == (QueryPoolInfo {
                query_type: vk::QUERY_TYPE_TIMESTAMP,
                query_count,
                pipeline_statistics: 0,
            }),
    {
        QueryPoolInfo { query_type: vk::QUERY_TYPE_TIMESTAMP, query_count, pipeline_statistics: 0 }
    }
}

impl Default for QueryPoolInfo {
    fn default() -> (info: Self)
        ensures
            info == (QueryPoolInfo {
                query_type: vk::QUERY_TYPE_TIMESTAMP,
                query_count: 1,
                pipeline_statistics: 0,
            }),
    {
        Self::timestamp(1)
    }
}

/// The flags with which 64-bit results are read.
pub fn results_flags(flags: u32) -> (with_size: u32)
    ensures
        with_size == flags | vk::QUERY_RESULT_64,
{
    flags | vk::QUERY_RESULT_64
}

/// The results that were read, given the result of reading them.
pub fn results_u64(results: Vec<u64>, result: i32) -> (read: Result<Vec<u64>, DriverError>)
    ensures
        match read {
            Ok(values) => result == vk::SUCCESS && values == results,
            Err(err) => result != vk::SUCCESS && err == (if result == vk::ERROR_DEVICE_LOST {
                DriverError::InvalidData
            } else if memory_exhausted(result) {
                DriverError::OutOfMemory
            } else {
                DriverError::Unsupported
            }),
        },
{
    if result == vk::SUCCESS {
        Ok(results)
    } else {
        Err(device_error(result))
    }
}

} // verus!
