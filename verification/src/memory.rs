//! The memory readout: physical memory in total and in use, in kilobytes.

use vstd::prelude::*;
use crate::error::{value_view, ReadoutError, ReadoutErrorView};

verus! {

/// The number of bytes in a kilobyte.
pub const BYTES_PER_KILOBYTE: u64 = 1024;

/// One snapshot of physical memory, as the system reports it.
#[derive(Debug, Clone, Copy, PartialEq, Eq, Structural)]
pub struct MemoryStatus {
    /// The bytes of physical memory installed.
    pub total_phys: u64,
    /// The bytes of physical memory available.
    pub avail_phys: u64,
}

impl MemoryStatus {
    /// No more memory is available than is installed.
    pub open spec fn consistent(self) -> bool {
        self.avail_phys <= self.total_phys
    }
}

/// The message of the failure when the memory status could not be had.
pub open spec fn memory_status_failed() -> Seq<char> {
    "GlobalMemoryStatusEx returned a zero return code."@
}

/// What the memory status call gave: the snapshot it filled in, or a failure
/// where the call reported none.
pub open spec fn spec_memory_status(reported: Option<MemoryStatus>) -> Result<
    MemoryStatus,
    ReadoutErrorView,
> {
    match reported {
        Some(status) => Ok(status),
        None => Err(ReadoutErrorView::Other(memory_status_failed())),
    }
}

/// Whole kilobytes in `bytes`.
pub open spec fn kilobytes(bytes: nat) -> nat {
    bytes / 1024
}

/// The physical memory installed, in kilobytes.
pub open spec fn spec_total(reported: Option<MemoryStatus>) -> Result<u64, ReadoutErrorView> {
    match reported {
        Some(status) => Ok(kilobytes(status.total_phys as nat) as u64),
        None => Err(ReadoutErrorView::Other(memory_status_failed())),
    }
}

/// The physical memory in use, in kilobytes: what is installed less what is
/// available.
pub open spec fn spec_used(reported: Option<MemoryStatus>) -> Result<u64, ReadoutErrorView> {
    match reported {
        Some(status) => Ok(kilobytes((status.total_phys - status.avail_phys) as nat) as u64),
        None => Err(ReadoutErrorView::Other(memory_status_failed())),
    }
}

/// Reads the memory of a Windows machine.
#[derive(Debug, Clone, Copy, PartialEq, Eq, Structural)]
pub struct WindowsMemoryReadout;

impl WindowsMemoryReadout {
    /// The readout. It keeps nothing: each accessor is given what it reads.
    pub fn new() -> (readout: Self) {
        WindowsMemoryReadout {  }
    }

    /// The physical memory installed, in kilobytes, from what the memory
    /// status call `reported` (`None` where the call failed).
    pub fn total(&self, reported: Option<MemoryStatus>) -> (result: Result<u64, ReadoutError>)
        ensures
            value_view(result) == spec_total(reported),
    {
        let memory_status = match WindowsMemoryReadout::get_memory_status(reported) {
            Ok(memory_status) => memory_status,
            Err(error) => {
                return Err(error);
            },
        };
        Ok(memory_status.total_phys / BYTES_PER_KILOBYTE)
    }

    /// The memory that is neither in use nor cached, which this platform
    /// does not report.
    pub fn free(&self) -> (result: Result<u64, ReadoutError>)
        ensures
            result matches Err(ReadoutError::NotImplemented),
    {
        Err(ReadoutError::NotImplemented)
    }

    /// The memory in buffers, which this platform does not report.
    pub fn buffers(&self) -> (result: Result<u64, ReadoutError>)
        ensures
            result matches Err(ReadoutError::NotImplemented),
    {
        Err(ReadoutError::NotImplemented)
    }

    /// The memory in the page cache, which this platform does not report.
    pub fn cached(&self) -> (result: Result<u64, ReadoutError>)
        ensures
            result matches Err(ReadoutError::NotImplemented),
    {
        Err(ReadoutError::NotImplemented)
    }

    /// The memory that could be reclaimed, which this platform does not
    /// report.
    pub fn reclaimable(&self) -> (result: Result<u64, ReadoutError>)
        ensures
            result matches Err(ReadoutError::NotImplemented),
    {
        Err(ReadoutError::NotImplemented)
    }

    /// The physical memory in use, in kilobytes, from what the memory status
    /// call `reported` (`None` where the call failed): the bytes installed
    /// less the bytes available, in whole kilobytes.
    pub fn used(&self, reported: Option<MemoryStatus>) -> (result: Result<u64, ReadoutError>)
        requires
            reported matches Some(status) ==> status.consistent(),
        ensures
            value_view(result) == spec_used(reported),
    {
        let memory_status = match WindowsMemoryReadout::get_memory_status(reported) {
            Ok(memory_status) => memory_status,
            Err(error) => {
                return Err(error);
            },
        };
        Ok((memory_status.total_phys - memory_status.avail_phys) / BYTES_PER_KILOBYTE)
    }

    /// The size of the swap space, which this platform does not report.
    pub fn swap_total(&self) -> (result: Result<u64, ReadoutError>)
        ensures
            result matches Err(ReadoutError::NotImplemented),
    {
        Err(ReadoutError::NotImplemented)
    }

    /// The swap space not in use, which this platform does not report.
    pub fn swap_free(&self) -> (result: Result<u64, ReadoutError>)
        ensures
            result matches Err(ReadoutError::NotImplemented),
    {
        Err(ReadoutError::NotImplemented)
    }

    /// The swap space in use, which this platform does not report.
    pub fn swap_used(&self) -> (result: Result<u64, ReadoutError>)
        ensures
            result matches Err(ReadoutError::NotImplemented),
    {
        Err(ReadoutError::NotImplemented)
    }

    /// Turns what the memory status call `reported` into the snapshot or the
    /// failure of the call.
    pub fn get_memory_status(reported: Option<MemoryStatus>) -> (result: Result<
        MemoryStatus,
        ReadoutError,
    >)
        ensures
            value_view(result) == spec_memory_status(reported),
    {
        match reported {
            Some(memory_status) => Ok(memory_status),
            None => Err(
                ReadoutError::Other("GlobalMemoryStatusEx returned a zero return code.".to_owned()),
            ),
        }
    }
}

/// The memory in use never exceeds the memory installed.
pub proof fn lemma_used_within_total(status: MemoryStatus)
    requires
        status.consistent(),
    ensures
        spec_used(Some(status))->Ok_0 <= spec_total(Some(status))->Ok_0,
{
}

} // verus!
