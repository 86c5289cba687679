use windows_readout::error::ReadoutError;
use windows_readout::memory::{MemoryStatus, WindowsMemoryReadout};

fn snapshot(total_phys: u64, avail_phys: u64) -> Option<MemoryStatus> {
    Some(MemoryStatus { total_phys, avail_phys })
}

#[test]
fn total_divides_bytes_by_1024() {
    let readout = WindowsMemoryReadout::new();
    assert_eq!(readout.total(snapshot(2_147_483_648, 0)), Ok(2_097_152));
}

#[test]
fn total_drops_what_is_less_than_a_kilobyte() {
    let readout = WindowsMemoryReadout::new();
    assert_eq!(readout.total(snapshot(1023, 0)), Ok(0));
    assert_eq!(readout.total(snapshot(1024, 0)), Ok(1));
    assert_eq!(readout.total(snapshot(2047, 0)), Ok(1));
    assert_eq!(readout.total(snapshot(u64::MAX, 0)), Ok(u64::MAX / 1024));
}

#[test]
fn used_is_total_less_available() {
    let readout = WindowsMemoryReadout::new();
    assert_eq!(
        readout.used(snapshot(2_147_483_648, 1_073_741_824)),
        Ok(1_048_576)
    );
    assert_eq!(readout.used(snapshot(4096, 4096)), Ok(0));
    assert_eq!(readout.used(snapshot(4096, 0)), Ok(4));
    assert_eq!(readout.used(snapshot(4096, 1)), Ok(3));
}

#[test]
fn used_holds_for_many_pairs() {
    let readout = WindowsMemoryReadout::new();
    let totals = [0u64, 1, 1023, 1024, 1025, 65_536, 8_589_934_592, u64::MAX];
    for total in totals {
        for available in [0u64, 1, 512, 1024, 4096, total / 2, total] {
            if available <= total {
                assert_eq!(
                    readout.used(snapshot(total, available)),
                    Ok((total - available) / 1024)
                );
            }
        }
    }
}

#[test]
fn total_does_not_read_what_is_available() {
    let readout = WindowsMemoryReadout::new();
    assert_eq!(readout.total(snapshot(8192, 0)), Ok(8));
    assert_eq!(readout.total(snapshot(8192, 8192)), Ok(8));
    assert_eq!(readout.total(snapshot(8192, 16384)), Ok(8));
}

#[test]
fn memory_readouts_fail_when_the_status_call_failed() {
    let readout = WindowsMemoryReadout::new();
    let failure =
        ReadoutError::Other(String::from("GlobalMemoryStatusEx returned a zero return code."));
    assert_eq!(readout.total(None), Err(failure.clone()));
    assert_eq!(readout.used(None), Err(failure.clone()));
    assert_eq!(WindowsMemoryReadout::get_memory_status(None), Err(failure));
}

#[test]
fn get_memory_status_hands_the_snapshot_on() {
    let status = MemoryStatus { total_phys: 8192, avail_phys: 2048 };
    assert_eq!(WindowsMemoryReadout::get_memory_status(Some(status)), Ok(status));
}

#[test]
fn finer_memory_metrics_are_not_implemented() {
    let readout = WindowsMemoryReadout::new();
    assert_eq!(readout.free(), Err(ReadoutError::NotImplemented));
    assert_eq!(readout.buffers(), Err(ReadoutError::NotImplemented));
    assert_eq!(readout.cached(), Err(ReadoutError::NotImplemented));
    assert_eq!(readout.reclaimable(), Err(ReadoutError::NotImplemented));
    assert_eq!(readout.swap_total(), Err(ReadoutError::NotImplemented));
    assert_eq!(readout.swap_free(), Err(ReadoutError::NotImplemented));
    assert_eq!(readout.swap_used(), Err(ReadoutError::NotImplemented));
}
