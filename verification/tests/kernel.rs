use windows_readout::error::ReadoutError;
use windows_readout::kernel::{WindowsKernelReadout, CURRENT_BUILD_VALUE, CURRENT_VERSION_KEY};

#[test]
fn os_release_is_the_build_that_was_read() {
    let readout = WindowsKernelReadout::new();
    assert_eq!(readout.os_release(Ok(String::from("19045"))), Ok(String::from("19045")));
}

#[test]
fn os_release_fails_with_the_systems_message() {
    let readout = WindowsKernelReadout::new();
    assert_eq!(
        readout.os_release(Err(String::from("The system cannot find the file specified."))),
        Err(ReadoutError::Other(String::from("The system cannot find the file specified.")))
    );
}

#[test]
fn os_type_is_windows_nt() {
    assert_eq!(WindowsKernelReadout::new().os_type(), Ok(String::from("Windows NT")));
}

#[test]
fn pretty_kernel_joins_type_and_release() {
    let readout = WindowsKernelReadout::new();
    assert_eq!(
        readout.pretty_kernel(Ok(String::from("22631"))),
        Ok(String::from("Windows NT 22631"))
    );
    assert_eq!(readout.pretty_kernel(Ok(String::new())), Ok(String::from("Windows NT ")));
}

#[test]
fn pretty_kernel_fails_when_the_build_is_missing() {
    let readout = WindowsKernelReadout::new();
    assert_eq!(
        readout.pretty_kernel(Err(String::from("no such value"))),
        Err(ReadoutError::Other(String::from("no such value")))
    );
}

#[test]
fn kernel_registry_location() {
    assert_eq!(CURRENT_VERSION_KEY, "SOFTWARE\\Microsoft\\Windows NT\\CurrentVersion");
    assert_eq!(CURRENT_BUILD_VALUE, "CurrentBuild");
}

#[test]
fn a_system_message_becomes_a_fatal_failure() {
    assert_eq!(
        ReadoutError::from(String::from("Access is denied.")),
        ReadoutError::Other(String::from("Access is denied."))
    );
}
