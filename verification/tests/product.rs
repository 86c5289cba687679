use windows_readout::error::ReadoutError;
use windows_readout::general::WindowsGeneralReadout;
use windows_readout::product::{
    WindowsProductReadout, SYSTEM_INFORMATION_KEY, SYSTEM_MANUFACTURER_VALUE,
    SYSTEM_PRODUCT_NAME_VALUE,
};

fn refused() -> Result<String, String> {
    Err(String::from("The system cannot find the file specified."))
}

#[test]
fn product_fails_and_vendor_succeeds_without_a_product_name() {
    let readout = WindowsProductReadout::new(Ok(String::from("LENOVO")), refused());
    assert_eq!(readout.vendor(), Ok(String::from("LENOVO")));
    assert_eq!(
        readout.product(),
        Err(ReadoutError::Other(String::from(
            "Trying to get the system product name from the registry failed"
        )))
    );
}

#[test]
fn vendor_fails_and_product_succeeds_without_a_manufacturer() {
    let readout = WindowsProductReadout::new(refused(), Ok(String::from("20XW0026US")));
    assert_eq!(
        readout.vendor(),
        Err(ReadoutError::Other(String::from(
            "Trying to get the system manufacturer from the registry failed"
        )))
    );
    assert_eq!(readout.product(), Ok(String::from("20XW0026US")));
}

#[test]
fn vendor_and_product_can_be_read_again() {
    let readout = WindowsProductReadout::new(Ok(String::from("Dell Inc.")), Ok(String::from("XPS 13")));
    assert_eq!(readout.vendor(), Ok(String::from("Dell Inc.")));
    assert_eq!(readout.vendor(), Ok(String::from("Dell Inc.")));
    assert_eq!(readout.product(), Ok(String::from("XPS 13")));
    assert_eq!(readout.product(), Ok(String::from("XPS 13")));
}

#[test]
fn family_is_not_implemented() {
    let readout = WindowsProductReadout::new(Ok(String::from("a")), Ok(String::from("b")));
    assert_eq!(readout.family(), Err(ReadoutError::NotImplemented));
}

#[test]
fn machine_joins_vendor_and_product() {
    let general = WindowsGeneralReadout::new();
    let readout = WindowsProductReadout::new(Ok(String::from("Dell Inc.")), Ok(String::from("XPS 13")));
    assert_eq!(general.machine(&readout), Ok(String::from("Dell Inc. XPS 13")));
}

#[test]
fn machine_fails_with_the_first_missing_part() {
    let general = WindowsGeneralReadout::new();
    let neither = WindowsProductReadout::new(refused(), refused());
    assert_eq!(
        general.machine(&neither),
        Err(ReadoutError::Other(String::from(
            "Trying to get the system manufacturer from the registry failed"
        )))
    );
    let no_model = WindowsProductReadout::new(Ok(String::from("LENOVO")), refused());
    assert_eq!(
        general.machine(&no_model),
        Err(ReadoutError::Other(String::from(
            "Trying to get the system product name from the registry failed"
        )))
    );
}

#[test]
fn product_registry_location() {
    assert_eq!(SYSTEM_INFORMATION_KEY, "SYSTEM\\CurrentControlSet\\Control\\SystemInformation");
    assert_eq!(SYSTEM_MANUFACTURER_VALUE, "SystemManufacturer");
    assert_eq!(SYSTEM_PRODUCT_NAME_VALUE, "SystemProductName");
}
