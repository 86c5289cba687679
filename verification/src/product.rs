//! The product readout: who made the machine and what model it is.

use vstd::prelude::*;
use crate::error::{text_view, ReadoutError, ReadoutErrorView, SystemText};

verus! {

/// The registry key, under `HKEY_LOCAL_MACHINE`, that identifies the machine.
pub const SYSTEM_INFORMATION_KEY: &'static str =
    "SYSTEM\\CurrentControlSet\\Control\\SystemInformation";

/// The value of [`SYSTEM_INFORMATION_KEY`] that names the manufacturer.
pub const SYSTEM_MANUFACTURER_VALUE: &'static str = "SystemManufacturer";

/// The value of [`SYSTEM_INFORMATION_KEY`] that names the model.
pub const SYSTEM_PRODUCT_NAME_VALUE: &'static str = "SystemProductName";

/// The message of the failure when no manufacturer was read.
pub open spec fn vendor_missing() -> Seq<char> {
    "Trying to get the system manufacturer from the registry failed"@
}

/// The message of the failure when no model was read.
pub open spec fn product_missing() -> Seq<char> {
    "Trying to get the system product name from the registry failed"@
}

/// The text of a read that succeeded, nothing for one that was refused.
pub open spec fn read_or_absent(read: SystemText) -> Option<Seq<char>> {
    match read {
        Ok(text) => Some(text@),
        Err(_) => None,
    }
}

/// The stored text, or the failure with `message` where none is stored.
pub open spec fn stored_or_missing(stored: Option<Seq<char>>, message: Seq<char>) -> Result<
    Seq<char>,
    ReadoutErrorView,
> {
    match stored {
        Some(text) => Ok(text),
        None => Err(ReadoutErrorView::Other(message)),
    }
}

/// The two names, separated by a space; the failure of the first that is
/// missing.
pub open spec fn spec_machine(manufacturer: Option<Seq<char>>, model: Option<Seq<char>>) -> Result<
    Seq<char>,
    ReadoutErrorView,
> {
    match stored_or_missing(manufacturer, vendor_missing()) {
        Ok(vendor) => match stored_or_missing(model, product_missing()) {
            Ok(product) => Ok(vendor + " "@ + product),
            Err(error) => Err(error),
        },
        Err(error) => Err(error),
    }
}

/// The identity of a Windows machine, read once when the value is made.
#[derive(Debug, PartialEq, Eq)]
pub struct WindowsProductReadout {
    manufacturer: Option<String>,
    model: Option<String>,
}

impl WindowsProductReadout {
    /// The manufacturer that was read, if one was.
    pub closed spec fn manufacturer(self) -> Option<Seq<char>> {
        match self.manufacturer {
            Some(text) => Some(text@),
            None => None,
        }
    }

    /// The model that was read, if one was.
    pub closed spec fn model(self) -> Option<Seq<char>> {
        match self.model {
            Some(text) => Some(text@),
            None => None,
        }
    }

    /// Keeps what the reads of [`SYSTEM_MANUFACTURER_VALUE`] and
    /// [`SYSTEM_PRODUCT_NAME_VALUE`] under [`SYSTEM_INFORMATION_KEY`] gave;
    /// a read that was refused leaves its field unset.
    pub fn new(manufacturer: SystemText, model: SystemText) -> (readout: Self)
        ensures
            readout.manufacturer() == read_or_absent(manufacturer),
            readout.model() == read_or_absent(model),
    {
        WindowsProductReadout { manufacturer: manufacturer.ok(), model: model.ok() }
    }

    /// The manufacturer, or a failure where none was read.
    pub fn vendor(&self) -> (result: Result<String, ReadoutError>)
        ensures
            text_view(result) == stored_or_missing(self.manufacturer(), vendor_missing()),
    {
        match &self.manufacturer {
            Some(vendor) => Ok(vendor.clone()),
            None => Err(
                ReadoutError::Other(
                    "Trying to get the system manufacturer from the registry failed".to_owned(),
                ),
            ),
        }
    }

    /// The product family, which this platform does not report.
    pub fn family(&self) -> (result: Result<String, ReadoutError>)
        ensures
            result matches Err(ReadoutError::NotImplemented),
    {
        Err(ReadoutError::NotImplemented)
    }

    /// The model, or a failure where none was read.
    pub fn product(&self) -> (result: Result<String, ReadoutError>)
        ensures
            text_view(result) == stored_or_missing(self.model(), product_missing()),
    {
        match &self.model {
            Some(product) => Ok(product.clone()),
            None => Err(
                ReadoutError::Other(
                    "Trying to get the system product name from the registry failed".to_owned(),
                ),
            ),
        }
    }
}

} // verus!
