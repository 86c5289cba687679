//! The kernel readout: the build of Windows NT that runs.

use vstd::prelude::*;
use crate::error::{spec_system_text, system_text, text_view, ReadoutError, ReadoutErrorView, SystemText};

verus! {

/// The registry key, under `HKEY_LOCAL_MACHINE`, that describes the running
/// system.
pub const CURRENT_VERSION_KEY: &'static str = "SOFTWARE\\Microsoft\\Windows NT\\CurrentVersion";

/// The value of [`CURRENT_VERSION_KEY`] that holds the build number.
pub const CURRENT_BUILD_VALUE: &'static str = "CurrentBuild";

/// The name of the kernel.
pub open spec fn kernel_name() -> Seq<char> {
    "Windows NT"@
}

/// The kernel's name, a space and its build; the failure of the read where
/// the build could not be read.
pub open spec fn spec_pretty_kernel(current_build: SystemText) -> Result<
    Seq<char>,
    ReadoutErrorView,
> {
    match spec_system_text(current_build) {
        Ok(build) => Ok(kernel_name() + " "@ + build),
        Err(error) => Err(error),
    }
}

/// Reads the kernel of a Windows machine.
#[derive(Debug, Clone, Copy, PartialEq, Eq, Structural)]
pub struct WindowsKernelReadout;

impl WindowsKernelReadout {
    /// The readout. It keeps nothing: each accessor is given what it reads.
    pub fn new() -> (readout: Self) {
        WindowsKernelReadout {  }
    }

    /// The build number, from what the read of [`CURRENT_BUILD_VALUE`] under
    /// [`CURRENT_VERSION_KEY`] gave.
    pub fn os_release(&self, current_build: SystemText) -> (result: Result<String, ReadoutError>)
        ensures
            text_view(result) == spec_system_text(current_build),
    {
        system_text(current_build)
    }

    /// The name of the kernel.
    pub fn os_type(&self) -> (result: Result<String, ReadoutError>)
        ensures
            text_view(result) == Ok::<Seq<char>, ReadoutErrorView>(kernel_name()),
    {
        Ok("Windows NT".to_owned())
    }

    /// The name of the kernel followed by its build, from what the read of
    /// [`CURRENT_BUILD_VALUE`] under [`CURRENT_VERSION_KEY`] gave.
    pub fn pretty_kernel(&self, current_build: SystemText) -> (result: Result<
        String,
        ReadoutError,
    >)
        ensures
            text_view(result) == spec_pretty_kernel(current_build),
    {
        let mut pretty = match self.os_type() {
            Ok(kernel) => kernel,
            Err(error) => {
                return Err(error);
            },
        };
        let release = match self.os_release(current_build) {
            Ok(release) => release,
            Err(error) => {
                return Err(error);
            },
        };
        pretty.append(" ");
        pretty.append(release.as_str());
        Ok(pretty)
    }
}

} // verus!
