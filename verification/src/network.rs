//! The network readout: the address of the machine in its local network.

use vstd::prelude::*;
use crate::error::{text_view, ReadoutError, ReadoutErrorView};

verus! {

/// The message of the failure when no address was found.
pub open spec fn address_missing() -> Seq<char> {
    "Unable to get local IP address."@
}

/// The address of the first of `addresses` whose name is `interface`.
pub open spec fn first_named(addresses: Seq<(String, String)>, interface: Seq<char>) -> Option<
    Seq<char>,
>
    decreases addresses.len(),
{
    if addresses.len() == 0 {
        None
    } else if addresses[0].0@ == interface {
        Some(addresses[0].1@)
    } else {
        first_named(addresses.drop_first(), interface)
    }
}

/// The address that was found, or the failure where none was.
pub open spec fn spec_address_or_missing(found: Option<String>) -> Result<
    Seq<char>,
    ReadoutErrorView,
> {
    match found {
        Some(address) => Ok(address@),
        None => Err(ReadoutErrorView::Other(address_missing())),
    }
}

/// `local_ip_address::list_afinet_netifas`: each network interface's name
/// with its address, the address written out as text.
///
/// Trusted: nothing is claimed of the result, which depends on the machine;
/// it is `None` where the enumeration failed.
#[verifier::external_body]
fn interface_addresses() -> (addresses: Option<Vec<(String, String)>>) {
    match local_ip_address::list_afinet_netifas() {
        Ok(addresses) => Some(
            addresses.into_iter().map(|(name, address)| (name, address.to_string())).collect(),
        ),
        Err(_) => None,
    }
}

/// `local_ip_address::local_ip`: the machine's address in its local
/// network, written out as text.
///
/// Trusted: nothing is claimed of the result, which depends on the machine;
/// it is `None` where the system named no address.
#[verifier::external_body]
fn local_address() -> (address: Option<String>) {
    match local_ip_address::local_ip() {
        Ok(address) => Some(address.to_string()),
        Err(_) => None,
    }
}

/// Reads the network of a Windows machine.
#[derive(Debug, Clone, Copy, PartialEq, Eq, Structural)]
pub struct WindowsNetworkReadout;

impl WindowsNetworkReadout {
    /// The readout. It keeps nothing: each accessor asks the system anew.
    pub fn new() -> (readout: Self) {
        WindowsNetworkReadout
    }

    /// The bytes sent, which this platform does not report.
    pub fn tx_bytes(&self, _interface: Option<&str>) -> (result: Result<usize, ReadoutError>)
        ensures
            result matches Err(ReadoutError::NotImplemented),
    {
        Err(ReadoutError::NotImplemented)
    }

    /// The packets sent, which this platform does not report.
    pub fn tx_packets(&self, _interface: Option<&str>) -> (result: Result<usize, ReadoutError>)
        ensures
            result matches Err(ReadoutError::NotImplemented),
    {
        Err(ReadoutError::NotImplemented)
    }

    /// The bytes received, which this platform does not report.
    pub fn rx_bytes(&self, _interface: Option<&str>) -> (result: Result<usize, ReadoutError>)
        ensures
            result matches Err(ReadoutError::NotImplemented),
    {
        Err(ReadoutError::NotImplemented)
    }

    /// The packets received, which this platform does not report.
    pub fn rx_packets(&self, _interface: Option<&str>) -> (result: Result<usize, ReadoutError>)
        ensures
            result matches Err(ReadoutError::NotImplemented),
    {
        Err(ReadoutError::NotImplemented)
    }

    /// The address of `interface`: the first that the system lists under
    /// that name. Without an interface, the address that the system names as
    /// the machine's own. Where the system lists or names none, the only
    /// failure there is: [`address_missing`].
    pub fn logical_address(&self, interface: Option<&str>) -> (result: Result<
        String,
        ReadoutError,
    >)
        ensures
            result matches Err(error) ==> error@ == ReadoutErrorView::Other(address_missing()),
    {
        let found = match interface {
            Some(interface) => match interface_addresses() {
                Some(addresses) => WindowsNetworkReadout::address_of(interface, &addresses),
                None => None,
            },
            None => local_address(),
        };
        WindowsNetworkReadout::address_or_missing(found)
    }

    /// The address of the first of `addresses` whose name is `interface`.
    pub fn address_of(interface: &str, addresses: &Vec<(String, String)>) -> (address: Option<
        String,
    >)
        ensures
            match address {
                Some(address) => first_named(addresses@, interface@) == Some(address@),
                None => first_named(addresses@, interface@) is None,
            },
    {
        let wanted = interface.to_owned();
        let mut index: usize = 0;
        assert(addresses@.subrange(0, addresses@.len() as int) =~= addresses@);
        while index < addresses.len()
            invariant
                index <= addresses.len(),
                wanted@ == interface@,
                first_named(addresses@, interface@) == first_named(
                    addresses@.subrange(index as int, addresses@.len() as int),
                    interface@,
                ),
            decreases addresses.len() - index,
        {
            let ghost rest = addresses@.subrange(index as int, addresses@.len() as int);
            assert(rest[0] == addresses@[index as int]);
            assert(rest.drop_first() =~= addresses@.subrange(
                index + 1,
                addresses@.len() as int,
            ));
            if addresses[index].0 == wanted {
                return Some(addresses[index].1.clone());
            }
            index = index + 1;
        }
        None
    }

    /// The address that was `found`, or the failure where none was.
    pub fn address_or_missing(found: Option<String>) -> (result: Result<String, ReadoutError>)
        ensures
            text_view(result) == spec_address_or_missing(found),
    {
        match found {
            Some(address) => Ok(address),
            None => Err(ReadoutError::Other("Unable to get local IP address.".to_owned())),
        }
    }

    /// The hardware address, which this platform does not report.
    pub fn physical_address(&self, _interface: Option<&str>) -> (result: Result<
        String,
        ReadoutError,
    >)
        ensures
            result matches Err(ReadoutError::NotImplemented),
    {
        Err(ReadoutError::NotImplemented)
    }
}

} // verus!
