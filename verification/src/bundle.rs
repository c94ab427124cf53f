//! What a bundle is made of, and how its network stack is addressed.

use vstd::prelude::*;
use crate::mode::WifiMode;
use crate::params::{GATEWAY_ADDRESS, GATEWAY_PREFIX_LEN};

verus! {

/// One of the services that run together while a role is active.
#[derive(Clone, Copy, Debug, PartialEq, Eq, Structural)]
pub enum Service {
    /// Keeps the radio in the role.
    LinkSupervisor,
    /// Drives the network stack.
    StackPump,
    /// Hands out addresses on the access point's network.
    AddressService,
    /// Serves the web pages.
    Presentation,
}

/// How the network stack of a role gets its address.
#[derive(Clone, Copy, Debug, PartialEq, Eq)]
pub enum AddressConfig {
    /// A fixed address with the length of its prefix, and the gateway.
    Static { address: [u8; 4], prefix_len: u8, gateway: [u8; 4] },
    /// An address that the network assigns.
    Dynamic,
}

/// The services of the bundle of `mode`, in the order in which they are
/// joined. Only the access point has the address service; the combined role
/// has no bundle.
pub open spec fn services_of(mode: WifiMode) -> Seq<Service> {
    match mode {
        WifiMode::Ap => seq![
            Service::LinkSupervisor,
            Service::StackPump,
            Service::AddressService,
            Service::Presentation,
        ],
        WifiMode::Sta => seq![Service::LinkSupervisor, Service::StackPump, Service::Presentation],
        WifiMode::ApSta => Seq::empty(),
    }
}

/// The address configuration of the stack of `mode`: the access point is
/// its own gateway under the fixed address, the station is assigned one.
pub open spec fn address_config_of(mode: WifiMode) -> Option<AddressConfig> {
    match mode {
        WifiMode::Ap => Some(
            AddressConfig::Static {
                address: GATEWAY_ADDRESS,
                prefix_len: GATEWAY_PREFIX_LEN,
                gateway: GATEWAY_ADDRESS,
            },
        ),
        WifiMode::Sta => Some(AddressConfig::Dynamic),
        WifiMode::ApSta => None,
    }
}

/// The services of the bundle of `mode`.
pub fn services(mode: WifiMode) -> (list: Vec<Service>)
    ensures
        list@ == services_of(mode),
{
    let mut list: Vec<Service> = Vec::new();
    match mode {
        WifiMode::Ap => {
            list.push(Service::LinkSupervisor);
            list.push(Service::StackPump);
            list.push(Service::AddressService);
            list.push(Service::Presentation);
        },
        WifiMode::Sta => {
            list.push(Service::LinkSupervisor);
            list.push(Service::StackPump);
            list.push(Service::Presentation);
        },
        WifiMode::ApSta => {},
    }
    assert(list@ =~= services_of(mode));
    list
}

/// The address configuration of the stack of `mode`; `None` for a role
/// without a bundle.
pub fn address_config(mode: WifiMode) -> (config: Option<AddressConfig>)
    ensures
        config == address_config_of(mode),
{
    match mode {
        WifiMode::Ap => Some(
            AddressConfig::Static {
                address: GATEWAY_ADDRESS,
                prefix_len: GATEWAY_PREFIX_LEN,
                gateway: GATEWAY_ADDRESS,
            },
        ),
        WifiMode::Sta => Some(AddressConfig::Dynamic),
        WifiMode::ApSta => None,
    }
}

} // verus!
