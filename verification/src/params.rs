//! The fixed parameters of the device's networks and services.

use vstd::prelude::*;

verus! {

/// Sockets that the working memory of one network stack has room for.
pub const STACK_SOCKETS: usize = 8;

/// Milliseconds that the link supervisor waits after the access point
/// stopped, before it looks at the radio again.
pub const AP_STOP_BACKOFF_MS: u64 = 5000;

/// Milliseconds that the address service waits after a failed round.
pub const ADDRESS_RETRY_MS: u64 = 500;

/// Port of the address service.
pub const DHCP_SERVER_PORT: u16 = 67;

/// Port of the web server.
pub const HTTP_PORT: u16 = 80;

/// Address of the access point, which is its network's gateway as well.
pub const GATEWAY_ADDRESS: [u8; 4] = [192, 168, 35, 1];

/// Length of the access point network's prefix, in bits.
pub const GATEWAY_PREFIX_LEN: u8 = 24;

} // verus!
