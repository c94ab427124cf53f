//! The wireless roles and the command that selects one.

use vstd::prelude::*;

verus! {

/// The wireless role that the device provides.
#[derive(Clone, Copy, Debug, PartialEq, Eq, Structural)]
pub enum WifiMode {
    /// Client of an existing network.
    Sta,
    /// Access point of a network of its own.
    Ap,
    /// Both at once. No bundle exists for this role.
    ApSta,
}

/// The desired status, as the controller last set it. Only the most recent
/// one counts.
#[derive(Clone, Copy, Debug, PartialEq, Eq, Structural)]
pub enum WifiStatus {
    Enabled(WifiMode),
    Disabled,
}

impl WifiMode {
    /// A bundle of services exists for the access point and for the station
    /// role only.
    pub open spec fn has_bundle(self) -> bool {
        self == WifiMode::Ap || self == WifiMode::Sta
    }

    /// Whether a bundle of services exists for this role.
    pub fn is_supported(self) -> (supported: bool)
        ensures
            supported == self.has_bundle(),
    {
        match self {
            WifiMode::Ap => true,
            WifiMode::Sta => true,
            WifiMode::ApSta => false,
        }
    }
}

impl WifiStatus {
    /// The role that this status asks for, if it asks for one.
    pub open spec fn requested(self) -> Option<WifiMode> {
        match self {
            WifiStatus::Enabled(mode) => Some(mode),
            WifiStatus::Disabled => None,
        }
    }

    /// The role that this status asks for: `None` for `Disabled`.
    pub fn mode(self) -> (mode: Option<WifiMode>)
        ensures
            mode == self.requested(),
    {
        match self {
            WifiStatus::Enabled(mode) => Some(mode),
            WifiStatus::Disabled => None,
        }
    }
}

} // verus!
