//! What goes wrong, and what is done about it.

use vstd::prelude::*;
use crate::params::ADDRESS_RETRY_MS;

verus! {

/// A failure that the device can meet.
#[derive(Clone, Copy, Debug, PartialEq, Eq, Structural)]
pub enum Fault {
    /// The radio or its driver could not be brought up at boot.
    RadioInit,
    /// The radio did not start.
    RadioStart,
    /// The radio did not stop after a bundle ended.
    RadioStop,
    /// A role was asked for whose slot is in use.
    ReentrantActivation,
    /// A role was asked for that has no bundle.
    UnsupportedMode,
    /// A round of the address service failed.
    ServiceError,
}

/// What is done about a failure.
#[derive(Clone, Copy, Debug, PartialEq, Eq, Structural)]
pub enum Response {
    /// The device halts.
    Halt,
    /// A warning is logged and the next status awaited.
    AwaitCommand,
    /// The failure is logged and the service goes on after so many
    /// milliseconds.
    RetryAfter(u64),
}

impl Fault {
    /// Only a failure of the radio itself, at boot or when it is started or
    /// stopped, halts the device.
    pub open spec fn is_fatal(self) -> bool {
        self == Fault::RadioInit || self == Fault::RadioStart || self == Fault::RadioStop
    }

    /// The response to the failure.
    pub open spec fn response_of(self) -> Response {
        if self.is_fatal() {
            Response::Halt
        } else if self == Fault::ServiceError {
            Response::RetryAfter(ADDRESS_RETRY_MS)
        } else {
            Response::AwaitCommand
        }
    }

    /// The response to the failure: a failure of the radio halts the device,
    /// a failed round of a service is retried after a pause, and a request
    /// that cannot be served is waited out.
    pub fn response(self) -> (response: Response)
        ensures
            response == self.response_of(),
            response == Response::Halt <==> self.is_fatal(),
    {
        match self {
            Fault::RadioInit => Response::Halt,
            Fault::RadioStart => Response::Halt,
            Fault::RadioStop => Response::Halt,
            Fault::ReentrantActivation => Response::AwaitCommand,
            Fault::UnsupportedMode => Response::AwaitCommand,
            Fault::ServiceError => Response::RetryAfter(ADDRESS_RETRY_MS),
        }
    }
}

} // verus!
