//! The address service of the access point: it serves round after round, and
//! a round that fails is logged and followed by a pause, never by an end.

use vstd::prelude::*;
use crate::params::ADDRESS_RETRY_MS;

verus! {

/// How one round of the service went.
#[derive(Clone, Copy, Debug, PartialEq, Eq, Structural)]
pub enum RoundOutcome {
    Served,
    Failed,
}

/// One operation of the address service.
#[derive(Clone, Copy, Debug, PartialEq, Eq, Structural)]
pub enum AddressOp {
    /// Log the failure of the last round.
    LogError,
    /// Wait for so many milliseconds.
    Delay(u64),
    /// Serve one round. It yields the round's outcome.
    Serve,
}

/// The plan that follows a round with the given outcome.
pub open spec fn retry_plan(outcome: RoundOutcome) -> Seq<AddressOp> {
    match outcome {
        RoundOutcome::Served => seq![AddressOp::Serve],
        RoundOutcome::Failed => seq![
            AddressOp::LogError,
            AddressOp::Delay(ADDRESS_RETRY_MS),
            AddressOp::Serve,
        ],
    }
}

/// The failures in a row after `outcome`, when there were `before` of them.
pub open spec fn failures_after(before: nat, outcome: RoundOutcome) -> nat {
    match outcome {
        RoundOutcome::Served => 0,
        RoundOutcome::Failed => before + 1,
    }
}

/// The address service. It counts the rounds that failed in a row; the
/// count stops at the largest number it can hold.
pub struct AddressService {
    failures: u64,
}

impl AddressService {
    /// The failures in a row so far, as counted.
    pub closed spec fn failures(&self) -> nat {
        self.failures as nat
    }

    /// The service before its first round.
    pub fn new() -> (service: Self)
        ensures
            service.failures() == 0,
    {
        AddressService { failures: 0 }
    }

    /// The rounds that failed in a row, up to now.
    pub fn consecutive_failures(&self) -> (count: u64)
        ensures
            count == self.failures(),
    {
        self.failures
    }

    /// The operations with which the service begins: one round.
    pub fn start(&self) -> (ops: Vec<AddressOp>)
        ensures
            ops@ == seq![AddressOp::Serve],
    {
        let mut ops: Vec<AddressOp> = Vec::new();
        ops.push(AddressOp::Serve);
        assert(ops@ =~= seq![AddressOp::Serve]);
        ops
    }

    /// Takes the outcome of the last round and answers with the plan. After a
    /// failure the plan is to log, to pause and to serve again; after a
    /// success, to serve again at once. Every plan ends with a round.
    pub fn on_outcome(&mut self, outcome: RoundOutcome) -> (ops: Vec<AddressOp>)
        ensures
            ops@ == retry_plan(outcome),
            final(self).failures() == (if failures_after(old(self).failures(), outcome)
                <= u64::MAX {
                failures_after(old(self).failures(), outcome)
            } else {
                u64::MAX as nat
            }),
    {
        let mut ops: Vec<AddressOp> = Vec::new();
        match outcome {
            RoundOutcome::Served => {
                self.failures = 0;
            },
            RoundOutcome::Failed => {
                if self.failures < u64::MAX {
                    self.failures = self.failures + 1;
                }
                ops.push(AddressOp::LogError);
                ops.push(AddressOp::Delay(ADDRESS_RETRY_MS));
            },
        }
        ops.push(AddressOp::Serve);
        assert(ops@ =~= retry_plan(outcome));
        ops
    }
}

/// Whatever the outcome of a round, the plan that follows ends with another
/// round, and after a failure holds the pause just before it. No outcome
/// ends the service.
pub proof fn lemma_service_goes_on(outcome: RoundOutcome)
    ensures
        retry_plan(outcome).len() > 0,
        retry_plan(outcome).last() == AddressOp::Serve,
        outcome == RoundOutcome::Failed ==> retry_plan(outcome)[retry_plan(outcome).len() - 2]
            == AddressOp::Delay(ADDRESS_RETRY_MS),
{
}

} // verus!
