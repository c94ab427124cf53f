//! The link supervisor: keeps the radio in the role of the running bundle.
//!
//! One round of the supervisor looks at the radio's state, and — for the
//! access point — asks afterwards whether the radio is started. Both answers
//! come from the driver; the plans for each are decided here.

use vstd::prelude::*;
use crate::mode::WifiMode;
use crate::params::AP_STOP_BACKOFF_MS;

verus! {

/// The state that the radio driver reports.
#[derive(Clone, Copy, Debug, PartialEq, Eq, Structural)]
pub enum RadioState {
    StaStarted,
    StaConnected,
    StaDisconnected,
    StaStopped,
    ApStarted,
    ApStopped,
    Invalid,
}

/// One operation of the link supervisor.
#[derive(Clone, Copy, Debug, PartialEq, Eq, Structural)]
pub enum LinkOp {
    /// Wait until the driver reports that the access point stopped.
    AwaitApStop,
    /// Wait for so many milliseconds.
    Backoff(u64),
    /// Ask the driver whether the radio is started, and perform the plan
    /// that `restart_ops` gives for the answer.
    CheckStarted,
    /// Configure the radio as the access point, under its fixed name.
    ConfigureAccessPoint,
    /// Start the radio. Failure halts the device.
    StartRadio,
    /// Hand control back to the scheduler once.
    Yield,
    /// Log that the role has no supervisor.
    WarnUnsupported,
    /// End the supervisor.
    Exit,
}

/// The plan of one round for a bundle of `mode`, on the reported `state`.
///
/// For the access point: while it is started, wait until it stops and back
/// off; then check whether the radio is started. For the station role: yield
/// once, nothing is done to the radio. Any other role ends the supervisor.
pub open spec fn round_plan(mode: WifiMode, state: RadioState) -> Seq<LinkOp> {
    match mode {
        WifiMode::Ap => if state == RadioState::ApStarted {
            seq![LinkOp::AwaitApStop, LinkOp::Backoff(AP_STOP_BACKOFF_MS), LinkOp::CheckStarted]
        } else {
            seq![LinkOp::CheckStarted]
        },
        WifiMode::Sta => seq![LinkOp::Yield],
        WifiMode::ApSta => seq![LinkOp::WarnUnsupported, LinkOp::Exit],
    }
}

/// The plan on the driver's answer to "is the radio started": `Some(true)`
/// needs nothing; `Some(false)`, and `None` for an answer that failed, have
/// the access point configured and the radio started.
pub open spec fn restart_plan(started: Option<bool>) -> Seq<LinkOp> {
    if started == Some(true) {
        Seq::empty()
    } else {
        seq![LinkOp::ConfigureAccessPoint, LinkOp::StartRadio]
    }
}

/// The name of the access point's network.
pub fn ap_ssid() -> (name: &'static str)
    ensures
        name@ == "esp-wifi"@,
{
    "esp-wifi"
}

/// The operations of one round of the supervisor.
pub fn round_ops(mode: WifiMode, state: RadioState) -> (ops: Vec<LinkOp>)
    ensures
        ops@ == round_plan(mode, state),
{
    let mut ops: Vec<LinkOp> = Vec::new();
    match mode {
        WifiMode::Ap => {
            match state {
                RadioState::ApStarted => {
                    ops.push(LinkOp::AwaitApStop);
                    ops.push(LinkOp::Backoff(AP_STOP_BACKOFF_MS));
                },
                _ => {},
            }
            ops.push(LinkOp::CheckStarted);
        },
        WifiMode::Sta => {
            ops.push(LinkOp::Yield);
        },
        WifiMode::ApSta => {
            ops.push(LinkOp::WarnUnsupported);
            ops.push(LinkOp::Exit);
        },
    }
    assert(ops@ =~= round_plan(mode, state));
    ops
}

/// The operations that follow the driver's answer to "is the radio started".
pub fn restart_ops(started: Option<bool>) -> (ops: Vec<LinkOp>)
    ensures
        ops@ == restart_plan(started),
{
    let mut ops: Vec<LinkOp> = Vec::new();
    let running = match started {
        Some(answer) => answer,
        None => false,
    };
    if !running {
        ops.push(LinkOp::ConfigureAccessPoint);
        ops.push(LinkOp::StartRadio);
    }
    assert(ops@ =~= restart_plan(started));
    ops
}

/// `op` occurs in `ops`.
pub open spec fn occurs(ops: Seq<LinkOp>, op: LinkOp) -> bool {
    exists|i: int| 0 <= i < ops.len() && #[trigger] ops[i] == op
}

/// The supervisor of a role that has a bundle never ends, whatever the radio
/// reports; the supervisor of the station role never waits for the access
/// point and never checks the radio.
pub proof fn lemma_supervisor_stays(mode: WifiMode, state: RadioState)
    requires
        mode.has_bundle(),
    ensures
        !occurs(round_plan(mode, state), LinkOp::Exit),
        mode == WifiMode::Sta ==> round_plan(mode, state) == seq![LinkOp::Yield],
        mode == WifiMode::Ap ==> round_plan(mode, state).last() == LinkOp::CheckStarted,
{
}

} // verus!
