//! The mode orchestrator: which bundle runs, and what has to happen, in which
//! order, when the desired status is read or changes.
//!
//! The orchestrator performs nothing itself. `Orchestrator::step` takes the
//! status that was observed and answers with a plan: the operations that the
//! firmware performs one after the other. The last operation of a plan is
//! the one that yields the status for the next step.

use vstd::prelude::*;
use crate::mode::{WifiMode, WifiStatus};
use crate::params::STACK_SOCKETS;
use crate::slot::{ResourceSlot, SlotClaim, StackMemory};

verus! {

/// Where the orchestrator stands.
#[derive(Clone, Copy, Debug, PartialEq, Eq, Structural)]
pub enum Phase {
    /// No bundle runs.
    Idle,
    /// The access point bundle runs.
    RunningAp,
    /// The station bundle runs.
    RunningSta,
}

/// Why a request was not served.
#[derive(Clone, Copy, Debug, PartialEq, Eq, Structural)]
pub enum Warning {
    /// The access point was asked for again, and its slot is in use.
    ReenterAp,
    /// The station role was asked for again, and its slot is in use.
    ReenterSta,
    /// A role was asked for that has no bundle.
    UnsupportedMode,
}

/// One operation of a plan.
#[derive(Clone, Copy, Debug, PartialEq, Eq, Structural)]
pub enum Op {
    /// Start the radio. Failure halts the device.
    StartRadio,
    /// Fill the working memory slot of the mode. It is empty.
    InitSlot(WifiMode),
    /// Take the network interface of the mode. It was not taken before.
    TakeInterface(WifiMode),
    /// Build the network stack of the mode and race its bundle against the
    /// next change of status. The operation ends when the status changes; by
    /// then the bundle is no longer polled. It yields the new status.
    RaceBundle(WifiMode),
    /// Stop the radio. Failure halts the device.
    StopRadio,
    /// Log the warning.
    Warn(Warning),
    /// Wait until the status changes.
    AwaitChange,
    /// Read the latest status. It yields that status.
    ReadStatus,
}

/// What the orchestrator remembers.
pub struct Model {
    pub phase: Phase,
    /// The access point slot was filled.
    pub ap_filled: bool,
    /// The station slot was filled.
    pub sta_filled: bool,
}

impl Model {
    /// The state at boot: idle, both slots empty.
    pub open spec fn initial() -> Model {
        Model { phase: Phase::Idle, ap_filled: false, sta_filled: false }
    }

    /// Whether the slot of `mode` was filled. The combined role has none.
    pub open spec fn filled(self, mode: WifiMode) -> bool {
        match mode {
            WifiMode::Ap => self.ap_filled,
            WifiMode::Sta => self.sta_filled,
            WifiMode::ApSta => false,
        }
    }

    /// Whether the bundle of `mode` runs.
    pub open spec fn running(self, mode: WifiMode) -> bool {
        match mode {
            WifiMode::Ap => self.phase == Phase::RunningAp,
            WifiMode::Sta => self.phase == Phase::RunningSta,
            WifiMode::ApSta => false,
        }
    }

    /// A bundle runs only on a filled slot.
    pub open spec fn consistent(self) -> bool {
        forall|mode: WifiMode| #[trigger] self.running(mode) ==> self.filled(mode)
    }

    /// The state with the slot of `mode` filled and its bundle running.
    pub open spec fn started(self, mode: WifiMode) -> Model {
        match mode {
            WifiMode::Ap => Model { phase: Phase::RunningAp, ap_filled: true, ..self },
            WifiMode::Sta => Model { phase: Phase::RunningSta, sta_filled: true, ..self },
            WifiMode::ApSta => self,
        }
    }
}

/// The warning for a second request of a role.
pub open spec fn reenter_warning(mode: WifiMode) -> Warning {
    match mode {
        WifiMode::Ap => Warning::ReenterAp,
        WifiMode::Sta => Warning::ReenterSta,
        WifiMode::ApSta => Warning::UnsupportedMode,
    }
}

/// What is done before the slot of a role is claimed: the station role has
/// the radio started first, the access point starts it from within its
/// bundle.
pub open spec fn prelude_of(mode: WifiMode) -> Seq<Op> {
    if mode == WifiMode::Sta {
        seq![Op::StartRadio]
    } else {
        Seq::empty()
    }
}

/// The plan for `status`, observed in state `m`.
pub open spec fn plan(m: Model, status: WifiStatus) -> Seq<Op> {
    if m.phase != Phase::Idle {
        seq![Op::StopRadio, Op::ReadStatus]
    } else {
        match status {
            WifiStatus::Disabled => seq![Op::AwaitChange, Op::ReadStatus],
            WifiStatus::Enabled(mode) => if !mode.has_bundle() {
                seq![Op::Warn(Warning::UnsupportedMode), Op::AwaitChange, Op::ReadStatus]
            } else if m.filled(mode) {
                prelude_of(mode) + seq![
                    Op::Warn(reenter_warning(mode)),
                    Op::AwaitChange,
                    Op::ReadStatus,
                ]
            } else {
                prelude_of(mode) + seq![
                    Op::InitSlot(mode),
                    Op::TakeInterface(mode),
                    Op::RaceBundle(mode),
                ]
            },
        }
    }
}

/// The state after `status` was observed in state `m`.
pub open spec fn next(m: Model, status: WifiStatus) -> Model {
    if m.phase != Phase::Idle {
        Model { phase: Phase::Idle, ..m }
    } else {
        match status {
            WifiStatus::Disabled => m,
            WifiStatus::Enabled(mode) => if mode.has_bundle() && !m.filled(mode) {
                m.started(mode)
            } else {
                m
            },
        }
    }
}

/// The state after each of `statuses` was observed in turn, from `m`.
pub open spec fn run(m: Model, statuses: Seq<WifiStatus>) -> Model
    decreases statuses.len(),
{
    if statuses.len() == 0 {
        m
    } else {
        run(next(m, statuses[0]), statuses.drop_first())
    }
}

/// The plans for `statuses`, observed in turn from `m`, one after the other.
pub open spec fn trace(m: Model, statuses: Seq<WifiStatus>) -> Seq<Op>
    decreases statuses.len(),
{
    if statuses.len() == 0 {
        Seq::empty()
    } else {
        plan(m, statuses[0]) + trace(next(m, statuses[0]), statuses.drop_first())
    }
}

/// `op` does not occur in `ops`.
pub open spec fn absent(ops: Seq<Op>, op: Op) -> bool {
    forall|i: int| 0 <= i < ops.len() ==> #[trigger] ops[i] != op
}

/// `op` occurs in `ops` at one place at most.
pub open spec fn at_most_once(ops: Seq<Op>, op: Op) -> bool {
    forall|i: int, j: int|
        0 <= i < ops.len() && 0 <= j < ops.len() && #[trigger] ops[i] == op && #[trigger] ops[j]
            == op ==> i == j
}

/// The operations that bring a bundle of `mode` to life.
pub open spec fn is_start_op(op: Op, mode: WifiMode) -> bool {
    op == Op::InitSlot(mode) || op == Op::TakeInterface(mode) || op == Op::RaceBundle(mode)
}

/// The orchestrator: the phase and the two working memory slots.
pub struct Orchestrator {
    phase: Phase,
    ap_slot: ResourceSlot<StackMemory>,
    sta_slot: ResourceSlot<StackMemory>,
}

impl View for Orchestrator {
    type V = Model;

    closed spec fn view(&self) -> Model {
        Model {
            phase: self.phase,
            ap_filled: self.ap_slot.is_initialized(),
            sta_filled: self.sta_slot.is_initialized(),
        }
    }
}

impl Orchestrator {
    /// The orchestrator at boot.
    pub fn new() -> (orchestrator: Self)
        ensures
            orchestrator@ == Model::initial(),
    {
        Orchestrator {
            phase: Phase::Idle,
            ap_slot: ResourceSlot::new(),
            sta_slot: ResourceSlot::new(),
        }
    }

    /// Where the orchestrator stands.
    pub fn phase(&self) -> (phase: Phase)
        ensures
            phase == self@.phase,
    {
        self.phase
    }

    /// Whether the working memory slot of `mode` was filled.
    pub fn slot_initialized(&self, mode: WifiMode) -> (filled: bool)
        ensures
            filled == self@.filled(mode),
    {
        match mode {
            WifiMode::Ap => self.ap_slot.initialized(),
            WifiMode::Sta => self.sta_slot.initialized(),
            WifiMode::ApSta => false,
        }
    }

    /// Claims the working memory slot of `mode`.
    fn claim(&mut self, mode: WifiMode) -> (claim: SlotClaim)
        requires
            mode.has_bundle(),
        ensures
            claim == (if old(self)@.filled(mode) {
                SlotClaim::Busy
            } else {
                SlotClaim::Acquired
            }),
            final(self)@.filled(mode),
            final(self)@.phase == old(self)@.phase,
            mode != WifiMode::Ap ==> final(self)@.ap_filled == old(self)@.ap_filled,
            mode != WifiMode::Sta ==> final(self)@.sta_filled == old(self)@.sta_filled,
    {
        let factory = || -> (memory: StackMemory)
            ensures
                memory.sockets == STACK_SOCKETS,
            { StackMemory { sockets: STACK_SOCKETS } };
        match mode {
            WifiMode::Ap => self.ap_slot.try_init_with(factory),
            _ => self.sta_slot.try_init_with(factory),
        }
    }

    /// Takes the status that was observed and answers with the plan.
    ///
    /// While idle: `Disabled` and a role without a bundle are waited out; a
    /// role whose slot is in use is warned about and waited out; a role whose
    /// slot is empty has its slot filled and its bundle raced against the
    /// next change. While a bundle runs, any status means that the race is
    /// over: the radio is stopped and the status read again.
    pub fn step(&mut self, status: WifiStatus) -> (ops: Vec<Op>)
        ensures
            ops@ == plan(old(self)@, status),
            final(self)@ == next(old(self)@, status),
    {
        let mut ops: Vec<Op> = Vec::new();
        match self.phase {
            Phase::Idle => {
                match status {
                    WifiStatus::Disabled => {
                        ops.push(Op::AwaitChange);
                        ops.push(Op::ReadStatus);
                    },
                    WifiStatus::Enabled(mode) => {
                        if !mode.is_supported() {
                            ops.push(Op::Warn(Warning::UnsupportedMode));
                            ops.push(Op::AwaitChange);
                            ops.push(Op::ReadStatus);
                        } else {
                            if mode == WifiMode::Sta {
                                ops.push(Op::StartRadio);
                            }
                            match self.claim(mode) {
                                SlotClaim::Busy => {
                                    let warning = if mode == WifiMode::Sta {
                                        Warning::ReenterSta
                                    } else {
                                        Warning::ReenterAp
                                    };
                                    ops.push(Op::Warn(warning));
                                    ops.push(Op::AwaitChange);
                                    ops.push(Op::ReadStatus);
                                },
                                SlotClaim::Acquired => {
                                    ops.push(Op::InitSlot(mode));
                                    ops.push(Op::TakeInterface(mode));
                                    ops.push(Op::RaceBundle(mode));
                                    self.phase = if mode == WifiMode::Sta {
                                        Phase::RunningSta
                                    } else {
                                        Phase::RunningAp
                                    };
                                },
                            }
                        }
                    },
                }
            },
            _ => {
                ops.push(Op::StopRadio);
                ops.push(Op::ReadStatus);
                self.phase = Phase::Idle;
            },
        }
        assert(ops@ =~= plan(old(self)@, status));
        ops
    }
}

/// Observing one more status appends its plan to the trace, and moves the
/// state one step on.
pub proof fn lemma_trace_push(m: Model, statuses: Seq<WifiStatus>, status: WifiStatus)
    ensures
        trace(m, statuses.push(status)) == trace(m, statuses) + plan(run(m, statuses), status),
        run(m, statuses.push(status)) == next(run(m, statuses), status),
    decreases statuses.len(),
{
    let longer = statuses.push(status);
    if statuses.len() == 0 {
        assert(longer.drop_first() =~= Seq::<WifiStatus>::empty());
        assert(trace(next(m, status), longer.drop_first()) =~= Seq::<Op>::empty());
        assert(trace(m, longer) =~= plan(m, status));
        assert(trace(m, statuses) + plan(m, status) =~= plan(m, status));
        assert(run(next(m, status), longer.drop_first()) == next(m, status));
        assert(run(m, longer) == next(m, status));
    } else {
        let after = next(m, statuses[0]);
        assert(longer.drop_first() =~= statuses.drop_first().push(status));
        lemma_trace_push(after, statuses.drop_first(), status);
        assert(trace(m, longer) =~= trace(m, statuses) + plan(run(m, statuses), status));
        assert(run(m, longer) == run(after, longer.drop_first()));
    }
}

/// The networking task from boot: observes each of `statuses` in turn and
/// answers with all that is to be done, plan after plan.
pub fn networking_task(statuses: &Vec<WifiStatus>) -> (ops: Vec<Op>)
    ensures
        ops@ == trace(Model::initial(), statuses@),
{
    let mut orchestrator = Orchestrator::new();
    let mut ops: Vec<Op> = Vec::new();
    let mut seen: usize = 0;
    while seen < statuses.len()
        invariant
            seen <= statuses@.len(),
            orchestrator@ == run(Model::initial(), statuses@.take(seen as int)),
            ops@ == trace(Model::initial(), statuses@.take(seen as int)),
        decreases statuses@.len() - seen,
    {
        let status = statuses[seen];
        let mut plan_ops = orchestrator.step(status);
        proof {
            lemma_trace_push(Model::initial(), statuses@.take(seen as int), status);
            assert(statuses@.take(seen as int).push(status) =~= statuses@.take(seen + 1));
        }
        ops.append(&mut plan_ops);
        seen = seen + 1;
    }
    assert(statuses@.take(seen as int) =~= statuses@);
    ops
}

} // verus!
