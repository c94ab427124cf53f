//! What holds of the orchestrator whatever sequence of statuses it observes.

use vstd::prelude::*;
use crate::mode::{WifiMode, WifiStatus};
use crate::orchestrator::{
    absent, at_most_once, is_start_op, next, plan, prelude_of, reenter_warning, run, trace, Model,
    Op, Phase, Warning,
};

verus! {

/// A step keeps the rule that a bundle runs only on a filled slot, and never
/// empties a slot.
pub proof fn lemma_step_keeps_consistency(m: Model, status: WifiStatus)
    requires
        m.consistent(),
    ensures
        next(m, status).consistent(),
        forall|mode: WifiMode| #[trigger] m.filled(mode) ==> next(m, status).filled(mode),
{
    let n = next(m, status);
    assert forall|mode: WifiMode| #[trigger] n.running(mode) implies n.filled(mode) by {
        assert(m.running(mode) ==> m.filled(mode));
    }
}

/// From boot, whatever statuses are observed, the access point bundle and
/// the station bundle never run both: of two roles that run, each is the
/// other. The one that runs does so on a filled slot.
pub proof fn lemma_one_bundle_at_most(statuses: Seq<WifiStatus>)
    ensures
        run(Model::initial(), statuses).consistent(),
        forall|a: WifiMode, b: WifiMode|
            run(Model::initial(), statuses).running(a) && run(Model::initial(), statuses).running(b)
                ==> a == b,
        !(run(Model::initial(), statuses).phase == Phase::RunningAp && run(
            Model::initial(),
            statuses,
        ).phase == Phase::RunningSta),
{
    lemma_run_keeps_consistency(Model::initial(), statuses);
}

/// Observing any statuses from a consistent state leads to a consistent
/// state.
pub proof fn lemma_run_keeps_consistency(m: Model, statuses: Seq<WifiStatus>)
    requires
        m.consistent(),
    ensures
        run(m, statuses).consistent(),
    decreases statuses.len(),
{
    if statuses.len() > 0 {
        lemma_step_keeps_consistency(m, statuses[0]);
        lemma_run_keeps_consistency(next(m, statuses[0]), statuses.drop_first());
    }
}

/// A slot that was filled stays filled, and nothing that brings its bundle
/// to life is ever planned again: the slot is not filled a second time, the
/// interface is not taken a second time, and no second bundle is raced.
pub proof fn lemma_filled_slot_starts_nothing(
    m: Model,
    statuses: Seq<WifiStatus>,
    mode: WifiMode,
    op: Op,
)
    requires
        m.filled(mode),
        is_start_op(op, mode),
    ensures
        absent(trace(m, statuses), op),
        run(m, statuses).filled(mode),
    decreases statuses.len(),
{
    if statuses.len() > 0 {
        let head = plan(m, statuses[0]);
        let tail = trace(next(m, statuses[0]), statuses.drop_first());
        lemma_filled_slot_starts_nothing(next(m, statuses[0]), statuses.drop_first(), mode, op);
        assert(absent(head, op));
        assert forall|i: int| 0 <= i < (head + tail).len() implies #[trigger] (head + tail)[i]
            != op by {
            if i < head.len() {
                assert((head + tail)[i] == head[i]);
            } else {
                assert((head + tail)[i] == tail[i - head.len()]);
            }
        }
    }
}

/// Whatever statuses are observed, and from whatever state, each operation
/// that brings the bundle of a role to life is planned once at most.
pub proof fn lemma_bundle_started_once(
    m: Model,
    statuses: Seq<WifiStatus>,
    mode: WifiMode,
    op: Op,
)
    requires
        is_start_op(op, mode),
    ensures
        at_most_once(trace(m, statuses), op),
    decreases statuses.len(),
{
    if statuses.len() > 0 {
        let head = plan(m, statuses[0]);
        let after = next(m, statuses[0]);
        let tail = trace(after, statuses.drop_first());
        let whole = head + tail;
        lemma_bundle_started_once(after, statuses.drop_first(), mode, op);
        assert(at_most_once(head, op));
        if !absent(head, op) {
            assert(after.filled(mode));
            lemma_filled_slot_starts_nothing(after, statuses.drop_first(), mode, op);
        }
        assert forall|i: int, j: int|
            0 <= i < whole.len() && 0 <= j < whole.len() && #[trigger] whole[i] == op
                && #[trigger] whole[j] == op implies i == j by {
            if i < head.len() {
                assert(whole[i] == head[i]);
            } else {
                assert(whole[i] == tail[i - head.len()]);
            }
            if j < head.len() {
                assert(whole[j] == head[j]);
            } else {
                assert(whole[j] == tail[j - head.len()]);
            }
        }
    }
}

/// While the bundle of a role runs, a request for that same role ends the
/// race and is then read again: the radio is stopped, the request finds the
/// slot in use, is warned about and waited out. Nothing that brings a bundle
/// to life is planned, and the orchestrator ends idle with the slot still
/// filled.
pub proof fn lemma_repeated_request_starts_no_bundle(m: Model, mode: WifiMode)
    requires
        m.consistent(),
        m.running(mode),
    ensures
        trace(m, seq![WifiStatus::Enabled(mode), WifiStatus::Enabled(mode)]) == seq![
            Op::StopRadio,
            Op::ReadStatus,
        ] + prelude_of(mode) + seq![
            Op::Warn(reenter_warning(mode)),
            Op::AwaitChange,
            Op::ReadStatus,
        ],
        run(m, seq![WifiStatus::Enabled(mode), WifiStatus::Enabled(mode)]) == (Model {
            phase: Phase::Idle,
            ..m
        }),
        absent(
            trace(m, seq![WifiStatus::Enabled(mode), WifiStatus::Enabled(mode)]),
            Op::InitSlot(mode),
        ),
        absent(
            trace(m, seq![WifiStatus::Enabled(mode), WifiStatus::Enabled(mode)]),
            Op::TakeInterface(mode),
        ),
        absent(
            trace(m, seq![WifiStatus::Enabled(mode), WifiStatus::Enabled(mode)]),
            Op::RaceBundle(mode),
        ),
{
    let request = WifiStatus::Enabled(mode);
    let twice = seq![request, request];
    let once = twice.drop_first();
    let idle = next(m, request);
    assert(m.filled(mode));
    assert(once =~= seq![request]);
    assert(once.drop_first() =~= Seq::<WifiStatus>::empty());
    assert(trace(next(idle, request), once.drop_first()) =~= Seq::<Op>::empty());
    assert(run(next(idle, request), once.drop_first()) == next(idle, request));
    assert(trace(idle, once) =~= plan(idle, request));
    assert(run(idle, once) == next(idle, request));
    assert(trace(m, twice) =~= plan(m, request) + plan(idle, request));
    assert(run(m, twice) == next(idle, request));
    assert(trace(m, twice) =~= seq![Op::StopRadio, Op::ReadStatus] + prelude_of(mode) + seq![
        Op::Warn(reenter_warning(mode)),
        Op::AwaitChange,
        Op::ReadStatus,
    ]);
    lemma_filled_slot_starts_nothing(m, twice, mode, Op::InitSlot(mode));
    lemma_filled_slot_starts_nothing(m, twice, mode, Op::TakeInterface(mode));
    lemma_filled_slot_starts_nothing(m, twice, mode, Op::RaceBundle(mode));
}

/// When a status is observed while a bundle runs, the plan is to stop the
/// radio and then to read the status, in that order and nothing else; the
/// orchestrator is idle afterwards and the slots are as they were. So the
/// radio is stopped after the race is over and before the next status is
/// read.
pub proof fn lemma_radio_stopped_before_status_read(m: Model, status: WifiStatus)
    requires
        m.phase != Phase::Idle,
    ensures
        plan(m, status) == seq![Op::StopRadio, Op::ReadStatus],
        forall|i: int|
            0 <= i < plan(m, status).len() && #[trigger] plan(m, status)[i] == Op::ReadStatus
                ==> exists|j: int| 0 <= j < i && #[trigger] plan(m, status)[j] == Op::StopRadio,
        next(m, status) == (Model { phase: Phase::Idle, ..m }),
{
    let p = plan(m, status);
    assert forall|i: int| 0 <= i < p.len() && #[trigger] p[i] == Op::ReadStatus implies exists|
        j: int,
    |
        0 <= j < i && #[trigger] p[j] == Op::StopRadio by {
        assert(p[0] == Op::StopRadio);
        assert(i == 1);
    }
}

/// A request for the combined role, observed while idle, changes nothing:
/// no slot is filled, no interface taken, no radio started. The plan is to
/// warn and to wait for the next status.
pub proof fn lemma_unsupported_mode_acquires_nothing(m: Model)
    requires
        m.phase == Phase::Idle,
    ensures
        next(m, WifiStatus::Enabled(WifiMode::ApSta)) == m,
        plan(m, WifiStatus::Enabled(WifiMode::ApSta)) == seq![
            Op::Warn(Warning::UnsupportedMode),
            Op::AwaitChange,
            Op::ReadStatus,
        ],
{
}

/// `Disabled`, observed while idle, changes nothing: the plan is to wait
/// for the next status.
pub proof fn lemma_disabled_while_idle_changes_nothing(m: Model)
    requires
        m.phase == Phase::Idle,
    ensures
        next(m, WifiStatus::Disabled) == m,
        plan(m, WifiStatus::Disabled) == seq![Op::AwaitChange, Op::ReadStatus],
{
}

/// Every plan ends with the operation that yields the next status: a race
/// where a bundle was started, a read of the status anywhere else. So the
/// orchestrator never comes to an end. The radio is stopped only in answer
/// to a status that was observed while a bundle ran, and a bundle is raced
/// only from idle.
pub proof fn lemma_plan_ends_with_observation(m: Model, status: WifiStatus)
    ensures
        plan(m, status).len() > 0,
        next(m, status).phase == Phase::Idle ==> plan(m, status).last() == Op::ReadStatus,
        forall|mode: WifiMode|
            next(m, status).phase != Phase::Idle && #[trigger] next(m, status).running(mode)
                ==> plan(m, status).last() == Op::RaceBundle(mode),
        forall|i: int|
            0 <= i < plan(m, status).len() && #[trigger] plan(m, status)[i] == Op::StopRadio
                ==> m.phase != Phase::Idle,
        forall|i: int|
            0 <= i < plan(m, status).len() && #[trigger] plan(m, status)[i] is RaceBundle
                ==> m.phase == Phase::Idle && i == plan(m, status).len() - 1,
{
}

/// In `ops`, the operation that follows a race is the stop of the radio.
pub open spec fn stop_follows_race(ops: Seq<Op>) -> bool {
    forall|i: int|
        0 <= i && i + 1 < ops.len() && (#[trigger] ops[i]) is RaceBundle ==> ops[i + 1]
            == Op::StopRadio
}

/// Joins a plan, in which only the last operation may be a race, to what
/// follows it.
proof fn lemma_join_keeps_stop_after_race(head: Seq<Op>, tail: Seq<Op>)
    requires
        head.len() > 0,
        forall|i: int| 0 <= i < head.len() && (#[trigger] head[i]) is RaceBundle ==> i == head.len() - 1,
        head.last() is RaceBundle && tail.len() > 0 ==> tail[0] == Op::StopRadio,
        stop_follows_race(tail),
    ensures
        stop_follows_race(head + tail),
        (head + tail)[0] == head[0],
{
    let whole = head + tail;
    assert forall|i: int|
        0 <= i && i + 1 < whole.len() && (#[trigger] whole[i]) is RaceBundle implies whole[i + 1]
        == Op::StopRadio by {
        if i < head.len() {
            assert(whole[i] == head[i]);
            assert(i == head.len() - 1);
            assert(whole[i + 1] == tail[0]);
        } else {
            let k = i - head.len();
            assert(whole[i] == tail[k]);
            assert(whole[i + 1] == tail[k + 1]);
        }
    }
}

/// Whatever statuses are observed, and from whatever state: the operation
/// that follows a race is the stop of the radio. Nothing is read, claimed or
/// started between the end of a bundle and the stop of the radio; and in a
/// state in which a bundle runs, the stop of the radio comes first of all.
pub proof fn lemma_radio_stopped_after_every_race(m: Model, statuses: Seq<WifiStatus>)
    ensures
        stop_follows_race(trace(m, statuses)),
        statuses.len() == 0 ==> trace(m, statuses).len() == 0,
        m.phase != Phase::Idle && statuses.len() > 0 ==> trace(m, statuses).len() > 0 && trace(
            m,
            statuses,
        )[0] == Op::StopRadio,
    decreases statuses.len(),
{
    if statuses.len() > 0 {
        let head = plan(m, statuses[0]);
        let after = next(m, statuses[0]);
        let rest = statuses.drop_first();
        let tail = trace(after, rest);
        lemma_radio_stopped_after_every_race(after, rest);
        lemma_plan_ends_with_observation(m, statuses[0]);
        assert(head.last() is RaceBundle ==> after.phase != Phase::Idle) by {
            if after.phase == Phase::Idle {
                assert(head.last() == Op::ReadStatus);
            }
        }
        assert(m.phase != Phase::Idle ==> head[0] == Op::StopRadio);
        lemma_join_keeps_stop_after_race(head, tail);
        assert(trace(m, statuses) == head + tail);
    }
}

} // verus!
