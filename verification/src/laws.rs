//! What holds of every run of the control loop.
//!
//! A run is a sequence of reports, each the outcome of an action together
//! with the clock reading at which it was reported, fed to
//! [`Controller::next`] one after the other.

use vstd::prelude::*;
use crate::config::Config;
use crate::control::{Action, Cause, Controller, ControlCmd, Event, Phase, Stage};
use crate::policy::MICROS_PER_SEC;
use crate::sensor::averaged;

verus! {

/// The state after a run of reports, taken in order from `start`.
pub open spec fn run(start: Controller, reports: Seq<(u64, Event)>) -> Controller
    decreases reports.len(),
{
    if reports.len() == 0 {
        start
    } else {
        run(start, reports.drop_last()).next(reports.last().0, reports.last().1)
    }
}

/// The clock never reads earlier than it did at an earlier report.
pub open spec fn chronological(reports: Seq<(u64, Event)>) -> bool {
    forall|a: int, b: int| 0 <= a <= b < reports.len() ==> reports[a].0 <= reports[b].0
}

/// Whether report `i` of the run is the sampling round on which an
/// automatic activation begins.
pub open spec fn auto_started_at(start: Controller, reports: Seq<(u64, Event)>, i: int) -> bool {
    let before = run(start, reports.take(i));
    let after = before.next(reports[i].0, reports[i].1);
    &&& before.phase is Sampling
    &&& after.phase matches Phase::Pumping { cause, .. }
    &&& cause is Automatic
}

/// Whether report `i` is a sampling round whose averaged moisture reaches
/// `high`.
pub open spec fn reached(reports: Seq<(u64, Event)>, i: int, high: u16) -> bool {
    &&& reports[i].1 matches Event::Samples { moisture, .. }
    &&& averaged(moisture@) matches Some(m)
    &&& m >= high
}

/// Every state of a run is well formed and has the configuration the run
/// started with.
pub proof fn law_run_keeps_invariant(start: Controller, reports: Seq<(u64, Event)>)
    requires
        start.wf(),
    ensures
        run(start, reports).wf(),
        run(start, reports).config == start.config,
    decreases reports.len(),
{
    if reports.len() > 0 {
        law_run_keeps_invariant(start, reports.drop_last());
    }
}

/// The reading shows the pump as running from the step that asks for the
/// hold, so before the caller sleeps, and as stopped again only on the
/// report that the relay, the last output to go, has been switched off.
/// The time of the latest activation is set when the reading is marked as
/// running, and is never changed or cleared otherwise.
pub proof fn law_pump_flag_brackets_hold(state: Controller, now_us: u64, event: Event)
    requires
        state.wf(),
    ensures
        ({
            let after = state.next(now_us, event);
            &&& after.wf()
            &&& after.pending() is Hold ==> after.reading.pump_on
            &&& !state.reading.pump_on && after.reading.pump_on ==> {
                &&& after.pending() is Hold
                &&& after.reading.last_pump_us == Some(now_us)
                &&& state.pending() is Drive
            }
            &&& state.reading.pump_on && !after.reading.pump_on ==> {
                &&& state.phase matches Phase::Pumping { stage: Stage::RelayOff, .. }
                &&& state.pending() == Action::Drive(state.config.wiring.relay_write(false))
                &&& (event is Done || event is WriteFailed)
            }
            &&& after.reading.last_pump_us == if !state.reading.pump_on && after.reading.pump_on {
                Some(now_us)
            } else {
                state.reading.last_pump_us
            }
        }),
{
}

/// A failed write to a pin is not fatal: the loop goes on from it exactly
/// as from one that succeeded, so that an activation still runs through
/// all its stages and the reading never stays marked as running.
pub proof fn law_failed_write_is_not_fatal(state: Controller, now_us: u64)
    requires
        state.phase.drives(),
    ensures
        state.pending() is Drive,
        state.next(now_us, Event::WriteFailed) == state.next(now_us, Event::Done),
{
}

/// An event that is no outcome of the pending action changes nothing, so
/// that the same action is asked for again.
pub proof fn law_stray_event_is_ignored(state: Controller, now_us: u64, event: Event)
    requires
        !state.answers(event),
    ensures
        state.next(now_us, event) == state,
{
}

/// An activation on a relay and a pump output, from its first action to
/// its end: relay on, pump output on, hold for the programmed time, pump
/// output off, relay off. The reading shows the pump as running from the
/// hold on, with the time at which the pump output was reported on, and as
/// stopped only after both outputs have been switched off; the cooldown
/// clock restarts at that last report.
pub proof fn law_activation_with_pump_output(
    state: Controller,
    cause: Cause,
    secs: u64,
    t1: u64,
    t2: u64,
    t3: u64,
    t4: u64,
    t5: u64,
)
    requires
        state.wf(),
        state.phase == (Phase::Pumping { cause, secs, stage: Stage::RelayOn }),
        state.config.wiring.pump_polarity() is Some,
    ensures
        ({
            let wiring = state.config.wiring;
            let s1 = state.next(t1, Event::Done);
            let s2 = s1.next(t2, Event::Done);
            let s3 = s2.next(t3, Event::Done);
            let s4 = s3.next(t4, Event::Done);
            let s5 = s4.next(t5, Event::Done);
            &&& state.pending() == Action::Drive(wiring.relay_write(true))
            &&& !state.reading.pump_on
            &&& s1.pending() == Action::Drive(wiring.pump_write(true).unwrap())
            &&& !s1.reading.pump_on
            &&& s2.pending() == Action::Hold { secs }
            &&& s2.reading.pump_on
            &&& s2.reading.last_pump_us == Some(t2)
            &&& s3.pending() == Action::Drive(wiring.pump_write(false).unwrap())
            &&& s3.reading.pump_on
            &&& s4.pending() == Action::Drive(wiring.relay_write(false))
            &&& s4.reading.pump_on
            &&& !s5.reading.pump_on
            &&& !(s5.phase is Pumping)
            &&& s5.reading.last_pump_us == Some(t2)
            &&& s5.auto == state.auto.restarted(t5)
        }),
{
}

/// An activation where the relay alone gates the pump: relay on, hold for
/// the programmed time, relay off. The reading shows the pump as running
/// from the hold on and as stopped only after the relay has been switched
/// off.
pub proof fn law_activation_with_relay_only(
    state: Controller,
    cause: Cause,
    secs: u64,
    t1: u64,
    t2: u64,
    t3: u64,
)
    requires
        state.wf(),
        state.phase == (Phase::Pumping { cause, secs, stage: Stage::RelayOn }),
        state.config.wiring.pump_polarity() is None,
    ensures
        ({
            let wiring = state.config.wiring;
            let s1 = state.next(t1, Event::Done);
            let s2 = s1.next(t2, Event::Done);
            let s3 = s2.next(t3, Event::Done);
            &&& state.pending() == Action::Drive(wiring.relay_write(true))
            &&& !state.reading.pump_on
            &&& s1.pending() == Action::Hold { secs }
            &&& s1.reading.pump_on
            &&& s1.reading.last_pump_us == Some(t1)
            &&& s2.pending() == Action::Drive(wiring.relay_write(false))
            &&& s2.reading.pump_on
            &&& !s3.reading.pump_on
            &&& !(s3.phase is Pumping)
            &&& s3.reading.last_pump_us == Some(t1)
            &&& s3.auto == state.auto.restarted(t3)
        }),
{
}

/// The loop begins by switching every output off, the relay first, and
/// does nothing else until that is done; the reading and the policy are as
/// at the start when it first waits for a command.
pub proof fn law_startup_switches_everything_off(config: Config, t1: u64, t2: u64)
    requires
        config.wf(),
    ensures
        ({
            let start = Controller::initial(config);
            let s1 = start.next(t1, Event::Done);
            let s2 = s1.next(t2, Event::Done);
            let waiting = start.in_phase(Phase::AwaitCommand);
            &&& start.wf()
            &&& start.pending() == Action::Drive(config.wiring.relay_write(false))
            &&& match config.wiring.pump_write(false) {
                Some(write) => s1.pending() == Action::Drive(write) && s2 == waiting,
                None => s1 == waiting,
            }
            &&& waiting.pending() is AwaitCommand
        }),
{
}

/// Activations never overlap and are never cut short. One begins only
/// while the loop waits for a command or takes in a sampling round, so not
/// while another is in progress; and one in progress keeps its cause and
/// its length, and leaves its stage only for the next one.
pub proof fn law_activations_are_serialized(state: Controller, now_us: u64, event: Event)
    requires
        state.wf(),
    ensures
        ({
            let after = state.next(now_us, event);
            &&& !(state.phase is Pumping) && after.phase is Pumping ==> {
                &&& state.phase is AwaitCommand || state.phase is Sampling
                &&& after.phase->stage is RelayOn
                &&& !after.reading.pump_on
            }
            &&& state.phase matches Phase::Pumping { cause, secs, stage } ==> {
                ||| after == state
                ||| stage is RelayOff && !(after.phase is Pumping)
                ||| {
                    &&& after.phase matches Phase::Pumping {
                        cause: cause_after,
                        secs: secs_after,
                        stage: stage_after,
                    }
                    &&& cause_after == cause
                    &&& secs_after == secs
                    &&& stage_after != stage
                    &&& !(stage_after is RelayOn)
                }
            }
        }),
{
}

/// A manual command is served whatever the policy remembers: armed or
/// not, rested or not, the activation begins, runs for the time the
/// command names, and leaves the arming as it was.
pub proof fn law_manual_bypasses_policy(state: Controller, now_us: u64, secs: u64)
    requires
        state.wf(),
        state.phase is AwaitCommand,
    ensures
        ({
            let after = state.next(
                now_us,
                Event::Command(Some(ControlCmd::ManualPump(secs))),
            );
            &&& after.phase == (Phase::Pumping { cause: Cause::Manual, secs, stage: Stage::RelayOn })
            &&& after.auto == state.auto
            &&& after.reading == state.reading
        }),
{
}

/// From the sampling round on which an automatic activation began, the
/// cooldown clock stands at or after the time of that round, and no later
/// than the latest report.
proof fn lemma_clock_after_auto_start(
    start: Controller,
    reports: Seq<(u64, Event)>,
    i: int,
    k: int,
)
    requires
        start.wf(),
        start.config.policy is Hysteresis,
        chronological(reports),
        0 <= i < k <= reports.len(),
        auto_started_at(start, reports, i),
    ensures
        run(start, reports.take(k)).auto.last_auto_activation matches Some(since)
            && reports[i].0 <= since <= reports[k - 1].0,
    decreases k,
{
    assert(reports.take(k).drop_last() =~= reports.take(k - 1));
    assert(reports.take(k).last() == reports[k - 1]);
    law_run_keeps_invariant(start, reports.take(k - 1));
    if k > i + 1 {
        lemma_clock_after_auto_start(start, reports, i, k - 1);
    }
}

/// Under the hysteresis policy no two automatic activations begin less
/// than the cooldown apart, whatever the sensor reports and whatever is
/// commanded by hand in between.
pub proof fn law_cooldown_separates_activations(
    start: Controller,
    reports: Seq<(u64, Event)>,
    i: int,
    j: int,
)
    requires
        start.wf(),
        start.config.policy is Hysteresis,
        chronological(reports),
        0 <= i < j < reports.len(),
        auto_started_at(start, reports, i),
        auto_started_at(start, reports, j),
    ensures
        reports[j].0 - reports[i].0 >= start.config.policy->cooldown_secs * MICROS_PER_SEC,
{
    lemma_clock_after_auto_start(start, reports, i, j);
    law_run_keeps_invariant(start, reports.take(j));
}

/// From the sampling round on which an automatic activation began, the
/// policy is disarmed for as long as no sampling round reaches the high
/// threshold.
proof fn lemma_disarmed_after_auto_start(
    start: Controller,
    reports: Seq<(u64, Event)>,
    i: int,
    k: int,
)
    requires
        start.wf(),
        start.config.policy is Hysteresis,
        0 <= i < k <= reports.len(),
        auto_started_at(start, reports, i),
        forall|n: int| i < n < k ==> !reached(reports, n, start.config.policy->high),
    ensures
        !run(start, reports.take(k)).auto.can_auto_pump,
    decreases k,
{
    assert(reports.take(k).drop_last() =~= reports.take(k - 1));
    assert(reports.take(k).last() == reports[k - 1]);
    law_run_keeps_invariant(start, reports.take(k - 1));
    if k > i + 1 {
        lemma_disarmed_after_auto_start(start, reports, i, k - 1);
        assert(!reached(reports, k - 1, start.config.policy->high));
    }
}

/// Once an automatic activation has begun under the hysteresis policy, no
/// further one begins until a sampling round has reached the high
/// threshold, however low the moisture goes, and the policy stays disarmed
/// until then.
pub proof fn law_no_activation_until_rearmed(
    start: Controller,
    reports: Seq<(u64, Event)>,
    i: int,
    j: int,
)
    requires
        start.wf(),
        start.config.policy is Hysteresis,
        0 <= i < j < reports.len(),
        auto_started_at(start, reports, i),
        forall|n: int| i < n <= j ==> !reached(reports, n, start.config.policy->high),
    ensures
        !auto_started_at(start, reports, j),
        !run(start, reports.take(j + 1)).auto.can_auto_pump,
{
    lemma_disarmed_after_auto_start(start, reports, i, j);
    lemma_disarmed_after_auto_start(start, reports, i, j + 1);
    law_run_keeps_invariant(start, reports.take(j));
    assert(!reached(reports, j, start.config.policy->high));
}

} // verus!
