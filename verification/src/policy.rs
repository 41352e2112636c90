//! Automatic watering policy: which moisture sample starts the pump.
//!
//! Two policies are offered. The simple threshold waters whenever the soil
//! is at or below one value. The hysteresis policy waters at or below a low
//! value, then stays disarmed until the soil has been seen at or above a
//! high value, and in any case rests for a cooldown after each activation.

use vstd::prelude::*;

verus! {

/// Microseconds in one second.
pub const MICROS_PER_SEC: u64 = 1_000_000;

/// The rule by which a moisture sample starts an automatic activation.
#[derive(Clone, Copy, Debug, PartialEq, Eq)]
pub enum AutoPolicy {
    /// Water whenever `moisture <= threshold`.
    Threshold { threshold: u16 },
    /// Water when `moisture <= low`, armed and rested; re-arm when
    /// `moisture >= high`. Requires `low < high`.
    Hysteresis { low: u16, high: u16, cooldown_secs: u64 },
}

/// What the hysteresis policy remembers between samples.
#[derive(Clone, Copy, Debug, PartialEq, Eq)]
pub struct AutoPolicyState {
    /// Armed: the soil has been wet enough since the last automatic
    /// activation.
    pub can_auto_pump: bool,
    /// Clock reading, in microseconds, from which the cooldown counts;
    /// `None` while nothing has been activated yet, so that the first
    /// decision finds the cooldown over.
    pub last_auto_activation: Option<u64>,
}

/// Time from `since` to `now_us` in microseconds; nothing if the clock
/// reads earlier than `since`.
pub open spec fn elapsed_us(since: u64, now_us: u64) -> int {
    if now_us >= since {
        now_us - since
    } else {
        0
    }
}

/// Whether at `now_us` at least `cooldown_secs` seconds have passed since
/// the cooldown clock was last restarted.
pub open spec fn cooldown_elapsed(last: Option<u64>, now_us: u64, cooldown_secs: u64) -> bool {
    match last {
        None => true,
        Some(since) => elapsed_us(since, now_us) >= cooldown_secs * MICROS_PER_SEC,
    }
}

impl AutoPolicyState {
    /// The state at the start of the control loop.
    pub open spec fn initial() -> AutoPolicyState {
        AutoPolicyState { can_auto_pump: true, last_auto_activation: None }
    }

    /// This state with the cooldown clock restarted at `now_us`.
    pub open spec fn restarted(self, now_us: u64) -> AutoPolicyState {
        AutoPolicyState { last_auto_activation: Some(now_us), ..self }
    }

    /// Armed, with the cooldown already over.
    pub fn new() -> (state: AutoPolicyState)
        ensures
            state == AutoPolicyState::initial(),
    {
        AutoPolicyState { can_auto_pump: true, last_auto_activation: None }
    }

    /// Restarts the cooldown clock: an activation, manual or automatic, has
    /// just ended at `now_us`. Arming is left as it is.
    pub fn restart_cooldown(&mut self, now_us: u64)
        ensures
            *final(self) == old(self).restarted(now_us),
    {
        self.last_auto_activation = Some(now_us);
    }
}

impl AutoPolicy {
    /// The thresholds of a hysteresis policy are in order.
    pub open spec fn wf(&self) -> bool {
        match *self {
            AutoPolicy::Threshold { .. } => true,
            AutoPolicy::Hysteresis { low, high, .. } => low < high,
        }
    }

    /// Whether the sample starts an automatic activation.
    pub open spec fn fires(
        &self,
        state: AutoPolicyState,
        pump_on: bool,
        now_us: u64,
        moisture: u16,
    ) -> bool {
        match *self {
            AutoPolicy::Threshold { threshold } => !pump_on && moisture <= threshold,
            AutoPolicy::Hysteresis { low, high, cooldown_secs } => {
                &&& !pump_on
                &&& (state.can_auto_pump || moisture >= high)
                &&& cooldown_elapsed(state.last_auto_activation, now_us, cooldown_secs)
                &&& moisture <= low
            },
        }
    }

    /// The state after the sample: disarmed with the clock restarted if it
    /// fired, else armed if it was armed or the soil is wet enough now. The
    /// threshold policy keeps no state.
    pub open spec fn after(
        &self,
        state: AutoPolicyState,
        pump_on: bool,
        now_us: u64,
        moisture: u16,
    ) -> AutoPolicyState {
        match *self {
            AutoPolicy::Threshold { .. } => state,
            AutoPolicy::Hysteresis { high, .. } => {
                if self.fires(state, pump_on, now_us, moisture) {
                    AutoPolicyState { can_auto_pump: false, last_auto_activation: Some(now_us) }
                } else {
                    AutoPolicyState {
                        can_auto_pump: state.can_auto_pump || moisture >= high,
                        ..state
                    }
                }
            },
        }
    }

    /// Tests [`AutoPolicy::wf`].
    pub fn is_valid(&self) -> (ok: bool)
        ensures
            ok == self.wf(),
    {
        match *self {
            AutoPolicy::Threshold { .. } => true,
            AutoPolicy::Hysteresis { low, high, .. } => low < high,
        }
    }

    /// Takes one moisture sample, read at `now_us` while the pump was
    /// running or not as `pump_on` says, and decides whether it starts an
    /// automatic activation.
    pub fn decide(
        &self,
        state: &mut AutoPolicyState,
        pump_on: bool,
        now_us: u64,
        moisture: u16,
    ) -> (fire: bool)
        ensures
            fire == self.fires(*old(state), pump_on, now_us, moisture),
            *final(state) == self.after(*old(state), pump_on, now_us, moisture),
    {
        match *self {
            AutoPolicy::Threshold { threshold } => !pump_on && moisture <= threshold,
            AutoPolicy::Hysteresis { low, high, cooldown_secs } => {
                if moisture >= high {
                    state.can_auto_pump = true;
                }
                let rested: bool = cooldown_over(state.last_auto_activation, now_us, cooldown_secs);
                if !pump_on && state.can_auto_pump && rested && moisture <= low {
                    state.can_auto_pump = false;
                    state.last_auto_activation = Some(now_us);
                    true
                } else {
                    false
                }
            },
        }
    }
}

/// Computes [`cooldown_elapsed`].
pub fn cooldown_over(last: Option<u64>, now_us: u64, cooldown_secs: u64) -> (over: bool)
    ensures
        over == cooldown_elapsed(last, now_us, cooldown_secs),
{
    match last {
        None => true,
        Some(since) => {
            let elapsed: u64 = if now_us >= since {
                now_us - since
            } else {
                0
            };
            elapsed / MICROS_PER_SEC >= cooldown_secs
        },
    }
}

/// The first decision is not held back by arming or cooldown: from the
/// initial state the hysteresis policy fires exactly on a sample at or
/// below the low threshold, taken while the pump is off.
pub proof fn law_first_decision(policy: AutoPolicy, pump_on: bool, now_us: u64, moisture: u16)
    requires
        policy is Hysteresis,
    ensures
        policy.fires(AutoPolicyState::initial(), pump_on, now_us, moisture) == (!pump_on
            && moisture <= policy->low),
{
}

/// A sample that re-arms a well-formed hysteresis policy does not itself
/// fire: it is at or above the high threshold, so above the low one.
pub proof fn law_rearming_sample_does_not_fire(
    policy: AutoPolicy,
    state: AutoPolicyState,
    pump_on: bool,
    now_us: u64,
    moisture: u16,
)
    requires
        policy.wf(),
        policy is Hysteresis,
        moisture >= policy->high,
    ensures
        !policy.fires(state, pump_on, now_us, moisture),
        policy.after(state, pump_on, now_us, moisture) == (AutoPolicyState {
            can_auto_pump: true,
            ..state
        }),
{
}

/// One thing that happens to the policy: a sample is put to it, or an
/// activation ends and restarts the cooldown clock.
#[derive(Clone, Copy, Debug, PartialEq, Eq)]
pub enum PolicyInput {
    Sample { now_us: u64, moisture: u16, pump_on: bool },
    Activation { now_us: u64 },
}

impl PolicyInput {
    /// The clock reading that came with the input.
    pub open spec fn at(self) -> u64 {
        match self {
            PolicyInput::Sample { now_us, .. } => now_us,
            PolicyInput::Activation { now_us } => now_us,
        }
    }
}

/// The state after one input.
pub open spec fn apply(
    policy: AutoPolicy,
    state: AutoPolicyState,
    input: PolicyInput,
) -> AutoPolicyState {
    match input {
        PolicyInput::Sample { now_us, moisture, pump_on } => policy.after(
            state,
            pump_on,
            now_us,
            moisture,
        ),
        PolicyInput::Activation { now_us } => state.restarted(now_us),
    }
}

/// The state after a run of inputs, taken in order from `start`.
pub open spec fn run(
    policy: AutoPolicy,
    start: AutoPolicyState,
    inputs: Seq<PolicyInput>,
) -> AutoPolicyState
    decreases inputs.len(),
{
    if inputs.len() == 0 {
        start
    } else {
        apply(policy, run(policy, start, inputs.drop_last()), inputs.last())
    }
}

/// Whether input `i` of the run is a sample that starts an automatic
/// activation.
pub open spec fn fired_at(
    policy: AutoPolicy,
    start: AutoPolicyState,
    inputs: Seq<PolicyInput>,
    i: int,
) -> bool {
    match inputs[i] {
        PolicyInput::Sample { now_us, moisture, pump_on } => policy.fires(
            run(policy, start, inputs.take(i)),
            pump_on,
            now_us,
            moisture,
        ),
        PolicyInput::Activation { .. } => false,
    }
}

/// The clock never reads earlier than it did at an earlier input.
pub open spec fn chronological(inputs: Seq<PolicyInput>) -> bool {
    forall|a: int, b: int| 0 <= a <= b < inputs.len() ==> inputs[a].at() <= inputs[b].at()
}

/// After a sample has fired, the cooldown clock stands at or after the
/// time of that sample, and no later than the latest input.
proof fn lemma_clock_after_trigger(
    policy: AutoPolicy,
    start: AutoPolicyState,
    inputs: Seq<PolicyInput>,
    i: int,
    k: int,
)
    requires
        policy is Hysteresis,
        chronological(inputs),
        0 <= i < k <= inputs.len(),
        fired_at(policy, start, inputs, i),
    ensures
        run(policy, start, inputs.take(k)).last_auto_activation matches Some(since)
            && inputs[i].at() <= since <= inputs[k - 1].at(),
    decreases k,
{
    assert(inputs.take(k).drop_last() =~= inputs.take(k - 1));
    assert(inputs.take(k).last() == inputs[k - 1]);
    if k > i + 1 {
        lemma_clock_after_trigger(policy, start, inputs, i, k - 1);
    }
}

/// Under the hysteresis policy no two automatic activations start less
/// than the cooldown apart, whatever the samples and whatever else restarts
/// the cooldown clock in between.
pub proof fn law_cooldown_separates_triggers(
    policy: AutoPolicy,
    start: AutoPolicyState,
    inputs: Seq<PolicyInput>,
    i: int,
    j: int,
)
    requires
        policy is Hysteresis,
        chronological(inputs),
        0 <= i < j < inputs.len(),
        fired_at(policy, start, inputs, i),
        fired_at(policy, start, inputs, j),
    ensures
        inputs[j].at() - inputs[i].at() >= policy->cooldown_secs * MICROS_PER_SEC,
{
    lemma_clock_after_trigger(policy, start, inputs, i, j);
}

/// After a sample has fired, the policy stays disarmed for as long as every
/// sample is below the high threshold.
proof fn lemma_disarmed_after_trigger(
    policy: AutoPolicy,
    start: AutoPolicyState,
    inputs: Seq<PolicyInput>,
    i: int,
    k: int,
)
    requires
        policy is Hysteresis,
        0 <= i < k <= inputs.len(),
        fired_at(policy, start, inputs, i),
        forall|n: int|
            i < n < k ==> (#[trigger] inputs[n] matches PolicyInput::Sample { moisture, .. }
                ==> moisture < policy->high),
    ensures
        !run(policy, start, inputs.take(k)).can_auto_pump,
    decreases k,
{
    assert(inputs.take(k).drop_last() =~= inputs.take(k - 1));
    assert(inputs.take(k).last() == inputs[k - 1]);
    if k > i + 1 {
        lemma_disarmed_after_trigger(policy, start, inputs, i, k - 1);
    }
}

/// Once the hysteresis policy has fired it is disarmed, and while every
/// later sample stays below the high threshold it remains so and fires no
/// more, however low the moisture goes.
pub proof fn law_disarmed_until_rearmed(
    policy: AutoPolicy,
    start: AutoPolicyState,
    inputs: Seq<PolicyInput>,
    i: int,
    j: int,
)
    requires
        policy is Hysteresis,
        0 <= i < j < inputs.len(),
        fired_at(policy, start, inputs, i),
        forall|n: int|
            i < n <= j ==> (#[trigger] inputs[n] matches PolicyInput::Sample { moisture, .. }
                ==> moisture < policy->high),
    ensures
        !fired_at(policy, start, inputs, j),
        !run(policy, start, inputs.take(j)).can_auto_pump,
        !run(policy, start, inputs.take(j + 1)).can_auto_pump,
{
    lemma_disarmed_after_trigger(policy, start, inputs, i, j);
    lemma_disarmed_after_trigger(policy, start, inputs, i, j + 1);
}

} // verus!
