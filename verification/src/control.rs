//! The control loop as a state machine.
//!
//! The loop itself runs in the caller's thread. The caller performs the
//! pending [`Action`], then reports its outcome, with the reading of a
//! monotonic clock, to [`Controller::step`], which answers with the next
//! action. Whatever is decided in between is decided here: which pin goes to
//! which level and in what order, when the pump is marked as running, when a
//! sampling round is due, and whether a sample starts the pump.
//!
//! One round of the loop waits a short while for a manual command, runs the
//! pump if one came, takes a sampling round if one is due, lets the policy
//! decide on the new moisture value, runs the pump if it fired, and pauses.
//! An activation, once begun, runs to its end; nothing is read from the
//! command queue or the sensor meanwhile.

use vstd::prelude::*;
use crate::config::{
    Config,
    ConfigError,
    Reading,
    COMMAND_WAIT_MS,
    LOOP_PAUSE_MS,
    MOISTURE_SAMPLES,
    SAMPLE_INTERVAL_US,
};
use crate::hw::{Output, PinWrite};
use crate::policy::{elapsed_us, AutoPolicyState};
use crate::sensor::{averaged, avg_moisture, read_temp_c, temperature_of};

verus! {

/// A command from the status interface to the control loop.
#[derive(Clone, Copy, Debug, PartialEq, Eq)]
pub enum ControlCmd {
    /// Run the pump for so many seconds.
    ManualPump(u64),
}

/// What began an activation.
#[derive(Clone, Copy, Debug, PartialEq, Eq)]
pub enum Cause {
    Manual,
    Automatic,
}

/// Where an activation stands: the action of it that is pending.
#[derive(Clone, Copy, Debug, PartialEq, Eq)]
pub enum Stage {
    /// The relay is being switched on.
    RelayOn,
    /// The pump output is being switched on.
    PumpOn,
    /// The pump runs for its programmed time.
    Hold,
    /// The pump output is being switched off.
    PumpOff,
    /// The relay is being switched off.
    RelayOff,
}

/// Where the control loop stands.
#[derive(Clone, Copy, Debug, PartialEq, Eq)]
pub enum Phase {
    /// Before the first round: the named output is being switched off.
    Startup(Output),
    /// Waiting for a manual command.
    AwaitCommand,
    /// An activation of `secs` seconds is in progress.
    Pumping { cause: Cause, secs: u64, stage: Stage },
    /// A sampling round is being taken.
    Sampling,
    /// The pause that ends a round.
    Pausing,
}

/// What the caller is to do next.
#[derive(Clone, Copy, Debug, PartialEq, Eq)]
pub enum Action {
    /// Drive a pin to a level.
    Drive(PinWrite),
    /// Wait for one command from the queue, at most this long.
    AwaitCommand { timeout_ms: u64 },
    /// Read so many moisture samples, then the temperature.
    ReadSensors { moisture_samples: usize },
    /// Block for exactly this long while the pump runs.
    Hold { secs: u64 },
    /// Sleep this long.
    Pause { ms: u64 },
}

/// The outcome of an action.
#[derive(Debug, PartialEq, Eq)]
pub enum Event {
    /// A pin was written, or a hold or pause has passed.
    Done,
    /// The write to a pin failed. The loop goes on as if it had succeeded,
    /// so that an activation still comes to its end.
    WriteFailed,
    /// The wait for a command ended with this command, or without one.
    Command(Option<ControlCmd>),
    /// The outcomes of the bus transactions of one sampling round.
    Samples { moisture: Vec<Option<[u8; 2]>>, temperature: Option<[u8; 4]> },
}

/// The control loop's state.
#[derive(Clone, Copy, Debug, PartialEq, Eq)]
pub struct Controller {
    pub config: Config,
    /// What the status interface is shown.
    pub reading: Reading,
    /// What the automatic policy remembers.
    pub auto: AutoPolicyState,
    /// Clock reading at which the latest sampling round began.
    pub last_sample_us: Option<u64>,
    pub phase: Phase,
}

/// Whether a sampling round is due at `now_us`: there has been none yet,
/// or the latest began at least a sampling interval ago.
pub open spec fn sample_due(last_sample_us: Option<u64>, now_us: u64) -> bool {
    match last_sample_us {
        None => true,
        Some(since) => elapsed_us(since, now_us) >= SAMPLE_INTERVAL_US,
    }
}

impl Stage {
    /// The stages at which the pump counts as running: from the end of the
    /// last switching on to the end of the last switching off.
    pub open spec fn running(self) -> bool {
        self is Hold || self is PumpOff || self is RelayOff
    }

    /// The stages that write to the pump output.
    pub open spec fn on_pump_output(self) -> bool {
        self is PumpOn || self is PumpOff
    }
}

impl Phase {
    /// The pump counts as running.
    pub open spec fn running(self) -> bool {
        match self {
            Phase::Pumping { stage, .. } => stage.running(),
            _ => false,
        }
    }

    /// The pending action writes to the pump output.
    pub open spec fn on_pump_output(self) -> bool {
        match self {
            Phase::Startup(output) => output is Pump,
            Phase::Pumping { stage, .. } => stage.on_pump_output(),
            _ => false,
        }
    }

    /// The pending action writes to a pin.
    pub open spec fn drives(self) -> bool {
        match self {
            Phase::Startup(_) => true,
            Phase::Pumping { stage, .. } => !(stage is Hold),
            _ => false,
        }
    }

    /// Computes [`Phase::drives`].
    pub fn is_driving(&self) -> (yes: bool)
        ensures
            yes == self.drives(),
    {
        match *self {
            Phase::Startup(_) => true,
            Phase::Pumping { stage: Stage::Hold, .. } => false,
            Phase::Pumping { .. } => true,
            _ => false,
        }
    }
}

impl Controller {
    /// The configuration is well formed, no write to a pump output is
    /// pending where there is none, and the reading shows the pump as
    /// running exactly while an activation is between switching on and
    /// having switched off.
    pub open spec fn wf(&self) -> bool {
        &&& self.config.wf()
        &&& self.phase.on_pump_output() ==> self.config.wiring.pump_polarity() is Some
        &&& self.reading.pump_on == self.phase.running()
        &&& self.reading.pump_on ==> self.reading.last_pump_us is Some
    }

    /// The state in which the control loop starts: nothing read, nothing
    /// running, the policy armed and rested, a sampling round due, and the
    /// relay about to be switched off.
    pub open spec fn initial(config: Config) -> Controller {
        Controller {
            config,
            reading: Reading::initial(),
            auto: AutoPolicyState::initial(),
            last_sample_us: None,
            phase: Phase::Startup(Output::Relay),
        }
    }

    /// The action that the caller is to perform in this state.
    pub open spec fn pending(&self) -> Action {
        let wiring = self.config.wiring;
        match self.phase {
            Phase::Startup(Output::Relay) => Action::Drive(wiring.relay_write(false)),
            Phase::Startup(Output::Pump) => Action::Drive(wiring.pump_write(false).unwrap()),
            Phase::AwaitCommand => Action::AwaitCommand { timeout_ms: COMMAND_WAIT_MS },
            Phase::Pumping { stage: Stage::RelayOn, .. } => Action::Drive(wiring.relay_write(true)),
            Phase::Pumping { stage: Stage::PumpOn, .. } => Action::Drive(
                wiring.pump_write(true).unwrap(),
            ),
            Phase::Pumping { stage: Stage::Hold, secs, .. } => Action::Hold { secs },
            Phase::Pumping { stage: Stage::PumpOff, .. } => Action::Drive(
                wiring.pump_write(false).unwrap(),
            ),
            Phase::Pumping { stage: Stage::RelayOff, .. } => Action::Drive(
                wiring.relay_write(false),
            ),
            Phase::Sampling => Action::ReadSensors { moisture_samples: MOISTURE_SAMPLES },
            Phase::Pausing => Action::Pause { ms: LOOP_PAUSE_MS },
        }
    }

    /// Whether the event is an outcome of the pending action.
    pub open spec fn answers(&self, event: Event) -> bool {
        match self.phase {
            Phase::AwaitCommand => event is Command,
            Phase::Sampling => event is Samples,
            _ => self.completes(event),
        }
    }

    /// Whether the event ends a pending write, hold or pause. A write ends
    /// whether it succeeded or failed.
    pub open spec fn completes(&self, event: Event) -> bool {
        event is Done || (event is WriteFailed && self.phase.drives())
    }

    /// This state in another phase.
    pub open spec fn in_phase(self, phase: Phase) -> Controller {
        Controller { phase, ..self }
    }

    /// An activation begins: the relay is to be switched on.
    pub open spec fn pump_begun(self, cause: Cause, secs: u64) -> Controller {
        self.in_phase(Phase::Pumping { cause, secs, stage: Stage::RelayOn })
    }

    /// The round goes on after its command part: to a sampling round if
    /// one is due, which then counts as begun at `now_us`, else to the
    /// pause.
    pub open spec fn sampling_or_pause(self, now_us: u64) -> Controller {
        if sample_due(self.last_sample_us, now_us) {
            Controller { last_sample_us: Some(now_us), phase: Phase::Sampling, ..self }
        } else {
            self.in_phase(Phase::Pausing)
        }
    }

    /// The last output has been switched on at `now_us`: the reading shows
    /// the pump as running since then, and the hold is next.
    pub open spec fn pump_marked_on(self, now_us: u64, cause: Cause, secs: u64) -> Controller {
        Controller {
            reading: Reading { pump_on: true, last_pump_us: Some(now_us), ..self.reading },
            phase: Phase::Pumping { cause, secs, stage: Stage::Hold },
            ..self
        }
    }

    /// The last output has been switched off at `now_us`: the reading
    /// shows the pump as stopped and the cooldown clock restarts. After a
    /// manual activation the round goes on; an automatic one ends it.
    pub open spec fn pump_ended(self, now_us: u64, cause: Cause) -> Controller {
        let stopped = Controller {
            reading: Reading { pump_on: false, ..self.reading },
            auto: self.auto.restarted(now_us),
            ..self
        };
        match cause {
            Cause::Manual => stopped.sampling_or_pause(now_us),
            Cause::Automatic => stopped.in_phase(Phase::Pausing),
        }
    }

    /// The pending action of an activation is done at `now_us`. The
    /// activation goes through relay on, pump output on, hold, pump output
    /// off, relay off, without the two pump stages where the relay alone
    /// gates the pump.
    pub open spec fn pump_advanced(
        self,
        now_us: u64,
        cause: Cause,
        secs: u64,
        stage: Stage,
    ) -> Controller {
        let has_pump = self.config.wiring.pump_polarity() is Some;
        match stage {
            Stage::RelayOn => if has_pump {
                self.in_phase(Phase::Pumping { cause, secs, stage: Stage::PumpOn })
            } else {
                self.pump_marked_on(now_us, cause, secs)
            },
            Stage::PumpOn => self.pump_marked_on(now_us, cause, secs),
            Stage::Hold => if has_pump {
                self.in_phase(Phase::Pumping { cause, secs, stage: Stage::PumpOff })
            } else {
                self.in_phase(Phase::Pumping { cause, secs, stage: Stage::RelayOff })
            },
            Stage::PumpOff => self.in_phase(Phase::Pumping { cause, secs, stage: Stage::RelayOff }),
            Stage::RelayOff => self.pump_ended(now_us, cause),
        }
    }

    /// A sampling round has come back at `now_us`. Each value that was
    /// read replaces the one in the reading; one that failed leaves it. If
    /// automatic watering is enabled and a moisture value was read, the
    /// policy decides on it: an automatic activation begins, or the round
    /// ends.
    pub open spec fn sampled(
        self,
        now_us: u64,
        moisture: Seq<Option<[u8; 2]>>,
        temperature: Option<[u8; 4]>,
    ) -> Controller {
        let reading = Reading {
            moisture: match averaged(moisture) {
                Some(m) => m,
                None => self.reading.moisture,
            },
            temp_c: match temperature_of(temperature) {
                Some(t) => Some(t),
                None => self.reading.temp_c,
            },
            ..self.reading
        };
        match averaged(moisture) {
            Some(m) if self.config.auto_enabled => {
                let policy = self.config.policy;
                let decided = Controller {
                    reading,
                    auto: policy.after(self.auto, reading.pump_on, now_us, m),
                    ..self
                };
                if policy.fires(self.auto, reading.pump_on, now_us, m) {
                    decided.pump_begun(Cause::Automatic, self.config.auto_pump_secs)
                } else {
                    decided.in_phase(Phase::Pausing)
                }
            },
            _ => Controller { reading, phase: Phase::Pausing, ..self },
        }
    }

    /// The state after `event` has been reported at `now_us`. An event
    /// that is no outcome of the pending action changes nothing.
    pub open spec fn next(self, now_us: u64, event: Event) -> Controller {
        match self.phase {
            Phase::Startup(Output::Relay) if self.completes(event) => {
                if self.config.wiring.pump_polarity() is Some {
                    self.in_phase(Phase::Startup(Output::Pump))
                } else {
                    self.in_phase(Phase::AwaitCommand)
                }
            },
            Phase::Startup(Output::Pump) if self.completes(event) => self.in_phase(
                Phase::AwaitCommand,
            ),
            Phase::AwaitCommand => match event {
                Event::Command(Some(ControlCmd::ManualPump(secs))) => self.pump_begun(
                    Cause::Manual,
                    secs,
                ),
                Event::Command(None) => self.sampling_or_pause(now_us),
                _ => self,
            },
            Phase::Pumping { cause, secs, stage } if self.completes(event) => self.pump_advanced(
                now_us,
                cause,
                secs,
                stage,
            ),
            Phase::Sampling => match event {
                Event::Samples { moisture, temperature } => self.sampled(
                    now_us,
                    moisture@,
                    temperature,
                ),
                _ => self,
            },
            Phase::Pausing if self.completes(event) => self.in_phase(Phase::AwaitCommand),
            _ => self,
        }
    }

    /// Tests [`Controller::wf`], for a caller that cannot prove it.
    pub fn is_wf(&self) -> (ok: bool)
        ensures
            ok == self.wf(),
    {
        let running: bool = match self.phase {
            Phase::Pumping { stage: Stage::Hold, .. } => true,
            Phase::Pumping { stage: Stage::PumpOff, .. } => true,
            Phase::Pumping { stage: Stage::RelayOff, .. } => true,
            _ => false,
        };
        let on_pump_output: bool = match self.phase {
            Phase::Startup(Output::Pump) => true,
            Phase::Pumping { stage: Stage::PumpOn, .. } => true,
            Phase::Pumping { stage: Stage::PumpOff, .. } => true,
            _ => false,
        };
        self.config.policy.is_valid() && (!on_pump_output || self.config.wiring.has_pump())
            && self.reading.pump_on == running && (!self.reading.pump_on
            || self.reading.last_pump_us.is_some())
    }

    /// A copy of the reading, for the status interface.
    pub fn snapshot(&self) -> (reading: Reading)
        ensures
            reading == self.reading,
    {
        self.reading
    }

    /// The action to perform now.
    pub fn pending_action(&self) -> (action: Action)
        requires
            self.wf(),
        ensures
            action == self.pending(),
    {
        match self.phase {
            Phase::Startup(Output::Relay) => Action::Drive(self.config.wiring.set_relay(false)),
            Phase::Startup(Output::Pump) => match self.config.wiring.set_pump(false) {
                Some(write) => Action::Drive(write),
                None => vstd::pervasive::unreached(),
            },
            Phase::AwaitCommand => Action::AwaitCommand { timeout_ms: COMMAND_WAIT_MS },
            Phase::Pumping { stage, secs, .. } => match stage {
                Stage::RelayOn => Action::Drive(self.config.wiring.set_relay(true)),
                Stage::PumpOn => match self.config.wiring.set_pump(true) {
                    Some(write) => Action::Drive(write),
                    None => vstd::pervasive::unreached(),
                },
                Stage::Hold => Action::Hold { secs },
                Stage::PumpOff => match self.config.wiring.set_pump(false) {
                    Some(write) => Action::Drive(write),
                    None => vstd::pervasive::unreached(),
                },
                Stage::RelayOff => Action::Drive(self.config.wiring.set_relay(false)),
            },
            Phase::Sampling => Action::ReadSensors { moisture_samples: MOISTURE_SAMPLES },
            Phase::Pausing => Action::Pause { ms: LOOP_PAUSE_MS },
        }
    }

    /// Begins an activation of `secs` seconds. The sequence is: relay on,
    /// pump output on, the reading marked as running with the time of the
    /// mark, the hold, pump output off, relay off, the reading marked as
    /// stopped. Each completed action moves it on by one stage.
    fn run_pump(&mut self, cause: Cause, secs: u64)
        requires
            old(self).wf(),
            !old(self).phase.running(),
        ensures
            *final(self) == old(self).pump_begun(cause, secs),
            final(self).wf(),
    {
        self.phase = Phase::Pumping { cause, secs, stage: Stage::RelayOn };
    }

    /// Goes on with the round after its command part.
    fn begin_sampling_if_due(&mut self, now_us: u64)
        requires
            old(self).wf(),
            !old(self).phase.running(),
        ensures
            *final(self) == old(self).sampling_or_pause(now_us),
            final(self).wf(),
    {
        let due: bool = match self.last_sample_us {
            None => true,
            Some(since) => now_us >= since && now_us - since >= SAMPLE_INTERVAL_US,
        };
        if due {
            self.last_sample_us = Some(now_us);
            self.phase = Phase::Sampling;
        } else {
            self.phase = Phase::Pausing;
        }
    }

    /// Moves an activation on by one stage.
    fn advance_pump(&mut self, now_us: u64, cause: Cause, secs: u64, stage: Stage)
        requires
            old(self).wf(),
            old(self).phase == (Phase::Pumping { cause, secs, stage }),
        ensures
            *final(self) == old(self).pump_advanced(now_us, cause, secs, stage),
            final(self).wf(),
    {
        let has_pump: bool = self.config.wiring.has_pump();
        match stage {
            Stage::RelayOn => {
                if has_pump {
                    self.phase = Phase::Pumping { cause, secs, stage: Stage::PumpOn };
                } else {
                    self.reading.pump_on = true;
                    self.reading.last_pump_us = Some(now_us);
                    self.phase = Phase::Pumping { cause, secs, stage: Stage::Hold };
                }
            },
            Stage::PumpOn => {
                self.reading.pump_on = true;
                self.reading.last_pump_us = Some(now_us);
                self.phase = Phase::Pumping { cause, secs, stage: Stage::Hold };
            },
            Stage::Hold => {
                if has_pump {
                    self.phase = Phase::Pumping { cause, secs, stage: Stage::PumpOff };
                } else {
                    self.phase = Phase::Pumping { cause, secs, stage: Stage::RelayOff };
                }
            },
            Stage::PumpOff => {
                self.phase = Phase::Pumping { cause, secs, stage: Stage::RelayOff };
            },
            Stage::RelayOff => {
                self.reading.pump_on = false;
                self.auto.restart_cooldown(now_us);
                match cause {
                    Cause::Manual => {
                        self.phase = Phase::AwaitCommand;
                        self.begin_sampling_if_due(now_us);
                    },
                    Cause::Automatic => {
                        self.phase = Phase::Pausing;
                    },
                }
            },
        }
    }

    /// Takes in a sampling round and lets the policy decide.
    fn take_samples(
        &mut self,
        now_us: u64,
        moisture: &[Option<[u8; 2]>],
        temperature: Option<[u8; 4]>,
    )
        requires
            old(self).wf(),
            old(self).phase is Sampling,
        ensures
            *final(self) == old(self).sampled(now_us, moisture@, temperature),
            final(self).wf(),
    {
        let moisture_now: Option<u16> = match avg_moisture(moisture) {
            Ok(m) => {
                self.reading.moisture = m;
                Some(m)
            },
            Err(_) => None,
        };
        match read_temp_c(temperature) {
            Ok(t) => {
                self.reading.temp_c = Some(t);
            },
            Err(_) => {},
        }
        let pump_on_now: bool = self.reading.pump_on;
        self.phase = Phase::Pausing;
        if self.config.auto_enabled {
            match moisture_now {
                Some(m) => {
                    let policy = self.config.policy;
                    if policy.decide(&mut self.auto, pump_on_now, now_us, m) {
                        let secs: u64 = self.config.auto_pump_secs;
                        self.run_pump(Cause::Automatic, secs);
                    }
                },
                None => {},
            }
        }
    }

    /// Takes the outcome of the pending action, reported at the clock
    /// reading `now_us`, and answers with the action to perform next. An
    /// event that is no outcome of the pending action is ignored and the
    /// pending action asked for again.
    pub fn step(&mut self, now_us: u64, event: Event) -> (action: Action)
        requires
            old(self).wf(),
        ensures
            *final(self) == old(self).next(now_us, event),
            final(self).wf(),
            action == final(self).pending(),
    {
        let phase: Phase = self.phase;
        let completed: bool = match event {
            Event::Done => true,
            Event::WriteFailed => phase.is_driving(),
            _ => false,
        };
        match phase {
            Phase::Startup(output) => {
                if completed {
                    match output {
                        Output::Relay => {
                            if self.config.wiring.has_pump() {
                                self.phase = Phase::Startup(Output::Pump);
                            } else {
                                self.phase = Phase::AwaitCommand;
                            }
                        },
                        Output::Pump => {
                            self.phase = Phase::AwaitCommand;
                        },
                    }
                }
            },
            Phase::AwaitCommand => match event {
                Event::Command(Some(ControlCmd::ManualPump(secs))) => {
                    self.run_pump(Cause::Manual, secs);
                },
                Event::Command(None) => {
                    self.begin_sampling_if_due(now_us);
                },
                _ => {},
            },
            Phase::Pumping { cause, secs, stage } => {
                if completed {
                    self.advance_pump(now_us, cause, secs, stage);
                }
            },
            Phase::Sampling => match event {
                Event::Samples { moisture, temperature } => {
                    self.take_samples(now_us, moisture.as_slice(), temperature);
                },
                _ => {},
            },
            Phase::Pausing => {
                if completed {
                    self.phase = Phase::AwaitCommand;
                }
            },
        }
        self.pending_action()
    }
}

/// Sets up the control loop: its state before the first round. The caller
/// performs [`Controller::pending_action`] and from then on what
/// [`Controller::step`] answers. A configuration that is not well formed
/// is refused.
pub fn spawn_control(config: Config) -> (r: Result<Controller, ConfigError>)
    ensures
        match r {
            Ok(controller) => config.wf() && controller == Controller::initial(config)
                && controller.wf(),
            Err(e) => !config.wf() && e == ConfigError::ThresholdsOutOfOrder,
        },
{
    match config.validate() {
        Ok(_) => Ok(
            Controller {
                config,
                reading: Reading::new(),
                auto: AutoPolicyState::new(),
                last_sample_us: None,
                phase: Phase::Startup(Output::Relay),
            },
        ),
        Err(e) => Err(e),
    }
}

} // verus!
