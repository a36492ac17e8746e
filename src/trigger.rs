use vstd::prelude::*;

use crate::config::{Config, ConfigView};
use crate::matcher::matches_spec;
use crate::pwm::GpioControl;

verus! {

/// The fatal conditions that end a trigger run.
#[derive(Clone, Copy, Debug, PartialEq, Eq, Structural)]
pub enum EngineError {
    GpioOpenError,
    DeviceNotFound,
    CaptureOpenError,
    FilterSyntaxError,
    CaptureReadError,
}

/// Where the engine stands: built, reading packets, firing a burst, or done
/// with its terminal result.
#[derive(Clone, Copy, Debug)]
pub enum Phase {
    Constructed,
    Capturing,
    Triggering,
    Terminated(Result<(), EngineError>),
}

/// What the caller observed since the last action.
#[derive(Debug)]
pub enum Event {
    /// The capture session was opened.
    SessionOpened,
    /// The capture session could not be opened.
    SessionOpenFailed,
    /// The filter was installed on the session.
    FilterInstalled,
    /// The filter expression was rejected.
    FilterRejected,
    /// A packet was read; it carries the payload.
    Packet(Vec<u8>),
    /// A read failed, but the session is still usable.
    ReadFailed,
    /// A read failed and the session can no longer be used.
    SessionLost,
    /// The burst asked for has been written to the pin.
    BurstFinished,
}

/// What the caller does next.
#[derive(Clone, Copy, Debug)]
pub enum Action {
    /// Install the configured filter on the session.
    InstallFilter,
    /// Read the next packet.
    ReadNext,
    /// Write the burst of the GPIO control to the pin.
    Burst,
    /// Close the session, force the pin low and end with this result.
    Shutdown(Result<(), EngineError>),
}

/// The step taken between two packet reads: stop without error when
/// cancellation was asked for, else read on.
pub open spec fn between_reads(cancel: bool) -> (Phase, Action) {
    if cancel {
        (Phase::Terminated(Ok(())), Action::Shutdown(Ok(())))
    } else {
        (Phase::Capturing, Action::ReadNext)
    }
}

/// The terminal step of a fatal error.
pub open spec fn fatal(e: EngineError) -> (Phase, Action) {
    (Phase::Terminated(Err(e)), Action::Shutdown(Err(e)))
}

/// The engine's transition: its next phase and the action it asks for, from
/// the phase it is in, the event observed and the cancellation flag.
pub open spec fn transition(config: ConfigView, phase: Phase, ev: Event, cancel: bool) -> (
    Phase,
    Action,
) {
    match phase {
        Phase::Terminated(res) => (phase, Action::Shutdown(res)),
        _ => match ev {
            Event::SessionOpened => (Phase::Capturing, Action::InstallFilter),
            Event::SessionOpenFailed => fatal(EngineError::CaptureOpenError),
            Event::FilterRejected => fatal(EngineError::FilterSyntaxError),
            Event::SessionLost => fatal(EngineError::CaptureReadError),
            Event::Packet(p) => if matches_spec(p@, config.trig_bytes, config.init_run) {
                (Phase::Triggering, Action::Burst)
            } else {
                between_reads(cancel)
            },
            Event::FilterInstalled | Event::ReadFailed | Event::BurstFinished => between_reads(
                cancel,
            ),
        },
    }
}

/// The engine of one trigger run: its configuration, the burst settings of
/// its pin, and its phase.
pub struct TriggerControl {
    config: Config,
    gpio: GpioControl,
    phase: Phase,
}

impl TriggerControl {
    pub closed spec fn config(&self) -> ConfigView {
        self.config@
    }

    pub closed spec fn gpio(&self) -> GpioControl {
        self.gpio
    }

    pub closed spec fn phase(&self) -> Phase {
        self.phase
    }

    /// Builds the engine for `config`, with the burst settings of its pin.
    pub fn new(config: Config) -> (r: TriggerControl)
        ensures
            r.config() == config@,
            r.phase() is Constructed,
            r.gpio().pin() == config@.gpio_pin,
            r.gpio().frame_cnt() == config@.frame_cnt,
            r.gpio().pwm_delay_ms() == config@.pwm_delay_ms,
    {
        let gpio = GpioControl::new(&config);
        TriggerControl { config, gpio, phase: Phase::Constructed }
    }

    /// Returns the configuration.
    pub fn get_config(&self) -> (r: &Config)
        ensures
            r@ == self.config(),
    {
        &self.config
    }

    /// Returns the burst settings of the pin.
    pub fn get_gpio(&self) -> (r: &GpioControl)
        ensures
            *r == self.gpio(),
    {
        &self.gpio
    }

    /// Returns the current phase.
    pub fn get_phase(&self) -> (r: Phase)
        ensures
            r == self.phase(),
    {
        self.phase
    }

    /// Whether a payload fires the trigger under the configured trigger bytes.
    pub fn check_bytes(&self, data: &[u8]) -> (r: bool)
        ensures
            r == matches_spec(data@, self.config().trig_bytes, self.config().init_run),
    {
        crate::matcher::matches(data, self.config.get_trigger_bytes(), *self.config.get_init_run())
    }

    /// Takes the event the caller observed and the cancellation flag, moves
    /// to the next phase and returns the action to perform.
    pub fn step(&mut self, ev: &Event, cancel: bool) -> (r: Action)
        ensures
            (final(self).phase(), r) == transition(old(self).config(), old(self).phase(), *ev, cancel),
            final(self).config() == old(self).config(),
            final(self).gpio() == old(self).gpio(),
    {
        let next: (Phase, Action) = match self.phase {
            Phase::Terminated(res) => (self.phase, Action::Shutdown(res)),
            _ => match ev {
                Event::SessionOpened => (Phase::Capturing, Action::InstallFilter),
                Event::SessionOpenFailed => TriggerControl::stop(EngineError::CaptureOpenError),
                Event::FilterRejected => TriggerControl::stop(EngineError::FilterSyntaxError),
                Event::SessionLost => TriggerControl::stop(EngineError::CaptureReadError),
                Event::Packet(p) => {
                    if self.check_bytes(p.as_slice()) {
                        (Phase::Triggering, Action::Burst)
                    } else {
                        TriggerControl::next_read(cancel)
                    }
                },
                Event::FilterInstalled | Event::ReadFailed | Event::BurstFinished => {
                    TriggerControl::next_read(cancel)
                },
            },
        };
        self.phase = next.0;
        next.1
    }

    fn next_read(cancel: bool) -> (r: (Phase, Action))
        ensures
            r == between_reads(cancel),
    {
        if cancel {
            (Phase::Terminated(Ok(())), Action::Shutdown(Ok(())))
        } else {
            (Phase::Capturing, Action::ReadNext)
        }
    }

    fn stop(e: EngineError) -> (r: (Phase, Action))
        ensures
            r == fatal(e),
    {
        (Phase::Terminated(Err(e)), Action::Shutdown(Err(e)))
    }
}

/// With cancellation asked for, a live engine never reads again: on every
/// event that falls between two reads it stops, and without error.
pub proof fn lemma_cancel_stops_without_error(config: ConfigView, phase: Phase, ev: Event)
    requires
        !(phase is Terminated),
    ensures
        transition(config, phase, ev, true).1 != Action::ReadNext,
        (ev is FilterInstalled || ev is ReadFailed || ev is BurstFinished || (ev is Packet
            && !matches_spec(ev->Packet_0@, config.trig_bytes, config.init_run))) ==> transition(
            config,
            phase,
            ev,
            true,
        ) == (Phase::Terminated(Ok(())), Action::Shutdown(Ok(()))),
{
}

/// Once terminated, the engine stays terminated and repeats its result.
pub proof fn lemma_terminated_is_final(
    config: ConfigView,
    res: Result<(), EngineError>,
    ev: Event,
    cancel: bool,
)
    ensures
        transition(config, Phase::Terminated(res), ev, cancel) == (
            Phase::Terminated(res),
            Action::Shutdown(res),
        ),
{
}

} // verus!
