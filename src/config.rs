use vstd::prelude::*;

use crate::trigger::EngineError;

verus! {

/// One positional byte check: `pos >= 0` counts from the start of the
/// payload, `pos < 0` from its end (`-1` is the last byte).
#[derive(Clone, Copy, Debug, PartialEq, Eq, Structural)]
pub struct TrigByte {
    pub pos: i32,
    pub value: u8,
}

impl TrigByte {
    pub fn new(pos: i32, value: u8) -> (r: TrigByte)
        ensures
            r.pos == pos,
            r.value == value,
    {
        TrigByte { pos, value }
    }

    /// Returns the position of the trigger byte.
    pub fn get_pos(&self) -> (r: &i32)
        ensures
            *r == self.pos,
    {
        &self.pos
    }

    /// Returns the value of the trigger byte.
    pub fn get_val(&self) -> (r: &u8)
        ensures
            *r == self.value,
    {
        &self.value
    }
}

/// The immutable settings of one trigger run.
#[derive(Debug)]
pub struct Config {
    init_run: bool,
    interface: String,
    filter: String,
    pwm_delay_ms: u64,
    frame_cnt: u16,
    gpio_pin: u16,
    trig_bytes: Option<Vec<TrigByte>>,
}

/// What a `Config` holds, as mathematical values.
pub struct ConfigView {
    pub init_run: bool,
    pub interface: Seq<char>,
    pub filter: Seq<char>,
    pub pwm_delay_ms: u64,
    pub frame_cnt: u16,
    pub gpio_pin: u16,
    pub trig_bytes: Option<Seq<TrigByte>>,
}

pub open spec fn trig_view(t: Option<Vec<TrigByte>>) -> Option<Seq<TrigByte>> {
    match t {
        Some(v) => Some(v@),
        None => None,
    }
}

impl View for Config {
    type V = ConfigView;

    closed spec fn view(&self) -> ConfigView {
        ConfigView {
            init_run: self.init_run,
            interface: self.interface@,
            filter: self.filter@,
            pwm_delay_ms: self.pwm_delay_ms,
            frame_cnt: self.frame_cnt,
            gpio_pin: self.gpio_pin,
            trig_bytes: trig_view(self.trig_bytes),
        }
    }
}

/// Name of the `Duration` that `Duration::from_millis` builds from a count
/// of milliseconds.
pub uninterp spec fn millis_duration(ms: u64) -> core::time::Duration;

/// Relies on `core::time::Duration::from_millis`: the result depends on the
/// millisecond count alone, and the call never panics.
pub assume_specification[ core::time::Duration::from_millis ](millis: u64) -> (r:
    core::time::Duration)
    ensures
        r == millis_duration(millis),
;

/// Where the capture session is opened: the device named in the
/// configuration (by its index in the device list), or the platform default.
#[derive(Clone, Copy, Debug, PartialEq, Eq, Structural)]
pub enum DeviceChoice {
    Named(usize),
    Default,
}

/// Index of the first name in `names` equal to `interface`, if any.
pub open spec fn first_named(names: Seq<Seq<char>>, interface: Seq<char>, i: int) -> bool {
    0 <= i < names.len() && names[i] == interface && forall|j: int|
        0 <= j < i ==> names[j] != interface
}

impl Config {
    pub fn new(
        init_run: bool,
        interface: String,
        filter: String,
        pwm_delay_ms: u64,
        frame_cnt: u16,
        gpio_pin: u16,
        trig_bytes: Option<Vec<TrigByte>>,
    ) -> (r: Config)
        ensures
            r@.init_run == init_run,
            r@.interface == interface@,
            r@.filter == filter@,
            r@.pwm_delay_ms == pwm_delay_ms,
            r@.frame_cnt == frame_cnt,
            r@.gpio_pin == gpio_pin,
            r@.trig_bytes == trig_view(trig_bytes),
    {
        Config { init_run, interface, filter, pwm_delay_ms, frame_cnt, gpio_pin, trig_bytes }
    }

    /// Chooses the capture device: the first of `names` equal to the
    /// configured interface; else the platform default, where there is one;
    /// else no device can be had.
    pub fn get_device(&self, names: &Vec<String>, has_default: bool) -> (r: Result<
        DeviceChoice,
        EngineError,
    >)
        ensures
            match r {
                Ok(DeviceChoice::Named(i)) => first_named(
                    names@.map_values(|s: String| s@),
                    self@.interface,
                    i as int,
                ),
                Ok(DeviceChoice::Default) => has_default && forall|j: int|
                    0 <= j < names@.len() ==> names@[j]@ != self@.interface,
                Err(e) => e == EngineError::DeviceNotFound && !has_default && forall|j: int|
                    0 <= j < names@.len() ==> names@[j]@ != self@.interface,
            },
    {
        let mut i: usize = 0;
        while i < names.len()
            invariant
                0 <= i <= names@.len(),
                forall|j: int| 0 <= j < i ==> names@[j]@ != self.interface@,
            decreases names@.len() - i,
        {
            if names[i] == self.interface {
                return Ok(DeviceChoice::Named(i));
            }
            i += 1;
        }
        if has_default {
            Ok(DeviceChoice::Default)
        } else {
            Err(EngineError::DeviceNotFound)
        }
    }

    /// Returns the filter expression.
    pub fn get_filter(&self) -> (r: &str)
        ensures
            r@ == self@.filter,
    {
        self.filter.as_str()
    }

    /// Returns the number of toggles per burst.
    pub fn get_frame_count(&self) -> (r: &u16)
        ensures
            *r == self@.frame_cnt,
    {
        &self.frame_cnt
    }

    /// Returns the delay between toggles.
    pub fn get_delay(&self) -> (r: core::time::Duration)
        ensures
            r == millis_duration(self@.pwm_delay_ms),
    {
        core::time::Duration::from_millis(self.pwm_delay_ms)
    }

    /// Returns the delay between toggles in milliseconds.
    pub fn get_delay_ms(&self) -> (r: u64)
        ensures
            r == self@.pwm_delay_ms,
    {
        self.pwm_delay_ms
    }

    /// Returns the GPIO pin number.
    pub fn get_gpio_pin(&self) -> (r: &u16)
        ensures
            *r == self@.gpio_pin,
    {
        &self.gpio_pin
    }

    /// Returns the name of the capture interface.
    pub fn get_interface(&self) -> (r: &str)
        ensures
            r@ == self@.interface,
    {
        self.interface.as_str()
    }

    /// Returns the trigger bytes.
    pub fn get_trigger_bytes(&self) -> (r: &Option<Vec<TrigByte>>)
        ensures
            trig_view(*r) == self@.trig_bytes,
    {
        &self.trig_bytes
    }

    /// Returns the match outcome used when no trigger bytes are configured.
    pub fn get_init_run(&self) -> (r: &bool)
        ensures
            *r == self@.init_run,
    {
        &self.init_run
    }
}

impl Default for Config {
    /// Capture on `eth0` with no filter, one toggle of pin 1 every 100 ms,
    /// fired on every packet.
    fn default() -> (r: Config)
        ensures
            r@.init_run,
            r@.interface == "eth0"@,
            r@.filter == ""@,
            r@.pwm_delay_ms == 100,
            r@.frame_cnt == 1,
            r@.gpio_pin == 1,
            r@.trig_bytes == Some(Seq::<TrigByte>::empty()),
    {
        let t: Vec<TrigByte> = Vec::new();
        proof {
            assert(t@ =~= Seq::<TrigByte>::empty());
        }
        Config {
            init_run: true,
            interface: "eth0".to_owned(),
            filter: "".to_owned(),
            pwm_delay_ms: 100,
            frame_cnt: 1,
            gpio_pin: 1,
            trig_bytes: Some(t),
        }
    }
}

} // verus!
