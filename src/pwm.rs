use vstd::prelude::*;

use crate::config::Config;

verus! {

/// One pin write of a burst, and whether the pin then rests for the
/// configured delay before the next write.
#[derive(Clone, Copy, Debug, PartialEq, Eq, Structural)]
pub struct PinWrite {
    pub value: bool,
    pub delay_after: bool,
}

/// The writes of a burst of `k` toggles: `false, true, false, ...` for `k`
/// writes, each followed by the delay, then one forced `false` with no delay.
pub open spec fn burst_writes(k: nat) -> Seq<PinWrite> {
    Seq::new(
        k + 1,
        |i: int|
            if i < k {
                PinWrite { value: i % 2 == 1, delay_after: true }
            } else {
                PinWrite { value: false, delay_after: false }
            },
    )
}

/// The number of writes of `w` that are followed by the delay.
pub open spec fn periodic_count(w: Seq<PinWrite>) -> nat {
    w.filter(|p: PinWrite| p.delay_after).len()
}

/// The burst settings of one GPIO output pin.
#[derive(Clone, Copy, Debug)]
pub struct GpioControl {
    pin: u16,
    frame_cnt: u16,
    pwm_delay_ms: u64,
}

impl GpioControl {
    pub closed spec fn pin(&self) -> u16 {
        self.pin
    }

    pub closed spec fn frame_cnt(&self) -> u16 {
        self.frame_cnt
    }

    pub closed spec fn pwm_delay_ms(&self) -> u64 {
        self.pwm_delay_ms
    }

    /// Takes the pin number, the toggle count and the delay from `config`.
    pub fn new(config: &Config) -> (r: GpioControl)
        ensures
            r.pin() == config@.gpio_pin,
            r.frame_cnt() == config@.frame_cnt,
            r.pwm_delay_ms() == config@.pwm_delay_ms,
    {
        GpioControl {
            pin: *config.get_gpio_pin(),
            frame_cnt: *config.get_frame_count(),
            pwm_delay_ms: config.get_delay_ms(),
        }
    }

    /// Returns the pin number.
    pub fn get_pin(&self) -> (r: u16)
        ensures
            r == self.pin(),
    {
        self.pin
    }

    /// Returns the delay between toggles in milliseconds.
    pub fn get_delay_ms(&self) -> (r: u64)
        ensures
            r == self.pwm_delay_ms(),
    {
        self.pwm_delay_ms
    }

    /// The value the pin takes after `value`.
    pub fn toggle_value(value: bool) -> (r: bool)
        ensures
            r == !value,
    {
        !value
    }

    /// The writes of one burst, in order: the configured number of toggles,
    /// starting at `false`, each followed by the delay, then a forced `false`.
    pub fn burst_plan(&self) -> (r: Vec<PinWrite>)
        ensures
            r@ == burst_writes(self.frame_cnt() as nat),
    {
        let mut plan: Vec<PinWrite> = Vec::new();
        let mut value = false;
        let mut i: u16 = 0;
        while i < self.frame_cnt
            invariant
                i <= self.frame_cnt,
                plan@.len() == i,
                value == (i % 2 == 1),
                forall|j: int|
                    0 <= j < i ==> #[trigger] plan@[j] == burst_writes(
                        self.frame_cnt as nat,
                    )[j],
            decreases self.frame_cnt - i,
        {
            plan.push(PinWrite { value, delay_after: true });
            value = GpioControl::toggle_value(value);
            i += 1;
        }
        plan.push(PinWrite { value: false, delay_after: false });
        assert(plan@ =~= burst_writes(self.frame_cnt as nat));
        plan
    }
}

/// A burst of no toggles makes no periodic write and leaves the pin `false`.
pub proof fn lemma_empty_burst()
    ensures
        periodic_count(burst_writes(0)) == 0,
        burst_writes(0).len() == 1,
        burst_writes(0).last().value == false,
{
    lemma_periodic_prefix(0, 0);
}

/// A burst of `k` toggles makes exactly `k` periodic writes, alternating from
/// `false`, each followed by the delay, and leaves the pin `false` whatever
/// the parity of `k`.
pub proof fn lemma_burst_alternates(k: nat)
    ensures
        periodic_count(burst_writes(k)) == k,
        forall|i: int|
            0 <= i < k ==> (#[trigger] burst_writes(k)[i]).value == (i % 2 == 1)
                && burst_writes(k)[i].delay_after,
        burst_writes(k).last().value == false,
        !burst_writes(k).last().delay_after,
{
    lemma_periodic_prefix(k, k);
}

proof fn lemma_periodic_prefix(k: nat, n: nat)
    requires
        n <= k,
    ensures
        burst_writes(k).subrange(0, n as int).filter(|p: PinWrite| p.delay_after).len() == n,
        n == k ==> periodic_count(burst_writes(k)) == k,
    decreases n,
{
    let w = burst_writes(k);
    reveal(Seq::filter);
    if n > 0 {
        lemma_periodic_prefix(k, (n - 1) as nat);
        assert(w.subrange(0, n as int).drop_last() =~= w.subrange(0, n - 1));
    } else {
        assert(w.subrange(0, 0) =~= Seq::<PinWrite>::empty());
    }
    if n == k {
        assert(w.drop_last() =~= w.subrange(0, k as int));
    }
}

} // verus!
