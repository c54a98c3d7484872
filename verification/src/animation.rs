//! Animation timing: duration, delay, repetition and the easing curve to use.

use vstd::prelude::*;
use std::time::Duration;

verus! {

/// Length of a `Duration` in nanoseconds.
pub uninterp spec fn duration_nanos(d: Duration) -> nat;

/// The longest `Duration`: `u64::MAX` seconds and 999_999_999 nanoseconds.
pub open spec fn max_duration_nanos() -> nat {
    ((u64::MAX as nat + 1) * 1_000_000_000 - 1) as nat
}

/// `Duration::from_millis(ms)`: exactly `ms` milliseconds.
#[verifier::external_body]
fn duration_from_millis(ms: u64) -> (d: Duration)
    ensures
        duration_nanos(d) == ms * 1_000_000,
{
    Duration::from_millis(ms)
}

/// `Duration::ZERO`: no time at all.
#[verifier::external_body]
fn duration_zero() -> (d: Duration)
    ensures
        duration_nanos(d) == 0,
{
    Duration::ZERO
}

/// `a + b` on durations: the exact sum, which the caller keeps within the
/// largest `Duration` (outside it `+` panics).
#[verifier::external_body]
fn duration_add(a: Duration, b: Duration) -> (d: Duration)
    requires
        duration_nanos(a) + duration_nanos(b) <= max_duration_nanos(),
    ensures
        duration_nanos(d) == duration_nanos(a) + duration_nanos(b),
{
    a + b
}

/// `a >= b` on durations, which compare by length.
#[verifier::external_body]
fn duration_ge(a: Duration, b: Duration) -> (r: bool)
    ensures
        r == (duration_nanos(a) >= duration_nanos(b)),
{
    a >= b
}

/// The easing curves an animation can follow.
#[derive(Debug, Clone, Copy, PartialEq, Eq, Structural)]
pub enum Easing {
    Linear,
    EaseInQuad,
    EaseOutQuad,
    EaseInOutQuad,
    EaseInCubic,
    EaseOutCubic,
    EaseInOutCubic,
    EaseInQuart,
    EaseOutQuart,
    EaseInOutQuart,
    EaseInQuint,
    EaseOutQuint,
    EaseInOutQuint,
    EaseInSine,
    EaseOutSine,
    EaseInOutSine,
    EaseInExpo,
    EaseOutExpo,
    EaseInOutExpo,
    EaseInCirc,
    EaseOutCirc,
    EaseInOutCirc,
    EaseInBack,
    EaseOutBack,
    EaseInOutBack,
    EaseInElastic,
    EaseOutElastic,
    EaseInOutElastic,
    EaseInBounce,
    EaseOutBounce,
    EaseInOutBounce,
}

impl Default for Easing {
    /// Quadratic ease-out, the kit's default curve.
    fn default() -> (e: Easing)
        ensures
            e == Easing::EaseOutQuad,
    {
        Easing::EaseOutQuad
    }
}

/// Timing and easing of an animation.
#[derive(Debug, Clone, Copy, PartialEq)]
pub struct Animation {
    /// How long the animation runs.
    pub duration: Duration,
    /// The easing curve.
    pub easing: Easing,
    /// How long to wait before starting.
    pub delay: Duration,
    /// Number of extra runs (0 = play once).
    pub repeat: u32,
    /// Whether every other run plays backwards.
    pub alternate: bool,
}

/// The animation's end, counted from the moment it was started: delay plus duration.
pub open spec fn total_nanos(a: Animation) -> nat {
    duration_nanos(a.delay) + duration_nanos(a.duration)
}

/// Whether an animation has finished once `elapsed` has passed.
pub open spec fn completes_by(a: Animation, elapsed: Duration) -> bool {
    duration_nanos(elapsed) >= total_nanos(a)
}

/// The animation with default settings: 200 ms, quadratic ease-out, no delay,
/// played once, not alternating.
pub open spec fn is_default_animation(a: Animation) -> bool {
    &&& duration_nanos(a.duration) == 200_000_000
    &&& a.easing == Easing::EaseOutQuad
    &&& duration_nanos(a.delay) == 0
    &&& a.repeat == 0
    &&& !a.alternate
}

/// A preset: the defaults, with the given duration in milliseconds and easing.
pub open spec fn is_preset(a: Animation, ms: nat, e: Easing) -> bool {
    &&& duration_nanos(a.duration) == ms * 1_000_000
    &&& a.easing == e
    &&& duration_nanos(a.delay) == 0
    &&& a.repeat == 0
    &&& !a.alternate
}

impl Default for Animation {
    /// 200 ms, quadratic ease-out, no delay, played once.
    fn default() -> (a: Animation)
        ensures
            is_default_animation(a),
    {
        Animation {
            duration: duration_from_millis(200),
            easing: Easing::EaseOutQuad,
            delay: duration_zero(),
            repeat: 0,
            alternate: false,
        }
    }
}

impl Animation {
    /// An animation with the default settings.
    pub fn new() -> (a: Animation)
        ensures
            is_default_animation(a),
    {
        Animation::default()
    }

    /// Sets the duration in milliseconds.
    pub fn duration_ms(self, ms: u64) -> (a: Animation)
        ensures
            duration_nanos(a.duration) == ms * 1_000_000,
            a.easing == self.easing,
            a.delay == self.delay,
            a.repeat == self.repeat,
            a.alternate == self.alternate,
    {
        let mut a = self;
        a.duration = duration_from_millis(ms);
        a
    }

    /// Sets the duration.
    pub fn duration(self, duration: Duration) -> (a: Animation)
        ensures
            a == (Animation { duration, ..self }),
    {
        let mut a = self;
        a.duration = duration;
        a
    }

    /// Sets the easing curve.
    pub fn easing(self, easing: Easing) -> (a: Animation)
        ensures
            a == (Animation { easing, ..self }),
    {
        let mut a = self;
        a.easing = easing;
        a
    }

    /// Sets the delay in milliseconds.
    pub fn delay_ms(self, ms: u64) -> (a: Animation)
        ensures
            duration_nanos(a.delay) == ms * 1_000_000,
            a.duration == self.duration,
            a.easing == self.easing,
            a.repeat == self.repeat,
            a.alternate == self.alternate,
    {
        let mut a = self;
        a.delay = duration_from_millis(ms);
        a
    }

    /// Sets the delay.
    pub fn delay(self, delay: Duration) -> (a: Animation)
        ensures
            a == (Animation { delay, ..self }),
    {
        let mut a = self;
        a.delay = delay;
        a
    }

    /// Sets the number of extra runs.
    pub fn repeat(self, count: u32) -> (a: Animation)
        ensures
            a == (Animation { repeat: count, ..self }),
    {
        let mut a = self;
        a.repeat = count;
        a
    }

    /// Sets whether runs alternate direction.
    pub fn alternate(self, alternate: bool) -> (a: Animation)
        ensures
            a == (Animation { alternate, ..self }),
    {
        let mut a = self;
        a.alternate = alternate;
        a
    }

    /// 150 ms, quadratic ease-out.
    pub fn quick() -> (a: Animation)
        ensures
            is_preset(a, 150, Easing::EaseOutQuad),
    {
        Animation::new().duration_ms(150).easing(Easing::EaseOutQuad)
    }

    /// 250 ms, cubic ease-out.
    pub fn standard() -> (a: Animation)
        ensures
            is_preset(a, 250, Easing::EaseOutCubic),
    {
        Animation::new().duration_ms(250).easing(Easing::EaseOutCubic)
    }

    /// 400 ms, cubic ease-in-out.
    pub fn slow() -> (a: Animation)
        ensures
            is_preset(a, 400, Easing::EaseInOutCubic),
    {
        Animation::new().duration_ms(400).easing(Easing::EaseInOutCubic)
    }

    /// 300 ms, back ease-out (overshoots).
    pub fn emphasis() -> (a: Animation)
        ensures
            is_preset(a, 300, Easing::EaseOutBack),
    {
        Animation::new().duration_ms(300).easing(Easing::EaseOutBack)
    }

    /// 500 ms, bounce ease-out.
    pub fn bouncy() -> (a: Animation)
        ensures
            is_preset(a, 500, Easing::EaseOutBounce),
    {
        Animation::new().duration_ms(500).easing(Easing::EaseOutBounce)
    }

    /// Whether the animation is over after `elapsed`: at or past delay plus duration.
    pub fn is_complete(&self, elapsed: Duration) -> (done: bool)
        requires
            total_nanos(*self) <= max_duration_nanos(),
        ensures
            done == completes_by(*self, elapsed),
    {
        duration_ge(elapsed, duration_add(self.delay, self.duration))
    }

    /// Delay plus duration.
    pub fn total_duration(&self) -> (d: Duration)
        requires
            total_nanos(*self) <= max_duration_nanos(),
        ensures
            duration_nanos(d) == total_nanos(*self),
    {
        duration_add(self.delay, self.duration)
    }
}

/// Law: once an animation is complete it stays complete as time goes on.
pub proof fn lemma_complete_stays_complete(a: Animation, e1: Duration, e2: Duration)
    requires
        completes_by(a, e1),
        duration_nanos(e1) <= duration_nanos(e2),
    ensures
        completes_by(a, e2),
{
}

/// Law: an animation without delay or duration is complete from the start.
pub proof fn lemma_instant_animation_complete(a: Animation, e: Duration)
    requires
        total_nanos(a) == 0,
    ensures
        completes_by(a, e),
{
}

} // verus!
