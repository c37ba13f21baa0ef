//! Animations: easing curves, tweens and a timeline.
//!
//! Time is measured in milliseconds; curve positions are measured in
//! thousandths of the way from start to end, so every curve is exact
//! integer arithmetic.

use vstd::prelude::*;

verus! {

/// An easing curve over positions in thousandths.
#[derive(Debug, Clone, Copy, PartialEq, Eq, Structural)]
pub enum EasingFunction {
    Linear,
    EaseInQuad,
    EaseOutQuad,
    EaseInOutQuad,
    EaseInCubic,
    EaseOutCubic,
    EaseInOutCubic,
}

/// The value of a curve at `t` thousandths, `t` already clamped to 1000.
pub open spec fn spec_ease(e: EasingFunction, t: int) -> int {
    match e {
        EasingFunction::Linear => t,
        EasingFunction::EaseInQuad => t * t / 1000,
        EasingFunction::EaseOutQuad => t * (2000 - t) / 1000,
        EasingFunction::EaseInOutQuad => if t < 500 {
            2 * t * t / 1000
        } else {
            (4000 - 2 * t) * t / 1000 - 1000
        },
        EasingFunction::EaseInCubic => t * t * t / 1000000,
        EasingFunction::EaseOutCubic => 1000 - (1000 - t) * (1000 - t) * (1000 - t) / 1000000,
        EasingFunction::EaseInOutCubic => if t < 500 {
            4 * t * t * t / 1000000
        } else {
            1000 - (2000 - 2 * t) * (2000 - 2 * t) * (2000 - 2 * t) / 2000000
        },
    }
}

impl EasingFunction {
    /// Apply the curve to a position in thousandths; positions above 1000
    /// are clamped.
    pub fn apply(&self, t: u16) -> (r: u16)
        ensures
            r == spec_ease(*self, if t > 1000 {
                1000int
            } else {
                t as int
            }),
            r <= 1000,
    {
        let tc: u64 = if t > 1000 {
            1000
        } else {
            t as u64
        };
        let ghost ti = tc as int;
        match self {
            EasingFunction::Linear => tc as u16,
            EasingFunction::EaseInQuad => {
                proof {
                    assert(ti * ti / 1000 <= 1000 && ti * ti >= 0) by (nonlinear_arith)
                        requires
                            0 <= ti <= 1000,
                    ;
                }
                ((tc * tc) / 1000) as u16
            },
            EasingFunction::EaseOutQuad => {
                proof {
                    assert(0 <= ti * (2000 - ti) / 1000 <= 1000 && ti * (2000 - ti) >= 0
                        && ti * (2000 - ti) <= 2000000) by (nonlinear_arith)
                        requires
                            0 <= ti <= 1000,
                    ;
                }
                ((tc * (2000 - tc)) / 1000) as u16
            },
            EasingFunction::EaseInOutQuad => {
                if tc < 500 {
                    proof {
                        assert(0 <= 2 * ti * ti / 1000 <= 1000 && 2 * ti * ti >= 0)
                            by (nonlinear_arith)
                            requires
                                0 <= ti < 500,
                        ;
                        assert(2 * ti * ti == 2 * (ti * ti)) by (nonlinear_arith);
                    }
                    ((2 * tc * tc) / 1000) as u16
                } else {
                    proof {
                        assert(1000 <= (4000 - 2 * ti) * ti / 1000 <= 2000 && (4000 - 2 * ti)
                            * ti >= 0 && (4000 - 2 * ti) * ti <= 4000000) by (nonlinear_arith)
                            requires
                                500 <= ti <= 1000,
                        ;
                    }
                    (((4000 - 2 * tc) * tc) / 1000 - 1000) as u16
                }
            },
            EasingFunction::EaseInCubic => {
                proof {
                    assert(0 <= ti * ti * ti / 1000000 <= 1000 && ti * ti * ti >= 0 && ti * ti
                        * ti <= 1000000000 && ti * ti <= 1000000) by (nonlinear_arith)
                        requires
                            0 <= ti <= 1000,
                    ;
                }
                ((tc * tc * tc) / 1000000) as u16
            },
            EasingFunction::EaseOutCubic => {
                let u = 1000 - tc;
                proof {
                    let ui = 1000 - ti;
                    assert(0 <= ui * ui * ui / 1000000 <= 1000 && ui * ui * ui >= 0 && ui * ui
                        * ui <= 1000000000 && ui * ui <= 1000000) by (nonlinear_arith)
                        requires
                            0 <= ui <= 1000,
                    ;
                }
                (1000 - (u * u * u) / 1000000) as u16
            },
            EasingFunction::EaseInOutCubic => {
                if tc < 500 {
                    proof {
                        assert(0 <= 4 * ti * ti * ti / 1000000 <= 1000 && 4 * ti * ti * ti >= 0
                            && 4 * ti * ti * ti <= 4000000000 && 4 * ti <= 2000 && 4 * ti * ti
                            <= 1000000) by (nonlinear_arith)
                            requires
                                0 <= ti < 500,
                        ;
                        assert(4 * ti * ti * ti == 4 * (ti * ti * ti)) by (nonlinear_arith);
                    }
                    ((4 * tc * tc * tc) / 1000000) as u16
                } else {
                    let v = 2000 - 2 * tc;
                    proof {
                        let vi = 2000 - 2 * ti;
                        assert(0 <= vi * vi * vi / 2000000 <= 1000 && vi * vi * vi >= 0 && vi
                            * vi * vi <= 1000000000 && vi * vi <= 1000000) by (nonlinear_arith)
                            requires
                                0 <= vi <= 1000,
                        ;
                    }
                    (1000 - (v * v * v) / 2000000) as u16
                }
            },
        }
    }
}

/// A value that can be interpolated; `t` is in thousandths, clamped.
pub trait Animatable: Sized {
    /// The value `t` thousandths of the way from `self` to `other`.
    fn lerp(&self, other: &Self, t: u16) -> Self;
}

impl Animatable for i32 {
    fn lerp(&self, other: &i32, t: u16) -> i32 {
        let tc: i64 = if t > 1000 {
            1000
        } else {
            t as i64
        };
        let a = *self as i64;
        let b = *other as i64;
        let v: i64;
        if b >= a {
            proof {
                assert((b - a) * tc <= (b - a) * 1000 && (b - a) * tc >= 0)
                    by (nonlinear_arith)
                    requires
                        b - a >= 0,
                        0 <= tc <= 1000,
                ;
                assert((b - a) * 1000 <= 4294967295000i64 as int) by (nonlinear_arith)
                    requires
                        b - a <= 4294967295i64 as int,
                ;
                assert(0 <= (b - a) * tc / 1000 <= b - a) by (nonlinear_arith)
                    requires
                        (b - a) * tc >= 0,
                        (b - a) * tc <= (b - a) * 1000,
                        b - a >= 0,
                ;
            }
            v = a + (b - a) * tc / 1000;
        } else {
            proof {
                assert((a - b) * tc <= (a - b) * 1000 && (a - b) * tc >= 0)
                    by (nonlinear_arith)
                    requires
                        a - b >= 0,
                        0 <= tc <= 1000,
                ;
                assert((a - b) * 1000 <= 4294967295000i64 as int) by (nonlinear_arith)
                    requires
                        a - b <= 4294967295i64 as int,
                ;
                assert(0 <= (a - b) * tc / 1000 <= a - b) by (nonlinear_arith)
                    requires
                        (a - b) * tc >= 0,
                        (a - b) * tc <= (a - b) * 1000,
                        a - b >= 0,
                ;
            }
            v = a - (a - b) * tc / 1000;
        }
        v as i32
    }
}

impl Animatable for u16 {
    fn lerp(&self, other: &u16, t: u16) -> u16 {
        let tc: u32 = if t > 1000 {
            1000
        } else {
            t as u32
        };
        let a = *self as u32;
        let b = *other as u32;
        if b >= a {
            proof {
                assert((b as int - a) * tc <= 65535 * 1000 && (b as int - a) * tc / 1000 <= b
                    - a) by (nonlinear_arith)
                    requires
                        0 <= b as int - a as int <= 65535,
                        0 <= tc as int <= 1000,
                ;
            }
            (a + (b - a) * tc / 1000) as u16
        } else {
            proof {
                assert((a as int - b) * tc <= 65535 * 1000 && (a as int - b) * tc / 1000 <= a
                    - b) by (nonlinear_arith)
                    requires
                        0 <= a as int - b as int <= 65535,
                        0 <= tc as int <= 1000,
                ;
            }
            (a - (a - b) * tc / 1000) as u16
        }
    }
}

/// A running interpolation from one value to another over a duration.
pub struct Tween<T> {
    pub start: T,
    pub end: T,
    pub duration_ms: u64,
    pub elapsed_ms: u64,
    pub easing: EasingFunction,
}

impl<T: Animatable + Clone> Tween<T> {
    pub fn new(start: T, end: T, duration_ms: u64) -> (r: Tween<T>)
        ensures
            r.duration_ms == duration_ms,
            r.elapsed_ms == 0,
            r.easing == EasingFunction::Linear,
    {
        Tween { start, end, duration_ms, elapsed_ms: 0, easing: EasingFunction::Linear }
    }

    /// This tween with the given curve.
    pub fn easing(self, easing: EasingFunction) -> (r: Tween<T>)
        ensures
            r.easing == easing,
            r.duration_ms == self.duration_ms,
            r.elapsed_ms == self.elapsed_ms,
    {
        Tween { easing, ..self }
    }

    /// Advance the clock; the elapsed time never passes the duration.
    pub fn update(&mut self, delta_ms: u64)
        ensures
            final(self).elapsed_ms == if old(self).elapsed_ms + delta_ms
                <= old(self).duration_ms {
                old(self).elapsed_ms + delta_ms
            } else {
                old(self).duration_ms as int
            },
            final(self).duration_ms == old(self).duration_ms,
            final(self).start == old(self).start,
            final(self).end == old(self).end,
            final(self).easing == old(self).easing,
    {
        if delta_ms <= self.duration_ms && self.elapsed_ms <= self.duration_ms - delta_ms {
            self.elapsed_ms = self.elapsed_ms + delta_ms;
        } else {
            self.elapsed_ms = self.duration_ms;
        }
    }

    /// The current value: the eased fraction of the way from start to end.
    pub fn value(&self) -> (r: T) {
        let t: u16 = if self.duration_ms == 0 {
            1000
        } else {
            let e = if self.elapsed_ms <= self.duration_ms {
                self.elapsed_ms
            } else {
                self.duration_ms
            };
            proof {
                assert((e as int) * 1000 / (self.duration_ms as int) <= 1000)
                    by (nonlinear_arith)
                    requires
                        0 <= e as int <= self.duration_ms as int,
                        self.duration_ms as int > 0,
                ;
            }
            let frac = ((e as u128) * 1000) / (self.duration_ms as u128);
            frac as u16
        };
        let eased = self.easing.apply(t);
        self.start.lerp(&self.end, eased)
    }

    /// Whether the clock has reached the duration.
    pub fn is_complete(&self) -> (r: bool)
        ensures
            r == (self.elapsed_ms >= self.duration_ms),
    {
        self.elapsed_ms >= self.duration_ms
    }
}

/// Anything the timeline can step.
pub trait Animation {
    /// Advance by `delta_ms` milliseconds.
    fn update(&mut self, delta_ms: u64);

    /// Whether the animation has finished.
    fn is_complete(&self) -> bool;
}

impl<T: Animatable + Clone> Animation for Tween<T> {
    fn update(&mut self, delta_ms: u64) {
        Tween::update(self, delta_ms);
    }

    fn is_complete(&self) -> bool {
        Tween::is_complete(self)
    }
}

/// A set of running animations, stepped together each frame; finished
/// animations are dropped.
pub struct Timeline {
    pub animations: Vec<Box<dyn Animation>>,
}

impl Timeline {
    pub fn new() -> (r: Timeline)
        ensures
            r.animations@.len() == 0,
    {
        Timeline { animations: Vec::new() }
    }

    /// Add an animation.
    pub fn add<A: Animation + 'static>(&mut self, animation: A)
        ensures
            final(self).animations@.len() == old(self).animations@.len() + 1,
    {
        let b: Box<dyn Animation> = Box::new(animation);
        push_animation(&mut self.animations, b);
    }

    /// Step every animation and drop the ones that report completion.
    #[verifier::loop_isolation(false)]
    pub fn update(&mut self, delta_ms: u64)
        ensures
            final(self).animations@.len() <= old(self).animations@.len(),
    {
        let ghost n = self.animations@.len();
        let mut kept: Vec<Box<dyn Animation>> = Vec::new();
        while self.animations.len() > 0
            invariant
                kept@.len() + self.animations@.len() <= n,
            decreases self.animations@.len(),
        {
            let mut a = self.animations.remove(0);
            a.update(delta_ms);
            if !a.is_complete() {
                push_animation(&mut kept, a);
            }
        }
        self.animations = kept;
    }

    /// The number of running animations.
    pub fn count(&self) -> (r: usize)
        ensures
            r == self.animations@.len(),
    {
        self.animations.len()
    }

    /// Drop every animation.
    pub fn clear(&mut self)
        ensures
            final(self).animations@.len() == 0,
    {
        self.animations = Vec::new();
    }

    /// Whether no animation is running.
    pub fn is_complete(&self) -> (r: bool)
        ensures
            r == (self.animations@.len() == 0),
    {
        self.animations.len() == 0
    }
}

/// Relies on `Vec::push`: appends the element at the end.  The standard
/// push specification does not instantiate at an element type that holds a
/// trait object, so the length facts are restated here.
#[verifier::external_body]
fn push_animation(v: &mut Vec<Box<dyn Animation>>, a: Box<dyn Animation>)
    ensures
        final(v)@.len() == old(v)@.len() + 1,
        forall|k: int| 0 <= k < old(v)@.len() ==> final(v)@[k] == old(v)@[k],
{
    v.push(a);
}

impl Default for Timeline {
    fn default() -> (r: Timeline)
        ensures
            r.animations@.len() == 0,
    {
        Timeline::new()
    }
}

} // verus!
