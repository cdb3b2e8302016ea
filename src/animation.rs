use vstd::prelude::*;

verus! {

/// A value that moves toward a target by a fixed rate per unit of elapsed time.
#[derive(Debug, Clone)]
pub enum Animated<T> {
    /// `Animating(value, target, rate)`: still on its way.
    Animating(T, T, T),
    /// `Done(value)`: settled, no longer changes with time.
    Done(T),
}

impl<T> Animated<T> {
    /// The value that the animation currently reports.
    pub open spec fn current(self) -> T {
        match self {
            Animated::Animating(value, _, _) => value,
            Animated::Done(value) => value,
        }
    }

    /// A settled animation that holds `target`.
    pub fn done_to(target: T) -> (r: Self)
        ensures
            r == Animated::Done(target),
    {
        Animated::Done(target)
    }
}

impl<T: Copy> Animated<T> {
    /// Starts a new transition toward `target` at `rate`, from the value that
    /// is reported now, whether the animation was still running or had settled.
    pub fn animate_to(&self, target: T, rate: T) -> (r: Self)
        ensures
            r == Animated::Animating(self.current(), target, rate),
    {
        match self {
            Animated::Animating(value, _, _) => Animated::Animating(*value, target, rate),
            Animated::Done(value) => Animated::Animating(*value, target, rate),
        }
    }

    /// The value that the animation currently reports.
    pub fn value(&self) -> (r: T)
        ensures
            r == self.current(),
    {
        match self {
            Animated::Animating(value, _, _) => *value,
            Animated::Done(value) => *value,
        }
    }
}

/// Whether `value` has reached or passed `target`, seen along the direction of `rate`.
pub open spec fn reached(value: int, target: int, rate: int) -> bool {
    (rate > 0 && value >= target) || (rate < 0 && value <= target)
}

/// Whether moving from `value` by a nonzero `rate` leads toward `target`
/// (or `value` already stands on it).
pub open spec fn heads_toward(value: int, target: int, rate: int) -> bool {
    (rate > 0 && value <= target) || (rate < 0 && value >= target)
}

pub open spec fn abs(x: int) -> int {
    if x < 0 {
        -x
    } else {
        x
    }
}

impl Animated<i32> {
    /// The state after a frame of `steps` whole time units.
    ///
    /// The value moves by `rate * steps`. Where that move reaches or passes the
    /// target, the animation settles on the value it held before the move: it
    /// does not snap to the target. A rate of zero never gets anywhere and
    /// settles at once.
    pub open spec fn advanced(self, steps: u32) -> Animated<i32> {
        match self {
            Animated::Animating(value, target, rate) => {
                let next = value + rate * steps;
                if rate == 0 || reached(next, target as int, rate as int) {
                    Animated::Done(value)
                } else {
                    Animated::Animating(next as i32, target, rate)
                }
            },
            Animated::Done(value) => Animated::Done(value),
        }
    }

    /// The state after a run of frames, each of the given number of time units.
    pub open spec fn run(self, frames: Seq<u32>) -> Animated<i32>
        decreases frames.len(),
    {
        if frames.len() == 0 {
            self
        } else {
            self.advanced(frames[0]).run(frames.drop_first())
        }
    }

    /// Advances the animation by one frame of `steps` whole time units and
    /// returns the value it then reports.
    pub fn ensure_frame(&mut self, steps: u32) -> (r: &i32)
        ensures
            *final(self) == old(self).advanced(steps),
            *r == final(self).current(),
    {
        if let Animated::Animating(value, target, rate) = *self {
            assert(-0x8000_0000 * 0xffff_ffff <= rate * steps <= 0x7fff_ffff * 0xffff_ffff
                && (rate > 0 ==> rate * steps >= 0) && (rate < 0 ==> rate * steps <= 0))
                by (nonlinear_arith)
                requires
                    -0x8000_0000 <= rate <= 0x7fff_ffff,
                    0 <= steps <= 0xffff_ffff,
            ;
            let moved: i64 = (rate as i64) * (steps as i64);
            let next: i64 = value as i64 + moved;
            let settled = (rate > 0 && next >= target as i64) || (rate < 0 && next <= target as i64);
            if rate == 0 || settled {
                *self = Animated::Done(value);
            } else {
                assert(i32::MIN <= next <= i32::MAX);
                *self = Animated::Animating(next as i32, target, rate);
            }
        }
        match self {
            Animated::Animating(value, _, _) => value,
            Animated::Done(value) => value,
        }
    }
}

/// A settled animation stays where it is, however many frames follow.
pub proof fn lemma_done_stays(value: i32, frames: Seq<u32>)
    ensures
        Animated::Done(value).run(frames) == Animated::<i32>::Done(value),
    decreases frames.len(),
{
    if frames.len() > 0 {
        lemma_done_stays(value, frames.drop_first());
    }
}

/// An animation whose rate heads toward its target keeps heading toward it
/// for as long as it runs: a frame either settles it or leaves it short of
/// the target.
pub proof fn lemma_heading_kept(value: i32, target: i32, rate: i32, steps: u32)
    requires
        heads_toward(value as int, target as int, rate as int),
    ensures
        match Animated::Animating(value, target, rate).advanced(steps) {
            Animated::Animating(next, t, r) => t == target && r == rate
                && heads_toward(next as int, target as int, rate as int),
            Animated::Done(v) => v == value,
        },
{
    assert((rate > 0 ==> rate * steps >= 0) && (rate < 0 ==> rate * steps <= 0)) by (nonlinear_arith)
        requires
            steps >= 0,
    ;
}

/// When a frame settles an animation that was heading toward its target,
/// the settled value lies within one frame's movement of the target:
/// `|target - value| <= |rate| * steps`.
pub proof fn lemma_settles_within_one_step(value: i32, target: i32, rate: i32, steps: u32)
    requires
        heads_toward(value as int, target as int, rate as int),
        Animated::Animating(value, target, rate).advanced(steps) is Done,
    ensures
        abs(target - value) <= abs(rate as int) * steps,
{
    if rate < 0 {
        assert(abs(rate as int) * steps == -(rate * steps)) by (nonlinear_arith)
            requires
                rate < 0,
        ;
    }
}

/// An animation with a nonzero rate that heads toward its target settles
/// within `|target - value| + 1` frames, provided each frame lasts at least
/// one time unit.
pub proof fn lemma_settles_eventually(value: i32, target: i32, rate: i32, frames: Seq<u32>)
    requires
        heads_toward(value as int, target as int, rate as int),
        frames.len() > abs(target - value),
        forall|i: int| 0 <= i < frames.len() ==> frames[i] >= 1,
    ensures
        Animated::Animating(value, target, rate).run(frames) is Done,
    decreases frames.len(),
{
    let a = Animated::Animating(value, target, rate);
    let rest = frames.drop_first();
    lemma_heading_kept(value, target, rate, frames[0]);
    match a.advanced(frames[0]) {
        Animated::Done(v) => {
            lemma_done_stays(v, rest);
        },
        Animated::Animating(next, _, _) => {
            let steps = frames[0];
            assert(abs(rate as int) * steps >= 1) by (nonlinear_arith)
                requires
                    rate != 0,
                    steps >= 1,
            ;
            if rate < 0 {
                assert(abs(rate as int) * steps == -(rate * steps)) by (nonlinear_arith)
                    requires
                        rate < 0,
                ;
            }
            assert(abs(target - next) <= abs(target - value) - 1);
            assert forall|i: int| 0 <= i < rest.len() implies rest[i] >= 1 by {
                assert(rest[i] == frames[i + 1]);
            }
            lemma_settles_eventually(next, target, rate, rest);
        },
    }
}

} // verus!
