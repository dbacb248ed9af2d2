//! Closures: a memoizing cache around an arbitrary calculation, a workout
//! plan whose steps the cache helps to produce, and a captured variable.

use vstd::prelude::*;

verus! {

/// A calculation together with its memoized result. The calculation runs
/// at most once; later lookups return the cached value.
pub struct Cacher<T> where T: Fn(u32) -> u32 {
    calculation: T,
    value: Option<u32>,
}

impl<T> Cacher<T> where T: Fn(u32) -> u32 {
    /// The stored calculation.
    pub closed spec fn spec_calculation(&self) -> T {
        self.calculation
    }

    /// The cached result, if the calculation has run.
    pub closed spec fn spec_value(&self) -> Option<u32> {
        self.value
    }

    /// A cache with nothing memoized yet.
    pub fn new(calculation: T) -> (c: Cacher<T>)
        ensures
            c.spec_value() is None,
            c.spec_calculation() == calculation,
    {
        Cacher { calculation, value: None }
    }

    /// The memoized result: the first call runs the calculation on `arg`
    /// and caches what it returns; every later call returns the cached
    /// value, whatever its own argument is.
    pub fn value(&mut self, arg: u32) -> (v: u32)
        requires
            old(self).spec_value() is None ==> call_requires(
                old(self).spec_calculation(),
                (arg,),
            ),
        ensures
            final(self).spec_calculation() == old(self).spec_calculation(),
            final(self).spec_value() == Some(v),
            old(self).spec_value() is Some ==> v == old(self).spec_value()->0,
            old(self).spec_value() is None ==> call_ensures(
                old(self).spec_calculation(),
                (arg,),
                v,
            ),
    {
        match self.value {
            Some(v) => v,
            None => {
                let v = (self.calculation)(arg);
                self.value = Some(v);
                v
            },
        }
    }
}

/// One step of a workout printout: a computed intensity, or the fixed
/// cheer that replaces the workout on lucky days.
#[derive(Clone, Copy, Debug, PartialEq, Eq, Structural)]
pub enum WorkoutStep {
    Intensity(u32),
    Cheer,
}

/// The steps a workout prints: below intensity 25, the result of the
/// expensive calculation (which returns the intensity itself) twice;
/// otherwise once, except that a random number of 3 yields a cheer.
pub open spec fn spec_workout_plan(intensity: u32, random_number: i32) -> Seq<WorkoutStep> {
    if intensity < 25 {
        seq![WorkoutStep::Intensity(intensity), WorkoutStep::Intensity(intensity)]
    } else if random_number == 3 {
        seq![WorkoutStep::Cheer]
    } else {
        seq![WorkoutStep::Intensity(intensity)]
    }
}

/// Decides which steps a workout prints for the given inputs.
pub fn workout_plan(intensity: u32, random_number: i32) -> (plan: Vec<WorkoutStep>)
    ensures
        plan@ == spec_workout_plan(intensity, random_number),
{
    let mut plan: Vec<WorkoutStep> = Vec::new();
    let calc = |num: u32| -> (r: u32)
        ensures
            r == num,
        {
            num
        };
    let mut cache = Cacher::new(calc);
    if intensity < 25 {
        plan.push(WorkoutStep::Intensity(cache.value(intensity)));
        plan.push(WorkoutStep::Intensity(cache.value(intensity)));
        proof {
            assert(plan@ =~= spec_workout_plan(intensity, random_number));
        }
    } else if random_number == 3 {
        plan.push(WorkoutStep::Cheer);
        proof {
            assert(plan@ =~= spec_workout_plan(intensity, random_number));
        }
    } else {
        plan.push(WorkoutStep::Intensity(cache.value(intensity)));
        proof {
            assert(plan@ =~= spec_workout_plan(intensity, random_number));
        }
    }
    plan
}

/// A closure captures `x` from the scope it was written in and compares
/// its argument against it.
pub fn test_bibao() {
    let x: i32 = 4;
    let equal_to_x = |z: i32| -> (r: bool)
        ensures
            r == (z == x),
        {
            z == x
        };
    let y: i32 = 4;
    let b = equal_to_x(y);
    assert(b);
}

} // verus!
