use crate::random::{sample_allows, sample_in, walk, walk_allows};
use rand::rngs::StdRng;
use vstd::prelude::*;

verus! {

/// Fixed-point units per whole: every real quantity of the library is an
/// integer count of `1 / SCALE`.
pub const SCALE: i64 = 10_000;

/// A configuration that cannot describe a legal simulation.
#[derive(Clone, Copy, Debug, PartialEq, Eq, Structural)]
pub enum ConfigError {
    /// A lower bound lies above its upper bound.
    InvalidRange,
    /// A history that could hold no entry.
    InvalidCapacity,
}

/// A bounded scalar random walk: values live in `[min, max)` and move by at
/// most `delta` per step.
#[derive(Clone, Copy, Debug, PartialEq, Eq, Structural)]
pub struct RangeConfig {
    min: i64,
    max: i64,
    delta: u64,
}

impl RangeConfig {
    pub closed spec fn min_spec(&self) -> int {
        self.min as int
    }

    pub closed spec fn max_spec(&self) -> int {
        self.max as int
    }

    pub closed spec fn delta_spec(&self) -> int {
        self.delta as int
    }

    /// The bounds are ordered.
    pub open spec fn wf(&self) -> bool {
        self.min_spec() <= self.max_spec()
    }

    /// `v` lies in the closed range `[min, max]`.
    pub open spec fn holds(&self, v: int) -> bool {
        self.min_spec() <= v <= self.max_spec()
    }

    /// Builds a range, rejecting one whose lower bound is above its upper one.
    pub fn new(min: i64, max: i64, delta: u64) -> (r: Result<RangeConfig, ConfigError>)
        ensures
            min <= max <==> r is Ok,
            r is Ok ==> r->Ok_0.wf() && r->Ok_0.min_spec() == min && r->Ok_0.max_spec() == max
                && r->Ok_0.delta_spec() == delta,
            r is Err ==> r->Err_0 == ConfigError::InvalidRange,
    {
        if min <= max {
            Ok(RangeConfig { min, max, delta })
        } else {
            Err(ConfigError::InvalidRange)
        }
    }

    pub fn min(&self) -> (r: i64)
        ensures
            r == self.min_spec(),
    {
        self.min
    }

    pub fn max(&self) -> (r: i64)
        ensures
            r == self.max_spec(),
    {
        self.max
    }

    pub fn delta(&self) -> (r: u64)
        ensures
            r == self.delta_spec(),
    {
        self.delta
    }

    /// A value drawn from `[min, max)`; `min` itself when `min == max`.
    pub fn sample(&self, rng: &mut StdRng) -> (r: i64)
        ensures
            sample_allows(self.min_spec(), self.max_spec(), r as int),
            self.wf() ==> self.holds(r as int),
            self.min_spec() < self.max_spec() ==> self.min_spec() <= r < self.max_spec(),
    {
        sample_in(rng, self.min, self.max)
    }

    /// The next value of the walk from `current`: drawn from
    /// `[max(min, current - delta), min(max, current + delta))`, or the lower
    /// end when that interval is a single point. From a value in `[min, max]`
    /// the result stays in `[min, max]`.
    pub fn step(&self, current: i64, rng: &mut StdRng) -> (r: i64)
        ensures
            walk_allows(self.min_spec(), self.max_spec(), current as int, self.delta_spec(), r as int),
            self.holds(current as int) ==> self.holds(r as int),
    {
        walk(rng, self.min, self.max, current, self.delta)
    }
}

} // verus!
