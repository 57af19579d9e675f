use crate::color::{Color, ColorConfig};
use crate::random::{sample_allows, sample_in, uniform, walk, walk_allows};
use crate::range::ConfigError;
use rand::rngs::StdRng;
use vstd::prelude::*;

verus! {

/// Smallest radius a new circle may get (0.1).
pub const RADIUS_MIN: i64 = 1_000;

/// Bound, not reached, of the radius a new circle may get (20.0).
pub const RADIUS_MAX: i64 = 200_000;

/// A point of the plane.
#[derive(Clone, Copy, Debug, PartialEq, Eq, Structural)]
pub struct Position {
    pub x: i64,
    pub y: i64,
}

/// The viewport: a closed rectangle of the plane.
#[derive(Clone, Copy, Debug, PartialEq, Eq, Structural)]
pub struct ViewWindow {
    pub x_min: i64,
    pub x_max: i64,
    pub y_min: i64,
    pub y_max: i64,
}

impl ViewWindow {
    /// Both axes have ordered bounds.
    pub open spec fn wf(&self) -> bool {
        self.x_min <= self.x_max && self.y_min <= self.y_max
    }

    /// `p` lies in the closed rectangle.
    pub open spec fn contains(&self, p: Position) -> bool {
        self.x_min <= p.x <= self.x_max && self.y_min <= p.y <= self.y_max
    }

    /// Builds a viewport, rejecting an axis whose bounds are out of order.
    pub fn new(x_min: i64, x_max: i64, y_min: i64, y_max: i64) -> (r: Result<ViewWindow, ConfigError>)
        ensures
            r is Ok <==> x_min <= x_max && y_min <= y_max,
            r is Ok ==> r->Ok_0 == (ViewWindow { x_min, x_max, y_min, y_max }),
            r is Err ==> r->Err_0 == ConfigError::InvalidRange,
    {
        if x_min <= x_max && y_min <= y_max {
            Ok(ViewWindow { x_min, x_max, y_min, y_max })
        } else {
            Err(ConfigError::InvalidRange)
        }
    }

    /// A point drawn uniformly from `[x_min, x_max) x [y_min, y_max)`, each
    /// coordinate independently; a degenerate axis gives its lower bound.
    pub fn random_position(&self, rng: &mut StdRng) -> (r: Position)
        ensures
            sample_allows(self.x_min as int, self.x_max as int, r.x as int),
            sample_allows(self.y_min as int, self.y_max as int, r.y as int),
            self.wf() ==> self.contains(r),
    {
        let x = sample_in(rng, self.x_min, self.x_max);
        let y = sample_in(rng, self.y_min, self.y_max);
        Position { x, y }
    }
}

/// A colored disc.
#[derive(Clone, Copy, Debug, PartialEq, Eq, Structural)]
pub struct Circle {
    pub position: Position,
    pub radius: i64,
    pub color: Color,
}

impl Circle {
    /// The circle sits in the viewport with a positive radius and a color in
    /// its configured ranges.
    pub open spec fn fits(&self, view_window: ViewWindow, color_config: ColorConfig) -> bool {
        &&& view_window.contains(self.position)
        &&& self.radius > 0
        &&& self.color.within(color_config)
    }

    /// `next` is a legal one-tick move of `self`: each coordinate one walk step
    /// bounded by the viewport, the color one step, the radius kept.
    pub open spec fn update_allows(
        &self,
        view_window: ViewWindow,
        max_position_delta: int,
        color_config: ColorConfig,
        next: Circle,
    ) -> bool {
        &&& walk_allows(view_window.x_min as int, view_window.x_max as int, self.position.x as int,
            max_position_delta, next.position.x as int)
        &&& walk_allows(view_window.y_min as int, view_window.y_max as int, self.position.y as int,
            max_position_delta, next.position.y as int)
        &&& self.color.step_allows(color_config, next.color)
        &&& next.radius == self.radius
    }

    /// A circle at `position` with a radius drawn from `[0.1, 20.0)` and a
    /// color sampled from `color_config`.
    pub fn rand(color_config: &ColorConfig, position: Position, rng: &mut StdRng) -> (r: Circle)
        ensures
            r.position == position,
            RADIUS_MIN <= r.radius < RADIUS_MAX,
            sample_allows(color_config.h_spec().min_spec(), color_config.h_spec().max_spec(), r.color.h_spec()),
            sample_allows(color_config.s_spec().min_spec(), color_config.s_spec().max_spec(), r.color.s_spec()),
            sample_allows(color_config.l_spec().min_spec(), color_config.l_spec().max_spec(), r.color.l_spec()),
            color_config.wf() ==> r.color.within(*color_config),
    {
        let radius = uniform(rng, RADIUS_MIN, RADIUS_MAX);
        let color = Color::rand(color_config, rng);
        Circle { position, radius, color }
    }

    /// Moves the circle one bounded random step: each coordinate within
    /// `max_position_delta` and the viewport, the color one step of its
    /// channels. The radius never changes. A circle that fits stays fitting.
    pub fn update(
        &mut self,
        view_window: &ViewWindow,
        max_position_delta: u64,
        color_config: &ColorConfig,
        rng: &mut StdRng,
    )
        ensures
            old(self).update_allows(*view_window, max_position_delta as int, *color_config, *final(self)),
            old(self).fits(*view_window, *color_config) ==> final(self).fits(*view_window, *color_config),
    {
        self.position.x = walk(rng, view_window.x_min, view_window.x_max, self.position.x, max_position_delta);
        self.position.y = walk(rng, view_window.y_min, view_window.y_max, self.position.y, max_position_delta);
        self.color.update(color_config, rng);
    }
}

/// A walk step from a value in `[min, max]` stays in `[min, max]`.
pub proof fn lemma_walk_closed(min: int, max: int, current: int, delta: int, r: int)
    requires
        min <= current <= max,
        delta >= 0,
        walk_allows(min, max, current, delta, r),
    ensures
        min <= r <= max,
{
}

/// Repeated updates keep a circle in the viewport: along any run of legal
/// one-tick moves that starts inside the viewport, every position is inside.
pub proof fn lemma_updates_stay_in_window(
    view_window: ViewWindow,
    max_position_delta: nat,
    color_config: ColorConfig,
    run: Seq<Circle>,
)
    requires
        run.len() > 0,
        view_window.contains(run[0].position),
        forall|i: int|
            0 <= i < run.len() - 1 ==> #[trigger] run[i].update_allows(
                view_window,
                max_position_delta as int,
                color_config,
                run[i + 1],
            ),
    ensures
        forall|i: int| 0 <= i < run.len() ==> #[trigger] view_window.contains(run[i].position),
    decreases run.len(),
{
    if run.len() > 1 {
        let init = run.drop_last();
        assert forall|i: int| 0 <= i < init.len() - 1 implies #[trigger] init[i].update_allows(
            view_window,
            max_position_delta as int,
            color_config,
            init[i + 1],
        ) by {
            assert(init[i] == run[i] && init[i + 1] == run[i + 1]);
        }
        lemma_updates_stay_in_window(view_window, max_position_delta, color_config, init);
        let k = run.len() - 2;
        assert(init[k] == run[k]);
        assert(view_window.contains(init[k].position));
        assert(run[k].update_allows(view_window, max_position_delta as int, color_config, run[k + 1]));
        lemma_walk_closed(view_window.x_min as int, view_window.x_max as int, run[k].position.x as int,
            max_position_delta as int, run[k + 1].position.x as int);
        lemma_walk_closed(view_window.y_min as int, view_window.y_max as int, run[k].position.y as int,
            max_position_delta as int, run[k + 1].position.y as int);
        assert forall|i: int| 0 <= i < run.len() implies #[trigger] view_window.contains(run[i].position) by {
            if i < run.len() - 1 {
                assert(init[i] == run[i]);
            }
        }
    }
}

} // verus!
