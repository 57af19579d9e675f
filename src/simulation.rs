use crate::circle::{Circle, ViewWindow, RADIUS_MAX, RADIUS_MIN};
use crate::color::ColorConfig;
use crate::history::{push_all, History};
use crate::range::{ConfigError, SCALE};
use rand::rngs::StdRng;
use vstd::prelude::*;

verus! {

/// Whether the periodic tick is active.
#[derive(Clone, Copy, Debug, PartialEq, Eq, Structural)]
pub enum Status {
    Running,
    Paused,
}

impl Status {
    /// The other state.
    pub open spec fn flipped(self) -> Status {
        match self {
            Status::Running => Status::Paused,
            Status::Paused => Status::Running,
        }
    }
}

/// Toggling twice returns to the state one started from.
pub proof fn lemma_toggle_twice(s: Status)
    ensures
        s.flipped().flipped() == s,
        s.flipped() != s,
{
}

/// An event handed to the controller.
#[derive(Clone, Copy, Debug, PartialEq, Eq, Structural)]
pub enum Msg {
    /// The user asks for one more circle.
    AddCircle,
    /// The user asks for one step, whatever the state.
    Tick,
    /// The periodic timer fired.
    TimerTick,
    /// The user presses play/pause.
    ToggleStatus,
    /// The user asks to export the picture.
    Save,
}

/// What the host must do after the controller handled an event.
#[derive(Clone, Copy, Debug, PartialEq, Eq, Structural)]
pub enum Effect {
    /// Draw the current state again.
    Redraw,
    /// Start the periodic timer, then redraw.
    StartTimer,
    /// Cancel the periodic timer, then redraw.
    StopTimer,
    /// Export the picture currently drawn; nothing changed.
    Export,
    /// Nothing to do.
    Ignore,
}

/// The simulation: live circles, their trail, the configuration and the
/// play/pause state.
pub struct App {
    status: Status,
    color_config: ColorConfig,
    max_position_delta: u64,
    view_window: ViewWindow,
    circles: Vec<Circle>,
    history: History,
    rng: StdRng,
}

impl App {
    pub closed spec fn status_spec(&self) -> Status {
        self.status
    }

    pub closed spec fn color_config_spec(&self) -> ColorConfig {
        self.color_config
    }

    pub closed spec fn max_position_delta_spec(&self) -> int {
        self.max_position_delta as int
    }

    pub closed spec fn view_window_spec(&self) -> ViewWindow {
        self.view_window
    }

    /// The live circles, in the order they were added.
    pub closed spec fn circles_spec(&self) -> Seq<Circle> {
        self.circles@
    }

    pub closed spec fn history_spec(&self) -> History {
        self.history
    }

    /// The configuration is well formed, the history respects its capacity and
    /// every live circle fits the viewport and the color ranges.
    pub open spec fn wf(&self) -> bool {
        &&& self.view_window_spec().wf()
        &&& self.color_config_spec().wf()
        &&& self.history_spec().wf()
        &&& forall|i: int|
            0 <= i < self.circles_spec().len() ==> #[trigger] self.circles_spec()[i].fits(
                self.view_window_spec(),
                self.color_config_spec(),
            )
    }

    /// A paused simulation with no live circle, rejecting a viewport or a color
    /// configuration whose bounds are out of order.
    pub fn new(
        view_window: ViewWindow,
        color_config: ColorConfig,
        max_position_delta: u64,
        history: History,
        rng: StdRng,
    ) -> (r: Result<App, ConfigError>)
        requires
            history.wf(),
        ensures
            r is Ok <==> view_window.wf() && color_config.wf(),
            r is Ok ==> {
                let a = r->Ok_0;
                &&& a.wf()
                &&& a.status_spec() == Status::Paused
                &&& a.view_window_spec() == view_window
                &&& a.color_config_spec() == color_config
                &&& a.max_position_delta_spec() == max_position_delta
                &&& a.history_spec() == history
                &&& a.circles_spec() == Seq::<Circle>::empty()
            },
            r is Err ==> r->Err_0 == ConfigError::InvalidRange,
    {
        let h = color_config.h();
        let s = color_config.s();
        let l = color_config.l();
        if view_window.x_min <= view_window.x_max && view_window.y_min <= view_window.y_max
            && h.min() <= h.max() && s.min() <= s.max() && l.min() <= l.max() {
            Ok(
                App {
                    status: Status::Paused,
                    color_config,
                    max_position_delta,
                    view_window,
                    circles: Vec::new(),
                    history,
                    rng,
                },
            )
        } else {
            Err(ConfigError::InvalidRange)
        }
    }

    /// The default simulation: a 750 by 750 viewport, the default color
    /// ranges, steps of up to 20, a trail of 10000 snapshots, and one circle.
    pub fn create(rng: StdRng) -> (r: App)
        ensures
            r.wf(),
            r.status_spec() == Status::Paused,
            r.view_window_spec() == (ViewWindow {
                x_min: 0,
                x_max: (750 * SCALE) as i64,
                y_min: 0,
                y_max: (750 * SCALE) as i64,
            }),
            r.color_config_spec().is_default(),
            r.max_position_delta_spec() == 20 * SCALE,
            r.history_spec().capacity_spec() == 10000,
            r.history_spec().view().len() == 0,
            r.circles_spec().len() == 1,
            RADIUS_MIN <= r.circles_spec()[0].radius < RADIUS_MAX,
    {
        let view_window = ViewWindow::new(0, 750 * SCALE, 0, 750 * SCALE).unwrap();
        let history = History::new(10000).unwrap();
        let mut app = App::new(view_window, ColorConfig::default(), 20 * SCALE as u64, history, rng).unwrap();
        app.add_circle();
        app
    }

    /// Moves every live circle one step, each after a copy of it is pushed onto
    /// the history, in the order of the live collection.
    pub fn tick(&mut self)
        requires
            old(self).wf(),
        ensures
            final(self).wf(),
            final(self).status_spec() == old(self).status_spec(),
            final(self).view_window_spec() == old(self).view_window_spec(),
            final(self).color_config_spec() == old(self).color_config_spec(),
            final(self).max_position_delta_spec() == old(self).max_position_delta_spec(),
            final(self).history_spec().capacity_spec() == old(self).history_spec().capacity_spec(),
            final(self).history_spec().view() == push_all(
                old(self).history_spec().capacity_spec(),
                old(self).history_spec().view(),
                old(self).circles_spec(),
            ),
            final(self).circles_spec().len() == old(self).circles_spec().len(),
            forall|i: int|
                0 <= i < old(self).circles_spec().len() ==> #[trigger] old(self).circles_spec()[i].update_allows(
                    old(self).view_window_spec(),
                    old(self).max_position_delta_spec(),
                    old(self).color_config_spec(),
                    final(self).circles_spec()[i],
                ),
    {
        let n = self.circles.len();
        let mut i: usize = 0;
        while i < n
            invariant
                0 <= i <= n,
                n == old(self).circles@.len(),
                self.circles@.len() == n,
                self.wf(),
                self.status == old(self).status,
                self.view_window == old(self).view_window,
                self.color_config == old(self).color_config,
                self.max_position_delta == old(self).max_position_delta,
                self.history.capacity_spec() == old(self).history.capacity_spec(),
                self.history.view() == push_all(
                    old(self).history.capacity_spec(),
                    old(self).history.view(),
                    old(self).circles@.subrange(0, i as int),
                ),
                forall|j: int|
                    0 <= j < i ==> #[trigger] old(self).circles@[j].update_allows(
                        old(self).view_window,
                        old(self).max_position_delta as int,
                        old(self).color_config,
                        self.circles@[j],
                    ),
                forall|j: int| i <= j < n ==> #[trigger] self.circles@[j] == old(self).circles@[j],
            decreases n - i,
        {
            let mut c = self.circles[i];
            assert(self.circles_spec()[i as int].fits(self.view_window_spec(), self.color_config_spec()));
            self.history.push(c);
            assert(old(self).circles@.subrange(0, i + 1).drop_last() =~= old(self).circles@.subrange(0, i as int));
            c.update(&self.view_window, self.max_position_delta, &self.color_config, &mut self.rng);
            let ghost before = self.circles@;
            self.circles.set(i, c);
            assert forall|j: int| 0 <= j < self.circles@.len() implies #[trigger] self.circles_spec()[j].fits(
                self.view_window_spec(),
                self.color_config_spec(),
            ) by {
                if j != i {
                    assert(self.circles@[j] == before[j]);
                    assert(before[j].fits(self.view_window_spec(), self.color_config_spec()));
                } else {
                    assert(self.circles@[j] == c);
                }
            }
            i += 1;
        }
        assert(old(self).circles@.subrange(0, n as int) =~= old(self).circles@);
    }

    /// Appends one random circle: its position drawn from the viewport, its
    /// radius from `[0.1, 20.0)`, its color from the color ranges.
    pub fn add_circle(&mut self)
        requires
            old(self).wf(),
        ensures
            final(self).wf(),
            final(self).status_spec() == old(self).status_spec(),
            final(self).view_window_spec() == old(self).view_window_spec(),
            final(self).color_config_spec() == old(self).color_config_spec(),
            final(self).max_position_delta_spec() == old(self).max_position_delta_spec(),
            final(self).history_spec() == old(self).history_spec(),
            final(self).circles_spec().len() == old(self).circles_spec().len() + 1,
            final(self).circles_spec().drop_last() == old(self).circles_spec(),
            RADIUS_MIN <= final(self).circles_spec().last().radius < RADIUS_MAX,
    {
        let position = self.view_window.random_position(&mut self.rng);
        let c = Circle::rand(&self.color_config, position, &mut self.rng);
        assert(self.view_window.contains(c.position));
        assert(c.radius > 0);
        assert(c.color.within(self.color_config));
        self.circles.push(c);
        assert(self.circles@.drop_last() =~= old(self).circles@);
        assert forall|i: int| 0 <= i < self.circles@.len() implies #[trigger] self.circles_spec()[i].fits(
            self.view_window_spec(),
            self.color_config_spec(),
        ) by {
            if i < old(self).circles@.len() {
                assert(self.circles@[i] == old(self).circles@[i]);
                assert(old(self).circles_spec()[i].fits(old(self).view_window_spec(), old(self).color_config_spec()));
            } else {
                assert(self.circles@[i] == c);
            }
        }
    }

    /// Flips between running and paused, and says whether the host must start
    /// or cancel its periodic timer. Nothing else changes.
    pub fn toggle(&mut self) -> (r: Effect)
        ensures
            final(self).status_spec() == old(self).status_spec().flipped(),
            r == (if old(self).status_spec() == Status::Paused {
                Effect::StartTimer
            } else {
                Effect::StopTimer
            }),
            final(self).view_window_spec() == old(self).view_window_spec(),
            final(self).color_config_spec() == old(self).color_config_spec(),
            final(self).max_position_delta_spec() == old(self).max_position_delta_spec(),
            final(self).history_spec() == old(self).history_spec(),
            final(self).circles_spec() == old(self).circles_spec(),
            old(self).wf() ==> final(self).wf(),
    {
        match self.status {
            Status::Paused => {
                self.status = Status::Running;
                Effect::StartTimer
            },
            Status::Running => {
                self.status = Status::Paused;
                Effect::StopTimer
            },
        }
    }

    /// Everything to draw, in drawing order: the history, oldest first, then
    /// the live circles on top.
    pub fn render_state(&self) -> (r: Vec<Circle>)
        ensures
            r@ == self.history_spec().view() + self.circles_spec(),
    {
        let mut out = self.history.snapshot();
        let mut i: usize = 0;
        while i < self.circles.len()
            invariant
                i <= self.circles@.len(),
                out@ == self.history.view() + self.circles@.subrange(0, i as int),
            decreases self.circles@.len() - i,
        {
            out.push(self.circles[i]);
            assert(self.circles@.subrange(0, i + 1) =~= self.circles@.subrange(0, i as int).push(self.circles@[i as int]));
            i += 1;
        }
        assert(self.circles@.subrange(0, self.circles@.len() as int) =~= self.circles@);
        out
    }

    /// Handles one event and says what the host must do next. A timer tick
    /// that arrives while paused is ignored; a user step ticks in either state.
    pub fn update(&mut self, msg: Msg) -> (r: Effect)
        requires
            old(self).wf(),
        ensures
            final(self).wf(),
            final(self).view_window_spec() == old(self).view_window_spec(),
            final(self).color_config_spec() == old(self).color_config_spec(),
            final(self).max_position_delta_spec() == old(self).max_position_delta_spec(),
            msg == Msg::ToggleStatus ==> final(self).status_spec() == old(self).status_spec().flipped(),
            msg != Msg::ToggleStatus ==> final(self).status_spec() == old(self).status_spec(),
            r == (match msg {
                Msg::AddCircle => Effect::Redraw,
                Msg::Tick => Effect::Redraw,
                Msg::TimerTick => if old(self).status_spec() == Status::Running {
                    Effect::Redraw
                } else {
                    Effect::Ignore
                },
                Msg::ToggleStatus => if old(self).status_spec() == Status::Paused {
                    Effect::StartTimer
                } else {
                    Effect::StopTimer
                },
                Msg::Save => Effect::Export,
            }),
            msg == Msg::AddCircle ==> final(self).circles_spec().len() == old(self).circles_spec().len() + 1
                && final(self).circles_spec().drop_last() == old(self).circles_spec()
                && final(self).history_spec() == old(self).history_spec(),
            msg == Msg::Tick || (msg == Msg::TimerTick && old(self).status_spec() == Status::Running)
                ==> final(self).history_spec().view() == push_all(
                old(self).history_spec().capacity_spec(),
                old(self).history_spec().view(),
                old(self).circles_spec(),
            ) && final(self).circles_spec().len() == old(self).circles_spec().len(),
            msg == Msg::ToggleStatus || msg == Msg::Save || (msg == Msg::TimerTick && old(self).status_spec()
                == Status::Paused) ==> final(self).circles_spec() == old(self).circles_spec()
                && final(self).history_spec() == old(self).history_spec(),
    {
        match msg {
            Msg::AddCircle => {
                self.add_circle();
                Effect::Redraw
            },
            Msg::Tick => {
                self.tick();
                Effect::Redraw
            },
            Msg::TimerTick => {
                if self.status == Status::Running {
                    self.tick();
                    Effect::Redraw
                } else {
                    Effect::Ignore
                }
            },
            Msg::ToggleStatus => self.toggle(),
            Msg::Save => Effect::Export,
        }
    }

    pub fn status(&self) -> (r: Status)
        ensures
            r == self.status_spec(),
    {
        self.status
    }

    pub fn circles(&self) -> (r: &Vec<Circle>)
        ensures
            r@ == self.circles_spec(),
    {
        &self.circles
    }

    pub fn history(&self) -> (r: &History)
        ensures
            *r == self.history_spec(),
    {
        &self.history
    }

    pub fn view_window(&self) -> (r: ViewWindow)
        ensures
            r == self.view_window_spec(),
    {
        self.view_window
    }

    pub fn color_config(&self) -> (r: ColorConfig)
        ensures
            r == self.color_config_spec(),
    {
        self.color_config
    }

    pub fn max_position_delta(&self) -> (r: u64)
        ensures
            r == self.max_position_delta_spec(),
    {
        self.max_position_delta
    }
}

} // verus!
