use rand::rngs::StdRng;
use rand::SeedableRng;
use yew_art::{
    App, Circle, Color, ColorConfig, ConfigError, Effect, History, Msg, Position, RangeConfig,
    Status, ViewWindow, RADIUS_MAX, RADIUS_MIN, SCALE,
};

fn rng(seed: u64) -> StdRng {
    StdRng::seed_from_u64(seed)
}

fn circle(x: i64, y: i64, radius: i64) -> Circle {
    let color = Color::new(1_000, 5_000, 5_000, &ColorConfig::default()).unwrap();
    Circle { position: Position { x, y }, radius, color }
}

fn small_app(seed: u64, capacity: usize) -> App {
    let window = ViewWindow::new(0, 100 * SCALE, 0, 50 * SCALE).unwrap();
    let history = History::new(capacity).unwrap();
    App::new(window, ColorConfig::default(), 2 * SCALE as u64, history, rng(seed)).unwrap()
}

#[test]
fn sample_stays_in_half_open_range() {
    let range = RangeConfig::new(-5_000, 12_000, 300).unwrap();
    let mut r = rng(1);
    for _ in 0..10_000 {
        let v = range.sample(&mut r);
        assert!(-5_000 <= v && v < 12_000);
    }
}

#[test]
fn sample_varies() {
    let range = RangeConfig::new(0, 1_000_000, 1).unwrap();
    let mut r = rng(2);
    let first = range.sample(&mut r);
    let mut differs = false;
    for _ in 0..100 {
        if range.sample(&mut r) != first {
            differs = true;
        }
    }
    assert!(differs);
    assert!((0..100).any(|_| range.sample(&mut r) != 0));
}

#[test]
fn sample_of_single_point_range_is_min() {
    let range = RangeConfig::new(42, 42, 10).unwrap();
    let mut r = rng(3);
    for _ in 0..100 {
        assert_eq!(range.sample(&mut r), 42);
        assert_eq!(range.step(42, &mut r), 42);
    }
}

#[test]
fn range_rejects_inverted_bounds() {
    assert_eq!(RangeConfig::new(10, 9, 1), Err(ConfigError::InvalidRange));
    let ok = RangeConfig::new(9, 10, 1).unwrap();
    assert_eq!((ok.min(), ok.max(), ok.delta()), (9, 10, 1));
}

#[test]
fn step_stays_in_intersection_and_range() {
    let range = RangeConfig::new(0, 1_000, 50).unwrap();
    let mut r = rng(4);
    for current in [0i64, 1, 25, 500, 975, 999, 1_000] {
        let lo = std::cmp::max(0, current - 50);
        let hi = std::cmp::min(1_000, current + 50);
        for _ in 0..1_000 {
            let v = range.step(current, &mut r);
            assert!(lo <= v && v < hi, "{} from {}", v, current);
            assert!(0 <= v && v <= 1_000);
        }
    }
}

#[test]
fn step_with_zero_delta_keeps_value() {
    let range = RangeConfig::new(0, 1_000, 0).unwrap();
    let mut r = rng(5);
    assert_eq!(range.step(300, &mut r), 300);
}

#[test]
fn step_moves_by_at_most_delta() {
    let range = RangeConfig::new(0, 1_000_000, 7).unwrap();
    let mut r = rng(6);
    let mut v = 500_000;
    let mut moved = false;
    for _ in 0..1_000 {
        let next = range.step(v, &mut r);
        assert!(next >= v - 7 && next < v + 7);
        if next != v {
            moved = true;
        }
        v = next;
    }
    assert!(moved);
}

#[test]
fn random_position_is_inside_window() {
    let window = ViewWindow::new(-100, 100, 5, 6).unwrap();
    let mut r = rng(7);
    for _ in 0..1_000 {
        let p = window.random_position(&mut r);
        assert!(-100 <= p.x && p.x < 100);
        assert_eq!(p.y, 5);
    }
}

#[test]
fn view_window_rejects_inverted_axis() {
    assert_eq!(ViewWindow::new(1, 0, 0, 1), Err(ConfigError::InvalidRange));
    assert_eq!(ViewWindow::new(0, 1, 2, 1), Err(ConfigError::InvalidRange));
    assert!(ViewWindow::new(0, 0, 0, 0).is_ok());
}

#[test]
fn circle_rand_keeps_position_and_radius_bounds() {
    let mut r = rng(8);
    let config = ColorConfig::default();
    for _ in 0..1_000 {
        let c = Circle::rand(&config, Position { x: 3, y: 4 }, &mut r);
        assert_eq!(c.position, Position { x: 3, y: 4 });
        assert!(RADIUS_MIN <= c.radius && c.radius < RADIUS_MAX);
    }
    assert_eq!((RADIUS_MIN, RADIUS_MAX), (SCALE / 10, 20 * SCALE));
}

#[test]
fn repeated_updates_stay_in_window() {
    let window = ViewWindow::new(0, 10 * SCALE, 0, 10 * SCALE).unwrap();
    let config = ColorConfig::default();
    let mut r = rng(9);
    let mut c = circle(0, 10 * SCALE, 700);
    for _ in 0..10_000 {
        let before = c;
        c.update(&window, 3 * SCALE as u64, &config, &mut r);
        assert!(0 <= c.position.x && c.position.x <= 10 * SCALE);
        assert!(0 <= c.position.y && c.position.y <= 10 * SCALE);
        assert!((c.position.x - before.position.x).abs() <= 3 * SCALE);
        assert_eq!(c.radius, 700);
    }
}

#[test]
fn color_random_with_default_ranges() {
    let config = ColorConfig::default();
    let mut r = rng(10);
    for _ in 0..10_000 {
        let c = Color::rand(&config, &mut r);
        assert!(0 <= c.h() && c.h() < 360 * SCALE);
        assert!(0 <= c.s() && c.s() <= SCALE);
        assert!(0 <= c.l() && c.l() <= SCALE);
    }
}

#[test]
fn color_update_stays_within_config() {
    let config = ColorConfig::default();
    let mut r = rng(11);
    let mut c = Color::new(0, SCALE, 0, &config).unwrap();
    for _ in 0..10_000 {
        let before = c;
        c.update(&config, &mut r);
        assert!(0 <= c.h() && c.h() <= 360 * SCALE);
        assert!(0 <= c.s() && c.s() <= SCALE);
        assert!(0 <= c.l() && c.l() <= SCALE);
        assert!((c.h() - before.h()).abs() <= 5 * SCALE);
        assert!((c.s() - before.s()).abs() <= SCALE / 10);
    }
}

#[test]
fn color_new_rejects_out_of_range_channel() {
    let config = ColorConfig::default();
    assert_eq!(Color::new(0, SCALE + 1, 0, &config), Err(ConfigError::InvalidRange));
    let c = Color::new(360 * SCALE, 0, SCALE, &config).unwrap();
    assert_eq!((c.h(), c.s(), c.l()), (360 * SCALE, 0, SCALE));
}

#[test]
fn default_color_config_values() {
    let config = ColorConfig::default();
    assert_eq!((config.h().min(), config.h().max(), config.h().delta()), (0, 360 * SCALE, 5 * SCALE as u64));
    assert_eq!((config.s().min(), config.s().max(), config.s().delta()), (0, SCALE, SCALE as u64 / 10));
    assert_eq!((config.l().min(), config.l().max(), config.l().delta()), (0, SCALE, SCALE as u64 / 10));
}

#[test]
fn history_rejects_zero_capacity() {
    assert!(matches!(History::new(0), Err(ConfigError::InvalidCapacity)));
}

#[test]
fn history_capacity_three_keeps_last_three() {
    let mut h = History::new(3).unwrap();
    let (a, b, c, d) = (circle(1, 0, 10), circle(2, 0, 10), circle(3, 0, 10), circle(4, 0, 10));
    h.push(a);
    h.push(b);
    h.push(c);
    assert_eq!(h.snapshot(), vec![a, b, c]);
    h.push(d);
    assert_eq!(h.snapshot(), vec![b, c, d]);
}

#[test]
fn history_keeps_most_recent_capacity_in_order() {
    let mut h = History::new(5).unwrap();
    let items: Vec<Circle> = (0..12).map(|i| circle(i, i, 10 + i)).collect();
    for c in &items {
        h.push(*c);
        assert!(h.len() <= 5);
    }
    assert_eq!(h.len(), 5);
    assert_eq!(h.capacity(), 5);
    assert_eq!(h.snapshot(), items[7..].to_vec());
}

#[test]
fn history_of_capacity_one_holds_last_only() {
    let mut h = History::new(1).unwrap();
    h.push(circle(1, 1, 1));
    h.push(circle(2, 2, 2));
    assert_eq!(h.snapshot(), vec![circle(2, 2, 2)]);
}

#[test]
fn toggle_flips_and_never_ticks() {
    let mut app = small_app(12, 100);
    app.add_circle();
    let before = app.circles().clone();
    assert_eq!(app.status(), Status::Paused);
    assert_eq!(app.toggle(), Effect::StartTimer);
    assert_eq!(app.status(), Status::Running);
    assert_eq!(app.toggle(), Effect::StopTimer);
    assert_eq!(app.status(), Status::Paused);
    assert_eq!(app.circles(), &before);
    assert_eq!(app.history().len(), 0);
}

#[test]
fn tick_records_pre_update_snapshots() {
    let mut app = small_app(13, 100);
    app.add_circle();
    app.add_circle();
    let before = app.circles().clone();
    app.tick();
    assert_eq!(app.history().snapshot(), before);
    let window = app.view_window();
    for (old, new) in before.iter().zip(app.circles().iter()) {
        assert_eq!(old.radius, new.radius);
        assert!(window.x_min <= new.position.x && new.position.x <= window.x_max);
        assert!(window.y_min <= new.position.y && new.position.y <= window.y_max);
        assert!(0 <= new.color.h() && new.color.h() <= 360 * SCALE);
        assert!(0 <= new.color.s() && new.color.s() <= SCALE);
        assert!(0 <= new.color.l() && new.color.l() <= SCALE);
        assert!((old.position.x - new.position.x).abs() <= 2 * SCALE);
    }
}

#[test]
fn tick_evicts_beyond_capacity() {
    let mut app = small_app(14, 3);
    app.add_circle();
    app.add_circle();
    let first = app.circles().clone();
    app.tick();
    let second = app.circles().clone();
    app.tick();
    assert_eq!(app.history().snapshot(), vec![first[1], second[0], second[1]]);
}

#[test]
fn render_state_puts_history_first() {
    let mut app = small_app(15, 100);
    app.add_circle();
    app.tick();
    app.tick();
    let trail = app.history().snapshot();
    assert_eq!(trail.len(), 2);
    let state = app.render_state();
    assert_eq!(state.len(), 3);
    assert_eq!(&state[..2], &trail[..]);
    assert_eq!(state[2], app.circles()[0]);
}

#[test]
fn timer_tick_is_ignored_while_paused() {
    let mut app = small_app(16, 100);
    app.add_circle();
    assert_eq!(app.update(Msg::TimerTick), Effect::Ignore);
    assert_eq!(app.history().len(), 0);
    assert_eq!(app.update(Msg::Tick), Effect::Redraw);
    assert_eq!(app.history().len(), 1);
    assert_eq!(app.update(Msg::ToggleStatus), Effect::StartTimer);
    assert_eq!(app.update(Msg::TimerTick), Effect::Redraw);
    assert_eq!(app.history().len(), 2);
    assert_eq!(app.update(Msg::Save), Effect::Export);
    assert_eq!(app.update(Msg::AddCircle), Effect::Redraw);
    assert_eq!(app.circles().len(), 2);
    assert_eq!(app.update(Msg::ToggleStatus), Effect::StopTimer);
    assert_eq!(app.status(), Status::Paused);
}

#[test]
fn app_rejects_inverted_window() {
    let window = ViewWindow { x_min: 5, x_max: 4, y_min: 0, y_max: 1 };
    let history = History::new(1).unwrap();
    assert!(matches!(
        App::new(window, ColorConfig::default(), 1, history, rng(17)),
        Err(ConfigError::InvalidRange)
    ));
}

#[test]
fn create_starts_paused_with_one_circle() {
    let app = App::create(rng(18));
    assert_eq!(app.status(), Status::Paused);
    assert_eq!(app.circles().len(), 1);
    assert_eq!(app.history().len(), 0);
    assert_eq!(app.history().capacity(), 10_000);
    assert_eq!(app.max_position_delta(), 20 * SCALE as u64);
    assert_eq!(app.view_window(), ViewWindow { x_min: 0, x_max: 750 * SCALE, y_min: 0, y_max: 750 * SCALE });
    assert_eq!(app.color_config(), ColorConfig::default());
    let c = app.circles()[0];
    assert!(0 <= c.position.x && c.position.x < 750 * SCALE);
    assert!(RADIUS_MIN <= c.radius && c.radius < RADIUS_MAX);
}

#[test]
fn hsl_text_has_two_decimals() {
    let config = ColorConfig::default();
    let c = Color::new(1_234_567, 5_000, 10_000, &config).unwrap();
    assert_eq!(c.to_hsl_string(), "hsl(123.46, 50.00%, 100.00%)");
    let c = Color::new(0, 7, 1_230, &config).unwrap();
    assert_eq!(c.to_hsl_string(), "hsl(0.00, 0.07%, 12.30%)");
    let c = Color::new(3_599_949, 0, 0, &config).unwrap();
    assert_eq!(c.to_hsl_string(), "hsl(359.99, 0.00%, 0.00%)");
    let c = Color::new(3_599_950, 0, 0, &config).unwrap();
    assert_eq!(c.to_hsl_string(), "hsl(360.00, 0.00%, 0.00%)");
}

#[test]
fn hsl_text_of_negative_channels() {
    let range = RangeConfig::new(-10 * SCALE, 0, 1).unwrap();
    let config = ColorConfig::new(range, range, range);
    let c = Color::new(-55, -2_500, -5, &config).unwrap();
    assert_eq!(c.to_hsl_string(), "hsl(-0.01, -25.00%, -0.05%)");
    let c = Color::new(-49, 0, 0, &config).unwrap();
    assert_eq!(c.to_hsl_string(), "hsl(0.00, 0.00%, 0.00%)");
}
