use glider_rust::bot::nav::{
    f32_at_most, f32_less, HEADING_TURN_THRESHOLD_RAD, MOVE_FORWARD_DISTANCE_MIN,
    NEG_HEADING_TURN_THRESHOLD_RAD, WAYPOINT_RADIUS,
};
use glider_rust::bot::{BotRuntime, BotState, NavFix, NavTarget, NavigationOutput, RuntimeStatus};
use glider_rust::input::{InputCommand, KeyAction};
use glider_rust::memory::MemorySnapshot;
use glider_rust::profile::{GlideProfile, Waypoint};

fn normalize_angle(mut angle_rad: f32) -> f32 {
    const PI: f32 = std::f32::consts::PI;
    const TWO_PI: f32 = std::f32::consts::TAU;
    while angle_rad > PI {
        angle_rad -= TWO_PI;
    }
    while angle_rad < -PI {
        angle_rad += TWO_PI;
    }
    angle_rad
}

/// The navigation step of the game client, in `f32`s.
fn navigate(t: NavTarget) -> NavFix {
    let dx = f32::from_bits(t.waypoint.x) - f32::from_bits(t.x);
    let dy = f32::from_bits(t.waypoint.y) - f32::from_bits(t.y);
    let distance = (dx * dx + dy * dy).sqrt();
    let desired = dy.atan2(dx);
    NavFix {
        desired_heading_rad: desired.to_bits(),
        heading_error_rad: t
            .heading
            .map(|h| normalize_angle(desired - f32::from_bits(h)).to_bits()),
        distance_to_waypoint: distance.to_bits(),
    }
}

fn point(x: f32, y: f32) -> Waypoint {
    Waypoint { x: x.to_bits(), y: y.to_bits() }
}

fn snapshot_at(position: Option<(f32, f32, f32)>, heading: Option<f32>) -> MemorySnapshot {
    MemorySnapshot {
        player_name: "TestPlayer".to_string(),
        player_guid: Some(1),
        player_object_type: None,
        player_current_health: Some(100),
        player_max_health: Some(100),
        player_race: Some(1),
        player_level: Some(1),
        player_faction: Some(1),
        player_unit_flags: None,
        player_monster_definition_ptr: None,
        player_display_id: None,
        player_native_display_id: None,
        position: position.map(|(x, y, z)| (x.to_bits(), y.to_bits(), z.to_bits())),
        heading_rad: heading.map(f32::to_bits),
        target_guid: None,
        target_object_type: None,
        target_name: None,
        target_current_health: None,
        target_max_health: None,
        target_race: None,
        target_level: None,
        target_faction: None,
        target_unit_flags: None,
        target_monster_definition_ptr: None,
        target_display_id: None,
        target_native_display_id: None,
        target_hostility: None,
        target_distance: None,
        diagnostics: Vec::new(),
    }
}

fn route(points: &[(f32, f32)]) -> GlideProfile {
    GlideProfile {
        name: Some("Test".to_string()),
        min_level: None,
        max_level: None,
        waypoints: points.iter().map(|&(x, y)| point(x, y)).collect(),
    }
}

#[test]
fn advances_waypoint_when_inside_radius() {
    let profile = route(&[(10.0, 10.0), (20.0, 20.0)]);

    let mut runtime = BotRuntime::default();
    runtime.set_profile(profile);
    runtime.start();

    let snapshot = snapshot_at(Some((10.5, 10.5, 0.0)), Some(0.0));

    runtime.tick(Some(&snapshot), navigate);

    assert_eq!(runtime.waypoint_progress(), Some((2, 2)));
    assert!(runtime.nav_output().waypoint_reached);
}

#[test]
fn route_wraps_to_the_first_waypoint() {
    let mut runtime = BotRuntime::default();
    runtime.set_profile(route(&[(0.0, 0.0), (100.0, 0.0)]));
    runtime.start();
    runtime.tick(Some(&snapshot_at(Some((0.5, 0.0, 0.0)), None)), navigate);
    assert_eq!(runtime.waypoint_progress(), Some((2, 2)));
    runtime.tick(Some(&snapshot_at(Some((99.0, 1.0, 0.0)), None)), navigate);
    assert_eq!(runtime.waypoint_progress(), Some((1, 2)));
    assert_eq!(runtime.status(), RuntimeStatus::RunningProfile);
}

#[test]
fn far_waypoint_is_headed_for_but_not_reached() {
    let mut runtime = BotRuntime::default();
    runtime.set_profile(route(&[(10.0, 0.0)]));
    runtime.start();
    runtime.tick(Some(&snapshot_at(Some((0.0, 0.0, 0.0)), Some(1.0))), navigate);
    let nav = *runtime.nav_output();
    assert!(!nav.waypoint_reached);
    assert_eq!(f32::from_bits(nav.distance_to_waypoint.unwrap()), 10.0);
    assert_eq!(f32::from_bits(nav.desired_heading_rad.unwrap()), 0.0);
    assert_eq!(f32::from_bits(nav.heading_error_rad.unwrap()), -1.0);
    assert_eq!(runtime.waypoint_progress(), Some((1, 1)));
    // Off by a radian to the left of the waypoint: turn right and walk on.
    assert_eq!(
        runtime.suggested_inputs(),
        vec![
            InputCommand::TurnRightMouse,
            InputCommand::MoveForward(KeyAction::Press)
        ]
    );
}

#[test]
fn a_bot_that_is_not_running_ignores_ticks() {
    let mut runtime = BotRuntime::default();
    runtime.set_profile(route(&[(10.0, 10.0)]));
    runtime.tick(Some(&snapshot_at(Some((10.0, 10.0, 0.0)), None)), navigate);
    assert_eq!(runtime.state(), BotState::Stopped);
    assert_eq!(runtime.status(), RuntimeStatus::Idle);
    assert_eq!(*runtime.nav_output(), NavigationOutput::default());
    assert!(runtime.suggested_inputs().is_empty());
}

#[test]
fn a_running_bot_without_what_it_needs_polls_memory() {
    let mut runtime = BotRuntime::default();
    runtime.start();
    runtime.tick(None, navigate);
    assert_eq!(runtime.status(), RuntimeStatus::PollingMemory);

    runtime.tick(Some(&snapshot_at(Some((1.0, 1.0, 0.0)), None)), navigate);
    assert_eq!(runtime.status(), RuntimeStatus::PollingMemory);

    runtime.set_profile(route(&[]));
    runtime.tick(Some(&snapshot_at(Some((1.0, 1.0, 0.0)), None)), navigate);
    assert_eq!(runtime.status(), RuntimeStatus::PollingMemory);
    assert_eq!(runtime.waypoint_progress(), Some((1, 0)));

    runtime.set_profile(route(&[(1.0, 1.0)]));
    runtime.tick(Some(&snapshot_at(None, Some(0.0))), navigate);
    assert_eq!(runtime.status(), RuntimeStatus::PollingMemory);
    assert_eq!(*runtime.nav_output(), NavigationOutput::default());
}

#[test]
fn controls_set_state_and_status() {
    let mut runtime = BotRuntime::default();
    runtime.set_profile(route(&[(10.0, 10.0), (20.0, 20.0)]));
    runtime.start();
    assert_eq!((runtime.state(), runtime.status()), (BotState::Running, RuntimeStatus::PollingMemory));
    runtime.tick(Some(&snapshot_at(Some((10.0, 10.0, 0.0)), None)), navigate);
    runtime.pause();
    assert_eq!((runtime.state(), runtime.status()), (BotState::Paused, RuntimeStatus::Paused));
    assert!(runtime.nav_output().waypoint_reached);
    runtime.stop();
    assert_eq!((runtime.state(), runtime.status()), (BotState::Stopped, RuntimeStatus::Idle));
    assert_eq!(*runtime.nav_output(), NavigationOutput::default());
    // Stopping keeps the route and the position on it.
    assert_eq!(runtime.waypoint_progress(), Some((2, 2)));
    assert_eq!(runtime.active_profile_name(), Some("Test"));
    runtime.clear_profile();
    assert_eq!(runtime.waypoint_progress(), None);
    assert_eq!(runtime.active_profile_name(), None);
}

#[test]
fn suggested_inputs_follow_the_thresholds() {
    let mut runtime = BotRuntime::default();
    runtime.set_profile(route(&[(1.0, 0.0)]));
    runtime.start();
    // One unit away, facing it: within the forward distance, so release.
    runtime.tick(Some(&snapshot_at(Some((0.0, 0.0, 0.0)), Some(0.0))), navigate);
    assert_eq!(
        runtime.suggested_inputs(),
        vec![InputCommand::MoveForward(KeyAction::Release)]
    );
    // Waypoint straight up, facing along x: turn left.
    runtime.set_profile(route(&[(0.0, 10.0)]));
    runtime.tick(Some(&snapshot_at(Some((0.0, 0.0, 0.0)), Some(0.0))), navigate);
    assert_eq!(
        runtime.suggested_inputs(),
        vec![
            InputCommand::TurnLeftMouse,
            InputCommand::MoveForward(KeyAction::Press)
        ]
    );
}

#[test]
fn thresholds_are_the_documented_values() {
    assert_eq!(f32::from_bits(WAYPOINT_RADIUS), 2.0);
    assert_eq!(f32::from_bits(HEADING_TURN_THRESHOLD_RAD), 0.25);
    assert_eq!(f32::from_bits(NEG_HEADING_TURN_THRESHOLD_RAD), -0.25);
    assert_eq!(f32::from_bits(MOVE_FORWARD_DISTANCE_MIN), 1.5);
}

#[test]
fn bit_comparisons_agree_with_f32() {
    let values = [
        0.0f32,
        -0.0,
        1.0,
        -1.0,
        0.25,
        -0.25,
        1.5,
        2.0,
        1e-40,
        -1e-40,
        3.4e38,
        f32::INFINITY,
        f32::NEG_INFINITY,
        f32::NAN,
        -f32::NAN,
    ];
    for a in values {
        for b in values {
            assert_eq!(f32_less(a.to_bits(), b.to_bits()), a < b, "{a} < {b}");
            assert_eq!(f32_at_most(a.to_bits(), b.to_bits()), a <= b, "{a} <= {b}");
        }
    }
}

fn paired(b: &BotRuntime) -> bool {
    match b.state() {
        BotState::Stopped => b.status() == RuntimeStatus::Idle,
        BotState::Paused => b.status() == RuntimeStatus::Paused,
        BotState::Running => matches!(b.status(), RuntimeStatus::PollingMemory | RuntimeStatus::RunningProfile),
    }
}

#[test]
fn the_status_always_goes_with_the_state() {
    let mut bot = BotRuntime::default();
    assert!(paired(&bot));
    bot.tick(None, navigate);
    assert!(paired(&bot));
    bot.set_profile(route(&[(10.0, 10.0), (20.0, 20.0)]));
    assert!(paired(&bot));
    bot.start();
    assert!(paired(&bot));
    bot.tick(None, navigate);
    assert!(paired(&bot));
    let s = snapshot_at(Some((0.0, 0.0, 0.0)), Some(0.0));
    bot.tick(Some(&s), navigate);
    assert_eq!(bot.status(), RuntimeStatus::RunningProfile);
    assert!(paired(&bot));
    bot.pause();
    assert!(paired(&bot));
    bot.tick(Some(&s), navigate);
    assert!(paired(&bot));
    bot.clear_profile();
    assert!(paired(&bot));
    bot.stop();
    assert!(paired(&bot));
}
