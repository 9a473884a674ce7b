use std::collections::HashMap;

use glider_rust::bot::{BotState, NavFix, NavTarget, RuntimeStatus};
use glider_rust::memory::snapshot::ClientLayout;
use glider_rust::profile::{GlideProfile, Waypoint};
use glider_rust::service::AppService;

fn no_close(_handle: usize) {}

fn open_as(handle: usize) -> impl FnOnce(u32) -> Option<usize> {
    move |_pid| Some(handle)
}

#[test]
fn start_requires_attached_memory() {
    let mut service = AppService::default();

    let error = service
        .start_bot()
        .expect_err("start should fail when not attached");

    assert_eq!(error, "Cannot start bot: attach to a process first");
    assert_eq!(service.bot.state(), BotState::Stopped);
}

#[test]
fn bot_control_methods_update_state() {
    let mut service = AppService::default();
    let pid = 4242;

    service
        .attach_pid(pid, no_close, open_as(0x10))
        .expect("attach should work for current process");

    service
        .start_bot()
        .expect("start should work when attached");
    assert_eq!(service.bot.state(), BotState::Running);

    service.pause_bot();
    assert_eq!(service.bot.state(), BotState::Paused);

    service.stop_bot();
    assert_eq!(service.bot.state(), BotState::Stopped);
}

#[test]
fn status_line_reports_each_action() {
    let mut service = AppService::default();
    assert_eq!(service.status_message, "");
    service.attach_pid(4242, no_close, open_as(0x10)).unwrap();
    assert_eq!(service.status_message, "Attached to PID 4242");
    service.start_bot().unwrap();
    assert_eq!(service.status_message, "Bot started");
    service.pause_bot();
    assert_eq!(service.status_message, "Bot paused");
    service.stop_bot();
    assert_eq!(service.status_message, "Bot stopped");
    service.clear_profile();
    assert_eq!(service.status_message, "Profile cleared");
    let mut closed = Vec::new();
    service.detach(|h| closed.push(h));
    assert_eq!(service.status_message, "Detached from process");
    assert_eq!(closed, vec![0x10]);
    assert!(!service.memory_reader.is_attached());
}

#[test]
fn attaching_refuses_pid_zero_and_failed_opens() {
    let mut service = AppService::default();
    assert_eq!(
        service.attach_pid(0, no_close, open_as(1)).unwrap_err(),
        "invalid pid"
    );
    assert_eq!(
        service.attach_pid(12, no_close, |_| None).unwrap_err(),
        "failed to open process 12"
    );
    assert!(!service.memory_reader.is_attached());
    assert_eq!(service.status_message, "");
}

#[test]
fn reattaching_closes_the_old_handle_first() {
    let mut service = AppService::default();
    service.attach_pid(1, no_close, open_as(0xA)).unwrap();
    let mut closed = Vec::new();
    service.attach_pid(2, |h| closed.push(h), open_as(0xB)).unwrap();
    assert_eq!(closed, vec![0xA]);
    assert_eq!(service.memory_reader.snapshot_handle(), Ok(0xB));
}

fn entry(pid: u32, name: &str) -> glider_rust::memory::reader::ProcessEntry {
    let mut exe_file: Vec<u16> = name.encode_utf16().collect();
    exe_file.push(0);
    glider_rust::memory::reader::ProcessEntry { pid, exe_file }
}

#[test]
fn auto_attach_finds_the_game() {
    let mut service = AppService::default();
    let pid = service
        .attach_wow(
            || vec![entry(4, "System"), entry(900, "WoW.exe")],
            no_close,
            open_as(0x30),
        )
        .unwrap();
    assert_eq!(pid, 900);
    assert_eq!(service.status_message, "Auto-attached to WoW PID 900");

    let mut other = AppService::default();
    assert_eq!(
        other
            .attach_wow(|| vec![entry(4, "System")], no_close, open_as(1))
            .unwrap_err(),
        "could not find a running WoW process"
    );
}

#[test]
fn poll_interval_is_held_in_range() {
    let mut service = AppService::default();
    service.set_memory_poll_ms(5);
    assert_eq!(service.config.memory_poll_ms, 100);
    service.set_memory_poll_ms(60_000);
    assert_eq!(service.config.memory_poll_ms, 5000);
    service.set_memory_poll_ms(750);
    assert_eq!(service.config.memory_poll_ms, 750);
    assert_eq!(service.cycle_stats().interval_ms, 750);
    service.set_telemetry_enabled(false);
    assert!(!service.config.telemetry_enabled);
}

#[test]
fn keybind_changes_are_reported() {
    let mut service = AppService::default();
    service.set_keybind("Interact", " g ").unwrap();
    assert_eq!(service.config.keybinds.interact, "G");
    assert_eq!(service.status_message, "Updated keybind 'Interact' ->  g ");
    service.set_rotation_slot(2, "x").unwrap();
    assert_eq!(service.config.keybinds.rotation_slots[1], "X");
    assert_eq!(service.status_message, "Updated rotation slot 2 -> x");
    assert!(service.set_rotation_slot(11, "x").is_err());
    assert_eq!(service.status_message, "Updated rotation slot 2 -> x");
}

#[test]
fn loading_a_profile() {
    let mut service = AppService::default();
    assert_eq!(
        service
            .load_profile_from_path("   ", |_| panic!("not called"))
            .unwrap_err(),
        "Profile path cannot be empty"
    );
    assert_eq!(
        service
            .load_profile_from_path("missing.xml", |_| Err("failed to read profile file".to_string()))
            .unwrap_err(),
        "failed to read profile file"
    );
    let count = service
        .load_profile_from_path("route.xml", |_| {
            Ok(GlideProfile {
                name: Some("Route".to_string()),
                min_level: Some(1),
                max_level: Some(5),
                waypoints: vec![Waypoint { x: 0, y: 0 }; 3],
            })
        })
        .unwrap();
    assert_eq!(count, 3);
    assert_eq!(service.status_message, "Loaded profile with 3 waypoints");
    let state = service.state_snapshot();
    assert_eq!(state.active_profile_name.as_deref(), Some("Route"));
    assert_eq!(state.waypoint_progress, Some((1, 3)));
}

fn layout() -> ClientLayout {
    ClientLayout {
        client_connection_addr: 0x1000,
        object_manager_offset: 0x10,
        first_object_offset: 0x20,
        next_object_offset: 0x8,
        active_player_offset: 0x40,
        object_guid_offset: 0x0,
        object_storage_ptr_offset: 0x10,
        player_xyz_offset: 0x20,
        player_heading_offset: 0x2C,
        player_current_health_offset: None,
        player_max_health_offset: None,
        target_current_health_offset: None,
        target_max_health_offset: None,
        unit_field_bytes0_offset: 0x5C,
        unit_field_level_offset: 0xD8,
        unit_field_faction_template_offset: 0xDC,
        target_guid_addr: 0x1200,
        player_names_store_addr: 0x1300,
        player_names_first_node_offset: 0x10,
        player_names_guid_offset: 0x0,
        player_names_name_offset: 0x10,
        player_names_next_offset: 0x40,
        monster_definition_offset: 0x30,
        unit_name_second_offset: 0x4,
        faction_sub_addr: 0x1400,
        faction_base_addr: 0x1404,
        faction_off1_offset: 0x34,
        faction_off2_offset: 0x0,
    }
}

/// A game whose player stands at (10.5, 10.5) with no unit storage.
fn game() -> HashMap<usize, u8> {
    let mut g = HashMap::new();
    let mut put = |at: usize, v: u32| {
        for (i, b) in v.to_le_bytes().iter().enumerate() {
            g.insert(at + i, *b);
        }
    };
    put(0x1000, 0x2000);
    put(0x2010, 0x3000);
    put(0x3040, 0x4000);
    put(0x4020, 10.5f32.to_bits());
    put(0x4024, 10.5f32.to_bits());
    put(0x4028, 0);
    put(0x402C, 0);
    g
}

fn read(g: &HashMap<usize, u8>, at: usize, len: usize) -> Option<Vec<u8>> {
    let out: Vec<u8> = (at..at + len).map_while(|a| g.get(&a).copied()).collect();
    if out.is_empty() {
        None
    } else {
        Some(out)
    }
}

fn distance(_p: (u32, u32, u32), _q: (u32, u32, u32)) -> u32 {
    0
}

fn navigate(t: NavTarget) -> NavFix {
    let dx = f32::from_bits(t.waypoint.x) - f32::from_bits(t.x);
    let dy = f32::from_bits(t.waypoint.y) - f32::from_bits(t.y);
    NavFix {
        desired_heading_rad: dy.atan2(dx).to_bits(),
        heading_error_rad: None,
        distance_to_waypoint: (dx * dx + dy * dy).sqrt().to_bits(),
    }
}

#[test]
fn a_cycle_reads_ticks_and_counts() {
    let g = game();
    let memory = |_h: usize, a: usize, n: usize| read(&g, a, n);
    let mut service = AppService::default();
    service.set_profile(GlideProfile {
        name: Some("Test".to_string()),
        min_level: None,
        max_level: None,
        waypoints: vec![
            Waypoint { x: 10.0f32.to_bits(), y: 10.0f32.to_bits() },
            Waypoint { x: 20.0f32.to_bits(), y: 20.0f32.to_bits() },
        ],
    });

    // Not attached: the read fails, the status line says why.
    service.run_cycle_now(1_000, &layout(), &memory, &distance, navigate, || 3);
    assert!(service.snapshot.is_none());
    assert_eq!(service.status_message, "Snapshot read failed: process not attached");
    assert_eq!(service.cycle_stats().total_cycles, 1);
    assert_eq!(service.cycle_stats().last_cycle_ms, 3);

    service.attach_pid(7, no_close, open_as(0x99)).unwrap();
    service.start_bot().unwrap();
    // The last cycle ran at 1000, so the next scheduled one waits for the poll
    // interval of 2500 ms.
    service.run_scheduled_cycle(1_000 + 2_499_999_999, &layout(), &memory, &distance, navigate, || 1);
    assert_eq!(service.cycle_stats().total_cycles, 1);
    service.run_scheduled_cycle(1_000 + 2_500_000_000, &layout(), &memory, &distance, navigate, || 1);
    assert_eq!(service.cycle_stats().total_cycles, 2);
    assert_eq!(service.cycle_stats().cycles_last_minute, 2);
    let snapshot = service.snapshot.as_ref().expect("snapshot read");
    assert_eq!(snapshot.player_name, "");
    assert_eq!(service.bot.status(), RuntimeStatus::RunningProfile);
    assert_eq!(service.bot.waypoint_progress(), Some((2, 2)));
    assert!(service.state_snapshot().nav_output.waypoint_reached);

    // A minute after the window began, it starts again.
    service.run_cycle_now(61_000_000_000, &layout(), &memory, &distance, navigate, || 1);
    assert_eq!(service.cycle_stats().cycles_last_minute, 1);
    assert_eq!(service.cycle_stats().total_cycles, 3);
}

#[test]
fn scheduled_cycles_wait_for_a_running_bot() {
    let g = game();
    let memory = |_h: usize, a: usize, n: usize| read(&g, a, n);
    let mut service = AppService::default();
    service.run_scheduled_cycle(5, &layout(), &memory, &distance, navigate, || 1);
    assert_eq!(service.cycle_stats().total_cycles, 0);
    assert!(service.snapshot.is_none());
}

#[test]
fn state_snapshot_mirrors_the_service() {
    let mut service = AppService::default();
    service.attach_pid(3, no_close, open_as(5)).unwrap();
    let state = service.state_snapshot();
    assert!(state.memory_attached);
    assert_eq!(state.bot_state, BotState::Stopped);
    assert_eq!(state.bot_status, RuntimeStatus::Idle);
    assert_eq!(state.status_message, "Attached to PID 3");
    assert_eq!(state.active_profile_name, None);
    assert_eq!(state.waypoint_progress, None);
    assert!(state.suggested_inputs.is_empty());
    assert!(state.snapshot.is_none());
    assert_eq!(state.config.memory_poll_ms, 2500);
    assert_eq!(state.cycle_stats.total_cycles, 0);
}
