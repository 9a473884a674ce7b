use glider_rust::bot::BotState;
use glider_rust::ui::panels::home::{
    bot_state_display, entity_border, entity_meta_line, entity_present, hostility_tone, meta_tone,
    race_name, waypoint_label,
};
use glider_rust::ui::panels::{debug, diagnostics};
use glider_rust::ui::{
    attachment_dot, repaint_after_ms, tab_caption_tone, title_state_label, ActiveTab, Tone,
};

#[test]
fn tabs_in_order_with_their_captions() {
    let labels: Vec<&str> = ActiveTab::all().iter().map(|t| t.label()).collect();
    assert_eq!(labels, vec!["Home", "Profiles", "Settings", "Debug"]);
    assert_eq!(tab_caption_tone(true), Tone::AccentBlue);
    assert_eq!(tab_caption_tone(false), Tone::TextSecondary);
}

#[test]
fn race_names() {
    assert_eq!(race_name(1), "Human");
    assert_eq!(race_name(4), "Night Elf");
    assert_eq!(race_name(10), "Blood Elf");
    assert_eq!(race_name(11), "Draenei");
    assert_eq!(race_name(9), "Unknown");
    assert_eq!(race_name(0), "Unknown");
}

#[test]
fn verbosity_filters_trace_lines() {
    assert_eq!(debug::DiagnosticsVerbosity::ErrorsAndWarnings.label(), "Errors / Warnings");
    assert_eq!(debug::DiagnosticsVerbosity::All.label(), "All");
    assert!(!debug::DiagnosticsVerbosity::ErrorsAndWarnings.includes("trace player_base=0x00001000"));
    assert!(debug::DiagnosticsVerbosity::ErrorsAndWarnings.includes("target guid read failed"));
    assert!(debug::DiagnosticsVerbosity::ErrorsAndWarnings.includes("Trace is upper-case"));
    assert!(debug::DiagnosticsVerbosity::All.includes("trace anything"));
    assert_eq!(
        diagnostics::DiagnosticsVerbosity::ErrorsAndWarnings.label(),
        "Errors/Warnings"
    );
}

#[test]
fn diagnostics_categories() {
    assert_eq!(debug::category_for("Display id unreadable"), "Model Chain");
    assert_eq!(debug::category_for("trace monster_def=0x1"), "Model Chain");
    assert_eq!(
        debug::category_for("target guid 0x10 not found during object list traversal"),
        "Traversal"
    );
    assert_eq!(debug::category_for("player health read failed all candidate offsets"), "Health");
    assert_eq!(debug::category_for("trace player_hp_probe"), "Health");
    assert_eq!(debug::category_for("target storage pointer unavailable"), "Target");
    assert_eq!(debug::category_for("failed to open PROCESS"), "Process");
    assert_eq!(diagnostics::category_for("attach failed"), "Attach/Process");
    assert_eq!(debug::category_for("player x read failed"), "General");
}

#[test]
fn status_card_pieces() {
    assert_eq!(bot_state_display(BotState::Running), ("\u{25CF}", "Running", Tone::AccentGreen));
    assert_eq!(bot_state_display(BotState::Paused), ("\u{25D0}", "Paused", Tone::AccentYellow));
    assert_eq!(bot_state_display(BotState::Stopped), ("\u{25CB}", "Stopped", Tone::TextDim));
    assert_eq!(waypoint_label(3, 10), "WP 3/10");
    assert_eq!(title_state_label(BotState::Paused), ("\u{25D0} Paused", Tone::AccentYellow));
    assert_eq!(attachment_dot(true), ("\u{25CF}", Tone::AccentGreen));
    assert_eq!(attachment_dot(false), ("\u{25CB}", Tone::TextDim));
}

#[test]
fn unit_card_pieces() {
    assert_eq!(
        entity_meta_line(Some(12), Some("Human"), Some("Hostile")),
        "Lv. 12  \u{00B7}  Human  \u{00B7}  \u{2694} Hostile"
    );
    assert_eq!(entity_meta_line(None, Some("Orc"), None), "Orc");
    assert_eq!(entity_meta_line(Some(3), None, Some("Friendly")), "Lv. 3  \u{00B7}  \u{2713} Friendly");
    assert_eq!(entity_meta_line(None, None, Some("Neutral")), "~ Neutral");
    assert_eq!(entity_meta_line(None, None, None), "\u{2014}");
    assert_eq!(hostility_tone("Hostile"), Tone::AccentRed);
    assert_eq!(hostility_tone("Friendly"), Tone::AccentGreen);
    assert_eq!(hostility_tone("Neutral"), Tone::AccentYellow);
    assert_eq!(meta_tone(None), Tone::TextSecondary);
    assert_eq!(entity_border(Some("Hostile")), Tone::AccentRed);
    assert_eq!(entity_border(Some("Neutral")), Tone::GlassBorder);
    assert!(entity_present(Some("Arthas")));
    assert!(!entity_present(Some("Unknown")));
    assert!(!entity_present(Some("\u{2014}")));
    assert!(!entity_present(None));
}

#[test]
fn repaint_follows_the_poll_while_running() {
    assert_eq!(repaint_after_ms(BotState::Running, 2500), 2500);
    assert_eq!(repaint_after_ms(BotState::Running, 5), 16);
    assert_eq!(repaint_after_ms(BotState::Paused, 2500), 250);
    assert_eq!(repaint_after_ms(BotState::Stopped, 5), 250);
}

fn snapshot_with(diagnostics: &[&str]) -> glider_rust::memory::MemorySnapshot {
    glider_rust::memory::MemorySnapshot {
        player_name: "Unknown".to_string(),
        player_guid: None,
        player_object_type: None,
        player_current_health: None,
        player_max_health: None,
        player_race: None,
        player_level: None,
        player_faction: None,
        player_unit_flags: None,
        player_monster_definition_ptr: None,
        player_display_id: None,
        player_native_display_id: None,
        position: None,
        heading_rad: None,
        target_guid: None,
        target_object_type: None,
        target_name: None,
        target_current_health: None,
        target_max_health: None,
        target_race: None,
        target_level: None,
        target_faction: None,
        target_unit_flags: None,
        target_monster_definition_ptr: None,
        target_display_id: None,
        target_native_display_id: None,
        target_hostility: None,
        target_distance: None,
        diagnostics: diagnostics.iter().map(|s| s.to_string()).collect(),
    }
}

#[test]
fn diagnostics_log_is_filtered_and_grouped() {
    let s = snapshot_with(&[
        "trace player_hp_probe source=configured",
        "target guid read failed",
        "player x read failed",
        "player health read failed all candidate offsets",
        "target storage pointer unavailable",
    ]);
    let lines = debug::log_lines("Attached to PID 7", Some(&s), debug::DiagnosticsVerbosity::ErrorsAndWarnings);
    assert_eq!(
        lines,
        vec![
            "status Attached to PID 7",
            "target guid read failed",
            "player x read failed",
            "player health read failed all candidate offsets",
            "target storage pointer unavailable",
        ]
    );
    let groups = debug::grouped_log(&lines);
    let names: Vec<&str> = groups.iter().map(|g| g.0).collect();
    assert_eq!(names, vec!["General", "Health", "Process", "Target", "Traversal"]);
    assert_eq!(groups[2].1, vec!["status Attached to PID 7"]);
    assert_eq!(groups[4].1, vec!["target guid read failed"]);
    assert_eq!(debug::group_header("Health", 1), "Health  (1)");
    assert!(debug::opens_by_default("Traversal"));
    assert!(!debug::opens_by_default("Target"));

    let all = diagnostics::log_lines("", Some(&s), diagnostics::DiagnosticsVerbosity::All);
    assert_eq!(all.len(), 5);
    let groups = diagnostics::grouped_log(&all);
    let names: Vec<&str> = groups.iter().map(|g| g.0).collect();
    assert_eq!(names, vec!["General", "Health", "Target", "Traversal"]);
    assert_eq!(groups[1].1.len(), 2);
    assert_eq!(diagnostics::group_header("Health", 2), "Health (2)");
    assert!(diagnostics::log_lines("", None, diagnostics::DiagnosticsVerbosity::All).is_empty());
    let process = diagnostics::grouped_log(&vec!["status Attached to PID 7".to_string()]);
    assert_eq!(process[0].0, "Attach/Process");
}
