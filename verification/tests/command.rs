use glider_rust::command::{
    command_named, missing_argument_message, pid_from_arg, wrong_argument_message, ArgKind,
    Command,
};

#[test]
fn commands_are_found_by_name() {
    let all = [
        Command::GetStateSnapshot,
        Command::BotStart,
        Command::BotPause,
        Command::BotStop,
        Command::ProfileLoad,
        Command::ProfileClear,
        Command::MemoryAttachPid,
        Command::MemoryAttachWow,
        Command::MemoryDetach,
        Command::SettingsSetPollInterval,
        Command::SettingsSetTelemetry,
        Command::RunCycleNow,
        Command::RunScheduledCycle,
    ];
    for c in all {
        assert_eq!(command_named(c.name()), Ok(c));
    }
    assert_eq!(command_named("bot_start"), Ok(Command::BotStart));
    assert_eq!(command_named("fly").unwrap_err(), "Unknown command: fly");
    assert_eq!(command_named("BOT_START").unwrap_err(), "Unknown command: BOT_START");
}

#[test]
fn arguments_and_their_errors() {
    assert_eq!(Command::BotStart.argument(), None);
    let (kind, keys) = Command::SettingsSetPollInterval.argument().unwrap();
    assert_eq!(kind, ArgKind::Unsigned);
    assert_eq!(keys, vec!["intervalMs", "interval_ms"]);
    assert_eq!(
        missing_argument_message(&keys),
        format!("Missing required argument. Expected any of keys: {:?}", ["intervalMs", "interval_ms"])
    );
    assert_eq!(
        wrong_argument_message(kind, &keys),
        "Expected unsigned integer for any of keys: [\"intervalMs\", \"interval_ms\"]"
    );
    let (kind, keys) = Command::ProfileLoad.argument().unwrap();
    assert_eq!(wrong_argument_message(kind, &keys), "Expected string for any of keys: [\"path\"]");
    let (kind, keys) = Command::SettingsSetTelemetry.argument().unwrap();
    assert_eq!(
        wrong_argument_message(kind, &keys),
        "Expected boolean for any of keys: [\"telemetryEnabled\", \"telemetry_enabled\"]"
    );
}

#[test]
fn pids_must_fit_in_u32() {
    assert_eq!(pid_from_arg(4242), Ok(4242));
    assert_eq!(pid_from_arg(u32::MAX as u64), Ok(u32::MAX));
    assert_eq!(pid_from_arg(u32::MAX as u64 + 1).unwrap_err(), "pid out of range for u32");
}
