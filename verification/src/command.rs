use vstd::prelude::*;
use vstd::string::StringExecFns;

use crate::text::same_text;

verus! {

/// The commands the window's script can invoke.
#[derive(Debug, Clone, Copy, PartialEq, Eq, Structural)]
pub enum Command {
    GetStateSnapshot,
    BotStart,
    BotPause,
    BotStop,
    ProfileLoad,
    ProfileClear,
    MemoryAttachPid,
    MemoryAttachWow,
    MemoryDetach,
    SettingsSetPollInterval,
    SettingsSetTelemetry,
    RunCycleNow,
    RunScheduledCycle,
}

/// The name the script invokes a command by.
pub open spec fn command_name(c: Command) -> Seq<char> {
    match c {
        Command::GetStateSnapshot => "get_state_snapshot"@,
        Command::BotStart => "bot_start"@,
        Command::BotPause => "bot_pause"@,
        Command::BotStop => "bot_stop"@,
        Command::ProfileLoad => "profile_load"@,
        Command::ProfileClear => "profile_clear"@,
        Command::MemoryAttachPid => "memory_attach_pid"@,
        Command::MemoryAttachWow => "memory_attach_wow"@,
        Command::MemoryDetach => "memory_detach"@,
        Command::SettingsSetPollInterval => "settings_set_poll_interval"@,
        Command::SettingsSetTelemetry => "settings_set_telemetry"@,
        Command::RunCycleNow => "run_cycle_now"@,
        Command::RunScheduledCycle => "run_scheduled_cycle"@,
    }
}

/// No two commands share a name, so a name invokes at most one command.
pub proof fn lemma_command_names_distinct(a: Command, b: Command)
    ensures
        command_name(a) == command_name(b) ==> a == b,
{
    reveal_strlit("get_state_snapshot");
    reveal_strlit("bot_start");
    reveal_strlit("bot_pause");
    reveal_strlit("bot_stop");
    reveal_strlit("profile_load");
    reveal_strlit("profile_clear");
    reveal_strlit("memory_attach_pid");
    reveal_strlit("memory_attach_wow");
    reveal_strlit("memory_detach");
    reveal_strlit("settings_set_poll_interval");
    reveal_strlit("settings_set_telemetry");
    reveal_strlit("run_cycle_now");
    reveal_strlit("run_scheduled_cycle");
    let (na, nb) = (command_name(a), command_name(b));
    if na == nb {
        // Names of equal length differ at their first, fifth or fifteenth char.
        assert(na.len() == nb.len() && na[0] == nb[0] && na[4] == nb[4] && na[14] == nb[14]);
    }
}

/// What kind of value a command's argument must be.
#[derive(Debug, Clone, Copy, PartialEq, Eq, Structural)]
pub enum ArgKind {
    Text,
    Unsigned,
    Boolean,
}

/// The argument a command needs, if any: its kind and the keys it may be given
/// under, tried in order.
pub open spec fn command_argument(c: Command) -> Option<(ArgKind, Seq<Seq<char>>)> {
    match c {
        Command::ProfileLoad => Some((ArgKind::Text, seq!["path"@])),
        Command::MemoryAttachPid => Some((ArgKind::Unsigned, seq!["pid"@])),
        Command::SettingsSetPollInterval => Some(
            (ArgKind::Unsigned, seq!["intervalMs"@, "interval_ms"@]),
        ),
        Command::SettingsSetTelemetry => Some(
            (ArgKind::Boolean, seq!["telemetryEnabled"@, "telemetry_enabled"@]),
        ),
        _ => None,
    }
}

/// The words that name a kind of argument in an error.
pub open spec fn kind_words(k: ArgKind) -> Seq<char> {
    match k {
        ArgKind::Text => "string"@,
        ArgKind::Unsigned => "unsigned integer"@,
        ArgKind::Boolean => "boolean"@,
    }
}

/// A list of keys as `{:?}` shows a slice of plain strings: each key in double
/// quotes, separated by a comma and a space, within square brackets.
pub open spec fn keys_list(keys: Seq<Seq<char>>) -> Seq<char> {
    "["@ + quoted_keys(keys) + "]"@
}

pub open spec fn quoted_keys(keys: Seq<Seq<char>>) -> Seq<char>
    decreases keys.len(),
{
    if keys.len() == 0 {
        seq![]
    } else if keys.len() == 1 {
        "\""@ + keys[0] + "\""@
    } else {
        quoted_keys(keys.drop_last()) + ", \""@ + keys.last() + "\""@
    }
}

impl Command {
    /// The name the script invokes the command by.
    pub fn name(self) -> (n: &'static str)
        ensures
            n@ == command_name(self),
    {
        match self {
            Command::GetStateSnapshot => "get_state_snapshot",
            Command::BotStart => "bot_start",
            Command::BotPause => "bot_pause",
            Command::BotStop => "bot_stop",
            Command::ProfileLoad => "profile_load",
            Command::ProfileClear => "profile_clear",
            Command::MemoryAttachPid => "memory_attach_pid",
            Command::MemoryAttachWow => "memory_attach_wow",
            Command::MemoryDetach => "memory_detach",
            Command::SettingsSetPollInterval => "settings_set_poll_interval",
            Command::SettingsSetTelemetry => "settings_set_telemetry",
            Command::RunCycleNow => "run_cycle_now",
            Command::RunScheduledCycle => "run_scheduled_cycle",
        }
    }

    /// The argument the command needs; see `command_argument`.
    pub fn argument(self) -> (r: Option<(ArgKind, Vec<&'static str>)>)
        ensures
            match command_argument(self) {
                Some((k, keys)) => r matches Some((rk, rkeys)) && rk == k && rkeys@.map_values(
                    |s: &str| s@,
                ) == keys,
                None => r is None,
            },
    {
        match self {
            Command::ProfileLoad => {
                let v = vec!["path"];
                assert(v@.map_values(|s: &str| s@) =~= seq!["path"@]);
                Some((ArgKind::Text, v))
            },
            Command::MemoryAttachPid => {
                let v = vec!["pid"];
                assert(v@.map_values(|s: &str| s@) =~= seq!["pid"@]);
                Some((ArgKind::Unsigned, v))
            },
            Command::SettingsSetPollInterval => {
                let v = vec!["intervalMs", "interval_ms"];
                assert(v@.map_values(|s: &str| s@) =~= seq!["intervalMs"@, "interval_ms"@]);
                Some((ArgKind::Unsigned, v))
            },
            Command::SettingsSetTelemetry => {
                let v = vec!["telemetryEnabled", "telemetry_enabled"];
                assert(v@.map_values(|s: &str| s@) =~= seq!["telemetryEnabled"@, "telemetry_enabled"@]);
                Some((ArgKind::Boolean, v))
            },
            _ => None,
        }
    }
}

/// The command invoked by `cmd`, or the error naming the unknown command.
pub fn command_named(cmd: &str) -> (r: Result<Command, String>)
    ensures
        r matches Ok(c) ==> command_name(c) == cmd@,
        forall|c: Command| command_name(c) == cmd@ ==> r == Ok::<Command, String>(c),
        r is Err ==> forall|c: Command| command_name(c) != cmd@,
        r matches Err(e) ==> e@ == "Unknown command: "@ + cmd@,
{
    let r = if same_text(cmd, "get_state_snapshot") {
        Ok(Command::GetStateSnapshot)
    } else if same_text(cmd, "bot_start") {
        Ok(Command::BotStart)
    } else if same_text(cmd, "bot_pause") {
        Ok(Command::BotPause)
    } else if same_text(cmd, "bot_stop") {
        Ok(Command::BotStop)
    } else if same_text(cmd, "profile_load") {
        Ok(Command::ProfileLoad)
    } else if same_text(cmd, "profile_clear") {
        Ok(Command::ProfileClear)
    } else if same_text(cmd, "memory_attach_pid") {
        Ok(Command::MemoryAttachPid)
    } else if same_text(cmd, "memory_attach_wow") {
        Ok(Command::MemoryAttachWow)
    } else if same_text(cmd, "memory_detach") {
        Ok(Command::MemoryDetach)
    } else if same_text(cmd, "settings_set_poll_interval") {
        Ok(Command::SettingsSetPollInterval)
    } else if same_text(cmd, "settings_set_telemetry") {
        Ok(Command::SettingsSetTelemetry)
    } else if same_text(cmd, "run_cycle_now") {
        Ok(Command::RunCycleNow)
    } else if same_text(cmd, "run_scheduled_cycle") {
        Ok(Command::RunScheduledCycle)
    } else {
        let mut e = String::from_str("Unknown command: ");
        e.append(cmd);
        Err(e)
    };
    proof {
        assert forall|c: Command| command_name(c) == cmd@ implies r == Ok::<Command, String>(c) by {
            if let Ok(found) = r {
                lemma_command_names_distinct(c, found);
            }
        }
    }
    r
}

fn keys_text(keys: &Vec<&str>) -> (s: String)
    ensures
        s@ == keys_list(keys@.map_values(|k: &str| k@)),
{
    let ghost views = keys@.map_values(|k: &str| k@);
    let mut s = String::new();
    let mut i: usize = 0;
    while i < keys.len()
        invariant
            i <= keys.len(),
            views == keys@.map_values(|k: &str| k@),
            s@ == quoted_keys(views.subrange(0, i as int)),
        decreases keys.len() - i,
    {
        let ghost before = views.subrange(0, i as int);
        assert(views.subrange(0, i + 1).drop_last() =~= before);
        assert(views.subrange(0, i + 1).last() == keys[i as int]@);
        proof {
            reveal_strlit(", ");
            reveal_strlit("\"");
            reveal_strlit(", \"");
            assert(", \""@ =~= ", "@ + "\""@);
        }
        if i > 0 {
            s.append(", ");
        }
        s.append("\"");
        s.append(keys[i]);
        s.append("\"");
        i = i + 1;
    }
    assert(views.subrange(0, keys.len() as int) =~= views);
    let mut r = String::from_str("[");
    r.append(s.as_str());
    r.append("]");
    r
}

/// The error for an argument given under none of `keys`.
pub fn missing_argument_message(keys: &Vec<&str>) -> (s: String)
    ensures
        s@ == "Missing required argument. Expected any of keys: "@ + keys_list(
            keys@.map_values(|k: &str| k@),
        ),
{
    let mut s = String::from_str("Missing required argument. Expected any of keys: ");
    let k = keys_text(keys);
    s.append(k.as_str());
    s
}

/// The error for an argument given as a value of the wrong kind.
pub fn wrong_argument_message(kind: ArgKind, keys: &Vec<&str>) -> (s: String)
    ensures
        s@ == "Expected "@ + kind_words(kind) + " for any of keys: "@ + keys_list(
            keys@.map_values(|k: &str| k@),
        ),
{
    let mut s = String::from_str("Expected ");
    match kind {
        ArgKind::Text => s.append("string"),
        ArgKind::Unsigned => s.append("unsigned integer"),
        ArgKind::Boolean => s.append("boolean"),
    }
    s.append(" for any of keys: ");
    let k = keys_text(keys);
    s.append(k.as_str());
    s
}

/// A process id given as an unsigned argument, which must fit in a `u32`.
pub fn pid_from_arg(pid: u64) -> (r: Result<u32, String>)
    ensures
        pid <= u32::MAX ==> r == Ok::<u32, String>(pid as u32),
        pid > u32::MAX ==> (r matches Err(e) && e@ == "pid out of range for u32"@),
{
    if pid <= u32::MAX as u64 {
        Ok(pid as u32)
    } else {
        Err(String::from_str("pid out of range for u32"))
    }
}

} // verus!
