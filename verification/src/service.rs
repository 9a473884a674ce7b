use vstd::prelude::*;
use vstd::string::StringExecFns;

use crate::bot::{BotRuntime, BotState, BotView, NavFix, NavTarget, NavigationOutput, RuntimeStatus};
use crate::config::{action_key, action_slot, normalized_key, AppConfig, KeybindView};
use crate::format::{decimal, decimal_string};
use crate::input::InputCommand;
use crate::memory::reader::{error_message, wow_pid, MemoryReader, MemoryReaderError, ProcessEntry, ReaderView};
use crate::memory::snapshot::{distance_ready, memory_ready, snapshot_read, ClientLayout};
use crate::memory::types::{same_snapshot, MemorySnapshot};
use crate::profile::types::GlideProfile;
use crate::text::{trim, trim_chars};

verus! {

use crate::bot::{suggested, ticked};

/// Counters of the memory-reading cycle.
#[derive(Debug, Clone, Copy, PartialEq, Eq, Structural)]
pub struct CycleStatsSnapshot {
    pub interval_ms: u64,
    pub cycles_last_minute: u64,
    pub total_cycles: u64,
    pub last_cycle_ms: u64,
}

/// Everything the user interface shows, taken at one moment.
#[derive(Debug)]
pub struct AppStateSnapshot {
    pub config: AppConfig,
    pub status_message: String,
    pub memory_attached: bool,
    pub bot_state: BotState,
    pub bot_status: RuntimeStatus,
    pub active_profile_name: Option<String>,
    pub waypoint_progress: Option<(usize, usize)>,
    pub nav_output: NavigationOutput,
    pub suggested_inputs: Vec<InputCommand>,
    pub snapshot: Option<MemorySnapshot>,
    pub cycle_stats: CycleStatsSnapshot,
}

/// The cycle bookkeeping of an `AppService`. Times are nanoseconds on the caller's
/// monotonic clock.
pub struct CycleView {
    pub last_cycle_at: Option<u64>,
    pub window_started: u64,
    pub cycles_last_minute: u64,
    pub total_cycles: u64,
    pub last_cycle_ms: u64,
}

/// The application: configuration, bot, attachment, last snapshot and status line,
/// and the bookkeeping of the memory-reading cycle.
#[derive(Debug)]
pub struct AppService {
    pub config: AppConfig,
    pub bot: BotRuntime,
    pub memory_reader: MemoryReader,
    pub snapshot: Option<MemorySnapshot>,
    pub status_message: String,
    last_cycle_at: Option<u64>,
    cycle_window_started: u64,
    cycles_last_minute: u64,
    total_cycles: u64,
    last_cycle_ms: u64,
}

/// What an `AppService` holds.
pub struct ServiceView {
    pub config: AppConfig,
    pub bot: BotView,
    pub reader: ReaderView,
    pub snapshot: Option<MemorySnapshot>,
    pub status: Seq<char>,
    pub cycles: CycleView,
}

impl View for AppService {
    type V = ServiceView;

    closed spec fn view(&self) -> ServiceView {
        ServiceView {
            config: self.config,
            bot: self.bot@,
            reader: self.memory_reader@,
            snapshot: self.snapshot,
            status: self.status_message@,
            cycles: CycleView {
                last_cycle_at: self.last_cycle_at,
                window_started: self.cycle_window_started,
                cycles_last_minute: self.cycles_last_minute,
                total_cycles: self.total_cycles,
                last_cycle_ms: self.last_cycle_ms,
            },
        }
    }
}

/// The shortest and longest memory poll intervals, in milliseconds.
pub const MIN_POLL_MS: u64 = 100;

pub const MAX_POLL_MS: u64 = 5000;

/// How long the window for `cycles_last_minute` lasts: one minute, in nanoseconds.
pub const CYCLE_WINDOW_NS: u64 = 60_000_000_000;

/// How many nanoseconds make a millisecond.
pub const NS_PER_MS: u128 = 1_000_000;

pub open spec fn not_attached_message() -> Seq<char> {
    "Cannot start bot: attach to a process first"@
}

pub open spec fn empty_path_message() -> Seq<char> {
    "Profile path cannot be empty"@
}

/// `interval_ms` held within 100 to 5000.
pub open spec fn clamp_poll(interval_ms: u64) -> u64 {
    if interval_ms < MIN_POLL_MS {
        MIN_POLL_MS
    } else if interval_ms > MAX_POLL_MS {
        MAX_POLL_MS
    } else {
        interval_ms
    }
}

/// How long passed from `earlier` to `later`, zero when the clock reads earlier.
pub open spec fn elapsed(later: u64, earlier: u64) -> u64 {
    if later >= earlier {
        (later - earlier) as u64
    } else {
        0
    }
}

/// Whether a scheduled cycle is due at `now`: always before the first cycle, then
/// once the poll interval has passed since the last one.
pub open spec fn cycle_due(last_cycle_at: Option<u64>, now: u64, interval_ms: u64) -> bool {
    match last_cycle_at {
        None => true,
        Some(t) => (elapsed(now, t) as int) >= (interval_ms as int) * (NS_PER_MS as int),
    }
}

/// What the snapshot read of a cycle gives: the reader's error when it is not
/// attached, else what a read of the game through its handle gives (`snapshot_read`).
pub open spec fn read_outcome<
    M: Fn(usize, usize, usize) -> Option<Vec<u8>>,
    D: Fn((u32, u32, u32), (u32, u32, u32)) -> u32,
>(
    reader: ReaderView,
    layout: ClientLayout,
    memory: M,
    distance: D,
    outcome: Result<MemorySnapshot, MemoryReaderError>,
) -> bool {
    match (reader.handle, reader.pid) {
        (Some(h), Some(_)) => snapshot_read(memory, h, layout, distance, outcome),
        _ => outcome == Err::<MemorySnapshot, MemoryReaderError>(MemoryReaderError::NotAttached),
    }
}

/// The state of the cycle counters after a cycle at `now` that took `took_ms`: the
/// minute window restarts when a minute has passed since it began, and both
/// counters count the cycle.
pub open spec fn counted(before: CycleView, now: u64, took_ms: u64) -> CycleView {
    let restart = elapsed(now, before.window_started) >= CYCLE_WINDOW_NS;
    CycleView {
        last_cycle_at: Some(now),
        window_started: if restart {
            now
        } else {
            before.window_started
        },
        cycles_last_minute: ((if restart {
            0
        } else {
            before.cycles_last_minute as int
        }) + 1) as u64,
        total_cycles: (before.total_cycles + 1) as u64,
        last_cycle_ms: took_ms,
    }
}

fn text(s: &str) -> (r: String)
    ensures
        r@ == s@,
{
    String::from_str(s)
}

fn concat2(a: &str, b: &str) -> (r: String)
    ensures
        r@ == a@ + b@,
{
    let mut r = String::from_str(a);
    r.append(b);
    r
}

fn concat3(a: &str, b: &str, c: &str) -> (r: String)
    ensures
        r@ == a@ + b@ + c@,
{
    let mut r = String::from_str(a);
    r.append(b);
    r.append(c);
    r
}

fn concat4(a: &str, b: &str, c: &str, d: &str) -> (r: String)
    ensures
        r@ == a@ + b@ + c@ + d@,
{
    let mut r = concat3(a, b, c);
    r.append(d);
    r
}

/// How an attachment to `pid` ended, given what opening it gave: `opened` is the
/// handle, or `None` when the process could not be opened, which leaves the reader
/// detached and the status line as it was; success sets the status line to
/// `announce` followed by the pid.
pub open spec fn attached_as(
    pid: u32,
    opened: Option<usize>,
    r: Result<(), String>,
    reader: ReaderView,
    status_before: Seq<char>,
    status_after: Seq<char>,
    announce: Seq<char>,
) -> bool {
    match opened {
        None => {
            &&& r matches Err(e) && e@ == error_message(MemoryReaderError::OpenProcessFailed(pid))
            &&& reader.pid is None && reader.handle is None
            &&& status_after == status_before
        },
        Some(h) => {
            &&& r is Ok
            &&& reader.pid == Some(pid) && reader.handle == Some(h)
            &&& status_after == announce + decimal(pid as nat)
        },
    }
}

pub open spec fn snapshot_failed_message(e: MemoryReaderError) -> Seq<char> {
    "Snapshot read failed: "@ + error_message(e)
}

/// How one memory-reading cycle at `now` takes the service from `before` to `after`:
/// the game is read (`read_outcome`), the snapshot kept or dropped with the failure on the
/// status line, the bot ticks on it, and the counters count the cycle with the
/// duration `took` that `elapsed_ms` measured.
pub open spec fn cycled<
    M: Fn(usize, usize, usize) -> Option<Vec<u8>>,
    D: Fn((u32, u32, u32), (u32, u32, u32)) -> u32,
    N: Fn(NavTarget) -> NavFix,
    E: FnOnce() -> u64,
>(
    before: ServiceView,
    after: ServiceView,
    now: u64,
    layout: ClientLayout,
    memory: M,
    distance: D,
    navigate: N,
    elapsed_ms: E,
) -> bool {
    exists|outcome: Result<MemorySnapshot, MemoryReaderError>, took: u64|
        #[trigger] read_outcome(before.reader, layout, memory, distance, outcome) && #[trigger] call_ensures(
            elapsed_ms,
            (),
            took,
        ) && {
            &&& after.config == before.config
            &&& after.reader == before.reader
            &&& after.snapshot == match outcome {
                Ok(s) => Some(s),
                Err(_) => None,
            }
            &&& after.status == match outcome {
                Ok(_) => before.status,
                Err(e) => snapshot_failed_message(e),
            }
            &&& ticked(before.bot, after.bot, after.snapshot, navigate)
            &&& after.cycles == counted(before.cycles, now, took)
        }
}

/// Whether the cycle counters can count one more cycle.
pub open spec fn room_for_cycle(c: CycleView) -> bool {
    c.total_cycles < u64::MAX && c.cycles_last_minute < u64::MAX
}

/// Whatever interval is asked for, the one that is set lies within 100 to 5000
/// milliseconds; an interval already in that range is kept as it is, and setting
/// the interval that was set changes nothing.
pub proof fn lemma_poll_interval_in_range(interval_ms: u64)
    ensures
        MIN_POLL_MS <= clamp_poll(interval_ms) <= MAX_POLL_MS,
        MIN_POLL_MS <= interval_ms <= MAX_POLL_MS ==> clamp_poll(interval_ms) == interval_ms,
        clamp_poll(clamp_poll(interval_ms)) == clamp_poll(interval_ms),
{
}

/// Counting a cycle adds one to the total and keeps the count of the last minute
/// at least one and at most the total, so the minute never counts more cycles than
/// have run.
pub proof fn lemma_cycle_counts_ordered(before: CycleView, now: u64, took_ms: u64)
    requires
        before.cycles_last_minute <= before.total_cycles,
        room_for_cycle(before),
    ensures
        counted(before, now, took_ms).total_cycles == before.total_cycles + 1,
        1 <= counted(before, now, took_ms).cycles_last_minute <= counted(
            before,
            now,
            took_ms,
        ).total_cycles,
{
}

/// After a cycle at `t`, a scheduled cycle is due again only once the poll
/// interval has passed since `t`.
pub proof fn lemma_cycles_spaced_by_interval(
    before: CycleView,
    t: u64,
    took_ms: u64,
    now: u64,
    interval_ms: u64,
)
    ensures
        cycle_due(counted(before, t, took_ms).last_cycle_at, now, interval_ms) <==> (elapsed(now, t)
            as int) >= (interval_ms as int) * (NS_PER_MS as int),
{
}

/// The one-minute window follows the cycles: after a cycle at `now`, not earlier
/// than the window began, the window began at most a minute before `now`; a cycle a
/// minute or more after the window began starts a new window at its own time, as
/// the first cycle of that window; a cycle within the minute is one more cycle of
/// the window it falls in.
pub proof fn lemma_window_follows_cycles(before: CycleView, now: u64, took_ms: u64)
    requires
        before.window_started <= now,
        before.cycles_last_minute < u64::MAX,
    ensures
        now - before.window_started < CYCLE_WINDOW_NS ==> counted(
            before,
            now,
            took_ms,
        ).window_started == before.window_started && counted(before, now, took_ms).cycles_last_minute
            == before.cycles_last_minute + 1,
        counted(before, now, took_ms).window_started <= now,
        now - counted(before, now, took_ms).window_started < CYCLE_WINDOW_NS,
        now - before.window_started >= CYCLE_WINDOW_NS ==> counted(
            before,
            now,
            took_ms,
        ).window_started == now && counted(before, now, took_ms).cycles_last_minute == 1,
{
}

/// Cycles less than a minute apart count together: when a cycle at `t1` starts a
/// new window (a minute or more after the old one began), a cycle at `t2` less than
/// a minute after `t1` is the second cycle of that window.
pub proof fn lemma_cycles_within_a_minute_count_together(
    before: CycleView,
    t1: u64,
    took1: u64,
    t2: u64,
    took2: u64,
)
    requires
        before.window_started <= t1 <= t2,
        t1 - before.window_started >= CYCLE_WINDOW_NS,
        t2 - t1 < CYCLE_WINDOW_NS,
    ensures
        counted(counted(before, t1, took1), t2, took2).window_started == t1,
        counted(counted(before, t1, took1), t2, took2).cycles_last_minute == 2,
{
}

impl Default for AppService {
    fn default() -> (r: Self)
        ensures
            r@.config.telemetry_enabled && r@.config.memory_poll_ms == 2500,
            r@.config.keybinds@ == crate::config::default_keybinds(),
            r@.bot.state == BotState::Stopped && r@.bot.status == RuntimeStatus::Idle,
            r@.bot.profile is None && r@.bot.waypoint_index == 0,
            r@.reader.pid is None && r@.reader.handle is None,
            r@.snapshot is None,
            r@.status == Seq::<char>::empty(),
            r@.cycles == (CycleView {
                last_cycle_at: None,
                window_started: 0,
                cycles_last_minute: 0,
                total_cycles: 0,
                last_cycle_ms: 0,
            }),
    {
        AppService {
            config: AppConfig::default(),
            bot: BotRuntime::default(),
            memory_reader: MemoryReader::default(),
            snapshot: None,
            status_message: String::new(),
            last_cycle_at: None,
            cycle_window_started: 0,
            cycles_last_minute: 0,
            total_cycles: 0,
            last_cycle_ms: 0,
        }
    }
}

impl AppService {
    /// The poll interval and the cycle counters.
    pub fn cycle_stats(&self) -> (s: CycleStatsSnapshot)
        ensures
            s == (CycleStatsSnapshot {
                interval_ms: self@.config.memory_poll_ms,
                cycles_last_minute: self@.cycles.cycles_last_minute,
                total_cycles: self@.cycles.total_cycles,
                last_cycle_ms: self@.cycles.last_cycle_ms,
            }),
    {
        CycleStatsSnapshot {
            interval_ms: self.config.memory_poll_ms,
            cycles_last_minute: self.cycles_last_minute,
            total_cycles: self.total_cycles,
            last_cycle_ms: self.last_cycle_ms,
        }
    }

    /// A copy of everything the user interface shows.
    pub fn state_snapshot(&self) -> (s: AppStateSnapshot)
        ensures
            s.config.telemetry_enabled == self@.config.telemetry_enabled,
            s.config.memory_poll_ms == self@.config.memory_poll_ms,
            s.config.keybinds@ == self@.config.keybinds@,
            s.status_message@ == self@.status,
            s.memory_attached == (self@.reader.pid is Some && self@.reader.handle is Some),
            s.bot_state == self@.bot.state,
            s.bot_status == self@.bot.status,
            match self@.bot.profile {
                Some(p) => match p.name {
                    Some(name) => s.active_profile_name matches Some(n) && n@ == name,
                    None => s.active_profile_name is None,
                },
                None => s.active_profile_name is None,
            },
            match self@.bot.profile {
                Some(p) => s.waypoint_progress == Some(
                    ((self@.bot.waypoint_index + 1) as usize, p.waypoints.len() as usize),
                ),
                None => s.waypoint_progress is None,
            },
            s.nav_output == self@.bot.nav,
            s.suggested_inputs@ == suggested(self@.bot.state, self@.bot.status, self@.bot.nav),
            match self@.snapshot {
                Some(a) => s.snapshot matches Some(b) && same_snapshot(b, a),
                None => s.snapshot is None,
            },
            s.cycle_stats == (CycleStatsSnapshot {
                interval_ms: self@.config.memory_poll_ms,
                cycles_last_minute: self@.cycles.cycles_last_minute,
                total_cycles: self@.cycles.total_cycles,
                last_cycle_ms: self@.cycles.last_cycle_ms,
            }),
    {
        let name = match self.bot.active_profile_name() {
            Some(n) => Some(text(n)),
            None => None,
        };
        let snapshot = match &self.snapshot {
            Some(s) => Some(s.clone()),
            None => None,
        };
        AppStateSnapshot {
            config: self.config.clone(),
            status_message: self.status_message.clone(),
            memory_attached: self.memory_reader.is_attached(),
            bot_state: self.bot.state(),
            bot_status: self.bot.status(),
            active_profile_name: name,
            waypoint_progress: self.bot.waypoint_progress(),
            nav_output: *self.bot.nav_output(),
            suggested_inputs: self.bot.suggested_inputs(),
            snapshot,
            cycle_stats: self.cycle_stats(),
        }
    }

    /// Starts the bot, which needs an attached process; otherwise the bot stays as it
    /// is and the refusal becomes the status line.
    pub fn start_bot(&mut self) -> (r: Result<(), String>)
        ensures
            final(self)@.config == old(self)@.config,
            final(self)@.reader == old(self)@.reader,
            final(self)@.snapshot == old(self)@.snapshot,
            final(self)@.cycles == old(self)@.cycles,
            (old(self)@.reader.pid is Some && old(self)@.reader.handle is Some) ==> (r
                is Ok && final(self)@.bot == (BotView {
                state: BotState::Running,
                status: RuntimeStatus::PollingMemory,
                ..old(self)@.bot
            }) && final(self)@.status == "Bot started"@),
            !(old(self)@.reader.pid is Some && old(self)@.reader.handle is Some) ==> (r
                matches Err(e) && e@ == not_attached_message() && final(self)@.bot == old(self)@.bot
                && final(self)@.status == not_attached_message()),
    {
        if !self.memory_reader.is_attached() {
            self.status_message = text("Cannot start bot: attach to a process first");
            return Err(self.status_message.clone());
        }
        self.bot.start();
        self.status_message = text("Bot started");
        Ok(())
    }

    /// Pauses the bot.
    pub fn pause_bot(&mut self)
        ensures
            final(self)@.config == old(self)@.config,
            final(self)@.reader == old(self)@.reader,
            final(self)@.snapshot == old(self)@.snapshot,
            final(self)@.cycles == old(self)@.cycles,
            final(self)@.bot == (BotView {
                state: BotState::Paused,
                status: RuntimeStatus::Paused,
                ..old(self)@.bot
            }),
            final(self)@.status == "Bot paused"@,
    {
        self.bot.pause();
        self.status_message = text("Bot paused");
    }

    /// Stops the bot.
    pub fn stop_bot(&mut self)
        ensures
            final(self)@.config == old(self)@.config,
            final(self)@.reader == old(self)@.reader,
            final(self)@.snapshot == old(self)@.snapshot,
            final(self)@.cycles == old(self)@.cycles,
            final(self)@.bot == (BotView {
                state: BotState::Stopped,
                status: RuntimeStatus::Idle,
                nav: crate::bot::no_navigation(),
                ..old(self)@.bot
            }),
            final(self)@.status == "Bot stopped"@,
    {
        self.bot.stop();
        self.status_message = text("Bot stopped");
    }

    /// Makes `profile` the bot's route.
    pub fn set_profile(&mut self, profile: GlideProfile)
        ensures
            final(self)@.config == old(self)@.config,
            final(self)@.reader == old(self)@.reader,
            final(self)@.snapshot == old(self)@.snapshot,
            final(self)@.status == old(self)@.status,
            final(self)@.cycles == old(self)@.cycles,
            final(self)@.bot == (BotView {
                profile: Some(profile@),
                waypoint_index: 0,
                nav: crate::bot::no_navigation(),
                ..old(self)@.bot
            }),
    {
        self.bot.set_profile(profile);
    }

    /// Loads the profile at `path` with `load` and makes it the route, reporting the
    /// number of waypoints. A blank path is refused without calling `load`; an error
    /// from `load` is handed back; either leaves everything as it was.
    pub fn load_profile_from_path<L: FnOnce(&str) -> Result<GlideProfile, String>>(
        &mut self,
        path: &str,
        load: L,
    ) -> (r: Result<usize, String>)
        requires
            call_requires(load, (path,)),
        ensures
            final(self)@.config == old(self)@.config,
            final(self)@.reader == old(self)@.reader,
            final(self)@.snapshot == old(self)@.snapshot,
            final(self)@.cycles == old(self)@.cycles,
            trim(path@).len() == 0 ==> (r matches Err(e) && e@ == empty_path_message()
                && final(self)@.bot == old(self)@.bot && final(self)@.status
                == old(self)@.status),
            trim(path@).len() != 0 ==> (exists|loaded: Result<GlideProfile, String>|
                #[trigger] call_ensures(load, (path,), loaded) && match loaded {
                    Err(e) => r == Err::<usize, String>(e) && final(self)@.bot == old(self)@.bot
                        && final(self)@.status == old(self)@.status,
                    Ok(p) => r == Ok::<usize, String>(p.waypoints@.len() as usize)
                        && final(self)@.bot == (BotView {
                        profile: Some(p@),
                        waypoint_index: 0,
                        nav: crate::bot::no_navigation(),
                        ..old(self)@.bot
                    }) && final(self)@.status == "Loaded profile with "@ + decimal(
                        p.waypoints@.len(),
                    ) + " waypoints"@,
                }),
    {
        let t = trim_chars(path);
        if t.len() == 0 {
            return Err(text("Profile path cannot be empty"));
        }
        let loaded = load(path);
        let ghost before = loaded;
        match loaded {
            Err(e) => Err(e),
            Ok(profile) => {
                let count = profile.waypoints.len();
                let ghost p = profile;
                self.bot.set_profile(profile);
                let digits = decimal_string(count as u64);
                self.status_message = concat3("Loaded profile with ", digits.as_str(), " waypoints");
                assert(call_ensures(load, (path,), before));
                Ok(count)
            },
        }
    }

    /// Drops the bot's route.
    pub fn clear_profile(&mut self)
        ensures
            final(self)@.config == old(self)@.config,
            final(self)@.reader == old(self)@.reader,
            final(self)@.snapshot == old(self)@.snapshot,
            final(self)@.cycles == old(self)@.cycles,
            final(self)@.bot == (BotView {
                profile: None,
                waypoint_index: 0,
                nav: crate::bot::no_navigation(),
                ..old(self)@.bot
            }),
            final(self)@.status == "Profile cleared"@,
    {
        self.bot.clear_profile();
        self.status_message = text("Profile cleared");
    }

    /// Attaches to process `pid`: a zero pid is refused; otherwise the reader drops
    /// its attachment (`close` closes the old handle, if any) and `open` opens the
    /// process, whose failure leaves the reader detached.
    pub fn attach_pid<C: FnOnce(usize), O: FnOnce(u32) -> Option<usize>>(
        &mut self,
        pid: u32,
        close: C,
        open: O,
    ) -> (r: Result<(), String>)
        requires
            forall|h: usize| call_requires(close, (h,)),
            call_requires(open, (pid,)),
        ensures
            final(self)@.config == old(self)@.config,
            final(self)@.bot == old(self)@.bot,
            final(self)@.snapshot == old(self)@.snapshot,
            final(self)@.cycles == old(self)@.cycles,
            pid == 0 ==> (r matches Err(e) && e@ == error_message(MemoryReaderError::InvalidPid)
                && final(self)@.reader == old(self)@.reader
                && final(self)@.status == old(self)@.status),
            pid != 0 ==> (old(self)@.reader.handle matches Some(h) ==> call_ensures(close, (h,), ())),
            pid != 0 ==> (exists|opened: Option<usize>|
                #[trigger] call_ensures(open, (pid,), opened) && attached_as(
                    pid,
                    opened,
                    r,
                    final(self)@.reader,
                    old(self)@.status,
                    final(self)@.status,
                    "Attached to PID "@,
                )),
    {
        match self.memory_reader.attach(pid, close, open) {
            Err(e) => Err(e.message()),
            Ok(()) => {
                let digits = decimal_string(pid as u64);
                self.status_message = concat2("Attached to PID ", digits.as_str());
                Ok(())
            },
        }
    }

    /// Attaches to the first running game client: `list` gives the process list,
    /// then the attachment goes as in `attach_pid`, announced as an auto-attachment.
    pub fn attach_wow<
        L: FnOnce() -> Vec<ProcessEntry>,
        C: FnOnce(usize),
        O: FnOnce(u32) -> Option<usize>,
    >(&mut self, list: L, close: C, open: O) -> (r: Result<u32, String>)
        requires
            call_requires(list, ()),
            forall|h: usize| call_requires(close, (h,)),
            forall|pid: u32| call_requires(open, (pid,)),
        ensures
            final(self)@.config == old(self)@.config,
            final(self)@.bot == old(self)@.bot,
            final(self)@.snapshot == old(self)@.snapshot,
            final(self)@.cycles == old(self)@.cycles,
            exists|entries: Vec<ProcessEntry>|
                #[trigger] call_ensures(list, (), entries) && match wow_pid(entries@) {
                    None => (r matches Err(e) && e@ == error_message(
                        MemoryReaderError::WowProcessNotFound,
                    )) && final(self)@.reader == old(self)@.reader && final(self)@.status == old(self)@.status,
                    Some(pid) => if pid == 0 {
                        (r matches Err(e) && e@ == error_message(MemoryReaderError::InvalidPid))
                            && final(self)@.reader == old(self)@.reader && final(self)@.status
                            == old(self)@.status
                    } else {
                        (old(self)@.reader.handle matches Some(h) ==> call_ensures(close, (h,), ())) &&
                        exists|opened: Option<usize>|
                            #[trigger] call_ensures(open, (pid,), opened) && match opened {
                                None => (r matches Err(e) && e@ == error_message(
                                    MemoryReaderError::OpenProcessFailed(pid),
                                )) && final(self)@.reader.pid is None && final(self)@.reader.handle is None && final(self)@.status == old(self)@.status,
                                Some(h) => r == Ok::<u32, String>(pid) && final(self)@.reader.pid
                                    == Some(pid) && final(self)@.reader.handle == Some(h) && final(self)@.status == "Auto-attached to WoW PID "@ + decimal(pid as nat),
                            }
                    },
                },
    {
        match self.memory_reader.attach_wow(list, close, open) {
            Err(e) => Err(e.message()),
            Ok(pid) => {
                let digits = decimal_string(pid as u64);
                self.status_message = concat2("Auto-attached to WoW PID ", digits.as_str());
                Ok(pid)
            },
        }
    }

    /// Drops the attachment; `close` closes its handle, if there was one.
    pub fn detach<C: FnOnce(usize)>(&mut self, close: C)
        requires
            forall|h: usize| call_requires(close, (h,)),
        ensures
            final(self)@.config == old(self)@.config,
            final(self)@.bot == old(self)@.bot,
            final(self)@.snapshot == old(self)@.snapshot,
            final(self)@.cycles == old(self)@.cycles,
            final(self)@.reader.pid is None && final(self)@.reader.handle is None,
            old(self)@.reader.handle matches Some(h) ==> call_ensures(close, (h,), ()),
            final(self)@.status == "Detached from process"@,
    {
        self.memory_reader.detach(close);
        self.status_message = text("Detached from process");
    }

    /// Sets the memory poll interval, held within 100 to 5000 milliseconds.
    pub fn set_memory_poll_ms(&mut self, interval_ms: u64)
        ensures
            final(self)@ == (ServiceView {
                config: AppConfig { memory_poll_ms: clamp_poll(interval_ms), ..old(self)@.config },
                ..old(self)@
            }),
    {
        self.config.memory_poll_ms = if interval_ms < MIN_POLL_MS {
            MIN_POLL_MS
        } else if interval_ms > MAX_POLL_MS {
            MAX_POLL_MS
        } else {
            interval_ms
        };
    }

    /// Turns telemetry on or off.
    pub fn set_telemetry_enabled(&mut self, enabled: bool)
        ensures
            final(self)@ == (ServiceView {
                config: AppConfig { telemetry_enabled: enabled, ..old(self)@.config },
                ..old(self)@
            }),
    {
        self.config.telemetry_enabled = enabled;
    }

    /// Binds `action` to `key` as `KeybindConfig::set_binding` does, and reports the
    /// change on the status line as the action and key were given.
    pub fn set_keybind(&mut self, action: &str, key: &str) -> (r: Result<(), String>)
        ensures
            final(self)@.bot == old(self)@.bot,
            final(self)@.reader == old(self)@.reader,
            final(self)@.snapshot == old(self)@.snapshot,
            final(self)@.cycles == old(self)@.cycles,
            final(self)@.config.telemetry_enabled == old(self)@.config.telemetry_enabled,
            final(self)@.config.memory_poll_ms == old(self)@.config.memory_poll_ms,
            match normalized_key(key@) {
                Err(m) => (r matches Err(e) && e@ == m) && final(self)@.config.keybinds@ == old(self)@.config.keybinds@ && final(self)@.status == old(self)@.status,
                Ok(k) => match action_slot(action_key(action@)) {
                    Some(i) => r is Ok && final(self)@.config.keybinds@ == (KeybindView {
                        actions: old(self)@.config.keybinds@.actions.update(i, k),
                        slots: old(self)@.config.keybinds@.slots,
                    }) && final(self)@.status == "Updated keybind '"@ + action@ + "' -> "@
                        + key@,
                    None => (r matches Err(e) && e@ == crate::config::unknown_action_message(
                        action_key(action@),
                    )) && final(self)@.config.keybinds@ == old(self)@.config.keybinds@ && final(self)@.status == old(self)@.status,
                },
            },
    {
        match self.config.keybinds.set_binding(action, key) {
            Err(e) => return Err(e),
            Ok(()) => {},
        }
        self.status_message = concat4("Updated keybind '", action, "' -> ", key);
        Ok(())
    }

    /// Binds rotation slot `slot` to `key` as `KeybindConfig::set_rotation_slot`
    /// does, and reports the change on the status line.
    pub fn set_rotation_slot(&mut self, slot: u8, key: &str) -> (r: Result<(), String>)
        ensures
            final(self)@.bot == old(self)@.bot,
            final(self)@.reader == old(self)@.reader,
            final(self)@.snapshot == old(self)@.snapshot,
            final(self)@.cycles == old(self)@.cycles,
            final(self)@.config.telemetry_enabled == old(self)@.config.telemetry_enabled,
            final(self)@.config.memory_poll_ms == old(self)@.config.memory_poll_ms,
            !(1 <= slot <= 9) ==> (r matches Err(e) && e@ == crate::config::slot_range_message())
                && final(self)@.config.keybinds@ == old(self)@.config.keybinds@ && final(self)@.status == old(self)@.status,
            1 <= slot <= 9 ==> match normalized_key(key@) {
                Err(m) => (r matches Err(e) && e@ == m) && final(self)@.config.keybinds@ == old(self)@.config.keybinds@ && final(self)@.status == old(self)@.status,
                Ok(k) => r is Ok && final(self)@.config.keybinds@ == (KeybindView {
                    actions: old(self)@.config.keybinds@.actions,
                    slots: old(self)@.config.keybinds@.slots.update(slot - 1, k),
                }) && final(self)@.status == "Updated rotation slot "@ + decimal(slot as nat)
                    + " -> "@ + key@,
            },
    {
        match self.config.keybinds.set_rotation_slot(slot, key) {
            Err(e) => return Err(e),
            Ok(()) => {},
        }
        let digits = decimal_string(slot as u64);
        self.status_message = concat4("Updated rotation slot ", digits.as_str(), " -> ", key);
        Ok(())
    }

    /// Runs one memory-reading cycle now: the game is read through `memory` as
    /// `layout` lays it out (`distance` measures from the player to the target),
    /// the bot ticks with `navigate`, and the cycle counts as lasting what
    /// `elapsed_ms` measures.
    pub fn run_cycle_now<
        M: Fn(usize, usize, usize) -> Option<Vec<u8>>,
        D: Fn((u32, u32, u32), (u32, u32, u32)) -> u32,
        N: Fn(NavTarget) -> NavFix,
        E: FnOnce() -> u64,
    >(
        &mut self,
        now: u64,
        layout: &ClientLayout,
        memory: &M,
        distance: &D,
        navigate: N,
        elapsed_ms: E,
    )
        requires
            room_for_cycle(old(self)@.cycles),
            memory_ready(*memory),
            distance_ready(*distance),
            forall|t: NavTarget| call_requires(navigate, (t,)),
            call_requires(elapsed_ms, ()),
        ensures
            cycled(old(self)@, final(self)@, now, *layout, *memory, *distance, navigate, elapsed_ms),
    {
        self.execute_cycle(now, layout, memory, distance, navigate, elapsed_ms);
    }

    /// Runs a memory-reading cycle, as `run_cycle_now` does, if the bot is running
    /// and the poll interval has passed since the last cycle (or none has run yet);
    /// otherwise changes nothing.
    pub fn run_scheduled_cycle<
        M: Fn(usize, usize, usize) -> Option<Vec<u8>>,
        D: Fn((u32, u32, u32), (u32, u32, u32)) -> u32,
        N: Fn(NavTarget) -> NavFix,
        E: FnOnce() -> u64,
    >(
        &mut self,
        now: u64,
        layout: &ClientLayout,
        memory: &M,
        distance: &D,
        navigate: N,
        elapsed_ms: E,
    )
        requires
            room_for_cycle(old(self)@.cycles),
            memory_ready(*memory),
            distance_ready(*distance),
            forall|t: NavTarget| call_requires(navigate, (t,)),
            call_requires(elapsed_ms, ()),
        ensures
            (old(self)@.bot.state == BotState::Running && cycle_due(
                old(self)@.cycles.last_cycle_at,
                now,
                old(self)@.config.memory_poll_ms,
            )) ==> cycled(old(self)@, final(self)@, now, *layout, *memory, *distance, navigate, elapsed_ms),
            !(old(self)@.bot.state == BotState::Running && cycle_due(
                old(self)@.cycles.last_cycle_at,
                now,
                old(self)@.config.memory_poll_ms,
            )) ==> final(self)@ == old(self)@,
    {
        if self.bot.state() != BotState::Running {
            return;
        }
        let due = match self.last_cycle_at {
            None => true,
            Some(t) => {
                let since: u64 = if now >= t {
                    now - t
                } else {
                    0
                };
                (since as u128) >= (self.config.memory_poll_ms as u128) * NS_PER_MS
            },
        };
        if !due {
            return;
        }
        self.execute_cycle(now, layout, memory, distance, navigate, elapsed_ms);
    }

    fn execute_cycle<
        M: Fn(usize, usize, usize) -> Option<Vec<u8>>,
        D: Fn((u32, u32, u32), (u32, u32, u32)) -> u32,
        N: Fn(NavTarget) -> NavFix,
        E: FnOnce() -> u64,
    >(
        &mut self,
        now: u64,
        layout: &ClientLayout,
        memory: &M,
        distance: &D,
        navigate: N,
        elapsed_ms: E,
    )
        requires
            room_for_cycle(old(self)@.cycles),
            memory_ready(*memory),
            distance_ready(*distance),
            forall|t: NavTarget| call_requires(navigate, (t,)),
            call_requires(elapsed_ms, ()),
        ensures
            cycled(old(self)@, final(self)@, now, *layout, *memory, *distance, navigate, elapsed_ms),
    {
        let since_window: u64 = if now >= self.cycle_window_started {
            now - self.cycle_window_started
        } else {
            0
        };
        if since_window >= CYCLE_WINDOW_NS {
            self.cycle_window_started = now;
            self.cycles_last_minute = 0;
        }
        let outcome = self.memory_reader.read_snapshot(layout, memory, distance);
        let ghost got = outcome;
        match outcome {
            Ok(snap) => {
                self.snapshot = Some(snap);
            },
            Err(err) => {
                self.snapshot = None;
                let m = err.message();
                self.status_message = concat2("Snapshot read failed: ", m.as_str());
            },
        }
        self.bot.tick(self.snapshot.as_ref(), navigate);
        self.last_cycle_at = Some(now);
        self.cycles_last_minute = self.cycles_last_minute + 1;
        self.total_cycles = self.total_cycles + 1;
        let took = elapsed_ms();
        self.last_cycle_ms = took;
        assert(read_outcome(old(self)@.reader, *layout, *memory, *distance, got));
    }

}

} // verus!
