pub mod nav;
pub mod state;

use vstd::prelude::*;

use crate::input::{InputCommand, KeyAction};
use crate::memory::types::MemorySnapshot;
use crate::profile::types::{GlideProfile, ProfileView, Waypoint};

pub use nav::{f32_le, f32_lt};
pub use state::{BotState, RuntimeStatus};

verus! {

use crate::bot::nav::{
    f32_at_most, f32_less, HEADING_TURN_THRESHOLD_RAD, MOVE_FORWARD_DISTANCE_MIN,
    NEG_HEADING_TURN_THRESHOLD_RAD, WAYPOINT_RADIUS,
};

/// Where the bot is heading, as last computed. Angles and the distance are the bit
/// patterns of `f32`s.
#[derive(Debug, Clone, Copy, PartialEq, Eq, Structural)]
pub struct NavigationOutput {
    pub desired_heading_rad: Option<u32>,
    pub heading_error_rad: Option<u32>,
    pub distance_to_waypoint: Option<u32>,
    pub waypoint_reached: bool,
}

pub open spec fn no_navigation() -> NavigationOutput {
    NavigationOutput {
        desired_heading_rad: None,
        heading_error_rad: None,
        distance_to_waypoint: None,
        waypoint_reached: false,
    }
}

impl Default for NavigationOutput {
    fn default() -> (r: Self)
        ensures
            r == no_navigation(),
    {
        NavigationOutput {
            desired_heading_rad: None,
            heading_error_rad: None,
            distance_to_waypoint: None,
            waypoint_reached: false,
        }
    }
}

/// What the navigation step is given: the waypoint to head for, the player's x and y
/// and facing (all `f32` bits).
#[derive(Debug, Clone, Copy, PartialEq, Eq, Structural)]
pub struct NavTarget {
    pub waypoint: Waypoint,
    pub x: u32,
    pub y: u32,
    pub heading: Option<u32>,
}

/// What the navigation step computes: the heading towards the waypoint, how far the
/// player's facing is off it (when the facing is known), and the distance (all
/// `f32` bits).
#[derive(Debug, Clone, Copy, PartialEq, Eq, Structural)]
pub struct NavFix {
    pub desired_heading_rad: u32,
    pub heading_error_rad: Option<u32>,
    pub distance_to_waypoint: u32,
}

/// What a `BotRuntime` holds.
pub struct BotView {
    pub state: BotState,
    pub status: RuntimeStatus,
    pub profile: Option<ProfileView>,
    pub waypoint_index: int,
    pub nav: NavigationOutput,
}

/// The bot's run state, its route and where it is on it.
#[derive(Debug)]
pub struct BotRuntime {
    state: BotState,
    status: RuntimeStatus,
    active_profile: Option<GlideProfile>,
    current_waypoint_index: usize,
    nav_output: NavigationOutput,
}

impl View for BotRuntime {
    type V = BotView;

    closed spec fn view(&self) -> BotView {
        BotView {
            state: self.state,
            status: self.status,
            profile: match self.active_profile {
                Some(p) => Some(p@),
                None => None,
            },
            waypoint_index: self.current_waypoint_index as int,
            nav: self.nav_output,
        }
    }
}

/// The waypoint index lies on the route: it is zero without a route, and either
/// zero or below the number of waypoints with one.
pub open spec fn index_on_route(v: BotView) -> bool {
    match v.profile {
        None => v.waypoint_index == 0,
        Some(p) => v.waypoint_index == 0 || (0 <= v.waypoint_index < p.waypoints.len()),
    }
}

/// The inputs the bot would send for its state: none unless it is running a
/// profile; otherwise a turn when the heading error is beyond the turn threshold
/// either way, and forward movement pressed while the waypoint is farther than the
/// forward-movement distance and released otherwise.
pub open spec fn suggested(state: BotState, status: RuntimeStatus, nav: NavigationOutput) -> Seq<
    InputCommand,
> {
    if state != BotState::Running || status != RuntimeStatus::RunningProfile {
        seq![]
    } else {
        let turn: Seq<InputCommand> = match nav.heading_error_rad {
            Some(e) => if f32_lt(HEADING_TURN_THRESHOLD_RAD, e) {
                seq![InputCommand::TurnLeftMouse]
            } else if f32_lt(e, NEG_HEADING_TURN_THRESHOLD_RAD) {
                seq![InputCommand::TurnRightMouse]
            } else {
                seq![]
            },
            None => seq![],
        };
        let walk: Seq<InputCommand> = match nav.distance_to_waypoint {
            Some(d) => if f32_lt(MOVE_FORWARD_DISTANCE_MIN, d) {
                seq![InputCommand::MoveForward(KeyAction::Press)]
            } else {
                seq![InputCommand::MoveForward(KeyAction::Release)]
            },
            None => seq![],
        };
        turn + walk
    }
}

/// The snapshot a reference points to, if any.
pub open spec fn snapshot_value(snapshot: Option<&MemorySnapshot>) -> Option<MemorySnapshot> {
    match snapshot {
        Some(s) => Some(*s),
        None => None,
    }
}

/// Whether a tick has all it needs to navigate: a snapshot with a position and a
/// profile with waypoints.
pub open spec fn can_navigate(v: BotView, snapshot: Option<MemorySnapshot>) -> bool {
    &&& snapshot matches Some(s)
    &&& s.position is Some
    &&& v.profile matches Some(p)
    &&& p.waypoints.len() > 0
}

/// The waypoint a tick heads for: the current one, or the first when the index has
/// run past the route.
pub open spec fn tick_index(v: BotView) -> int {
    if v.waypoint_index >= v.profile->0.waypoints.len() {
        0
    } else {
        v.waypoint_index
    }
}

/// The x and y of a position.
pub open spec fn plane_xy(position: Option<(u32, u32, u32)>) -> (u32, u32) {
    match position {
        Some((x, y, _z)) => (x, y),
        None => (0, 0),
    }
}

/// What a tick hands to the navigation step.
pub open spec fn tick_target(v: BotView, s: MemorySnapshot) -> NavTarget {
    let (x, y) = plane_xy(s.position);
    NavTarget { waypoint: v.profile->0.waypoints[tick_index(v)], x, y, heading: s.heading_rad }
}

/// The state after a tick whose navigation step computed `fix`: the waypoint is
/// reached when the distance is at most the waypoint radius, and then the index
/// moves on to the next waypoint, wrapping to the first.
pub open spec fn after_fix(v: BotView, fix: NavFix) -> BotView {
    let i = tick_index(v);
    let len = v.profile->0.waypoints.len();
    let reached = f32_le(fix.distance_to_waypoint, WAYPOINT_RADIUS);
    BotView {
        state: v.state,
        status: RuntimeStatus::RunningProfile,
        profile: v.profile,
        waypoint_index: if reached {
            (i + 1) % (len as int)
        } else {
            i
        },
        nav: NavigationOutput {
            desired_heading_rad: Some(fix.desired_heading_rad),
            heading_error_rad: fix.heading_error_rad,
            distance_to_waypoint: Some(fix.distance_to_waypoint),
            waypoint_reached: reached,
        },
    }
}

/// How one tick takes the bot from `before` to `after`, given `snapshot` and the
/// navigation step `navigate`. A bot that is not running stays as it is. A running
/// bot that cannot navigate polls memory with no navigation. Otherwise the
/// navigation step is asked about the current waypoint, and its answer decides the
/// new state as `after_fix` states.
pub open spec fn ticked<F: Fn(NavTarget) -> NavFix>(
    before: BotView,
    after: BotView,
    snapshot: Option<MemorySnapshot>,
    navigate: F,
) -> bool {
    if before.state != BotState::Running {
        after == before
    } else if !can_navigate(before, snapshot) {
        after == (BotView { status: RuntimeStatus::PollingMemory, nav: no_navigation(), ..before })
    } else {
        exists|fix: NavFix|
            call_ensures(navigate, (tick_target(before, snapshot->0),), fix) && #[trigger] after_fix(
                before,
                fix,
            ) == after
    }
}

/// The bot suggests at most two inputs, never turns both ways at once, and
/// suggests nothing unless it is running a profile.
pub proof fn lemma_suggested_inputs_bounded(
    state: BotState,
    status: RuntimeStatus,
    nav: NavigationOutput,
)
    ensures
        suggested(state, status, nav).len() <= 2,
        !(suggested(state, status, nav).contains(InputCommand::TurnLeftMouse) && suggested(
            state,
            status,
            nav,
        ).contains(InputCommand::TurnRightMouse)),
        (state != BotState::Running || status != RuntimeStatus::RunningProfile) ==> suggested(
            state,
            status,
            nav,
        ).len() == 0,
{
    let s = suggested(state, status, nav);
    if s.contains(InputCommand::TurnLeftMouse) && s.contains(InputCommand::TurnRightMouse) {
        let i = choose|i: int| 0 <= i < s.len() && s[i] == InputCommand::TurnLeftMouse;
        let j = choose|j: int| 0 <= j < s.len() && s[j] == InputCommand::TurnRightMouse;
        assert(false);
    }
}

/// What a running bot suggests follows its navigation: it turns left exactly when
/// the heading error is above a quarter radian (`f32` 0.25, bits 0x3e80_0000), right
/// exactly when it is below minus a quarter radian (bits 0xbe80_0000), presses
/// forward exactly when the waypoint is farther than one and a half units (bits
/// 0x3fc0_0000) and releases forward otherwise; without a heading error it does not
/// turn, and without a distance it neither presses nor releases.
pub proof fn lemma_suggested_follows_navigation(nav: NavigationOutput)
    ensures
        nav.heading_error_rad matches Some(e) ==> (suggested(
            BotState::Running,
            RuntimeStatus::RunningProfile,
            nav,
        ).contains(InputCommand::TurnLeftMouse) <==> f32_lt(0x3e80_0000u32, e)),
        nav.heading_error_rad matches Some(e) ==> (suggested(
            BotState::Running,
            RuntimeStatus::RunningProfile,
            nav,
        ).contains(InputCommand::TurnRightMouse) <==> f32_lt(e, 0xbe80_0000u32)),
        nav.heading_error_rad is None ==> !suggested(
            BotState::Running,
            RuntimeStatus::RunningProfile,
            nav,
        ).contains(InputCommand::TurnLeftMouse) && !suggested(
            BotState::Running,
            RuntimeStatus::RunningProfile,
            nav,
        ).contains(InputCommand::TurnRightMouse),
        nav.distance_to_waypoint matches Some(d) ==> (suggested(
            BotState::Running,
            RuntimeStatus::RunningProfile,
            nav,
        ).contains(InputCommand::MoveForward(KeyAction::Press)) <==> f32_lt(0x3fc0_0000u32, d)),
        nav.distance_to_waypoint matches Some(d) ==> (suggested(
            BotState::Running,
            RuntimeStatus::RunningProfile,
            nav,
        ).contains(InputCommand::MoveForward(KeyAction::Release)) <==> !f32_lt(
            0x3fc0_0000u32,
            d,
        )),
        nav.distance_to_waypoint is None ==> !suggested(
            BotState::Running,
            RuntimeStatus::RunningProfile,
            nav,
        ).contains(InputCommand::MoveForward(KeyAction::Press)) && !suggested(
            BotState::Running,
            RuntimeStatus::RunningProfile,
            nav,
        ).contains(InputCommand::MoveForward(KeyAction::Release)),
{
    let s = suggested(BotState::Running, RuntimeStatus::RunningProfile, nav);
    let turn: Seq<InputCommand> = match nav.heading_error_rad {
        Some(e) => if f32_lt(HEADING_TURN_THRESHOLD_RAD, e) {
            seq![InputCommand::TurnLeftMouse]
        } else if f32_lt(e, NEG_HEADING_TURN_THRESHOLD_RAD) {
            seq![InputCommand::TurnRightMouse]
        } else {
            seq![]
        },
        None => seq![],
    };
    let walk: Seq<InputCommand> = match nav.distance_to_waypoint {
        Some(d) => if f32_lt(MOVE_FORWARD_DISTANCE_MIN, d) {
            seq![InputCommand::MoveForward(KeyAction::Press)]
        } else {
            seq![InputCommand::MoveForward(KeyAction::Release)]
        },
        None => seq![],
    };
    assert(s == turn + walk);
    assert forall|c: InputCommand| s.contains(c) <==> (turn.contains(c) || walk.contains(c)) by {
        if turn.contains(c) {
            let i = choose|i: int| 0 <= i < turn.len() && turn[i] == c;
            assert(s[i] == c);
        }
        if walk.contains(c) {
            let i = choose|i: int| 0 <= i < walk.len() && walk[i] == c;
            assert(s[turn.len() + i] == c);
        }
        if s.contains(c) {
            let i = choose|i: int| 0 <= i < s.len() && s[i] == c;
            if i < turn.len() {
                assert(turn[i] == c);
            } else {
                assert(walk[i - turn.len()] == c);
            }
        }
    }
    assert(0x3e80_0000u32 & 0x8000_0000u32 == 0 && 0x3e80_0000u32 & 0x7f80_0000u32 == 0x3e80_0000u32)
        by (bit_vector);
    assert(0xbe80_0000u32 & 0x8000_0000u32 != 0 && 0xbe80_0000u32 & 0x7fff_ffffu32 == 0x3e80_0000u32
        && 0xbe80_0000u32 & 0x7f80_0000u32 == 0x3e80_0000u32) by (bit_vector);
    assert(crate::bot::nav::f32_rank(0x3e80_0000u32) == 0x3e80_0000 && crate::bot::nav::f32_rank(0xbe80_0000u32) == -0x3e80_0000);
    assert(!crate::bot::nav::f32_nan(0x3e80_0000u32) && !crate::bot::nav::f32_nan(0xbe80_0000u32));
    if let Some(e) = nav.heading_error_rad {
        assert(!(f32_lt(0x3e80_0000u32, e) && f32_lt(e, 0xbe80_0000u32)));
    }
    if turn.len() > 0 {
        assert(turn.contains(turn[0]));
    }
    if walk.len() > 0 {
        assert(walk.contains(walk[0]));
    }
}

/// Whatever the navigation step answers, a tick keeps the waypoint index on the
/// route.
pub proof fn lemma_tick_keeps_index_on_route<F: Fn(NavTarget) -> NavFix>(
    before: BotView,
    after: BotView,
    snapshot: Option<MemorySnapshot>,
    navigate: F,
)
    requires
        index_on_route(before),
        ticked(before, after, snapshot, navigate),
    ensures
        index_on_route(after),
{
    if before.state == BotState::Running && can_navigate(before, snapshot) {
        let fix = choose|fix: NavFix|
            call_ensures(navigate, (tick_target(before, snapshot->0),), fix) && #[trigger] after_fix(
                before,
                fix,
            ) == after;
        assert(after_fix(before, fix) == after);
    }
}

/// The status goes with the run state: a stopped bot is idle, a paused one is
/// paused, and a running one polls memory or runs its profile.
pub open spec fn status_matches_state(v: BotView) -> bool {
    match v.state {
        BotState::Stopped => v.status == RuntimeStatus::Idle,
        BotState::Paused => v.status == RuntimeStatus::Paused,
        BotState::Running => v.status == RuntimeStatus::PollingMemory || v.status
            == RuntimeStatus::RunningProfile,
    }
}

/// Over any sequence of calls the status goes with the run state: a new bot is
/// stopped and idle, and starting, pausing, stopping, setting or clearing a
/// route, and a tick, whatever the snapshot and the navigation step's answer,
/// each keep it so.
pub proof fn lemma_status_follows_state<F: Fn(NavTarget) -> NavFix>(
    before: BotView,
    after: BotView,
    snapshot: Option<MemorySnapshot>,
    navigate: F,
    profile: ProfileView,
)
    requires
        status_matches_state(before),
    ensures
        status_matches_state(
            BotView {
                state: BotState::Stopped,
                status: RuntimeStatus::Idle,
                profile: None,
                waypoint_index: 0,
                nav: no_navigation(),
            },
        ),
        status_matches_state(
            (BotView { state: BotState::Running, status: RuntimeStatus::PollingMemory, ..before }),
        ),
        status_matches_state(
            (BotView { state: BotState::Paused, status: RuntimeStatus::Paused, ..before }),
        ),
        status_matches_state(
            (BotView {
                state: BotState::Stopped,
                status: RuntimeStatus::Idle,
                nav: no_navigation(),
                ..before
            }),
        ),
        status_matches_state(
            (BotView { profile: Some(profile), waypoint_index: 0, nav: no_navigation(), ..before }),
        ),
        status_matches_state(
            (BotView { profile: None, waypoint_index: 0, nav: no_navigation(), ..before }),
        ),
        ticked(before, after, snapshot, navigate) ==> status_matches_state(after),
{
    if ticked(before, after, snapshot, navigate) && before.state == BotState::Running
        && can_navigate(before, snapshot) {
        let fix = choose|fix: NavFix|
            call_ensures(navigate, (tick_target(before, snapshot->0),), fix) && #[trigger] after_fix(
                before,
                fix,
            ) == after;
        assert(after_fix(before, fix) == after);
    }
}

impl Default for BotRuntime {
    fn default() -> (r: Self)
        ensures
            r@.state == BotState::Stopped,
            r@.status == RuntimeStatus::Idle,
            r@.profile is None,
            r@.waypoint_index == 0,
            r@.nav == no_navigation(),
    {
        BotRuntime {
            state: BotState::Stopped,
            status: RuntimeStatus::Idle,
            active_profile: None,
            current_waypoint_index: 0,
            nav_output: NavigationOutput::default(),
        }
    }
}

impl BotRuntime {
    #[verifier::type_invariant]
    spec fn well_formed(&self) -> bool {
        index_on_route(self@)
    }

    pub fn state(&self) -> (s: BotState)
        ensures
            s == self@.state,
    {
        self.state
    }

    pub fn status(&self) -> (s: RuntimeStatus)
        ensures
            s == self@.status,
    {
        self.status
    }

    /// The name of the active profile, when there is one and it has a name.
    pub fn active_profile_name(&self) -> (n: Option<&str>)
        ensures
            match self@.profile {
                Some(p) => match p.name {
                    Some(name) => n matches Some(s) && s@ == name,
                    None => n is None,
                },
                None => n is None,
            },
    {
        match &self.active_profile {
            Some(p) => match &p.name {
                Some(name) => Some(name.as_str()),
                None => None,
            },
            None => None,
        }
    }

    /// The position on the route, counting from one, and the route's length.
    pub fn waypoint_progress(&self) -> (r: Option<(usize, usize)>)
        ensures
            match self@.profile {
                Some(p) => r == Some(((self@.waypoint_index + 1) as usize, p.waypoints.len() as usize)),
                None => r is None,
            },
            match r {
                Some((at, len)) => len > 0 ==> 1 <= at <= len,
                None => true,
            },
    {
        proof {
            use_type_invariant(self);
        }
        match &self.active_profile {
            Some(p) => {
                assert(p.waypoints@.len() == p.waypoints.len());
                Some((self.current_waypoint_index + 1, p.waypoints.len()))
            },
            None => None,
        }
    }

    pub fn nav_output(&self) -> (n: &NavigationOutput)
        ensures
            *n == self@.nav,
    {
        &self.nav_output
    }

    /// The inputs the bot would send now; see `suggested`.
    pub fn suggested_inputs(&self) -> (commands: Vec<InputCommand>)
        ensures
            commands@ == suggested(self@.state, self@.status, self@.nav),
    {
        let mut commands: Vec<InputCommand> = Vec::new();
        if self.state != BotState::Running || self.status != RuntimeStatus::RunningProfile {
            return commands;
        }
        if let Some(heading_error) = self.nav_output.heading_error_rad {
            if f32_less(HEADING_TURN_THRESHOLD_RAD, heading_error) {
                commands.push(InputCommand::TurnLeftMouse);
            } else if f32_less(heading_error, NEG_HEADING_TURN_THRESHOLD_RAD) {
                commands.push(InputCommand::TurnRightMouse);
            }
        }
        let ghost turn = commands@;
        if let Some(distance) = self.nav_output.distance_to_waypoint {
            if f32_less(MOVE_FORWARD_DISTANCE_MIN, distance) {
                commands.push(InputCommand::MoveForward(KeyAction::Press));
            } else {
                commands.push(InputCommand::MoveForward(KeyAction::Release));
            }
        }
        assert(commands@ =~= suggested(self@.state, self@.status, self@.nav));
        commands
    }

    /// Makes `profile` the active route, from its first waypoint, with no navigation.
    pub fn set_profile(&mut self, profile: GlideProfile)
        ensures
            final(self)@ == (BotView {
                profile: Some(profile@),
                waypoint_index: 0,
                nav: no_navigation(),
                ..old(self)@
            }),
    {
        proof {
            use_type_invariant(&*self);
        }
        self.current_waypoint_index = 0;
        self.active_profile = Some(profile);
        self.nav_output = NavigationOutput::default();
    }

    /// Drops the active route.
    pub fn clear_profile(&mut self)
        ensures
            final(self)@ == (BotView {
                profile: None,
                waypoint_index: 0,
                nav: no_navigation(),
                ..old(self)@
            }),
    {
        proof {
            use_type_invariant(&*self);
        }
        self.current_waypoint_index = 0;
        self.active_profile = None;
        self.nav_output = NavigationOutput::default();
    }

    /// Sets the bot running; it polls memory until a tick navigates.
    pub fn start(&mut self)
        ensures
            final(self)@ == (BotView {
                state: BotState::Running,
                status: RuntimeStatus::PollingMemory,
                ..old(self)@
            }),
    {
        proof {
            use_type_invariant(&*self);
        }
        self.state = BotState::Running;
        self.status = RuntimeStatus::PollingMemory;
    }

    /// Pauses the bot.
    pub fn pause(&mut self)
        ensures
            final(self)@ == (BotView {
                state: BotState::Paused,
                status: RuntimeStatus::Paused,
                ..old(self)@
            }),
    {
        proof {
            use_type_invariant(&*self);
        }
        self.state = BotState::Paused;
        self.status = RuntimeStatus::Paused;
    }

    /// Stops the bot and forgets its navigation; the route and position on it stay.
    pub fn stop(&mut self)
        ensures
            final(self)@ == (BotView {
                state: BotState::Stopped,
                status: RuntimeStatus::Idle,
                nav: no_navigation(),
                ..old(self)@
            }),
    {
        proof {
            use_type_invariant(&*self);
        }
        self.state = BotState::Stopped;
        self.status = RuntimeStatus::Idle;
        self.nav_output = NavigationOutput::default();
    }

    fn wait_for_memory(&mut self)
        ensures
            final(self)@ == (BotView {
                status: RuntimeStatus::PollingMemory,
                nav: no_navigation(),
                ..old(self)@
            }),
    {
        proof {
            use_type_invariant(&*self);
        }
        self.status = RuntimeStatus::PollingMemory;
        self.nav_output = NavigationOutput::default();
    }

    /// One step of the bot. A bot that is not running is left as it is. A running bot
    /// without a snapshot, a position, a profile or waypoints polls memory with no
    /// navigation. Otherwise `navigate` computes the heading and distance to the
    /// current waypoint, and the bot moves on to the next waypoint once within the
    /// waypoint radius of it.
    pub fn tick<F: Fn(NavTarget) -> NavFix>(&mut self, snapshot: Option<&MemorySnapshot>, navigate: F)
        requires
            forall|t: NavTarget| call_requires(navigate, (t,)),
        ensures
            ticked(old(self)@, final(self)@, snapshot_value(snapshot), navigate),
    {
        proof {
            use_type_invariant(&*self);
        }
        if self.state != BotState::Running {
            return;
        }
        let snapshot = match snapshot {
            Some(s) => s,
            None => {
                self.wait_for_memory();
                return;
            },
        };
        let (px, py) = match snapshot.position {
            Some((x, y, _z)) => (x, y),
            None => {
                self.wait_for_memory();
                return;
            },
        };
        let len = match &self.active_profile {
            Some(p) => p.waypoints.len(),
            None => {
                self.wait_for_memory();
                return;
            },
        };
        if len == 0 {
            self.wait_for_memory();
            return;
        }
        if self.current_waypoint_index >= len {
            self.current_waypoint_index = 0;
        }
        let index = self.current_waypoint_index;
        let waypoint = match &self.active_profile {
            Some(p) => p.waypoints[index],
            None => {
                return;
            },
        };
        let target = NavTarget { waypoint, x: px, y: py, heading: snapshot.heading_rad };
        let fix = navigate(target);
        let reached = f32_at_most(fix.distance_to_waypoint, WAYPOINT_RADIUS);
        if reached {
            self.current_waypoint_index = (index + 1) % len;
        }
        self.nav_output = NavigationOutput {
            desired_heading_rad: Some(fix.desired_heading_rad),
            heading_error_rad: fix.heading_error_rad,
            distance_to_waypoint: Some(fix.distance_to_waypoint),
            waypoint_reached: reached,
        };
        self.status = RuntimeStatus::RunningProfile;
        assert(after_fix(old(self)@, fix) == self@);
        assert(can_navigate(old(self)@, snapshot_value(Some(snapshot))));
    }
}

} // verus!
