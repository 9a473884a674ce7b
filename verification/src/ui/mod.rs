pub mod panels;

pub use panels::debug::DiagnosticsVerbosity;

use vstd::prelude::*;

use crate::bot::BotState;

verus! {

/// The colours of the theme that the window's decisions pick between.
#[derive(Debug, Clone, Copy, PartialEq, Eq, Structural)]
pub enum Tone {
    AccentGreen,
    AccentYellow,
    AccentRed,
    AccentBlue,
    TextDim,
    TextSecondary,
    GlassBorder,
}

/// How long the window waits before it redraws: the poll interval, but at least 16
/// milliseconds, while the bot runs; a quarter of a second otherwise.
pub fn repaint_after_ms(state: BotState, memory_poll_ms: u64) -> (ms: u64)
    ensures
        ms == if state == BotState::Running {
            if memory_poll_ms < 16 {
                16
            } else {
                memory_poll_ms
            }
        } else {
            250
        },
{
    if state == BotState::Running {
        if memory_poll_ms < 16 {
            16
        } else {
            memory_poll_ms
        }
    } else {
        250
    }
}

/// The dot and colour of the title bar that show whether a process is attached.
pub fn attachment_dot(attached: bool) -> (r: (&'static str, Tone))
    ensures
        attached ==> r.0@ == "\u{25CF}"@ && r.1 == Tone::AccentGreen,
        !attached ==> r.0@ == "\u{25CB}"@ && r.1 == Tone::TextDim,
{
    if attached {
        ("\u{25CF}", Tone::AccentGreen)
    } else {
        ("\u{25CB}", Tone::TextDim)
    }
}

/// The run state as the title bar shows it, with its colour.
pub fn title_state_label(state: BotState) -> (r: (&'static str, Tone))
    ensures
        r.0@ == match state {
            BotState::Running => "\u{25CF} Running"@,
            BotState::Paused => "\u{25D0} Paused"@,
            BotState::Stopped => "\u{25CB} Stopped"@,
        },
        r.1 == match state {
            BotState::Running => Tone::AccentGreen,
            BotState::Paused => Tone::AccentYellow,
            BotState::Stopped => Tone::TextDim,
        },
{
    match state {
        BotState::Running => ("\u{25CF} Running", Tone::AccentGreen),
        BotState::Paused => ("\u{25D0} Paused", Tone::AccentYellow),
        BotState::Stopped => ("\u{25CB} Stopped", Tone::TextDim),
    }
}

/// The colour of a tab's caption: blue for the selected tab, the secondary text
/// colour for the others.
pub fn tab_caption_tone(active: bool) -> (t: Tone)
    ensures
        t == if active {
            Tone::AccentBlue
        } else {
            Tone::TextSecondary
        },
{
    if active {
        Tone::AccentBlue
    } else {
        Tone::TextSecondary
    }
}

/// How often and how fast the memory-reading cycle has run.
#[derive(Debug, Clone, Copy, PartialEq, Eq, Structural)]
pub struct CycleStats {
    pub interval_ms: u64,
    pub cycles_last_minute: u64,
    pub total_cycles: u64,
    pub last_cycle_ms: u64,
}

/// The tabs of the window.
#[derive(Debug, Clone, Copy, PartialEq, Eq, Structural)]
pub enum ActiveTab {
    Home,
    Profiles,
    Settings,
    Debug,
}

impl ActiveTab {
    /// The tabs in the order they are shown.
    pub fn all() -> (tabs: [ActiveTab; 4])
        ensures
            tabs@ == seq![ActiveTab::Home, ActiveTab::Profiles, ActiveTab::Settings, ActiveTab::Debug],
    {
        let tabs = [ActiveTab::Home, ActiveTab::Profiles, ActiveTab::Settings, ActiveTab::Debug];
        assert(tabs@ =~= seq![ActiveTab::Home, ActiveTab::Profiles, ActiveTab::Settings, ActiveTab::Debug]);
        tabs
    }

    /// The tab's caption.
    pub fn label(self) -> (l: &'static str)
        ensures
            l@ == match self {
                ActiveTab::Home => "Home"@,
                ActiveTab::Profiles => "Profiles"@,
                ActiveTab::Settings => "Settings"@,
                ActiveTab::Debug => "Debug"@,
            },
    {
        match self {
            ActiveTab::Home => "Home",
            ActiveTab::Profiles => "Profiles",
            ActiveTab::Settings => "Settings",
            ActiveTab::Debug => "Debug",
        }
    }
}

} // verus!
