use vstd::prelude::*;
use vstd::string::StringExecFns;

use crate::bot::BotState;
use crate::format::{decimal, decimal_string};
use crate::text::same_text;
use crate::ui::Tone;

verus! {

/// The dot, word and colour that show the bot's run state.
pub fn bot_state_display(state: BotState) -> (r: (&'static str, &'static str, Tone))
    ensures
        r.0@ == match state {
            BotState::Running => "\u{25CF}"@,
            BotState::Paused => "\u{25D0}"@,
            BotState::Stopped => "\u{25CB}"@,
        },
        r.1@ == match state {
            BotState::Running => "Running"@,
            BotState::Paused => "Paused"@,
            BotState::Stopped => "Stopped"@,
        },
        r.2 == match state {
            BotState::Running => Tone::AccentGreen,
            BotState::Paused => Tone::AccentYellow,
            BotState::Stopped => Tone::TextDim,
        },
{
    match state {
        BotState::Running => ("\u{25CF}", "Running", Tone::AccentGreen),
        BotState::Paused => ("\u{25D0}", "Paused", Tone::AccentYellow),
        BotState::Stopped => ("\u{25CB}", "Stopped", Tone::TextDim),
    }
}

/// The colour a standing is written in: red for `Hostile`, green for `Friendly`,
/// yellow for anything else.
pub open spec fn standing_tone(h: Seq<char>) -> Tone {
    if h == "Hostile"@ {
        Tone::AccentRed
    } else if h == "Friendly"@ {
        Tone::AccentGreen
    } else {
        Tone::AccentYellow
    }
}

/// The colour a standing is written in; see `standing_tone`.
pub fn hostility_tone(hostility: &str) -> (t: Tone)
    ensures
        t == standing_tone(hostility@),
{
    if same_text(hostility, "Hostile") {
        Tone::AccentRed
    } else if same_text(hostility, "Friendly") {
        Tone::AccentGreen
    } else {
        Tone::AccentYellow
    }
}

/// The colour of a unit card's frame: red around a hostile unit, the glass border
/// otherwise.
pub fn entity_border(hostility: Option<&str>) -> (t: Tone)
    ensures
        t == match hostility {
            Some(h) => if h@ == "Hostile"@ {
                Tone::AccentRed
            } else {
                Tone::GlassBorder
            },
            None => Tone::GlassBorder,
        },
{
    match hostility {
        Some(h) => if same_text(h, "Hostile") {
            Tone::AccentRed
        } else {
            Tone::GlassBorder
        },
        None => Tone::GlassBorder,
    }
}

/// Whether a unit card shows its unit as present: it has a name, and the name is
/// neither `Unknown` nor the dash shown for no name.
pub fn entity_present(name: Option<&str>) -> (b: bool)
    ensures
        b == match name {
            Some(n) => n@ != "Unknown"@ && n@ != "\u{2014}"@,
            None => false,
        },
{
    match name {
        Some(n) => !same_text(n, "Unknown") && !same_text(n, "\u{2014}"),
        None => false,
    }
}

/// The mark written before a standing: crossed swords for `Hostile`, a tick for
/// `Friendly`, a tilde otherwise.
pub open spec fn standing_mark(h: Seq<char>) -> Seq<char> {
    if h == "Hostile"@ {
        "\u{2694} "@
    } else if h == "Friendly"@ {
        "\u{2713} "@
    } else {
        "~ "@
    }
}

/// The known parts of a unit's description: `Lv. ` and its level, its race, and its
/// standing after its mark.
pub open spec fn meta_parts(level: Option<u32>, race: Option<Seq<char>>, hostility: Option<Seq<char>>) -> Seq<
    Seq<char>,
> {
    (match level {
        Some(l) => seq!["Lv. "@ + decimal(l as nat)],
        None => seq![],
    }) + (match race {
        Some(r) => seq![r],
        None => seq![],
    }) + (match hostility {
        Some(h) => seq![standing_mark(h) + h],
        None => seq![],
    })
}

/// `parts` joined with `sep` between each two.
pub open spec fn joined(parts: Seq<Seq<char>>, sep: Seq<char>) -> Seq<char>
    decreases parts.len(),
{
    if parts.len() == 0 {
        seq![]
    } else if parts.len() == 1 {
        parts[0]
    } else {
        joined(parts.drop_last(), sep) + sep + parts.last()
    }
}

pub open spec fn opt_view(s: Option<&str>) -> Option<Seq<char>> {
    match s {
        Some(t) => Some(t@),
        None => None,
    }
}

fn join(parts: &Vec<String>, sep: &str) -> (r: String)
    ensures
        r@ == joined(parts@.map_values(|p: String| p@), sep@),
{
    let ghost views = parts@.map_values(|p: String| p@);
    let mut r = String::new();
    let mut i: usize = 0;
    while i < parts.len()
        invariant
            i <= parts.len(),
            views == parts@.map_values(|p: String| p@),
            r@ == joined(views.subrange(0, i as int), sep@),
        decreases parts.len() - i,
    {
        let ghost before = views.subrange(0, i as int);
        let ghost after = views.subrange(0, i + 1);
        assert(after.drop_last() =~= before);
        if i > 0 {
            r.append(sep);
        }
        r.append(parts[i].as_str());
        i = i + 1;
    }
    assert(views.subrange(0, parts.len() as int) =~= views);
    r
}

/// The line under a unit's name: its known parts (`meta_parts`) joined by a middle
/// dot with two spaces either side, or a dash when none is known.
pub fn entity_meta_line(level: Option<u32>, race: Option<&str>, hostility: Option<&str>) -> (s: String)
    ensures
        meta_parts(level, opt_view(race), opt_view(hostility)).len() == 0 ==> s@ == "\u{2014}"@,
        meta_parts(level, opt_view(race), opt_view(hostility)).len() > 0 ==> s@ == joined(
            meta_parts(level, opt_view(race), opt_view(hostility)),
            "  \u{00B7}  "@,
        ),
{
    let mut parts: Vec<String> = Vec::new();
    if let Some(l) = level {
        let mut p = String::from_str("Lv. ");
        let d = decimal_string(l as u64);
        p.append(d.as_str());
        parts.push(p);
    }
    if let Some(r) = race {
        parts.push(String::from_str(r));
    }
    if let Some(h) = hostility {
        let mut p = if same_text(h, "Hostile") {
            String::from_str("\u{2694} ")
        } else if same_text(h, "Friendly") {
            String::from_str("\u{2713} ")
        } else {
            String::from_str("~ ")
        };
        p.append(h);
        parts.push(p);
    }
    assert(parts@.map_values(|p: String| p@) =~= meta_parts(level, opt_view(race), opt_view(hostility)));
    if parts.len() == 0 {
        String::from_str("\u{2014}")
    } else {
        join(&parts, "  \u{00B7}  ")
    }
}

/// The colour of that line: the standing's colour, or the secondary text colour
/// when the standing is unknown.
pub fn meta_tone(hostility: Option<&str>) -> (t: Tone)
    ensures
        t == match hostility {
            Some(h) => standing_tone(h@),
            None => Tone::TextSecondary,
        },
{
    match hostility {
        Some(h) => hostility_tone(h),
        None => Tone::TextSecondary,
    }
}

/// The route position as the status card shows it: `WP`, the waypoint and the
/// route's length, as `WP 3/10`.
pub fn waypoint_label(current: usize, total: usize) -> (s: String)
    ensures
        s@ == "WP "@ + decimal(current as nat) + "/"@ + decimal(total as nat),
{
    let mut s = String::from_str("WP ");
    let a = decimal_string(current as u64);
    s.append(a.as_str());
    s.append("/");
    let b = decimal_string(total as u64);
    s.append(b.as_str());
    s
}

/// The name of the playable race with id `race_id`, or "Unknown".
pub fn race_name(race_id: u8) -> (name: &'static str)
    ensures
        name@ == match race_id {
            1 => "Human"@,
            2 => "Orc"@,
            3 => "Dwarf"@,
            4 => "Night Elf"@,
            5 => "Undead"@,
            6 => "Tauren"@,
            7 => "Gnome"@,
            8 => "Troll"@,
            10 => "Blood Elf"@,
            11 => "Draenei"@,
            _ => "Unknown"@,
        },
{
    match race_id {
        1 => "Human",
        2 => "Orc",
        3 => "Dwarf",
        4 => "Night Elf",
        5 => "Undead",
        6 => "Tauren",
        7 => "Gnome",
        8 => "Troll",
        10 => "Blood Elf",
        11 => "Draenei",
        _ => "Unknown",
    }
}

} // verus!
