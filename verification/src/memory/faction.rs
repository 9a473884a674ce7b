use vstd::prelude::*;

verus! {

/// How a unit stands towards the player.
#[derive(Debug, Clone, Copy, PartialEq, Eq, Structural)]
pub enum Hostility {
    Hostile,
    Friendly,
    Neutral,
}

impl Hostility {
    /// The word the standing is shown as.
    pub fn label(&self) -> (l: &'static str)
        ensures
            l@ == match self {
                Hostility::Hostile => "Hostile"@,
                Hostility::Friendly => "Friendly"@,
                Hostility::Neutral => "Neutral"@,
            },
    {
        match self {
            Hostility::Hostile => "Hostile",
            Hostility::Friendly => "Friendly",
            Hostility::Neutral => "Neutral",
        }
    }
}

/// The largest distance, in rows, between a unit's faction id and the table's first.
pub const MAX_FACTION_ROW_DELTA: u32 = 131_072;

/// Whether the pointer chain to a unit's faction row can be followed: both the
/// table's first id and the unit's faction pointer must be non-zero.
pub fn faction_chain_ready(faction_sub: u32, faction_pointer: u32) -> (b: bool)
    ensures
        b == (faction_sub != 0 && faction_pointer != 0),
{
    faction_sub != 0 && faction_pointer != 0
}

/// Where the pointer to a faction row is stored: the unit's faction id `faction_id`
/// must be non-zero, no lower than the table's first id `faction_sub`, and at most
/// 131072 rows past it; the table base `faction_base` must be non-zero. The slot is
/// then `faction_base + 4 * (faction_id - faction_sub)`.
pub open spec fn row_slot(faction_sub: u32, faction_id: u32, faction_base: u32) -> Option<int> {
    if faction_id == 0 || faction_base == 0 || faction_id < faction_sub || faction_id - faction_sub
        > MAX_FACTION_ROW_DELTA {
        None
    } else {
        Some(faction_base + 4 * (faction_id - faction_sub))
    }
}

/// The address holding the pointer to a unit's faction row, as `row_slot` states;
/// `None` too when that address does not fit in a `usize`.
pub fn faction_row_slot(faction_sub: u32, faction_id: u32, faction_base: u32) -> (r: Option<usize>)
    ensures
        match row_slot(faction_sub, faction_id, faction_base) {
            Some(a) => if a <= usize::MAX {
                r == Some(a as usize)
            } else {
                r is None
            },
            None => r is None,
        },
{
    if faction_id == 0 || faction_base == 0 {
        return None;
    }
    if faction_id < faction_sub {
        return None;
    }
    let row_delta = faction_id - faction_sub;
    if row_delta > MAX_FACTION_ROW_DELTA {
        return None;
    }
    let wide: u64 = faction_base as u64 + row_delta as u64 * 4;
    if wide > usize::MAX as u64 {
        return None;
    }
    Some(wide as usize)
}

} // verus!
