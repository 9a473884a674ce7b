use vstd::prelude::*;

verus! {

/// What one read of the game's memory found. Floating-point values (position,
/// heading, distance) are held as the bit patterns of their `f32`s.
#[derive(Debug)]
pub struct MemorySnapshot {
    pub player_name: String,
    pub player_guid: Option<u64>,
    pub player_object_type: Option<u32>,
    pub player_current_health: Option<u32>,
    pub player_max_health: Option<u32>,
    pub player_race: Option<u8>,
    pub player_level: Option<u32>,
    pub player_faction: Option<u32>,
    pub player_unit_flags: Option<u32>,
    pub player_monster_definition_ptr: Option<u32>,
    pub player_display_id: Option<u32>,
    pub player_native_display_id: Option<u32>,
    /// The player's x, y and z, as `f32` bits.
    pub position: Option<(u32, u32, u32)>,
    /// The player's facing in radians, as `f32` bits.
    pub heading_rad: Option<u32>,
    pub target_guid: Option<u64>,
    pub target_object_type: Option<u32>,
    pub target_name: Option<String>,
    pub target_current_health: Option<u32>,
    pub target_max_health: Option<u32>,
    pub target_race: Option<u8>,
    pub target_level: Option<u32>,
    pub target_faction: Option<u32>,
    pub target_unit_flags: Option<u32>,
    pub target_monster_definition_ptr: Option<u32>,
    pub target_display_id: Option<u32>,
    pub target_native_display_id: Option<u32>,
    pub target_hostility: Option<String>,
    /// The distance from the player to the target, as `f32` bits.
    pub target_distance: Option<u32>,
    pub diagnostics: Vec<String>,
}

/// Two snapshots hold the same values.
pub open spec fn same_snapshot(a: MemorySnapshot, b: MemorySnapshot) -> bool {
    &&& a.player_name == b.player_name
    &&& a.player_guid == b.player_guid
    &&& a.player_object_type == b.player_object_type
    &&& a.player_current_health == b.player_current_health
    &&& a.player_max_health == b.player_max_health
    &&& a.player_race == b.player_race
    &&& a.player_level == b.player_level
    &&& a.player_faction == b.player_faction
    &&& a.player_unit_flags == b.player_unit_flags
    &&& a.player_monster_definition_ptr == b.player_monster_definition_ptr
    &&& a.player_display_id == b.player_display_id
    &&& a.player_native_display_id == b.player_native_display_id
    &&& a.position == b.position
    &&& a.heading_rad == b.heading_rad
    &&& a.target_guid == b.target_guid
    &&& a.target_object_type == b.target_object_type
    &&& a.target_name == b.target_name
    &&& a.target_current_health == b.target_current_health
    &&& a.target_max_health == b.target_max_health
    &&& a.target_race == b.target_race
    &&& a.target_level == b.target_level
    &&& a.target_faction == b.target_faction
    &&& a.target_unit_flags == b.target_unit_flags
    &&& a.target_monster_definition_ptr == b.target_monster_definition_ptr
    &&& a.target_display_id == b.target_display_id
    &&& a.target_native_display_id == b.target_native_display_id
    &&& a.target_hostility == b.target_hostility
    &&& a.target_distance == b.target_distance
    &&& a.diagnostics@ == b.diagnostics@
}

fn clone_text(s: &Option<String>) -> (r: Option<String>)
    ensures
        r == *s,
{
    match s {
        Some(t) => Some(t.clone()),
        None => None,
    }
}

impl Clone for MemorySnapshot {
    fn clone(&self) -> (r: Self)
        ensures
            same_snapshot(r, *self),
    {
        MemorySnapshot {
            player_name: self.player_name.clone(),
            player_guid: self.player_guid,
            player_object_type: self.player_object_type,
            player_current_health: self.player_current_health,
            player_max_health: self.player_max_health,
            player_race: self.player_race,
            player_level: self.player_level,
            player_faction: self.player_faction,
            player_unit_flags: self.player_unit_flags,
            player_monster_definition_ptr: self.player_monster_definition_ptr,
            player_display_id: self.player_display_id,
            player_native_display_id: self.player_native_display_id,
            position: self.position,
            heading_rad: self.heading_rad,
            target_guid: self.target_guid,
            target_object_type: self.target_object_type,
            target_name: clone_text(&self.target_name),
            target_current_health: self.target_current_health,
            target_max_health: self.target_max_health,
            target_race: self.target_race,
            target_level: self.target_level,
            target_faction: self.target_faction,
            target_unit_flags: self.target_unit_flags,
            target_monster_definition_ptr: self.target_monster_definition_ptr,
            target_display_id: self.target_display_id,
            target_native_display_id: self.target_native_display_id,
            target_hostility: clone_text(&self.target_hostility),
            target_distance: self.target_distance,
            diagnostics: self.diagnostics.clone(),
        }
    }
}

} // verus!
