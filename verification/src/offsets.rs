use vstd::prelude::*;

verus! {

/// Addresses and offsets in the game client's memory.
#[derive(Debug, Clone, Copy, PartialEq, Eq, Structural)]
pub struct OffsetTable {
    pub player_guid: usize,
    pub player_xyz: usize,
    pub target_guid: usize,
}

impl OffsetTable {
    /// The table for the 3.3.5a client.
    pub fn wotlk_3_3_5a() -> (t: OffsetTable)
        ensures
            t == (OffsetTable { player_guid: 0x00C79D18, player_xyz: 0x00798, target_guid: 0x00BD07B0 }),
    {
        OffsetTable { player_guid: 0x00C79D18, player_xyz: 0x00798, target_guid: 0x00BD07B0 }
    }
}

} // verus!
