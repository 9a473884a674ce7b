use std::collections::HashMap;

use glider_rust::memory::snapshot::{
    chain_link, guid, pointer, position_of, race_of, read_game_snapshot, ClientLayout,
};
use glider_rust::memory::{MemoryReader, MemoryReaderError};

/// A made-up game process: bytes at addresses, everything else unreadable.
#[derive(Default, Clone)]
struct Game {
    bytes: HashMap<usize, u8>,
}

impl Game {
    fn put(&mut self, at: usize, data: &[u8]) {
        for (i, b) in data.iter().enumerate() {
            self.bytes.insert(at + i, *b);
        }
    }
    fn u32(&mut self, at: usize, v: u32) {
        self.put(at, &v.to_le_bytes());
    }
    fn u64(&mut self, at: usize, v: u64) {
        self.put(at, &v.to_le_bytes());
    }
    fn f32(&mut self, at: usize, v: f32) {
        self.u32(at, v.to_bits());
    }
    fn forget(&mut self, at: usize, len: usize) {
        for a in at..at + len {
            self.bytes.remove(&a);
        }
    }
    fn read(&self, _handle: usize, at: usize, len: usize) -> Option<Vec<u8>> {
        let mut out = Vec::new();
        while out.len() < len {
            match self.bytes.get(&(at + out.len())) {
                Some(b) => out.push(*b),
                None => break,
            }
        }
        if out.is_empty() {
            None
        } else {
            Some(out)
        }
    }
}

fn distance(p: (u32, u32, u32), q: (u32, u32, u32)) -> u32 {
    let dx = f32::from_bits(q.0) - f32::from_bits(p.0);
    let dy = f32::from_bits(q.1) - f32::from_bits(p.1);
    let dz = f32::from_bits(q.2) - f32::from_bits(p.2);
    (dx * dx + dy * dy + dz * dz).sqrt().to_bits()
}

fn layout() -> ClientLayout {
    ClientLayout {
        client_connection_addr: 0x1000,
        object_manager_offset: 0x10,
        first_object_offset: 0x20,
        next_object_offset: 0x8,
        active_player_offset: 0x40,
        object_guid_offset: 0x0,
        object_storage_ptr_offset: 0x10,
        player_xyz_offset: 0x20,
        player_heading_offset: 0x2C,
        player_current_health_offset: Some(0x60),
        player_max_health_offset: Some(0x80),
        target_current_health_offset: Some(0x60),
        target_max_health_offset: Some(0x80),
        unit_field_bytes0_offset: 0x5C,
        unit_field_level_offset: 0xD8,
        unit_field_faction_template_offset: 0xDC,
        target_guid_addr: 0x1200,
        player_names_store_addr: 0x1300,
        player_names_first_node_offset: 0x10,
        player_names_guid_offset: 0x0,
        player_names_name_offset: 0x10,
        player_names_next_offset: 0x40,
        monster_definition_offset: 0x30,
        unit_name_second_offset: 0x4,
        faction_sub_addr: 0x1400,
        faction_base_addr: 0x1404,
        faction_off1_offset: 0x34,
        faction_off2_offset: 0x0,
    }
}

/// A player named Arthas at (1, 2, 3) targeting a hostile kobold at (4, 6, 3).
fn game() -> Game {
    let mut g = Game::default();
    g.u32(0x1000, 0x2000); // client connection
    g.u32(0x2010, 0x3000); // object manager
    g.u64(0x1100, 0x10); // static local guid
    g.u64(0x3030, 0x10); // manager local guid
    g.u32(0x3040, 0x4000); // active player
    g.u32(0x3020, 0x4000); // first object

    // The player object.
    g.u64(0x4000, 0x10);
    g.u32(0x4008, 0x5000);
    g.u32(0x4010, 0x6000);
    g.f32(0x4020, 1.0);
    g.f32(0x4024, 2.0);
    g.f32(0x4028, 3.0);
    g.f32(0x402C, 0.5);
    g.u32(0x4034, 0x7000);

    // The target object, last in the list.
    g.u64(0x5000, 0x20);
    g.u32(0x5008, 0);
    g.u32(0x5010, 0x6800);
    g.f32(0x5020, 4.0);
    g.f32(0x5024, 6.0);
    g.f32(0x5028, 3.0);
    g.u32(0x5030, 0x7200);
    g.u32(0x5034, 0x7100);
    g.u64(0x1200, 0x20);

    // Unit fields.
    g.u32(0x6000 + 0x60, 80);
    g.u32(0x6000 + 0x80, 100);
    g.u32(0x6000 + 0x5C, 0x0101_0001);
    g.u32(0x6000 + 0xD8, 12);
    g.u32(0x6000 + 0xDC, 1);
    g.u32(0x6800 + 0x60, 0);
    g.u32(0x6800 + 0x80, 50);

    // The name cache holds the player only.
    g.u32(0x1318, 0x8000);
    g.u64(0x8000, 0x10);
    g.put(0x8010, b"Arthas\0\0");
    g.u32(0x8040, 0);

    // The kobold's name through its creature record.
    g.u32(0x7204, 0x7300);
    g.put(0x7300, b"Kobold Vermin\0");

    // Faction templates: the kobold's hostile mask meets the player's flags.
    g.u32(0x1400, 1);
    g.u32(0x1404, 0x9000);
    g.u32(0x7000, 5);
    g.u32(0x7100, 7);
    g.u32(0x9010, 0xA000);
    g.u32(0x9018, 0xA100);
    for row in [0xA000, 0xA100] {
        for field in [4, 12, 16, 20, 24, 40] {
            g.u32(row + field, 0);
        }
    }
    g.u32(0xA000 + 4, 1);
    g.u32(0xA000 + 12, 0x1);
    g.u32(0xA100 + 4, 2);
    g.u32(0xA100 + 12, 0x8);
    g.u32(0xA100 + 20, 0x1);
    g
}

fn read(g: &Game) -> Result<glider_rust::memory::MemorySnapshot, MemoryReaderError> {
    let memory = |h: usize, a: usize, n: usize| g.read(h, a, n);
    read_game_snapshot(9, &layout(), &memory, &distance)
}

#[test]
fn reads_player_and_target() {
    let s = read(&game()).expect("snapshot");
    assert_eq!(s.player_name, "Arthas");
    assert_eq!(s.player_guid, Some(0x10));
    assert_eq!(s.player_current_health, Some(80));
    assert_eq!(s.player_max_health, Some(100));
    assert_eq!(s.player_race, Some(1));
    assert_eq!(s.player_level, Some(12));
    assert_eq!(s.player_faction, Some(1));
    assert_eq!(
        s.position,
        Some((1.0f32.to_bits(), 2.0f32.to_bits(), 3.0f32.to_bits()))
    );
    assert_eq!(s.heading_rad, Some(0.5f32.to_bits()));
    assert_eq!(s.target_guid, Some(0x20));
    assert_eq!(s.target_name.as_deref(), Some("Kobold Vermin"));
    assert_eq!(s.target_current_health, Some(0));
    assert_eq!(s.target_max_health, Some(50));
    assert_eq!(s.target_race, None);
    assert_eq!(s.target_hostility.as_deref(), Some("Hostile"));
    assert_eq!(s.target_distance.map(f32::from_bits), Some(5.0));
    assert_eq!(s.diagnostics[0], "trace client_connection=0x00002000");
    assert_eq!(s.diagnostics[1], "trace object_manager=0x00003000");
    assert_eq!(s.diagnostics[2], "trace active_player_ptr=0x00004000");
    assert_eq!(s.diagnostics[3], "trace player_base=0x00004000");
    assert_eq!(s.diagnostics[4], "trace player_storage=0x00006000");
    assert_eq!(
        s.diagnostics[5],
        "trace name_lookup matched guid=0x0000000000000010 name=Arthas"
    );
    assert!(!s.diagnostics.iter().any(|l| l.contains("failed")));
    assert!(s
        .diagnostics
        .contains(&"trace target guid matched object=0x00005000 after 1 steps".to_string()));
    assert!(s.diagnostics.contains(
        &"trace monster_name_lookup matched base=0x00005000 name=Kobold Vermin".to_string()
    ));
    assert!(s
        .diagnostics
        .contains(&"trace faction_rows mine=0x0000A000 other=0x0000A100".to_string()));
}

#[test]
fn broken_pointer_chain_fails_with_the_address_read() {
    let mut g = game();
    g.forget(0x1000, 4);
    assert_eq!(read(&g).unwrap_err(), MemoryReaderError::ReadMemoryFailed(0x1000));

    let mut g = game();
    g.u32(0x1000, 0);
    assert_eq!(read(&g).unwrap_err(), MemoryReaderError::ReadMemoryFailed(0x1000));

    let mut g = game();
    g.u32(0x2010, 0);
    assert_eq!(read(&g).unwrap_err(), MemoryReaderError::ReadMemoryFailed(0x2010));

    let mut g = game();
    g.forget(0x3040, 2);
    assert_eq!(read(&g).unwrap_err(), MemoryReaderError::ReadMemoryFailed(0x3040));
}

#[test]
fn the_player_is_read_from_the_active_player_pointer_only() {
    // A zero active player pointer fails the read; no other object stands in.
    let mut g = game();
    g.u32(0x3040, 0);
    assert_eq!(read(&g).unwrap_err(), MemoryReaderError::ReadMemoryFailed(0x3040));

    // Whatever guid the client keeps as its own, the active player's object is read.
    let mut g = game();
    g.u64(0x1100, 0x20);
    g.u64(0x3030, 0x20);
    let s = read(&g).expect("snapshot");
    assert_eq!(s.player_guid, Some(0x10));
    assert_eq!(s.player_name, "Arthas");
    assert_eq!(s.position, Some((1.0f32.to_bits(), 2.0f32.to_bits(), 3.0f32.to_bits())));
}

#[test]
fn without_unit_fields_only_the_basics_are_known() {
    let mut g = game();
    g.u32(0x4010, 0);
    g.forget(0x402C, 4);
    let s = read(&g).expect("bare snapshot");
    assert_eq!(s.player_name, "Arthas");
    assert_eq!(s.player_current_health, None);
    assert_eq!(s.heading_rad, None);
    assert_eq!(s.target_guid, None);
    assert!(s.diagnostics.contains(&"player heading read failed".to_string()));
    assert!(s.diagnostics.contains(&"trace player_storage=none".to_string()));
    assert_eq!(
        s.diagnostics.last().map(String::as_str),
        Some("player storage pointer unavailable")
    );
}

#[test]
fn unknown_names_and_lost_targets() {
    let mut g = game();
    g.u64(0x8000, 0x99);
    g.forget(0x1200, 8);
    let s = read(&g).expect("snapshot");
    assert_eq!(s.player_name, "");
    assert!(s.diagnostics.contains(&"player name not found".to_string()));
    assert_eq!(s.target_guid, None);
    assert_eq!(s.target_hostility, None);
    assert!(s.diagnostics.contains(&"target guid read failed".to_string()));

    let mut g = game();
    g.u64(0x1200, 0x77);
    let s = read(&g).expect("snapshot");
    assert_eq!(s.target_guid, Some(0x77));
    assert_eq!(s.target_name, None);
    assert!(s.diagnostics.contains(
        &"target guid 0x0000000000000077 not found during object list traversal".to_string()
    ));
    assert!(s.diagnostics.contains(
        &"target selected but target object was not found in object list".to_string()
    ));
}

#[test]
fn health_is_read_at_the_configured_offsets_only() {
    let mut g = game();
    g.u32(0x6000 + 0x60, 500);
    let s = read(&g).expect("snapshot");
    assert_eq!(s.player_current_health, Some(500));
    assert_eq!(s.player_max_health, Some(100));

    let mut g = game();
    g.forget(0x6000 + 0x80, 4);
    let s = read(&g).expect("snapshot");
    assert_eq!(s.player_current_health, Some(80));
    assert_eq!(s.player_max_health, None);
    assert!(s
        .diagnostics
        .contains(&"player health read failed at the configured offsets".to_string()));

    let mut l = layout();
    l.target_current_health_offset = None;
    let memory = |h: usize, a: usize, n: usize| g.read(h, a, n);
    let s = read_game_snapshot(9, &l, &memory, &distance).expect("snapshot");
    assert_eq!(s.target_current_health, None);
    assert_eq!(s.target_max_health, Some(50));
    assert!(s
        .diagnostics
        .contains(&"target health read failed at the configured offsets".to_string()));
}

#[test]
fn an_unreadable_faction_field_leaves_the_standing_unknown() {
    let mut g = game();
    g.forget(0xA100 + 20, 4);
    let s = read(&g).expect("snapshot");
    assert_eq!(s.target_hostility, None);
    assert!(s
        .diagnostics
        .contains(&"faction row field read failed at 0x0000A114".to_string()));

    let mut g = game();
    g.forget(0x9018, 4);
    let s = read(&g).expect("snapshot");
    assert_eq!(s.target_hostility, None);
    assert_eq!(s.target_name.as_deref(), Some("Kobold Vermin"));
}

#[test]
fn a_detached_reader_reads_nothing() {
    let g = game();
    let memory = |h: usize, a: usize, n: usize| g.read(h, a, n);
    let reader = MemoryReader::new();
    assert_eq!(
        reader.read_snapshot(&layout(), &memory, &distance).unwrap_err(),
        MemoryReaderError::NotAttached
    );
}

#[test]
fn decisions_between_reads() {
    assert_eq!(chain_link(Some(0x2000), 0x10), Ok(0x2000));
    assert_eq!(chain_link(Some(0), 0x10), Err(MemoryReaderError::ReadMemoryFailed(0x10)));
    assert_eq!(chain_link(None, 0x10), Err(MemoryReaderError::ReadMemoryFailed(0x10)));
    assert_eq!(position_of(Some(1), Some(2), Some(3)), Some((1, 2, 3)));
    assert_eq!(position_of(Some(1), None, Some(3)), None);
    assert_eq!(guid(Some(0)), None);
    assert_eq!(pointer(Some(0)), None);
    assert_eq!(pointer(Some(0x40)), Some(0x40));
    assert_eq!(race_of(Some(0x0203_0407)), Some(7));
    assert_eq!(race_of(None), None);
}

#[test]
fn two_reads_of_the_same_memory_agree() {
    let g = game();
    let a = read(&g).expect("snapshot");
    let b = read(&g).expect("snapshot");
    assert_eq!(format!("{a:?}"), format!("{b:?}"));
    assert_eq!(a.position, b.position);
    assert_eq!(a.player_level, b.player_level);

    let mut g = game();
    g.u32(0x2010, 0);
    assert_eq!(read(&g).unwrap_err(), read(&g).unwrap_err());
}

type Row = (u32, u32, u32, u32, [u32; 4], [u32; 4]);

fn put_row(g: &mut Game, at: usize, row: Row) {
    let (group, flags, friendly, hostile, enemies, friends) = row;
    g.u32(at + 4, group);
    g.u32(at + 12, flags);
    g.u32(at + 16, friendly);
    g.u32(at + 20, hostile);
    for i in 0..4 {
        g.u32(at + 24 + 4 * i, enemies[i]);
        g.u32(at + 40 + 4 * i, friends[i]);
    }
}

fn standing_of(mine: Row, other: Row) -> Option<String> {
    let mut g = game();
    put_row(&mut g, 0xA000, mine);
    put_row(&mut g, 0xA100, other);
    read(&g).expect("snapshot").target_hostility
}

#[test]
fn standing_between_faction_rows() {
    let me: Row = (1, 0x1, 0, 0x8, [0; 4], [0; 4]);
    let hostile = Some("Hostile".to_string());
    let friendly = Some("Friendly".to_string());
    let neutral = Some("Neutral".to_string());
    assert_eq!(standing_of(me, (2, 0, 0, 0x1, [0; 4], [0; 4])), hostile);
    assert_eq!(standing_of(me, (2, 0, 0, 0, [3, 1, 0, 0], [0; 4])), hostile);
    // An enemy listed after the list's end does not count.
    assert_eq!(standing_of(me, (2, 0, 0, 0, [3, 0, 1, 0], [0; 4])), neutral);
    assert_eq!(standing_of(me, (2, 0, 0x1, 0, [0; 4], [0; 4])), friendly);
    assert_eq!(standing_of(me, (2, 0, 0, 0, [0; 4], [1, 0, 0, 0])), friendly);
    assert_eq!(standing_of(me, (2, 0x8, 0, 0, [0; 4], [0; 4])), friendly);
    let friendly_me: Row = (1, 0, 0, 0, [0; 4], [5, 2, 0, 0]);
    assert_eq!(standing_of(friendly_me, (2, 0, 0, 0, [0; 4], [0; 4])), friendly);
    assert_eq!(standing_of(me, (2, 0, 0, 0, [0; 4], [0; 4])), neutral);
}

#[test]
fn only_the_fields_a_standing_needs_are_read() {
    // The kobold's hostile mask meets the player's flags: nothing else is needed.
    let mut g = game();
    g.forget(0xA000 + 4, 4);
    g.forget(0xA000 + 20, 4);
    g.forget(0xA100 + 16, 4);
    g.forget(0xA100 + 24, 4);
    let s = read(&g).expect("snapshot");
    assert_eq!(s.target_hostility.as_deref(), Some("Hostile"));
    assert!(!s.diagnostics.iter().any(|l| l.starts_with("faction row field read failed")));
}

#[test]
fn names_and_objects_are_found_along_their_lists() {
    // The player's name sits in the second node of the name cache.
    let mut g = game();
    g.u64(0x8000, 0x55);
    g.u32(0x8040, 0x8100);
    g.u64(0x8100, 0x10);
    g.put(0x8110, b"Arthas\0\0");
    g.u32(0x8140, 0);
    let s = read(&g).expect("snapshot");
    assert_eq!(s.player_name, "Arthas");

    // A node whose guid cannot be read ends the walk.
    let mut g2 = g.clone();
    g2.forget(0x8000, 8);
    let s = read(&g2).expect("snapshot");
    assert_eq!(s.player_name, "");
    assert!(s.diagnostics.contains(&"player name not found".to_string()));

    // The target is the second object of the list.
    let s = read(&game()).expect("snapshot");
    assert!(s
        .diagnostics
        .contains(&"trace target guid matched object=0x00005000 after 1 steps".to_string()));
    assert_eq!(s.target_level, None);
}
