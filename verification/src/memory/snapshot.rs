use vstd::prelude::*;
use vstd::string::StringExecFns;

use crate::format::{decimal_string, hex, hex_string_width, zero_padded};
use crate::memory::faction::{faction_chain_ready, faction_row_slot, row_slot, Hostility};
use crate::memory::reader::{c_string, until_nul, utf8_lossy, MemoryReader, MemoryReaderError};
use crate::text::trim;
use crate::memory::types::MemorySnapshot;
use crate::memory::walk::{
    link, name_node_live, NameWalk, ObjectWalk, WalkStep, MAX_NAME_STEPS, MAX_OBJECT_STEPS,
};

verus! {

/// Where the game client keeps what a snapshot reads: absolute addresses (`_addr`)
/// and offsets from the object or record they belong to (`_offset`). A health
/// offset may be left unset, and then that value is not read.
#[derive(Debug, Clone, Copy)]
pub struct ClientLayout {
    pub client_connection_addr: usize,
    pub object_manager_offset: usize,
    pub first_object_offset: usize,
    pub next_object_offset: usize,
    pub active_player_offset: usize,
    pub object_guid_offset: usize,
    pub object_storage_ptr_offset: usize,
    pub player_xyz_offset: usize,
    pub player_heading_offset: usize,
    pub player_current_health_offset: Option<usize>,
    pub player_max_health_offset: Option<usize>,
    pub target_current_health_offset: Option<usize>,
    pub target_max_health_offset: Option<usize>,
    pub unit_field_bytes0_offset: usize,
    pub unit_field_level_offset: usize,
    pub unit_field_faction_template_offset: usize,
    pub target_guid_addr: usize,
    pub player_names_store_addr: usize,
    pub player_names_first_node_offset: usize,
    pub player_names_guid_offset: usize,
    pub player_names_name_offset: usize,
    pub player_names_next_offset: usize,
    pub monster_definition_offset: usize,
    pub unit_name_second_offset: usize,
    pub faction_sub_addr: usize,
    pub faction_base_addr: usize,
    pub faction_off1_offset: usize,
    pub faction_off2_offset: usize,
}

/// `memory(handle, address, length)` reads the game's memory: the bytes it could
/// read there, at most `length` of them, or `None`. It may be asked anything.
pub open spec fn memory_ready<M: Fn(usize, usize, usize) -> Option<Vec<u8>>>(memory: M) -> bool {
    forall|h: usize, a: usize, n: usize| call_requires(memory, (h, a, n))
}

/// `distance(from, to)` measures between two positions (`f32` bits). It may be asked
/// anything.
pub open spec fn distance_ready<D: Fn((u32, u32, u32), (u32, u32, u32)) -> u32>(distance: D) -> bool {
    forall|p: (u32, u32, u32), q: (u32, u32, u32)| call_requires(distance, (p, q))
}

/// The words a standing is shown as.
pub open spec fn hostility_word(s: Seq<char>) -> bool {
    s == "Hostile"@ || s == "Friendly"@ || s == "Neutral"@
}

fn text(s: &str) -> (r: String)
    ensures
        r@ == s@,
{
    String::from_str(s)
}

/// The concatenation of `parts`, in order.
pub open spec fn joined_parts(parts: Seq<Seq<char>>) -> Seq<char>
    decreases parts.len(),
{
    if parts.len() == 0 {
        seq![]
    } else {
        joined_parts(parts.drop_last()) + parts.last()
    }
}

/// A diagnostics line made of `parts`, in order.
fn line(parts: Vec<String>) -> (r: String)
    ensures
        r@ == joined_parts(parts@.map_values(|p: String| p@)),
{
    let ghost views = parts@.map_values(|p: String| p@);
    let mut r = String::new();
    let mut i: usize = 0;
    while i < parts.len()
        invariant
            i <= parts.len(),
            views == parts@.map_values(|p: String| p@),
            r@ == joined_parts(views.subrange(0, i as int)),
        decreases parts.len() - i,
    {
        assert(views.subrange(0, i + 1).drop_last() =~= views.subrange(0, i as int));
        assert(views.subrange(0, i + 1).last() == parts[i as int]@);
        r.append(parts[i].as_str());
        i = i + 1;
    }
    assert(views.subrange(0, parts.len() as int) =~= views);
    r
}

/// `n` as eight or more upper-case hex digits, as `{:08X}` writes it.
fn hex8(n: usize) -> (s: String)
    ensures
        s@ == zero_padded(hex(n as nat), 8),
{
    hex_string_width(n as u64, 8)
}

/// `n` as sixteen upper-case hex digits, as `{:016X}` writes it.
fn hex16(n: u64) -> (s: String)
    ensures
        s@ == zero_padded(hex(n as nat), 16),
{
    hex_string_width(n, 16)
}

/// The value of four little-endian bytes.
pub open spec fn le_word(b: Seq<u8>) -> u32 {
    (b[0] + b[1] * 0x100 + b[2] * 0x1_0000 + b[3] * 0x100_0000) as u32
}

/// The value of eight little-endian bytes.
pub open spec fn le_dword(b: Seq<u8>) -> u64 {
    (b[0] + b[1] * 0x100 + b[2] * 0x1_0000 + b[3] * 0x100_0000 + b[4] * 0x1_0000_0000 + b[5]
        * 0x100_0000_0000 + b[6] * 0x1_0000_0000_0000 + b[7] * 0x100_0000_0000_0000) as u64
}

/// The `u32` that a read of four bytes gave: `None` unless all four were read.
pub open spec fn word_of(bytes: Option<Vec<u8>>) -> Option<u32> {
    match bytes {
        Some(b) => if b@.len() == 4 {
            Some(le_word(b@))
        } else {
            None
        },
        None => None,
    }
}

/// The `u64` that a read of eight bytes gave: `None` unless all eight were read.
pub open spec fn dword_of(bytes: Option<Vec<u8>>) -> Option<u64> {
    match bytes {
        Some(b) => if b@.len() == 8 {
            Some(le_dword(b@))
        } else {
            None
        },
        None => None,
    }
}

/// The text that a read of at most `max_len` bytes gave: `None` when nothing (or
/// more than was asked) came back, else the bytes before the first zero, decoded
/// leniently and trimmed.
pub open spec fn text_of(bytes: Option<Vec<u8>>, max_len: usize) -> Option<Seq<char>> {
    match bytes {
        Some(b) => if b@.len() == 0 || b@.len() > max_len {
            None
        } else {
            Some(trim(utf8_lossy(until_nul(b@, 0u8))))
        },
        None => None,
    }
}

/// `v` is what an answer of `memory` to a read of four bytes at `address` gives.
pub open spec fn read_word<M: Fn(usize, usize, usize) -> Option<Vec<u8>>>(
    memory: M,
    handle: usize,
    address: usize,
    v: Option<u32>,
) -> bool {
    exists|b: Option<Vec<u8>>| #[trigger] call_ensures(memory, (handle, address, 4usize), b) && word_of(b) == v
}

/// `v` is what an answer of `memory` to a read of eight bytes at `address` gives.
pub open spec fn read_dword<M: Fn(usize, usize, usize) -> Option<Vec<u8>>>(
    memory: M,
    handle: usize,
    address: usize,
    v: Option<u64>,
) -> bool {
    exists|b: Option<Vec<u8>>| #[trigger] call_ensures(memory, (handle, address, 8usize), b) && dword_of(b) == v
}

/// `v` is what an answer of `memory` to a read of at most `max_len` bytes at
/// `address` gives as text.
pub open spec fn read_text<M: Fn(usize, usize, usize) -> Option<Vec<u8>>>(
    memory: M,
    handle: usize,
    address: usize,
    max_len: usize,
    v: Option<Seq<char>>,
) -> bool {
    exists|b: Option<Vec<u8>>|
        #[trigger] call_ensures(memory, (handle, address, max_len), b) && text_of(b, max_len) == v
}

/// The text a string holds, if any.
pub open spec fn text_view(s: Option<String>) -> Option<Seq<char>> {
    match s {
        Some(t) => Some(t@),
        None => None,
    }
}

fn le_u32(b: &Vec<u8>) -> (r: u32)
    requires
        b.len() == 4,
    ensures
        r == b@[0] + b@[1] * 0x100 + b@[2] * 0x1_0000 + b@[3] * 0x100_0000,
{
    (b[0] as u32) + (b[1] as u32) * 0x100 + (b[2] as u32) * 0x1_0000 + (b[3] as u32) * 0x100_0000
}

fn le_u64(b: &Vec<u8>) -> (r: u64)
    requires
        b.len() == 8,
    ensures
        r == b@[0] + b@[1] * 0x100 + b@[2] * 0x1_0000 + b@[3] * 0x100_0000 + b@[4] * 0x1_0000_0000
            + b@[5] * 0x100_0000_0000 + b@[6] * 0x1_0000_0000_0000 + b@[7] * 0x100_0000_0000_0000,
{
    (b[0] as u64) + (b[1] as u64) * 0x100 + (b[2] as u64) * 0x1_0000 + (b[3] as u64) * 0x100_0000
        + (b[4] as u64) * 0x1_0000_0000 + (b[5] as u64) * 0x100_0000_0000 + (b[6] as u64)
        * 0x1_0000_0000_0000 + (b[7] as u64) * 0x100_0000_0000_0000
}

/// The four bytes at `address`, little-endian, when all of them could be read.
fn read_u32<M: Fn(usize, usize, usize) -> Option<Vec<u8>>>(memory: &M, handle: usize, address: usize) -> (r: Option<u32>)
    requires
        memory_ready(*memory),
    ensures
        read_word(*memory, handle, address, r),
{
    let got = memory(handle, address, 4);
    let ghost answer = got;
    let r = match got {
        Some(b) => if b.len() == 4 {
            Some(le_u32(&b))
        } else {
            None
        },
        None => None,
    };
    assert(call_ensures(*memory, (handle, address, 4usize), answer) && word_of(answer) == r);
    r
}

/// The eight bytes at `address`, little-endian, when all of them could be read.
fn read_u64<M: Fn(usize, usize, usize) -> Option<Vec<u8>>>(memory: &M, handle: usize, address: usize) -> (r: Option<u64>)
    requires
        memory_ready(*memory),
    ensures
        read_dword(*memory, handle, address, r),
{
    let got = memory(handle, address, 8);
    let ghost answer = got;
    let r = match got {
        Some(b) => if b.len() == 8 {
            Some(le_u64(&b))
        } else {
            None
        },
        None => None,
    };
    assert(call_ensures(*memory, (handle, address, 8usize), answer) && dword_of(answer) == r);
    r
}

/// The zero-terminated text at `address`, reading at most `max_len` bytes; `None`
/// when nothing could be read.
fn read_c_string<M: Fn(usize, usize, usize) -> Option<Vec<u8>>>(
    memory: &M,
    handle: usize,
    address: usize,
    max_len: usize,
) -> (r: Option<String>)
    requires
        memory_ready(*memory),
    ensures
        read_text(*memory, handle, address, max_len, text_view(r)),
        r matches Some(t) ==> !t@.contains('\0'),
{
    let got = memory(handle, address, max_len);
    let ghost answer = got;
    let r = match got {
        Some(b) => if b.len() == 0 || b.len() > max_len {
            None
        } else {
            Some(c_string(b.as_slice()))
        },
        None => None,
    };
    assert(call_ensures(*memory, (handle, address, max_len), answer) && text_of(answer, max_len)
        == text_view(r));
    r
}

/// The non-zero pointer in a read `v`, if any.
pub open spec fn pointer_spec(v: Option<u32>) -> Option<usize> {
    match v {
        Some(p) => if p != 0 {
            Some(p as usize)
        } else {
            None
        },
        None => None,
    }
}

/// The non-zero guid in a read `v`, if any.
pub open spec fn guid_spec(v: Option<u64>) -> Option<u64> {
    match v {
        Some(g) => if g != 0 {
            Some(g)
        } else {
            None
        },
        None => None,
    }
}

/// A non-zero pointer read as `v`.
pub fn pointer(v: Option<u32>) -> (r: Option<usize>)
    ensures
        r == pointer_spec(v),
{
    match v {
        Some(p) => if p != 0 {
            Some(p as usize)
        } else {
            None
        },
        None => None,
    }
}

/// A non-zero guid read as `v`.
pub fn guid(v: Option<u64>) -> (r: Option<u64>)
    ensures
        r == guid_spec(v),
{
    match v {
        Some(g) => if g != 0 {
            Some(g)
        } else {
            None
        },
        None => None,
    }
}

/// The text of each diagnostics line.
pub open spec fn lines_of(v: Seq<String>) -> Seq<Seq<char>> {
    v.map_values(|s: String| s@)
}

/// Every line of the diagnostics `before` is still among those of `after`.
pub open spec fn kept(before: Seq<String>, after: Seq<String>) -> bool {
    forall|l: Seq<char>| #[trigger] lines_of(before).contains(l) ==> lines_of(after).contains(l)
}

/// Adds `line` to the diagnostics.
fn note(diagnostics: &mut Vec<String>, line: String)
    ensures
        lines_of(final(diagnostics)@) == lines_of(old(diagnostics)@).push(line@),
        kept(old(diagnostics)@, final(diagnostics)@),
        lines_of(final(diagnostics)@).contains(line@),
{
    let ghost before = diagnostics@;
    diagnostics.push(line);
    let ghost after = lines_of(diagnostics@);
    assert(after =~= lines_of(before).push(line@));
    assert(after[after.len() - 1] == line@);
    assert forall|l: Seq<char>| #[trigger] lines_of(before).contains(l) implies after.contains(l) by {
        let i = choose|i: int| 0 <= i < lines_of(before).len() && lines_of(before)[i] == l;
        assert(after[i] == l);
    }
}

/// The line left when an object search finds nothing.
pub open spec fn not_found_line(purpose: Seq<char>, target_guid: u64) -> Seq<char> {
    purpose + " guid 0x"@ + zero_padded(hex(target_guid as nat), 16)
        + " not found during object list traversal"@
}

/// `r` is what a walk of the object list for `target_guid` finds from `node`,
/// having followed `steps` links, given what reads of `memory` gave: nothing once
/// the step limit is reached; the node itself when its guid reads as
/// `target_guid`; otherwise what the walk finds from the node its link leads to,
/// and nothing when that link is unreadable, zero or points back at the node.
pub open spec fn object_walk_from<M: Fn(usize, usize, usize) -> Option<Vec<u8>>>(
    memory: M,
    handle: usize,
    layout: ClientLayout,
    target_guid: u64,
    node: usize,
    steps: usize,
    r: Option<usize>,
) -> bool
    decreases MAX_OBJECT_STEPS - steps,
{
    if steps >= MAX_OBJECT_STEPS {
        r is None
    } else {
        exists|g: Option<u64>|
            #[trigger] read_dword(memory, handle, node.wrapping_add(layout.object_guid_offset), g)
                && if g == Some(target_guid) {
                r == Some(node)
            } else {
                exists|next: Option<u32>|
                    #[trigger] read_word(memory, handle, node.wrapping_add(layout.next_object_offset), next)
                        && if link(next) == 0 || link(next) == node {
                        r is None
                    } else {
                        object_walk_from(
                            memory,
                            handle,
                            layout,
                            target_guid,
                            link(next),
                            (steps + 1) as usize,
                            r,
                        )
                    }
            }
    }
}

/// `r` is what a search of the object list from `object_manager` gives for
/// `target_guid`: nothing when the list's first pointer is unreadable or zero, else
/// what a walk from the first object finds (`object_walk_from`).
pub open spec fn object_search<M: Fn(usize, usize, usize) -> Option<Vec<u8>>>(
    memory: M,
    handle: usize,
    layout: ClientLayout,
    object_manager: usize,
    target_guid: u64,
    r: Option<usize>,
) -> bool {
    exists|first: Option<u32>|
        #[trigger] read_word(
            memory,
            handle,
            object_manager.wrapping_add(layout.first_object_offset),
            first,
        ) && match pointer_spec(first) {
            None => r is None,
            Some(f) => object_walk_from(memory, handle, layout, target_guid, f, 0, r),
        }
}

/// Follows the object manager's list for the object whose guid is `target_guid`.
fn find_object_by_guid<M: Fn(usize, usize, usize) -> Option<Vec<u8>>>(
    memory: &M,
    handle: usize,
    layout: &ClientLayout,
    object_manager: usize,
    target_guid: u64,
    purpose: &str,
    diagnostics: &mut Vec<String>,
) -> (r: Option<usize>)
    requires
        memory_ready(*memory),
    ensures
        kept(old(diagnostics)@, final(diagnostics)@),
        object_search(*memory, handle, *layout, object_manager, target_guid, r),
        r matches Some(at) ==> at != 0 && read_dword(
            *memory,
            handle,
            at.wrapping_add(layout.object_guid_offset),
            Some(target_guid),
        ),
        r is None ==> (lines_of(final(diagnostics)@) == lines_of(old(diagnostics)@).push(
            "first object pointer unavailable"@,
        ) || lines_of(final(diagnostics)@) == lines_of(old(diagnostics)@).push(
            not_found_line(purpose@, target_guid),
        )),
        r is Some ==> lines_of(final(diagnostics)@).len() == lines_of(old(diagnostics)@).len() + 1,
{
    let ghost start = diagnostics@;
    let first = read_u32(memory, handle, object_manager.wrapping_add(layout.first_object_offset));
    assert(read_word(*memory, handle, object_manager.wrapping_add(layout.first_object_offset), first));
    let ghost f: usize = match first {
        Some(v) => v as usize,
        None => 0,
    };
    let mut walk = match ObjectWalk::start(target_guid, first) {
        Some(w) => w,
        None => {
            note(diagnostics, text("first object pointer unavailable"));
            assert(object_search(*memory, handle, *layout, object_manager, target_guid, None));
            return None;
        },
    };
    loop
        invariant
            memory_ready(*memory),
            walk@.guid == target_guid,
            walk@.steps < MAX_OBJECT_STEPS,
            walk@.node != 0,
            diagnostics@ == start,
            start == old(diagnostics)@,
            pointer_spec(first) == Some(f),
            read_word(*memory, handle, object_manager.wrapping_add(layout.first_object_offset), first),
            forall|r: Option<usize>|
                #[trigger] object_walk_from(*memory, handle, *layout, target_guid, walk@.node, walk@.steps, r)
                    ==> object_walk_from(*memory, handle, *layout, target_guid, f, 0, r),
        decreases MAX_OBJECT_STEPS - walk@.steps,
    {
        let node = walk.current();
        let steps = walk.steps();
        let found_guid = read_u64(memory, handle, node.wrapping_add(layout.object_guid_offset));
        assert(read_dword(*memory, handle, node.wrapping_add(layout.object_guid_offset), found_guid));
        let next = if found_guid == Some(target_guid) {
            None
        } else {
            read_u32(memory, handle, node.wrapping_add(layout.next_object_offset))
        };
        proof {
            if found_guid != Some(target_guid) {
                assert(read_word(*memory, handle, node.wrapping_add(layout.next_object_offset), next));
            }
        }
        match walk.visit(found_guid, next) {
            WalkStep::Found(at) => {
                assert(object_walk_from(*memory, handle, *layout, target_guid, node, steps, Some(node)));
                assert(object_search(*memory, handle, *layout, object_manager, target_guid, Some(at)));
                note(
                    diagnostics,
                    line(
                        vec![
                            text("trace "),
                            text(purpose),
                            text(" guid matched object=0x"),
                            hex8(at),
                            text(" after "),
                            decimal_string(steps as u64),
                            text(" steps"),
                        ],
                    ),
                );
                return Some(at);
            },
            WalkStep::Continue => {
                proof {
                    assert forall|r: Option<usize>|
                        #[trigger] object_walk_from(*memory, handle, *layout, target_guid, walk@.node, walk@.steps, r)
                        implies object_walk_from(*memory, handle, *layout, target_guid, f, 0, r) by {
                        assert(object_walk_from(*memory, handle, *layout, target_guid, node, steps, r));
                    }
                }
            },
            WalkStep::NotFound => {
                proof {
                    if found_guid != Some(target_guid) && link(next) != 0 && link(next) != node {
                        assert(object_walk_from(
                            *memory,
                            handle,
                            *layout,
                            target_guid,
                            link(next),
                            (steps + 1) as usize,
                            None,
                        ));
                    }
                }
                assert(object_walk_from(*memory, handle, *layout, target_guid, node, steps, None));
                assert(object_search(*memory, handle, *layout, object_manager, target_guid, None));
                let mut l = String::from_str(purpose);
                l.append(" guid 0x");
                let h = hex16(target_guid);
                l.append(h.as_str());
                l.append(" not found during object list traversal");
                assert(l@ == not_found_line(purpose@, target_guid));
                note(diagnostics, l);
                return None;
            },
        }
    }
}

/// `name` is what reads of `memory` gave at the name-cache node `node` for `guid`:
/// the node's guid field was read as `guid`, and its name, read as at most 32
/// bytes, as `name`.
pub open spec fn name_node_read<M: Fn(usize, usize, usize) -> Option<Vec<u8>>>(
    memory: M,
    handle: usize,
    layout: ClientLayout,
    node: usize,
    guid: u64,
    name: Seq<char>,
) -> bool {
    &&& read_dword(memory, handle, node.wrapping_add(layout.player_names_guid_offset), Some(guid))
    &&& read_text(memory, handle, node.wrapping_add(layout.player_names_name_offset), 32, Some(name))
}

/// Where the pointer to the name cache's first node is kept.
pub open spec fn first_name_node_addr(layout: ClientLayout) -> usize {
    layout.player_names_store_addr.wrapping_add(8).wrapping_add(layout.player_names_first_node_offset)
}

/// `r` is what a walk of the name cache for `guid` finds from `node`, having
/// followed `steps` links, given what reads of `memory` gave: nothing at a node
/// that may not be visited (`name_node_live`) or whose guid cannot be read; the
/// node's name when its guid is `guid` and its name reads as non-empty text;
/// otherwise what the walk finds from the node its link leads to, and nothing when
/// that link is zero or points back at the node.
pub open spec fn name_walk_from<M: Fn(usize, usize, usize) -> Option<Vec<u8>>>(
    memory: M,
    handle: usize,
    layout: ClientLayout,
    guid: u64,
    node: usize,
    steps: usize,
    r: Option<Seq<char>>,
) -> bool
    decreases MAX_NAME_STEPS - steps,
{
    if !name_node_live(node, steps) {
        r is None
    } else {
        let follow = exists|next: Option<u32>|
            #[trigger] read_word(memory, handle, node.wrapping_add(layout.player_names_next_offset), next)
                && if link(next) == 0 || link(next) == node {
                r is None
            } else {
                name_walk_from(memory, handle, layout, guid, link(next), (steps + 1) as usize, r)
            };
        exists|g: Option<u64>|
            #[trigger] read_dword(memory, handle, node.wrapping_add(layout.player_names_guid_offset), g)
                && match g {
                None => r is None,
                Some(gv) => if gv == guid {
                    exists|n: Option<Seq<char>>|
                        #[trigger] read_text(
                            memory,
                            handle,
                            node.wrapping_add(layout.player_names_name_offset),
                            32,
                            n,
                        ) && if n is Some && n->0.len() > 0 {
                            r == n
                        } else {
                            follow
                        }
                } else {
                    follow
                },
            }
    }
}

/// `r` is what the name cache gives for `guid`: nothing when the pointer to its
/// first node is unreadable or zero, else what a walk from that node finds
/// (`name_walk_from`).
pub open spec fn name_search<M: Fn(usize, usize, usize) -> Option<Vec<u8>>>(
    memory: M,
    handle: usize,
    layout: ClientLayout,
    guid: u64,
    r: Option<Seq<char>>,
) -> bool {
    exists|first: Option<u32>|
        #[trigger] read_word(memory, handle, first_name_node_addr(layout), first) && match pointer_spec(
            first,
        ) {
            None => r is None,
            Some(f) => name_walk_from(memory, handle, layout, guid, f, 0, r),
        }
}

/// Follows the player-name cache for the name stored with `guid`.
fn lookup_name_by_guid<M: Fn(usize, usize, usize) -> Option<Vec<u8>>>(
    memory: &M,
    handle: usize,
    layout: &ClientLayout,
    guid: u64,
    diagnostics: &mut Vec<String>,
) -> (r: Option<String>)
    requires
        memory_ready(*memory),
    ensures
        r matches Some(n) ==> !n@.contains('\0'),
        kept(old(diagnostics)@, final(diagnostics)@),
        name_search(*memory, handle, *layout, guid, text_view(r)),
        r matches Some(n) ==> n@.len() > 0 && trim(n@) == n@,
        r matches Some(n) ==> exists|node: usize| #[trigger]
            name_node_read(*memory, handle, *layout, node, guid, n@),
        r is None ==> final(diagnostics)@ == old(diagnostics)@,
{
    let first = read_u32(memory, handle, layout.player_names_store_addr.wrapping_add(8).wrapping_add(layout.player_names_first_node_offset));
    assert(read_word(*memory, handle, first_name_node_addr(*layout), first));
    let ghost f: usize = match first {
        Some(v) => v as usize,
        None => 0,
    };
    let mut walk = match NameWalk::start(guid, first) {
        Some(w) => w,
        None => {
            assert(name_search(*memory, handle, *layout, guid, None));
            return None;
        },
    };
    let ghost start = diagnostics@;
    loop
        invariant
            memory_ready(*memory),
            walk@.guid == guid,
            name_node_live(walk@.node, walk@.steps),
            diagnostics@ == start,
            start == old(diagnostics)@,
            pointer_spec(first) == Some(f),
            read_word(*memory, handle, first_name_node_addr(*layout), first),
            forall|r: Option<Seq<char>>|
                #[trigger] name_walk_from(*memory, handle, *layout, guid, walk@.node, walk@.steps, r)
                    ==> name_walk_from(*memory, handle, *layout, guid, f, 0, r),
        decreases MAX_NAME_STEPS - walk@.steps,
    {
        let node = walk.current();
        let ghost steps = walk@.steps;
        let guid_read = read_u64(memory, handle, node.wrapping_add(layout.player_names_guid_offset));
        assert(read_dword(*memory, handle, node.wrapping_add(layout.player_names_guid_offset), guid_read));
        let matched = walk.matches(guid_read);
        let name = if matched {
            read_c_string(memory, handle, node.wrapping_add(layout.player_names_name_offset), 32)
        } else {
            None
        };
        let hit = match &name {
            Some(n) => matched && !n.as_str().is_empty(),
            None => false,
        };
        let next = if hit || guid_read.is_none() {
            None
        } else {
            read_u32(memory, handle, node.wrapping_add(layout.player_names_next_offset))
        };
        let ghost read_name = text_view(name);
        proof {
            if matched {
                assert(read_text(*memory, handle, node.wrapping_add(layout.player_names_name_offset), 32, read_name));
            }
            if !hit && guid_read is Some {
                assert(read_word(*memory, handle, node.wrapping_add(layout.player_names_next_offset), next));
            }
        }
        match walk.visit(guid_read, name, next) {
            WalkStep::Found(n) => {
                assert(read_name == Some(n@));
                assert(name_walk_from(*memory, handle, *layout, guid, node, steps, Some(n@)));
                assert(name_node_read(*memory, handle, *layout, node, guid, n@));
                proof {
                    lemma_text_trimmed(*memory, handle, node.wrapping_add(layout.player_names_name_offset), 32, n@);
                }
                assert(name_search(*memory, handle, *layout, guid, Some(n@)));
                note(
                    diagnostics,
                    line(
                        vec![
                            text("trace name_lookup matched guid=0x"),
                            hex16(guid),
                            text(" name="),
                            n.clone(),
                        ],
                    ),
                );
                return Some(n);
            },
            WalkStep::Continue => {
                proof {
                    assert forall|r: Option<Seq<char>>|
                        #[trigger] name_walk_from(*memory, handle, *layout, guid, walk@.node, walk@.steps, r)
                        implies name_walk_from(*memory, handle, *layout, guid, f, 0, r) by {
                        assert(name_walk_from(*memory, handle, *layout, guid, node, steps, r));
                    }
                }
            },
            WalkStep::NotFound => {
                proof {
                    if guid_read is Some && !hit && link(next) != 0 && link(next) != node {
                        assert(name_walk_from(
                            *memory,
                            handle,
                            *layout,
                            guid,
                            link(next),
                            (steps + 1) as usize,
                            None,
                        ));
                    }
                }
                assert(name_walk_from(*memory, handle, *layout, guid, node, steps, None));
                assert(name_search(*memory, handle, *layout, guid, None));
                return None;
            },
        }
    }
}

/// Text read from memory has no leading or trailing whitespace.
proof fn lemma_text_trimmed<M: Fn(usize, usize, usize) -> Option<Vec<u8>>>(
    memory: M,
    handle: usize,
    address: usize,
    max_len: usize,
    t: Seq<char>,
)
    requires
        read_text(memory, handle, address, max_len, Some(t)),
    ensures
        trim(t) == t,
{
    let b = choose|b: Option<Vec<u8>>|
        #[trigger] call_ensures(memory, (handle, address, max_len), b) && text_of(b, max_len)
            == Some(t);
    crate::text::lemma_trim_idempotent(utf8_lossy(until_nul(b->0@, 0u8)));
}

/// `n` is the creature name that reads of `memory` gave through the unit at `base`:
/// its non-zero definition pointer, the definition's non-zero name pointer, and at
/// most 64 bytes of text there.
pub open spec fn monster_name_read<M: Fn(usize, usize, usize) -> Option<Vec<u8>>>(
    memory: M,
    handle: usize,
    layout: ClientLayout,
    base: usize,
    n: Seq<char>,
) -> bool {
    exists|definition: u32, name_ptr: u32|
        #![trigger read_word(memory, handle, base.wrapping_add(layout.monster_definition_offset), Some(definition)), read_word(memory, handle, (definition as usize).wrapping_add(layout.unit_name_second_offset), Some(name_ptr))]
        {
            &&& definition != 0 && name_ptr != 0
            &&& read_word(
                memory,
                handle,
                base.wrapping_add(layout.monster_definition_offset),
                Some(definition),
            )
            &&& read_word(
                memory,
                handle,
                (definition as usize).wrapping_add(layout.unit_name_second_offset),
                Some(name_ptr),
            )
            &&& read_text(memory, handle, name_ptr as usize, 64, Some(n))
        }
}

/// `r` is the creature name that reads of `memory` give through the unit at
/// `base`: nothing when its definition pointer or the definition's name pointer is
/// unreadable or zero; else the text read at the name pointer (at most 64 bytes),
/// and nothing when that read fails or gives empty text.
pub open spec fn monster_search<M: Fn(usize, usize, usize) -> Option<Vec<u8>>>(
    memory: M,
    handle: usize,
    layout: ClientLayout,
    base: usize,
    r: Option<Seq<char>>,
) -> bool {
    exists|definition: Option<u32>|
        #[trigger] read_word(memory, handle, base.wrapping_add(layout.monster_definition_offset), definition)
            && match pointer_spec(definition) {
            None => r is None,
            Some(d) => exists|name_ptr: Option<u32>|
                #[trigger] read_word(memory, handle, d.wrapping_add(layout.unit_name_second_offset), name_ptr)
                    && match pointer_spec(name_ptr) {
                    None => r is None,
                    Some(p) => exists|t: Option<Seq<char>>|
                        #[trigger] read_text(memory, handle, p, 64, t) && if t is Some && t->0.len() > 0 {
                            r == t
                        } else {
                            r is None
                        },
                },
        }
}

/// The name of a creature, read through its definition record.
fn lookup_monster_name<M: Fn(usize, usize, usize) -> Option<Vec<u8>>>(
    memory: &M,
    handle: usize,
    layout: &ClientLayout,
    base: usize,
    diagnostics: &mut Vec<String>,
) -> (r: Option<String>)
    requires
        memory_ready(*memory),
    ensures
        r matches Some(n) ==> !n@.contains('\0'),
        kept(old(diagnostics)@, final(diagnostics)@),
        r matches Some(n) ==> n@.len() > 0 && trim(n@) == n@,
        r matches Some(n) ==> monster_name_read(*memory, handle, *layout, base, n@),
        r is None ==> final(diagnostics)@ == old(diagnostics)@,
        monster_search(*memory, handle, *layout, base, text_view(r)),
{
    let definition_read = read_u32(memory, handle, base.wrapping_add(layout.monster_definition_offset));
    assert(read_word(*memory, handle, base.wrapping_add(layout.monster_definition_offset), definition_read));
    let definition = match pointer(definition_read) {
        Some(d) => d,
        None => {
            return None;
        },
    };
    let ghost def_word = definition_read->0;
    assert(definition == def_word as usize);
    let name_read = read_u32(memory, handle, definition.wrapping_add(layout.unit_name_second_offset));
    assert(read_word(*memory, handle, definition.wrapping_add(layout.unit_name_second_offset), name_read));
    let name_ptr = match pointer(name_read) {
        Some(p) => p,
        None => {
            return None;
        },
    };
    let ghost ptr_word = name_read->0;
    assert(name_ptr == ptr_word as usize);
    let found = read_c_string(memory, handle, name_ptr, 64);
    assert(read_text(*memory, handle, ptr_word as usize, 64, text_view(found)));
    assert(read_text(*memory, handle, name_ptr, 64, text_view(found)));
    match found {
        Some(name) => {
            if name.as_str().is_empty() {
                None
            } else {
                assert(def_word != 0 && ptr_word != 0);
                assert(read_word(*memory, handle, base.wrapping_add(layout.monster_definition_offset), Some(def_word)));
                assert(read_word(*memory, handle, (def_word as usize).wrapping_add(layout.unit_name_second_offset), Some(ptr_word)));
                assert(monster_name_read(*memory, handle, *layout, base, name@));
                proof {
                    lemma_text_trimmed(*memory, handle, ptr_word as usize, 64, name@);
                }
                note(
                    diagnostics,
                    line(
                        vec![
                            text("trace monster_name_lookup matched base=0x"),
                            hex8(base),
                            text(" name="),
                            name.clone(),
                        ],
                    ),
                );
                Some(name)
            }
        },
        None => None,
    }
}

/// `v` is what a read of `memory` gave at `storage` plus the configured offset
/// `offset`; nothing is read, and nothing known, where no offset is configured.
pub open spec fn field_read<M: Fn(usize, usize, usize) -> Option<Vec<u8>>>(
    memory: M,
    handle: usize,
    storage: usize,
    offset: Option<usize>,
    v: Option<u32>,
) -> bool {
    match offset {
        Some(o) => read_word(memory, handle, storage.wrapping_add(o), v),
        None => v is None,
    }
}

/// The line left when a unit's health cannot be read at its configured offsets.
pub open spec fn health_failed_line(label: Seq<char>) -> Seq<char> {
    label + " health read failed at the configured offsets"@
}

/// Reads a unit's current and maximum health at the configured offsets from its
/// field storage, and nowhere else; when either is not configured or cannot be
/// read, the failure is noted in the diagnostics.
fn read_health_pair<M: Fn(usize, usize, usize) -> Option<Vec<u8>>>(
    memory: &M,
    handle: usize,
    storage: usize,
    current_offset: Option<usize>,
    max_offset: Option<usize>,
    label: &str,
    diagnostics: &mut Vec<String>,
) -> (r: (Option<u32>, Option<u32>))
    requires
        memory_ready(*memory),
    ensures
        (r.0 is None || r.1 is None) ==> lines_of(final(diagnostics)@).contains(
            health_failed_line(label@),
        ),
        kept(old(diagnostics)@, final(diagnostics)@),
        field_read(*memory, handle, storage, current_offset, r.0),
        field_read(*memory, handle, storage, max_offset, r.1),
        (r.0 is None || r.1 is None) ==> lines_of(final(diagnostics)@) == lines_of(
            old(diagnostics)@,
        ).push(health_failed_line(label@)),
        (r.0 is Some && r.1 is Some) ==> final(diagnostics)@ == old(diagnostics)@,
{
    let current = match current_offset {
        Some(o) => read_u32(memory, handle, storage.wrapping_add(o)),
        None => None,
    };
    let max = match max_offset {
        Some(o) => read_u32(memory, handle, storage.wrapping_add(o)),
        None => None,
    };
    if current.is_none() || max.is_none() {
        let mut l = String::from_str(label);
        l.append(" health read failed at the configured offsets");
        assert(l@ == health_failed_line(label@));
        note(diagnostics, l);
    }
    (current, max)
}

/// The slot holding a faction row's pointer, as `row_slot` gives it, when it fits
/// in a `usize`.
pub open spec fn slot_of(sub: u32, id: u32, table: u32) -> Option<usize> {
    match row_slot(sub, id, table) {
        Some(a) => if a <= usize::MAX {
            Some(a as usize)
        } else {
            None
        },
        None => None,
    }
}

/// `r` is the faction-template row that reads of `memory` lead to from the unit at
/// `base`, or `None` where the chain stops: the table's first id and the unit's
/// faction pointer (both must be non-zero), then as `row_by_id` states.
pub open spec fn row_lookup<M: Fn(usize, usize, usize) -> Option<Vec<u8>>>(
    memory: M,
    handle: usize,
    layout: ClientLayout,
    base: usize,
    r: Option<usize>,
) -> bool {
    exists|sub: Option<u32>|
        #[trigger] read_word(memory, handle, layout.faction_sub_addr, sub) && match sub {
            None => r is None,
            Some(sv) => exists|off1: Option<u32>|
                #[trigger] read_word(memory, handle, base.wrapping_add(layout.faction_off1_offset), off1)
                    && match off1 {
                    None => r is None,
                    Some(ov) => if sv == 0 || ov == 0 {
                        r is None
                    } else {
                        row_by_id(memory, handle, layout, sv, ov, r)
                    },
                },
        }
}

/// The rest of the chain to a faction row, from the table's first id `sub` and the
/// unit's faction pointer: the faction id behind the pointer, the table base, the
/// slot that `slot_of` gives, and the non-zero row pointer read there.
pub open spec fn row_by_id<M: Fn(usize, usize, usize) -> Option<Vec<u8>>>(
    memory: M,
    handle: usize,
    layout: ClientLayout,
    sub: u32,
    faction_pointer: u32,
    r: Option<usize>,
) -> bool {
    exists|id: Option<u32>|
        #[trigger] read_word(
            memory,
            handle,
            (faction_pointer as usize).wrapping_add(layout.faction_off2_offset),
            id,
        ) && match id {
            None => r is None,
            Some(iv) => exists|table: Option<u32>|
                #[trigger] read_word(memory, handle, layout.faction_base_addr, table) && match table {
                    None => r is None,
                    Some(tv) => match slot_of(sub, iv, tv) {
                        None => r is None,
                        Some(slot) => exists|row: Option<u32>|
                            #[trigger] read_word(memory, handle, slot, row) && r == pointer_spec(row),
                    },
                },
        }
}

/// The address of the faction-template row of the unit at `base`.
fn faction_group_row<M: Fn(usize, usize, usize) -> Option<Vec<u8>>>(
    memory: &M,
    handle: usize,
    layout: &ClientLayout,
    base: usize,
) -> (r: Option<usize>)
    requires
        memory_ready(*memory),
    ensures
        row_lookup(*memory, handle, *layout, base, r),
{
    let sub_read = read_u32(memory, handle, layout.faction_sub_addr);
    assert(read_word(*memory, handle, layout.faction_sub_addr, sub_read));
    let faction_sub = match sub_read {
        Some(v) => v,
        None => {
            return None;
        },
    };
    let off1_read = read_u32(memory, handle, base.wrapping_add(layout.faction_off1_offset));
    assert(read_word(*memory, handle, base.wrapping_add(layout.faction_off1_offset), off1_read));
    let faction_off1 = match off1_read {
        Some(v) => v,
        None => {
            return None;
        },
    };
    if !faction_chain_ready(faction_sub, faction_off1) {
        return None;
    }
    let id_at = (faction_off1 as usize).wrapping_add(layout.faction_off2_offset);
    let id_read = read_u32(memory, handle, id_at);
    assert(read_word(
        *memory,
        handle,
        (faction_off1 as usize).wrapping_add(layout.faction_off2_offset),
        id_read,
    ));
    let faction_id = match id_read {
        Some(v) => v,
        None => {
            assert(row_by_id(*memory, handle, *layout, faction_sub, faction_off1, None));
            return None;
        },
    };
    let table_read = read_u32(memory, handle, layout.faction_base_addr);
    assert(read_word(*memory, handle, layout.faction_base_addr, table_read));
    let faction_base = match table_read {
        Some(v) => v,
        None => {
            assert(row_by_id(*memory, handle, *layout, faction_sub, faction_off1, None));
            return None;
        },
    };
    let slot = match faction_row_slot(faction_sub, faction_id, faction_base) {
        Some(a) => a,
        None => {
            assert(row_by_id(*memory, handle, *layout, faction_sub, faction_off1, None));
            return None;
        },
    };
    let row_read = read_u32(memory, handle, slot);
    assert(read_word(*memory, handle, slot, row_read));
    let r = pointer(row_read);
    assert(row_by_id(*memory, handle, *layout, faction_sub, faction_off1, r));
    r
}

/// The line left when a faction row's field cannot be read.
pub open spec fn field_failed_line(a: usize) -> Seq<char> {
    "faction row field read failed at 0x"@ + zero_padded(hex(a as nat), 8)
}

/// The `u32` at `at`; a failed read is noted in the diagnostics.
fn read_field<M: Fn(usize, usize, usize) -> Option<Vec<u8>>>(
    memory: &M,
    handle: usize,
    at: usize,
    diagnostics: &mut Vec<String>,
) -> (r: Option<u32>)
    requires
        memory_ready(*memory),
    ensures
        kept(old(diagnostics)@, final(diagnostics)@),
        read_word(*memory, handle, at, r),
        r is None ==> lines_of(final(diagnostics)@) == lines_of(old(diagnostics)@).push(
            field_failed_line(at),
        ),
        r is Some ==> final(diagnostics)@ == old(diagnostics)@,
{
    let v = read_u32(memory, handle, at);
    if v.is_none() {
        let mut l = String::from_str("faction row field read failed at 0x");
        let h = hex8(at);
        l.append(h.as_str());
        note(diagnostics, l);
    }
    v
}

/// The word a standing is shown as.
pub open spec fn standing_word(h: Hostility) -> Seq<char> {
    match h {
        Hostility::Hostile => "Hostile"@,
        Hostility::Friendly => "Friendly"@,
        Hostility::Neutral => "Neutral"@,
    }
}

/// `r` says whether `group` is among the ids that reads of `memory` gave from `at`
/// on, four bytes apart, up to the first zero and at most `count` of them; `None`
/// when a read the answer needs fails.
pub open spec fn group_listed_read<M: Fn(usize, usize, usize) -> Option<Vec<u8>>>(
    memory: M,
    handle: usize,
    at: usize,
    count: nat,
    group: u32,
    r: Option<bool>,
) -> bool
    decreases count,
{
    if count == 0 {
        r == Some(false)
    } else {
        exists|v: Option<u32>|
            #[trigger] read_word(memory, handle, at, v) && match v {
                None => r is None,
                Some(x) => if x == 0 {
                    r == Some(false)
                } else if x == group {
                    r == Some(true)
                } else {
                    group_listed_read(memory, handle, at.wrapping_add(4), (count - 1) as nat, group, r)
                },
            }
    }
}

/// The address of the entry `i` places after `at` in a list of ids, four bytes
/// apart.
pub open spec fn list_entry(at: usize, i: nat) -> usize
    decreases i,
{
    if i == 0 {
        at
    } else {
        list_entry(at.wrapping_add(4), (i - 1) as nat)
    }
}

/// A group listed before the list's end is found: from fixed memory, when the ids
/// read at the first `k + 1` entries from `at` (`k` below `count`) are `words`, the
/// ones before entry `k` neither zero nor `group`, and entry `k` is `group` (not
/// zero), the only answer is that `group` is listed.
pub proof fn lemma_listed_group_is_found<M: Fn(usize, usize, usize) -> Option<Vec<u8>>>(
    memory: M,
    handle: usize,
    at: usize,
    count: nat,
    k: nat,
    group: u32,
    words: Seq<u32>,
)
    requires
        memory_fixed(memory),
        k < count,
        words.len() == k + 1,
        group != 0,
        words[k as int] == group,
        forall|i: int| 0 <= i < k ==> words[i] != 0 && words[i] != group,
        forall|i: nat| i <= k ==> #[trigger] read_word(memory, handle, list_entry(at, i), Some(words[i as int])),
    ensures
        forall|r: Option<bool>| #[trigger]
            group_listed_read(memory, handle, at, count, group, r) <==> r == Some(true),
    decreases k,
{
    lemma_reads_unique(memory);
    assert(read_word(memory, handle, list_entry(at, 0), Some(words[0])));
    assert(list_entry(at, 0) == at);
    if k > 0 {
        let rest = words.drop_first();
        assert forall|i: nat| i <= (k - 1) as nat implies #[trigger] read_word(
            memory,
            handle,
            list_entry(at.wrapping_add(4), i),
            Some(rest[i as int]),
        ) by {
            assert(list_entry(at, (i + 1) as nat) == list_entry(at.wrapping_add(4), i));
            assert(read_word(memory, handle, list_entry(at, (i + 1) as nat), Some(words[(i + 1) as int])));
        }
        lemma_listed_group_is_found(
            memory,
            handle,
            at.wrapping_add(4),
            (count - 1) as nat,
            (k - 1) as nat,
            group,
            rest,
        );
    }
    assert forall|r: Option<bool>| #[trigger]
        group_listed_read(memory, handle, at, count, group, r) <==> r == Some(true) by {
        if group_listed_read(memory, handle, at, count, group, r) && count > 0 {
            let v = choose|v: Option<u32>|
                #[trigger] read_word(memory, handle, at, v) && match v {
                    None => r is None,
                    Some(x) => if x == 0 {
                        r == Some(false)
                    } else if x == group {
                        r == Some(true)
                    } else {
                        group_listed_read(memory, handle, at.wrapping_add(4), (count - 1) as nat, group, r)
                    },
                };
            assert(v == Some(words[0]));
        }
    }
}

/// A group not listed before the list's end is not found: from fixed memory, when
/// the ids read at the first `k + 1` entries from `at` (`k` below `count`) are
/// `words`, the ones before entry `k` neither zero nor `group`, and entry `k` is
/// zero, the only answer is that `group` is not listed; so is it when `count`
/// entries were read, none zero nor `group`.
pub proof fn lemma_unlisted_group_is_not_found<M: Fn(usize, usize, usize) -> Option<Vec<u8>>>(
    memory: M,
    handle: usize,
    at: usize,
    count: nat,
    k: nat,
    group: u32,
    words: Seq<u32>,
)
    requires
        memory_fixed(memory),
        k <= count,
        words.len() == k + 1,
        k < count ==> words[k as int] == 0,
        forall|i: int| 0 <= i < k ==> words[i] != 0 && words[i] != group,
        forall|i: nat| i <= k && i < count ==> #[trigger] read_word(memory, handle, list_entry(at, i), Some(words[i as int])),
    ensures
        forall|r: Option<bool>| #[trigger]
            group_listed_read(memory, handle, at, count, group, r) <==> r == Some(false),
    decreases k,
{
    lemma_reads_unique(memory);
    if count > 0 {
        assert(read_word(memory, handle, list_entry(at, 0), Some(words[0])));
        assert(list_entry(at, 0) == at);
    }
    if k > 0 {
        let rest = words.drop_first();
        assert forall|i: nat| i <= (k - 1) as nat && i < (count - 1) as nat implies #[trigger] read_word(
            memory,
            handle,
            list_entry(at.wrapping_add(4), i),
            Some(rest[i as int]),
        ) by {
            assert(list_entry(at, (i + 1) as nat) == list_entry(at.wrapping_add(4), i));
            assert(read_word(memory, handle, list_entry(at, (i + 1) as nat), Some(words[(i + 1) as int])));
        }
        lemma_unlisted_group_is_not_found(
            memory,
            handle,
            at.wrapping_add(4),
            (count - 1) as nat,
            (k - 1) as nat,
            group,
            rest,
        );
    }
    assert forall|r: Option<bool>| #[trigger]
        group_listed_read(memory, handle, at, count, group, r) <==> r == Some(false) by {
        if group_listed_read(memory, handle, at, count, group, r) && count > 0 {
            let v = choose|v: Option<u32>|
                #[trigger] read_word(memory, handle, at, v) && match v {
                    None => r is None,
                    Some(x) => if x == 0 {
                        r == Some(false)
                    } else if x == group {
                        r == Some(true)
                    } else {
                        group_listed_read(memory, handle, at.wrapping_add(4), (count - 1) as nat, group, r)
                    },
                };
            assert(v == Some(words[0]));
        }
    }
}

/// Whether `group` is among the four ids from `at` on, read up to the first zero
/// and only as far as the answer needs; `None`, with the failed address noted, when
/// such a read fails.
fn group_listed<M: Fn(usize, usize, usize) -> Option<Vec<u8>>>(
    memory: &M,
    handle: usize,
    at: usize,
    group: u32,
    diagnostics: &mut Vec<String>,
) -> (r: Option<bool>)
    requires
        memory_ready(*memory),
    ensures
        kept(old(diagnostics)@, final(diagnostics)@),
        group_listed_read(*memory, handle, at, 4, group, r),
{
    let mut cur = at;
    let mut left: usize = 4;
    loop
        invariant
            memory_ready(*memory),
            left <= 4,
            kept(old(diagnostics)@, diagnostics@),
            forall|r: Option<bool>|
                #[trigger] group_listed_read(*memory, handle, cur, left as nat, group, r)
                    ==> group_listed_read(*memory, handle, at, 4, group, r),
        decreases left,
    {
        if left == 0 {
            assert(group_listed_read(*memory, handle, cur, 0, group, Some(false)));
            return Some(false);
        }
        let v = read_field(memory, handle, cur, diagnostics);
        assert(read_word(*memory, handle, cur, v));
        let x = match v {
            Some(x) => x,
            None => {
                assert(group_listed_read(*memory, handle, cur, left as nat, group, None));
                return None;
            },
        };
        if x == 0 {
            assert(group_listed_read(*memory, handle, cur, left as nat, group, Some(false)));
            return Some(false);
        }
        if x == group {
            assert(group_listed_read(*memory, handle, cur, left as nat, group, Some(true)));
            return Some(true);
        }
        let ghost old_cur = cur;
        let ghost old_left = left;
        cur = cur.wrapping_add(4);
        left = left - 1;
        proof {
            assert forall|r: Option<bool>|
                #[trigger] group_listed_read(*memory, handle, cur, left as nat, group, r) implies
                group_listed_read(*memory, handle, at, 4, group, r) by {
                assert(group_listed_read(*memory, handle, old_cur, old_left as nat, group, r));
            }
        }
    }
}

/// The standing, once `mine`'s flags, `mine`'s hostile mask and `other`'s flags
/// have not decided it, by `other`'s group among `mine`'s friends (from `mine` + 40).
pub open spec fn standing_by_friends_of_mine<M: Fn(usize, usize, usize) -> Option<Vec<u8>>>(
    memory: M,
    handle: usize,
    mine: usize,
    other: usize,
    r: Option<Hostility>,
) -> bool {
    exists|og: Option<u32>|
        #[trigger] read_word(memory, handle, other.wrapping_add(4), og) && match og {
            None => r is None,
            Some(o) => exists|listed: Option<bool>|
                #[trigger] group_listed_read(memory, handle, mine.wrapping_add(40), 4, o, listed)
                    && r == match listed {
                    None => None,
                    Some(true) => Some(Hostility::Friendly),
                    Some(false) => Some(Hostility::Neutral),
                },
        }
}

/// The standing once the masks and lists of `other` have not decided it: friendly
/// when `mine`'s hostile mask (at 20) meets `other`'s flags (at 12), else as
/// `standing_by_friends_of_mine` says.
pub open spec fn standing_by_own_masks<M: Fn(usize, usize, usize) -> Option<Vec<u8>>>(
    memory: M,
    handle: usize,
    mine: usize,
    other: usize,
    r: Option<Hostility>,
) -> bool {
    exists|mh: Option<u32>|
        #[trigger] read_word(memory, handle, mine.wrapping_add(20), mh) && match mh {
            None => r is None,
            Some(x) => exists|of: Option<u32>|
                #[trigger] read_word(memory, handle, other.wrapping_add(12), of) && match of {
                    None => r is None,
                    Some(y) => if x & y != 0 {
                        r == Some(Hostility::Friendly)
                    } else {
                        standing_by_friends_of_mine(memory, handle, mine, other, r)
                    },
                },
        }
}

/// The standing once `mine`'s flags `flags` do not meet `other`'s hostile mask and
/// `mine`'s group `group` is not among `other`'s enemies: friendly when the flags
/// meet `other`'s friendly mask (at 16) or the group is among `other`'s friends
/// (from 40), else as `standing_by_own_masks` says.
pub open spec fn standing_by_friendship<M: Fn(usize, usize, usize) -> Option<Vec<u8>>>(
    memory: M,
    handle: usize,
    mine: usize,
    other: usize,
    flags: u32,
    group: u32,
    r: Option<Hostility>,
) -> bool {
    exists|fm: Option<u32>|
        #[trigger] read_word(memory, handle, other.wrapping_add(16), fm) && match fm {
            None => r is None,
            Some(m) => if flags & m != 0 {
                r == Some(Hostility::Friendly)
            } else {
                exists|listed: Option<bool>|
                    #[trigger] group_listed_read(memory, handle, other.wrapping_add(40), 4, group, listed)
                        && match listed {
                        None => r is None,
                        Some(true) => r == Some(Hostility::Friendly),
                        Some(false) => standing_by_own_masks(memory, handle, mine, other, r),
                    }
            },
        }
}

/// `r` is the standing of the unit with faction row `other` towards the one with
/// row `mine`, read field by field as the decision needs: hostile when `mine`'s
/// flags (at 12) meet `other`'s hostile mask (at 20) or `mine`'s group (at 4) is
/// among `other`'s enemies (from 24); else as `standing_by_friendship` says. `None`
/// when a read the decision needs fails.
pub open spec fn standing_read<M: Fn(usize, usize, usize) -> Option<Vec<u8>>>(
    memory: M,
    handle: usize,
    mine: usize,
    other: usize,
    r: Option<Hostility>,
) -> bool {
    exists|mf: Option<u32>|
        #[trigger] read_word(memory, handle, mine.wrapping_add(12), mf) && match mf {
            None => r is None,
            Some(flags) => exists|oh: Option<u32>|
                #[trigger] read_word(memory, handle, other.wrapping_add(20), oh) && match oh {
                    None => r is None,
                    Some(h) => if flags & h != 0 {
                        r == Some(Hostility::Hostile)
                    } else {
                        exists|mg: Option<u32>|
                            #[trigger] read_word(memory, handle, mine.wrapping_add(4), mg) && match mg {
                                None => r is None,
                                Some(group) => exists|enemy: Option<bool>|
                                    #[trigger] group_listed_read(
                                        memory,
                                        handle,
                                        other.wrapping_add(24),
                                        4,
                                        group,
                                        enemy,
                                    ) && match enemy {
                                        None => r is None,
                                        Some(true) => r == Some(Hostility::Hostile),
                                        Some(false) => standing_by_friendship(
                                            memory,
                                            handle,
                                            mine,
                                            other,
                                            flags,
                                            group,
                                            r,
                                        ),
                                    },
                            }
                    },
                },
        }
}

/// The `u32` at `at` in the faction rows, with its read stated at that address.
fn row_field<M: Fn(usize, usize, usize) -> Option<Vec<u8>>>(
    memory: &M,
    handle: usize,
    row: usize,
    offset: usize,
    diagnostics: &mut Vec<String>,
) -> (r: Option<u32>)
    requires
        memory_ready(*memory),
    ensures
        kept(old(diagnostics)@, final(diagnostics)@),
        read_word(*memory, handle, row.wrapping_add(offset), r),
{
    read_field(memory, handle, row.wrapping_add(offset), diagnostics)
}

/// `standing_by_friends_of_mine`, read.
fn friends_of_mine<M: Fn(usize, usize, usize) -> Option<Vec<u8>>>(
    memory: &M,
    handle: usize,
    mine: usize,
    other: usize,
    diagnostics: &mut Vec<String>,
) -> (r: Option<Hostility>)
    requires
        memory_ready(*memory),
    ensures
        kept(old(diagnostics)@, final(diagnostics)@),
        standing_by_friends_of_mine(*memory, handle, mine, other, r),
{
    let og = row_field(memory, handle, other, 4, diagnostics);
    let o = match og {
        Some(v) => v,
        None => {
            return None;
        },
    };
    let listed = group_listed(memory, handle, mine.wrapping_add(40), o, diagnostics);
    assert(group_listed_read(*memory, handle, mine.wrapping_add(40), 4, o, listed));
    match listed {
        None => None,
        Some(true) => Some(Hostility::Friendly),
        Some(false) => Some(Hostility::Neutral),
    }
}

/// `standing_by_own_masks`, read.
fn own_masks<M: Fn(usize, usize, usize) -> Option<Vec<u8>>>(
    memory: &M,
    handle: usize,
    mine: usize,
    other: usize,
    diagnostics: &mut Vec<String>,
) -> (r: Option<Hostility>)
    requires
        memory_ready(*memory),
    ensures
        kept(old(diagnostics)@, final(diagnostics)@),
        standing_by_own_masks(*memory, handle, mine, other, r),
{
    let mh = row_field(memory, handle, mine, 20, diagnostics);
    let x = match mh {
        Some(v) => v,
        None => {
            return None;
        },
    };
    let of = row_field(memory, handle, other, 12, diagnostics);
    let y = match of {
        Some(v) => v,
        None => {
            assert(standing_by_own_masks(*memory, handle, mine, other, None));
            return None;
        },
    };
    if x & y != 0 {
        assert(standing_by_own_masks(*memory, handle, mine, other, Some(Hostility::Friendly)));
        return Some(Hostility::Friendly);
    }
    let r = friends_of_mine(memory, handle, mine, other, diagnostics);
    assert(standing_by_own_masks(*memory, handle, mine, other, r));
    r
}

/// `standing_by_friendship`, read.
fn friendship<M: Fn(usize, usize, usize) -> Option<Vec<u8>>>(
    memory: &M,
    handle: usize,
    mine: usize,
    other: usize,
    flags: u32,
    group: u32,
    diagnostics: &mut Vec<String>,
) -> (r: Option<Hostility>)
    requires
        memory_ready(*memory),
    ensures
        kept(old(diagnostics)@, final(diagnostics)@),
        standing_by_friendship(*memory, handle, mine, other, flags, group, r),
{
    let fm = row_field(memory, handle, other, 16, diagnostics);
    let m = match fm {
        Some(v) => v,
        None => {
            return None;
        },
    };
    if flags & m != 0 {
        return Some(Hostility::Friendly);
    }
    let listed = group_listed(memory, handle, other.wrapping_add(40), group, diagnostics);
    assert(group_listed_read(*memory, handle, other.wrapping_add(40), 4, group, listed));
    let r = match listed {
        None => None,
        Some(true) => Some(Hostility::Friendly),
        Some(false) => own_masks(memory, handle, mine, other, diagnostics),
    };
    assert(standing_by_friendship(*memory, handle, mine, other, flags, group, r));
    r
}

/// The standing of the unit with faction row `other` towards the one with row
/// `mine`, as `standing_read` states.
fn read_standing<M: Fn(usize, usize, usize) -> Option<Vec<u8>>>(
    memory: &M,
    handle: usize,
    mine: usize,
    other: usize,
    diagnostics: &mut Vec<String>,
) -> (r: Option<Hostility>)
    requires
        memory_ready(*memory),
    ensures
        kept(old(diagnostics)@, final(diagnostics)@),
        standing_read(*memory, handle, mine, other, r),
{
    let mf = row_field(memory, handle, mine, 12, diagnostics);
    let flags = match mf {
        Some(v) => v,
        None => {
            return None;
        },
    };
    let oh = row_field(memory, handle, other, 20, diagnostics);
    let h = match oh {
        Some(v) => v,
        None => {
            assert(standing_read(*memory, handle, mine, other, None));
            return None;
        },
    };
    if flags & h != 0 {
        assert(standing_read(*memory, handle, mine, other, Some(Hostility::Hostile)));
        return Some(Hostility::Hostile);
    }
    let mg = row_field(memory, handle, mine, 4, diagnostics);
    let group = match mg {
        Some(v) => v,
        None => {
            assert(standing_read(*memory, handle, mine, other, None));
            return None;
        },
    };
    let enemy = group_listed(memory, handle, other.wrapping_add(24), group, diagnostics);
    assert(group_listed_read(*memory, handle, other.wrapping_add(24), 4, group, enemy));
    let r = match enemy {
        None => None,
        Some(true) => Some(Hostility::Hostile),
        Some(false) => friendship(memory, handle, mine, other, flags, group, diagnostics),
    };
    assert(standing_read(*memory, handle, mine, other, r));
    r
}

/// `r` is the standing that reads of `memory` give between the units at `my_base`
/// and `other_base`: `None` when either unit's faction row is not found or a read
/// the decision needs fails; else the word for the standing `standing_read` gives.
pub open spec fn hostility_read<M: Fn(usize, usize, usize) -> Option<Vec<u8>>>(
    memory: M,
    handle: usize,
    layout: ClientLayout,
    my_base: usize,
    other_base: usize,
    r: Option<Seq<char>>,
) -> bool {
    exists|mine_row: Option<usize>|
        #[trigger] row_lookup(memory, handle, layout, my_base, mine_row) && match mine_row {
            None => r is None,
            Some(mr) => exists|other_row: Option<usize>|
                #[trigger] row_lookup(memory, handle, layout, other_base, other_row) && match other_row {
                    None => r is None,
                    Some(or) => exists|st: Option<Hostility>|
                        #[trigger] standing_read(memory, handle, mr, or, st) && r == match st {
                            Some(x) => Some(standing_word(x)),
                            None => None,
                        },
                },
        }
}

/// How the unit at `other_base` stands towards the one at `my_base`; see
/// `hostility_read`.
fn hostility_label<M: Fn(usize, usize, usize) -> Option<Vec<u8>>>(
    memory: &M,
    handle: usize,
    layout: &ClientLayout,
    my_base: usize,
    other_base: usize,
    diagnostics: &mut Vec<String>,
) -> (r: Option<String>)
    requires
        memory_ready(*memory),
    ensures
        kept(old(diagnostics)@, final(diagnostics)@),
        hostility_read(*memory, handle, *layout, my_base, other_base, text_view(r)),
        r matches Some(h) ==> hostility_word(h@),
{
    let my_row_found = faction_group_row(memory, handle, layout, my_base);
    let my_row = match my_row_found {
        Some(r) => r,
        None => {
            return None;
        },
    };
    let other_row_found = faction_group_row(memory, handle, layout, other_base);
    let other_row = match other_row_found {
        Some(r) => r,
        None => {
            return None;
        },
    };
    note(
        diagnostics,
        line(
            vec![
                text("trace faction_rows mine=0x"),
                hex8(my_row),
                text(" other=0x"),
                hex8(other_row),
            ],
        ),
    );
    let st = read_standing(memory, handle, my_row, other_row, diagnostics);
    match st {
        Some(h) => Some(text(h.label())),
        None => None,
    }
}

/// The position that reads of three words give, four bytes apart from `at`: x, y
/// and z when all three were read.
pub open spec fn position_spec(x: Option<u32>, y: Option<u32>, z: Option<u32>) -> Option<(u32, u32, u32)> {
    match (x, y, z) {
        (Some(a), Some(b), Some(c)) => Some((a, b, c)),
        _ => None,
    }
}

/// The player's position from its three coordinates, when all were read.
pub fn position_of(x: Option<u32>, y: Option<u32>, z: Option<u32>) -> (r: Option<(u32, u32, u32)>)
    ensures
        r == position_spec(x, y, z),
{
    match (x, y, z) {
        (Some(a), Some(b), Some(c)) => Some((a, b, c)),
        _ => None,
    }
}

/// `p` is the position that reads of `memory` gave at `at`, `at + 4` and `at + 8`.
pub open spec fn position_read<M: Fn(usize, usize, usize) -> Option<Vec<u8>>>(
    memory: M,
    handle: usize,
    at: usize,
    p: Option<(u32, u32, u32)>,
) -> bool {
    exists|x: Option<u32>, y: Option<u32>, z: Option<u32>|
        #![trigger read_word(memory, handle, at, x), read_word(memory, handle, at.wrapping_add(4), y), read_word(memory, handle, at.wrapping_add(8), z)]
        {
            &&& read_word(memory, handle, at, x)
            &&& read_word(memory, handle, at.wrapping_add(4), y)
            &&& read_word(memory, handle, at.wrapping_add(8), z)
            &&& p == position_spec(x, y, z)
        }
}

/// The race held in the low byte of a unit's first bytes field.
pub open spec fn race_spec(bytes0: Option<u32>) -> Option<u8> {
    match bytes0 {
        Some(b) => Some((b % 256) as u8),
        None => None,
    }
}

/// The race in the low byte of a unit's first bytes field, when it was read.
pub fn race_of(bytes0: Option<u32>) -> (r: Option<u8>)
    ensures
        r == race_spec(bytes0),
{
    match bytes0 {
        Some(b) => Some((b % 256) as u8),
        None => None,
    }
}

/// One link of the pointer chain: the pointer read at `at`, or the failed read
/// there when it could not be read or is zero.
pub fn chain_link(v: Option<u32>, at: usize) -> (r: Result<usize, MemoryReaderError>)
    ensures
        r == match pointer_spec(v) {
            Some(p) => Ok::<usize, MemoryReaderError>(p),
            None => Err::<usize, MemoryReaderError>(MemoryReaderError::ReadMemoryFailed(at)),
        },
{
    match pointer(v) {
        Some(p) => Ok(p),
        None => Err(MemoryReaderError::ReadMemoryFailed(at)),
    }
}

/// The fields of a unit that reads of `memory` gave from its field storage at
/// `storage`: health at the configured offsets (see `field_read`), the race from
/// the first bytes field, the level and the faction template.
pub open spec fn unit_read<M: Fn(usize, usize, usize) -> Option<Vec<u8>>>(
    memory: M,
    handle: usize,
    layout: ClientLayout,
    storage: usize,
    current_offset: Option<usize>,
    max_offset: Option<usize>,
    current: Option<u32>,
    max: Option<u32>,
    race: Option<u8>,
    level: Option<u32>,
    faction: Option<u32>,
) -> bool {
    &&& field_read(memory, handle, storage, current_offset, current)
    &&& field_read(memory, handle, storage, max_offset, max)
    &&& exists|b: Option<u32>|
        #[trigger] read_word(memory, handle, storage.wrapping_add(layout.unit_field_bytes0_offset), b)
            && race == race_spec(b)
    &&& read_word(memory, handle, storage.wrapping_add(layout.unit_field_level_offset), level)
    &&& read_word(
        memory,
        handle,
        storage.wrapping_add(layout.unit_field_faction_template_offset),
        faction,
    )
}

/// A unit's race is the low byte of the word read at its first bytes field: for
/// unit fields read from `storage`, that word was read there, and the race is its
/// value modulo 256, or unknown when it could not be read.
pub proof fn lemma_race_is_low_byte<M: Fn(usize, usize, usize) -> Option<Vec<u8>>>(
    memory: M,
    handle: usize,
    layout: ClientLayout,
    storage: usize,
    current_offset: Option<usize>,
    max_offset: Option<usize>,
    current: Option<u32>,
    max: Option<u32>,
    race: Option<u8>,
    level: Option<u32>,
    faction: Option<u32>,
)
    requires
        unit_read(
            memory,
            handle,
            layout,
            storage,
            current_offset,
            max_offset,
            current,
            max,
            race,
            level,
            faction,
        ),
    ensures
        exists|b: Option<u32>|
            #[trigger] read_word(memory, handle, storage.wrapping_add(layout.unit_field_bytes0_offset), b)
                && race == match b {
                Some(w) => Some((w % 256) as u8),
                None => None::<u8>,
            },
{
}

/// The fields this reader never reads are unknown.
pub open spec fn unread_fields_unknown(s: MemorySnapshot) -> bool {
    &&& s.player_object_type is None && s.target_object_type is None
    &&& s.player_unit_flags is None && s.target_unit_flags is None
    &&& s.player_monster_definition_ptr is None && s.target_monster_definition_ptr is None
    &&& s.player_display_id is None && s.target_display_id is None
    &&& s.player_native_display_id is None && s.target_native_display_id is None
}

/// Nothing is known of the player's unit fields.
pub open spec fn no_player_unit(s: MemorySnapshot) -> bool {
    &&& s.player_current_health is None && s.player_max_health is None
    &&& s.player_race is None && s.player_level is None && s.player_faction is None
}

/// Nothing is known of the target's unit fields.
pub open spec fn no_target_unit(s: MemorySnapshot) -> bool {
    &&& s.target_current_health is None && s.target_max_health is None
    &&& s.target_race is None && s.target_level is None && s.target_faction is None
}

/// Nothing is known of a target.
pub open spec fn no_target(s: MemorySnapshot) -> bool {
    &&& s.target_guid is None && s.target_name is None
    &&& no_target_unit(s)
    &&& s.target_hostility is None && s.target_distance is None
}

/// `name` is the player's name as the name cache gave it for `guid`, or empty when
/// none was found: a found name is trimmed and was read at a node for `guid`; none
/// is found without a guid, or when the cache's first node pointer is unreadable
/// or zero.
pub open spec fn player_name_read<M: Fn(usize, usize, usize) -> Option<Vec<u8>>>(
    memory: M,
    handle: usize,
    layout: ClientLayout,
    guid: Option<u64>,
    name: Seq<char>,
) -> bool {
    match guid {
        None => name.len() == 0,
        Some(g) => {
            &&& name.len() > 0 ==> trim(name) == name && exists|node: usize|
                #[trigger] name_node_read(memory, handle, layout, node, g, name)
            &&& exists|found: Option<Seq<char>>|
                #[trigger] name_search(memory, handle, layout, g, found) && name == name_or_empty(
                    found,
                )
        },
    }
}

/// The text found, or empty text when nothing was.
pub open spec fn name_or_empty(found: Option<Seq<char>>) -> Seq<char> {
    match found {
        Some(t) => t,
        None => Seq::<char>::empty(),
    }
}

/// The player's fields that come from its object at `base`: the position at the
/// configured offset and the three words after it, the heading, the guid (when
/// read and non-zero) and the name found for it.
pub open spec fn player_read<M: Fn(usize, usize, usize) -> Option<Vec<u8>>>(
    memory: M,
    handle: usize,
    layout: ClientLayout,
    base: usize,
    s: MemorySnapshot,
) -> bool {
    &&& position_read(memory, handle, base.wrapping_add(layout.player_xyz_offset), s.position)
    &&& read_word(memory, handle, base.wrapping_add(layout.player_heading_offset), s.heading_rad)
    &&& exists|g: Option<u64>|
        #[trigger] read_dword(memory, handle, base.wrapping_add(layout.object_guid_offset), g)
            && s.player_guid == guid_spec(g)
    &&& player_name_read(memory, handle, layout, s.player_guid, s.player_name@)
    &&& !s.player_name@.contains('\0')
    &&& s.player_name@.len() == 0 ==> lines_of(s.diagnostics@).contains("player name not found"@)
    &&& unread_fields_unknown(s)
}

/// `tb` is what a search of the object list from `object_manager` for `guid` may
/// give: an object whose guid was read as `guid`, and nothing when the list's first
/// pointer is unreadable or zero.
pub open spec fn target_base_read<M: Fn(usize, usize, usize) -> Option<Vec<u8>>>(
    memory: M,
    handle: usize,
    layout: ClientLayout,
    object_manager: usize,
    guid: u64,
    tb: Option<usize>,
) -> bool {
    &&& tb matches Some(at) ==> at != 0 && read_dword(
        memory,
        handle,
        at.wrapping_add(layout.object_guid_offset),
        Some(guid),
    )
    &&& object_search(memory, handle, layout, object_manager, guid, tb)
}

/// `n` is the target's name as reads of `memory` give it: the name the name cache
/// gives for `guid`, else the creature name through the object `tb`, else nothing.
pub open spec fn target_name_search<M: Fn(usize, usize, usize) -> Option<Vec<u8>>>(
    memory: M,
    handle: usize,
    layout: ClientLayout,
    guid: u64,
    tb: Option<usize>,
    n: Option<Seq<char>>,
) -> bool {
    exists|by_guid: Option<Seq<char>>|
        #[trigger] name_search(memory, handle, layout, guid, by_guid) && match by_guid {
            Some(_) => n == by_guid,
            None => match tb {
                Some(b) => monster_search(memory, handle, layout, b, n),
                None => n is None,
            },
        }
}

/// `n` is a target name that reads of `memory` gave: trimmed, not empty, and read
/// from the name cache for `guid` or as the creature name of the object `tb`.
pub open spec fn target_name_read<M: Fn(usize, usize, usize) -> Option<Vec<u8>>>(
    memory: M,
    handle: usize,
    layout: ClientLayout,
    guid: u64,
    tb: Option<usize>,
    n: Seq<char>,
) -> bool {
    &&& n.len() > 0 && trim(n) == n && !n.contains('\0')
    &&& (exists|node: usize| #[trigger] name_node_read(memory, handle, layout, node, guid, n))
        || match tb {
        Some(b) => monster_name_read(memory, handle, layout, b, n),
        None => false,
    }
}

/// `d` is the distance that `distance` gave from the player's position to the
/// target's, read at the object `tb`; unknown when either position is.
pub open spec fn distance_read<
    M: Fn(usize, usize, usize) -> Option<Vec<u8>>,
    D: Fn((u32, u32, u32), (u32, u32, u32)) -> u32,
>(
    memory: M,
    handle: usize,
    layout: ClientLayout,
    distance: D,
    tb: usize,
    position: Option<(u32, u32, u32)>,
    d: Option<u32>,
) -> bool {
    match position {
        None => d is None,
        Some(p) => exists|tp: Option<(u32, u32, u32)>|
            #[trigger] position_read(memory, handle, tb.wrapping_add(layout.player_xyz_offset), tp)
                && match tp {
                None => d is None,
                Some(q) => match d {
                    Some(v) => call_ensures(distance, (p, q), v),
                    None => false,
                },
            },
    }
}

/// The target's fields once its guid `guid` is known: its name, and, for the
/// object `tb` that the search gave, its unit fields through its storage pointer,
/// its standing towards the player at `base` and its distance.
pub open spec fn target_object_read<
    M: Fn(usize, usize, usize) -> Option<Vec<u8>>,
    D: Fn((u32, u32, u32), (u32, u32, u32)) -> u32,
>(
    memory: M,
    handle: usize,
    layout: ClientLayout,
    distance: D,
    base: usize,
    guid: u64,
    tb: Option<usize>,
    s: MemorySnapshot,
) -> bool {
    &&& s.target_name matches Some(n) ==> target_name_read(memory, handle, layout, guid, tb, n@)
    &&& target_name_search(memory, handle, layout, guid, tb, text_view(s.target_name))
    &&& match tb {
        None => {
            &&& no_target_unit(s) && s.target_hostility is None && s.target_distance is None
            &&& lines_of(s.diagnostics@).contains(
                "target selected but target object was not found in object list"@,
            )
        },
        Some(t) => {
            &&& exists|ts: Option<u32>|
                #[trigger] read_word(memory, handle, t.wrapping_add(layout.object_storage_ptr_offset), ts)
                    && match pointer_spec(ts) {
                    None => no_target_unit(s),
                    Some(storage) => unit_read(
                        memory,
                        handle,
                        layout,
                        storage,
                        layout.target_current_health_offset,
                        layout.target_max_health_offset,
                        s.target_current_health,
                        s.target_max_health,
                        s.target_race,
                        s.target_level,
                        s.target_faction,
                    ) && ((s.target_current_health is None || s.target_max_health is None)
                        ==> lines_of(s.diagnostics@).contains(health_failed_line("target"@))),
                }
            &&& hostility_read(memory, handle, layout, base, t, text_view(s.target_hostility))
            &&& distance_read(memory, handle, layout, distance, t, s.position, s.target_distance)
        },
    }
}

/// The target's fields: the guid read at the configured address (when non-zero),
/// and what `target_object_read` says of the object the search gave for it.
pub open spec fn target_read<
    M: Fn(usize, usize, usize) -> Option<Vec<u8>>,
    D: Fn((u32, u32, u32), (u32, u32, u32)) -> u32,
>(
    memory: M,
    handle: usize,
    layout: ClientLayout,
    distance: D,
    object_manager: usize,
    base: usize,
    s: MemorySnapshot,
) -> bool {
    exists|tg: Option<u64>|
        #[trigger] read_dword(memory, handle, layout.target_guid_addr, tg) && s.target_guid
            == guid_spec(tg) && (tg is None ==> lines_of(s.diagnostics@).contains(
            "target guid read failed"@,
        )) && match guid_spec(tg) {
            None => no_target(s),
            Some(g) => exists|tb: Option<usize>|
                #[trigger] target_base_read(memory, handle, layout, object_manager, g, tb)
                    && target_object_read(memory, handle, layout, distance, base, g, tb, s),
        }
}

/// What comes of the player's storage pointer at `base`: when it is unreadable or
/// zero, nothing more is known of the player or a target and the last diagnostics
/// line says so; else the player's unit fields and the target are read.
pub open spec fn storage_read<
    M: Fn(usize, usize, usize) -> Option<Vec<u8>>,
    D: Fn((u32, u32, u32), (u32, u32, u32)) -> u32,
>(
    memory: M,
    handle: usize,
    layout: ClientLayout,
    distance: D,
    object_manager: usize,
    base: usize,
    s: MemorySnapshot,
) -> bool {
    exists|st: Option<u32>|
        #[trigger] read_word(memory, handle, base.wrapping_add(layout.object_storage_ptr_offset), st)
            && match pointer_spec(st) {
            None => {
                &&& no_player_unit(s)
                &&& no_target(s)
                &&& lines_of(s.diagnostics@).len() > 0
                &&& lines_of(s.diagnostics@).last() == "player storage pointer unavailable"@
            },
            Some(storage) => {
                &&& unit_read(
                    memory,
                    handle,
                    layout,
                    storage,
                    layout.player_current_health_offset,
                    layout.player_max_health_offset,
                    s.player_current_health,
                    s.player_max_health,
                    s.player_race,
                    s.player_level,
                    s.player_faction,
                )
                &&& (s.player_current_health is None || s.player_max_health is None) ==> lines_of(
                    s.diagnostics@,
                ).contains(health_failed_line("player"@))
                &&& target_read(memory, handle, layout, distance, object_manager, base, s)
            },
        }
}

/// The last link of the chain: the active player pointer at `object_manager` plus
/// its configured offset. When it is unreadable or zero the read fails there; else
/// the snapshot is read from the object it points to, and from nowhere else.
pub open spec fn active_player_read<
    M: Fn(usize, usize, usize) -> Option<Vec<u8>>,
    D: Fn((u32, u32, u32), (u32, u32, u32)) -> u32,
>(
    memory: M,
    handle: usize,
    layout: ClientLayout,
    distance: D,
    object_manager: usize,
    r: Result<MemorySnapshot, MemoryReaderError>,
) -> bool {
    exists|p: Option<u32>|
        #[trigger] read_word(memory, handle, object_manager.wrapping_add(layout.active_player_offset), p)
            && match pointer_spec(p) {
            None => r == Err::<MemorySnapshot, MemoryReaderError>(
                MemoryReaderError::ReadMemoryFailed(object_manager.wrapping_add(layout.active_player_offset)),
            ),
            Some(base) => match r {
                Ok(s) => player_read(memory, handle, layout, base, s) && storage_read(
                    memory,
                    handle,
                    layout,
                    distance,
                    object_manager,
                    base,
                    s,
                ),
                Err(_) => false,
            },
        }
}

/// The middle link: the object manager pointer at the client connection plus its
/// configured offset; an unreadable or zero pointer fails the read there.
pub open spec fn manager_read<
    M: Fn(usize, usize, usize) -> Option<Vec<u8>>,
    D: Fn((u32, u32, u32), (u32, u32, u32)) -> u32,
>(
    memory: M,
    handle: usize,
    layout: ClientLayout,
    distance: D,
    client_connection: usize,
    r: Result<MemorySnapshot, MemoryReaderError>,
) -> bool {
    exists|o: Option<u32>|
        #[trigger] read_word(
            memory,
            handle,
            client_connection.wrapping_add(layout.object_manager_offset),
            o,
        ) && match pointer_spec(o) {
            None => r == Err::<MemorySnapshot, MemoryReaderError>(
                MemoryReaderError::ReadMemoryFailed(
                    client_connection.wrapping_add(layout.object_manager_offset),
                ),
            ),
            Some(om) => active_player_read(memory, handle, layout, distance, om, r),
        }
}

/// What a read of the game through `handle` gives: one path from the client
/// connection at its configured address, through the object manager and the
/// active player pointer, to the player's object; the first link that is
/// unreadable or zero fails the read at its address.
pub open spec fn snapshot_read<
    M: Fn(usize, usize, usize) -> Option<Vec<u8>>,
    D: Fn((u32, u32, u32), (u32, u32, u32)) -> u32,
>(
    memory: M,
    handle: usize,
    layout: ClientLayout,
    distance: D,
    r: Result<MemorySnapshot, MemoryReaderError>,
) -> bool {
    exists|c: Option<u32>|
        #[trigger] read_word(memory, handle, layout.client_connection_addr, c) && match pointer_spec(
            c,
        ) {
            None => r == Err::<MemorySnapshot, MemoryReaderError>(
                MemoryReaderError::ReadMemoryFailed(layout.client_connection_addr),
            ),
            Some(cc) => manager_read(memory, handle, layout, distance, cc, r),
        }
}

/// `memory` gives the same answer each time it is asked the same read.
pub open spec fn memory_fixed<M: Fn(usize, usize, usize) -> Option<Vec<u8>>>(memory: M) -> bool {
    forall|h: usize, a: usize, n: usize, x: Option<Vec<u8>>, y: Option<Vec<u8>>|
        #[trigger] call_ensures(memory, (h, a, n), x) && #[trigger] call_ensures(memory, (h, a, n), y)
            ==> x == y
}

/// From fixed memory, two reads of a word at one address give the same value.
proof fn lemma_word_unique<M: Fn(usize, usize, usize) -> Option<Vec<u8>>>(
    memory: M,
    handle: usize,
    at: usize,
    v: Option<u32>,
    w: Option<u32>,
)
    requires
        memory_fixed(memory),
        read_word(memory, handle, at, v),
        read_word(memory, handle, at, w),
    ensures
        v == w,
{
    let x = choose|b: Option<Vec<u8>>|
        #[trigger] call_ensures(memory, (handle, at, 4usize), b) && word_of(b) == v;
    let y = choose|b: Option<Vec<u8>>|
        #[trigger] call_ensures(memory, (handle, at, 4usize), b) && word_of(b) == w;
}

/// From fixed memory, two reads of eight bytes at one address give the same value.
proof fn lemma_dword_unique<M: Fn(usize, usize, usize) -> Option<Vec<u8>>>(
    memory: M,
    handle: usize,
    at: usize,
    v: Option<u64>,
    w: Option<u64>,
)
    requires
        memory_fixed(memory),
        read_dword(memory, handle, at, v),
        read_dword(memory, handle, at, w),
    ensures
        v == w,
{
    let x = choose|b: Option<Vec<u8>>|
        #[trigger] call_ensures(memory, (handle, at, 8usize), b) && dword_of(b) == v;
    let y = choose|b: Option<Vec<u8>>|
        #[trigger] call_ensures(memory, (handle, at, 8usize), b) && dword_of(b) == w;
}

/// From fixed memory, two reads of text at one address give the same text.
proof fn lemma_text_unique<M: Fn(usize, usize, usize) -> Option<Vec<u8>>>(
    memory: M,
    handle: usize,
    at: usize,
    max_len: usize,
    v: Option<Seq<char>>,
    w: Option<Seq<char>>,
)
    requires
        memory_fixed(memory),
        read_text(memory, handle, at, max_len, v),
        read_text(memory, handle, at, max_len, w),
    ensures
        v == w,
{
    let x = choose|b: Option<Vec<u8>>|
        #[trigger] call_ensures(memory, (handle, at, max_len), b) && text_of(b, max_len) == v;
    let y = choose|b: Option<Vec<u8>>|
        #[trigger] call_ensures(memory, (handle, at, max_len), b) && text_of(b, max_len) == w;
}

/// From fixed memory, every read gives one value.
proof fn lemma_reads_unique<M: Fn(usize, usize, usize) -> Option<Vec<u8>>>(memory: M)
    requires
        memory_fixed(memory),
    ensures
        forall|h: usize, a: usize, v: Option<u32>, w: Option<u32>|
            #[trigger] read_word(memory, h, a, v) && #[trigger] read_word(memory, h, a, w) ==> v == w,
        forall|h: usize, a: usize, v: Option<u64>, w: Option<u64>|
            #[trigger] read_dword(memory, h, a, v) && #[trigger] read_dword(memory, h, a, w) ==> v
                == w,
        forall|h: usize, a: usize, n: usize, v: Option<Seq<char>>, w: Option<Seq<char>>|
            #[trigger] read_text(memory, h, a, n, v) && #[trigger] read_text(memory, h, a, n, w)
                ==> v == w,
{
    assert forall|h: usize, a: usize, v: Option<u32>, w: Option<u32>|
        #[trigger] read_word(memory, h, a, v) && #[trigger] read_word(memory, h, a, w) implies v
        == w by {
        lemma_word_unique(memory, h, a, v, w);
    }
    assert forall|h: usize, a: usize, v: Option<u64>, w: Option<u64>|
        #[trigger] read_dword(memory, h, a, v) && #[trigger] read_dword(memory, h, a, w) implies v
        == w by {
        lemma_dword_unique(memory, h, a, v, w);
    }
    assert forall|h: usize, a: usize, n: usize, v: Option<Seq<char>>, w: Option<Seq<char>>|
        #[trigger] read_text(memory, h, a, n, v) && #[trigger] read_text(memory, h, a, n, w)
        implies v == w by {
        lemma_text_unique(memory, h, a, n, v, w);
    }
}

/// From fixed memory, a walk of the name cache finds one outcome.
proof fn lemma_name_walk_unique<M: Fn(usize, usize, usize) -> Option<Vec<u8>>>(
    memory: M,
    handle: usize,
    layout: ClientLayout,
    guid: u64,
    node: usize,
    steps: usize,
    r1: Option<Seq<char>>,
    r2: Option<Seq<char>>,
)
    requires
        memory_fixed(memory),
        name_walk_from(memory, handle, layout, guid, node, steps, r1),
        name_walk_from(memory, handle, layout, guid, node, steps, r2),
    ensures
        r1 == r2,
    decreases MAX_NAME_STEPS - steps,
{
    lemma_reads_unique(memory);
    if name_node_live(node, steps) {
        let at = node.wrapping_add(layout.player_names_next_offset);
        if exists|next: Option<u32>| #[trigger] read_word(memory, handle, at, next) {
            let next = choose|next: Option<u32>| #[trigger] read_word(memory, handle, at, next);
            if link(next) != 0 && link(next) != node && name_walk_from(
                memory,
                handle,
                layout,
                guid,
                link(next),
                (steps + 1) as usize,
                r1,
            ) && name_walk_from(memory, handle, layout, guid, link(next), (steps + 1) as usize, r2) {
                lemma_name_walk_unique(
                    memory,
                    handle,
                    layout,
                    guid,
                    link(next),
                    (steps + 1) as usize,
                    r1,
                    r2,
                );
            }
        }
    }
}

/// From fixed memory, a walk of the object list finds one outcome.
proof fn lemma_object_walk_unique<M: Fn(usize, usize, usize) -> Option<Vec<u8>>>(
    memory: M,
    handle: usize,
    layout: ClientLayout,
    target_guid: u64,
    node: usize,
    steps: usize,
    r1: Option<usize>,
    r2: Option<usize>,
)
    requires
        memory_fixed(memory),
        object_walk_from(memory, handle, layout, target_guid, node, steps, r1),
        object_walk_from(memory, handle, layout, target_guid, node, steps, r2),
    ensures
        r1 == r2,
    decreases MAX_OBJECT_STEPS - steps,
{
    lemma_reads_unique(memory);
    if steps < MAX_OBJECT_STEPS {
        let at = node.wrapping_add(layout.next_object_offset);
        if exists|next: Option<u32>| #[trigger] read_word(memory, handle, at, next) {
            let next = choose|next: Option<u32>| #[trigger] read_word(memory, handle, at, next);
            if link(next) != 0 && link(next) != node && object_walk_from(
                memory,
                handle,
                layout,
                target_guid,
                link(next),
                (steps + 1) as usize,
                r1,
            ) && object_walk_from(
                memory,
                handle,
                layout,
                target_guid,
                link(next),
                (steps + 1) as usize,
                r2,
            ) {
                lemma_object_walk_unique(
                    memory,
                    handle,
                    layout,
                    target_guid,
                    link(next),
                    (steps + 1) as usize,
                    r1,
                    r2,
                );
            }
        }
    }
}

/// From fixed memory, a search gives one outcome: of the name cache, of the object
/// list, and of a creature's name.
proof fn lemma_searches_unique<M: Fn(usize, usize, usize) -> Option<Vec<u8>>>(
    memory: M,
    handle: usize,
    layout: ClientLayout,
)
    requires
        memory_fixed(memory),
    ensures
        forall|g: u64, a: Option<Seq<char>>, b: Option<Seq<char>>|
            #[trigger] name_search(memory, handle, layout, g, a) && #[trigger] name_search(
                memory,
                handle,
                layout,
                g,
                b,
            ) ==> a == b,
        forall|om: usize, g: u64, a: Option<usize>, b: Option<usize>|
            #[trigger] object_search(memory, handle, layout, om, g, a) && #[trigger] object_search(
                memory,
                handle,
                layout,
                om,
                g,
                b,
            ) ==> a == b,
        forall|base: usize, a: Option<Seq<char>>, b: Option<Seq<char>>|
            #[trigger] monster_search(memory, handle, layout, base, a) && #[trigger] monster_search(
                memory,
                handle,
                layout,
                base,
                b,
            ) ==> a == b,
{
    lemma_reads_unique(memory);
    assert forall|g: u64, a: Option<Seq<char>>, b: Option<Seq<char>>|
        #[trigger] name_search(memory, handle, layout, g, a) && #[trigger] name_search(
            memory,
            handle,
            layout,
            g,
            b,
        ) implies a == b by {
        let first = choose|first: Option<u32>|
            #[trigger] read_word(memory, handle, first_name_node_addr(layout), first);
        if let Some(f) = pointer_spec(first) {
            lemma_name_walk_unique(memory, handle, layout, g, f, 0, a, b);
        }
    }
    assert forall|om: usize, g: u64, a: Option<usize>, b: Option<usize>|
        #[trigger] object_search(memory, handle, layout, om, g, a) && #[trigger] object_search(
            memory,
            handle,
            layout,
            om,
            g,
            b,
        ) implies a == b by {
        let first = choose|first: Option<u32>|
            #[trigger] read_word(
                memory,
                handle,
                om.wrapping_add(layout.first_object_offset),
                first,
            );
        if let Some(f) = pointer_spec(first) {
            lemma_object_walk_unique(memory, handle, layout, g, f, 0, a, b);
        }
    }
}

/// From fixed memory, whether a group is listed reads one way.
proof fn lemma_group_listed_unique<M: Fn(usize, usize, usize) -> Option<Vec<u8>>>(
    memory: M,
    handle: usize,
    at: usize,
    count: nat,
    group: u32,
    a: Option<bool>,
    b: Option<bool>,
)
    requires
        memory_fixed(memory),
        group_listed_read(memory, handle, at, count, group, a),
        group_listed_read(memory, handle, at, count, group, b),
    ensures
        a == b,
    decreases count,
{
    lemma_reads_unique(memory);
    if count > 0 {
        let v = choose|v: Option<u32>| #[trigger] read_word(memory, handle, at, v);
        if group_listed_read(memory, handle, at.wrapping_add(4), (count - 1) as nat, group, a)
            && group_listed_read(memory, handle, at.wrapping_add(4), (count - 1) as nat, group, b) {
            lemma_group_listed_unique(memory, handle, at.wrapping_add(4), (count - 1) as nat, group, a, b);
        }
    }
}

/// From fixed memory, the standing between two units reads one way.
proof fn lemma_hostility_unique<M: Fn(usize, usize, usize) -> Option<Vec<u8>>>(
    memory: M,
    handle: usize,
    layout: ClientLayout,
    my_base: usize,
    other_base: usize,
    a: Option<Seq<char>>,
    b: Option<Seq<char>>,
)
    requires
        memory_fixed(memory),
        hostility_read(memory, handle, layout, my_base, other_base, a),
        hostility_read(memory, handle, layout, my_base, other_base, b),
    ensures
        a == b,
{
    lemma_reads_unique(memory);
    assert forall|at: usize, group: u32, x: Option<bool>, y: Option<bool>|
        #[trigger] group_listed_read(memory, handle, at, 4, group, x) && #[trigger] group_listed_read(
            memory,
            handle,
            at,
            4,
            group,
            y,
        ) implies x == y by {
        lemma_group_listed_unique(memory, handle, at, 4, group, x, y);
    }
    assert forall|base: usize, x: Option<usize>, y: Option<usize>|
        #[trigger] row_lookup(memory, handle, layout, base, x) && #[trigger] row_lookup(
            memory,
            handle,
            layout,
            base,
            y,
        ) implies x == y by {}
    assert forall|mr: usize, or: usize, x: Option<Hostility>, y: Option<Hostility>|
        #[trigger] standing_read(memory, handle, mr, or, x) && #[trigger] standing_read(
            memory,
            handle,
            mr,
            or,
            y,
        ) implies x == y by {}
}

/// From fixed memory, two readings of a position at one address agree.
proof fn lemma_position_unique<M: Fn(usize, usize, usize) -> Option<Vec<u8>>>(
    memory: M,
    handle: usize,
    at: usize,
    p: Option<(u32, u32, u32)>,
    q: Option<(u32, u32, u32)>,
)
    requires
        memory_fixed(memory),
        position_read(memory, handle, at, p),
        position_read(memory, handle, at, q),
    ensures
        p == q,
{
    let (x1, y1, z1) = choose|x: Option<u32>, y: Option<u32>, z: Option<u32>|
        #![trigger read_word(memory, handle, at, x), read_word(memory, handle, at.wrapping_add(4), y), read_word(memory, handle, at.wrapping_add(8), z)]
        {
            &&& read_word(memory, handle, at, x)
            &&& read_word(memory, handle, at.wrapping_add(4), y)
            &&& read_word(memory, handle, at.wrapping_add(8), z)
            &&& p == position_spec(x, y, z)
        };
    let (x2, y2, z2) = choose|x: Option<u32>, y: Option<u32>, z: Option<u32>|
        #![trigger read_word(memory, handle, at, x), read_word(memory, handle, at.wrapping_add(4), y), read_word(memory, handle, at.wrapping_add(8), z)]
        {
            &&& read_word(memory, handle, at, x)
            &&& read_word(memory, handle, at.wrapping_add(4), y)
            &&& read_word(memory, handle, at.wrapping_add(8), z)
            &&& q == position_spec(x, y, z)
        };
    lemma_word_unique(memory, handle, at, x1, x2);
    lemma_word_unique(memory, handle, at.wrapping_add(4), y1, y2);
    lemma_word_unique(memory, handle, at.wrapping_add(8), z1, z2);
}

/// From fixed memory, two readings of a unit's fields from one storage agree.
proof fn lemma_unit_unique<M: Fn(usize, usize, usize) -> Option<Vec<u8>>>(
    memory: M,
    handle: usize,
    layout: ClientLayout,
    storage: usize,
    current_offset: Option<usize>,
    max_offset: Option<usize>,
    a: (Option<u32>, Option<u32>, Option<u8>, Option<u32>, Option<u32>),
    b: (Option<u32>, Option<u32>, Option<u8>, Option<u32>, Option<u32>),
)
    requires
        memory_fixed(memory),
        unit_read(memory, handle, layout, storage, current_offset, max_offset, a.0, a.1, a.2, a.3, a.4),
        unit_read(memory, handle, layout, storage, current_offset, max_offset, b.0, b.1, b.2, b.3, b.4),
    ensures
        a == b,
{
    if let Some(o) = current_offset {
        lemma_word_unique(memory, handle, storage.wrapping_add(o), a.0, b.0);
    }
    if let Some(o) = max_offset {
        lemma_word_unique(memory, handle, storage.wrapping_add(o), a.1, b.1);
    }
    let at = storage.wrapping_add(layout.unit_field_bytes0_offset);
    let x = choose|v: Option<u32>| #[trigger] read_word(memory, handle, at, v) && a.2 == race_spec(v);
    let y = choose|v: Option<u32>| #[trigger] read_word(memory, handle, at, v) && b.2 == race_spec(v);
    lemma_word_unique(memory, handle, at, x, y);
    lemma_word_unique(memory, handle, storage.wrapping_add(layout.unit_field_level_offset), a.3, b.3);
    lemma_word_unique(
        memory,
        handle,
        storage.wrapping_add(layout.unit_field_faction_template_offset),
        a.4,
        b.4,
    );
}

/// `distance` gives the same answer each time it is asked about the same two
/// positions.
pub open spec fn distance_fixed<D: Fn((u32, u32, u32), (u32, u32, u32)) -> u32>(distance: D) -> bool {
    forall|p: (u32, u32, u32), q: (u32, u32, u32), x: u32, y: u32|
        #[trigger] call_ensures(distance, (p, q), x) && #[trigger] call_ensures(distance, (p, q), y)
            ==> x == y
}

/// Two snapshots hold the same values in every field but the diagnostics.
pub open spec fn same_read_values(a: MemorySnapshot, b: MemorySnapshot) -> bool {
    &&& a.position == b.position && a.heading_rad == b.heading_rad
    &&& a.player_guid == b.player_guid && a.player_name@ == b.player_name@
    &&& a.player_current_health == b.player_current_health
    &&& a.player_max_health == b.player_max_health
    &&& a.player_race == b.player_race && a.player_level == b.player_level
    &&& a.player_faction == b.player_faction
    &&& a.target_guid == b.target_guid
    &&& text_view(a.target_name) == text_view(b.target_name)
    &&& a.target_current_health == b.target_current_health
    &&& a.target_max_health == b.target_max_health
    &&& a.target_race == b.target_race && a.target_level == b.target_level
    &&& a.target_faction == b.target_faction
    &&& text_view(a.target_hostility) == text_view(b.target_hostility)
    &&& a.target_distance == b.target_distance
    &&& a.player_object_type == b.player_object_type && a.target_object_type == b.target_object_type
    &&& a.player_unit_flags == b.player_unit_flags && a.target_unit_flags == b.target_unit_flags
    &&& a.player_monster_definition_ptr == b.player_monster_definition_ptr
    &&& a.target_monster_definition_ptr == b.target_monster_definition_ptr
    &&& a.player_display_id == b.player_display_id && a.target_display_id == b.target_display_id
    &&& a.player_native_display_id == b.player_native_display_id
    &&& a.target_native_display_id == b.target_native_display_id
}

/// Reads of the game are single-path: where the memory gives the same answer each
/// time it is asked the same read, and `distance` the same answer about the same
/// positions, two reads through one handle fail alike, at the same address, or
/// both give a snapshot, and the two snapshots hold the same values in every field
/// but the diagnostics (`same_read_values`).
pub proof fn lemma_reads_agree<
    M: Fn(usize, usize, usize) -> Option<Vec<u8>>,
    D: Fn((u32, u32, u32), (u32, u32, u32)) -> u32,
>(
    memory: M,
    handle: usize,
    layout: ClientLayout,
    distance: D,
    r1: Result<MemorySnapshot, MemoryReaderError>,
    r2: Result<MemorySnapshot, MemoryReaderError>,
)
    requires
        memory_fixed(memory),
        distance_fixed(distance),
        snapshot_read(memory, handle, layout, distance, r1),
        snapshot_read(memory, handle, layout, distance, r2),
    ensures
        r1 is Err ==> r1 == r2,
        r1 is Ok <==> r2 is Ok,
        r1 is Ok ==> same_read_values(r1->Ok_0, r2->Ok_0),
{
    let cc_at = layout.client_connection_addr;
    let c1 = choose|c: Option<u32>|
        #[trigger] read_word(memory, handle, cc_at, c) && match pointer_spec(c) {
            None => r1 == Err::<MemorySnapshot, MemoryReaderError>(
                MemoryReaderError::ReadMemoryFailed(cc_at),
            ),
            Some(cc) => manager_read(memory, handle, layout, distance, cc, r1),
        };
    let c2 = choose|c: Option<u32>|
        #[trigger] read_word(memory, handle, cc_at, c) && match pointer_spec(c) {
            None => r2 == Err::<MemorySnapshot, MemoryReaderError>(
                MemoryReaderError::ReadMemoryFailed(cc_at),
            ),
            Some(cc) => manager_read(memory, handle, layout, distance, cc, r2),
        };
    lemma_word_unique(memory, handle, cc_at, c1, c2);
    if let Some(cc) = pointer_spec(c1) {
        let om_at = cc.wrapping_add(layout.object_manager_offset);
        let o1 = choose|o: Option<u32>|
            #[trigger] read_word(memory, handle, om_at, o) && match pointer_spec(o) {
                None => r1 == Err::<MemorySnapshot, MemoryReaderError>(
                    MemoryReaderError::ReadMemoryFailed(om_at),
                ),
                Some(om) => active_player_read(memory, handle, layout, distance, om, r1),
            };
        let o2 = choose|o: Option<u32>|
            #[trigger] read_word(memory, handle, om_at, o) && match pointer_spec(o) {
                None => r2 == Err::<MemorySnapshot, MemoryReaderError>(
                    MemoryReaderError::ReadMemoryFailed(om_at),
                ),
                Some(om) => active_player_read(memory, handle, layout, distance, om, r2),
            };
        lemma_word_unique(memory, handle, om_at, o1, o2);
        if let Some(om) = pointer_spec(o1) {
            let ap_at = om.wrapping_add(layout.active_player_offset);
            let p1 = choose|p: Option<u32>|
                #[trigger] read_word(memory, handle, ap_at, p) && match pointer_spec(p) {
                    None => r1 == Err::<MemorySnapshot, MemoryReaderError>(
                        MemoryReaderError::ReadMemoryFailed(ap_at),
                    ),
                    Some(base) => match r1 {
                        Ok(s) => player_read(memory, handle, layout, base, s) && storage_read(
                            memory,
                            handle,
                            layout,
                            distance,
                            om,
                            base,
                            s,
                        ),
                        Err(_) => false,
                    },
                };
            let p2 = choose|p: Option<u32>|
                #[trigger] read_word(memory, handle, ap_at, p) && match pointer_spec(p) {
                    None => r2 == Err::<MemorySnapshot, MemoryReaderError>(
                        MemoryReaderError::ReadMemoryFailed(ap_at),
                    ),
                    Some(base) => match r2 {
                        Ok(s) => player_read(memory, handle, layout, base, s) && storage_read(
                            memory,
                            handle,
                            layout,
                            distance,
                            om,
                            base,
                            s,
                        ),
                        Err(_) => false,
                    },
                };
            lemma_word_unique(memory, handle, ap_at, p1, p2);
            if let Some(base) = pointer_spec(p1) {
                let s1 = r1->Ok_0;
                let s2 = r2->Ok_0;
                lemma_snapshots_agree(memory, handle, layout, distance, om, base, s1, s2);
            }
        }
    }
}

/// Two snapshots read from the player's object at `base` out of fixed memory hold
/// the same values (`same_read_values`).
proof fn lemma_snapshots_agree<
    M: Fn(usize, usize, usize) -> Option<Vec<u8>>,
    D: Fn((u32, u32, u32), (u32, u32, u32)) -> u32,
>(
    memory: M,
    handle: usize,
    layout: ClientLayout,
    distance: D,
    object_manager: usize,
    base: usize,
    s1: MemorySnapshot,
    s2: MemorySnapshot,
)
    requires
        memory_fixed(memory),
        distance_fixed(distance),
        player_read(memory, handle, layout, base, s1),
        player_read(memory, handle, layout, base, s2),
        storage_read(memory, handle, layout, distance, object_manager, base, s1),
        storage_read(memory, handle, layout, distance, object_manager, base, s2),
    ensures
        same_read_values(s1, s2),
{
    lemma_reads_unique(memory);
    lemma_searches_unique(memory, handle, layout);
    lemma_position_unique(
        memory,
        handle,
        base.wrapping_add(layout.player_xyz_offset),
        s1.position,
        s2.position,
    );
    lemma_word_unique(
        memory,
        handle,
        base.wrapping_add(layout.player_heading_offset),
        s1.heading_rad,
        s2.heading_rad,
    );
    let guid_at = base.wrapping_add(layout.object_guid_offset);
    let g1 = choose|g: Option<u64>|
        #[trigger] read_dword(memory, handle, guid_at, g) && s1.player_guid == guid_spec(g);
    let g2 = choose|g: Option<u64>|
        #[trigger] read_dword(memory, handle, guid_at, g) && s2.player_guid == guid_spec(g);
    lemma_dword_unique(memory, handle, guid_at, g1, g2);
    if let Some(g) = s1.player_guid {
        let f1 = choose|found: Option<Seq<char>>|
            #[trigger] name_search(memory, handle, layout, g, found) && s1.player_name@
                == name_or_empty(found);
        let f2 = choose|found: Option<Seq<char>>|
            #[trigger] name_search(memory, handle, layout, g, found) && s2.player_name@
                == name_or_empty(found);
        assert(f1 == f2);
    } else {
        assert(s1.player_name@ =~= s2.player_name@);
    }
    let st_at = base.wrapping_add(layout.object_storage_ptr_offset);
    let st1 = choose|st: Option<u32>|
        #[trigger] read_word(memory, handle, st_at, st) && match pointer_spec(st) {
            None => {
                &&& no_player_unit(s1)
                &&& no_target(s1)
                &&& lines_of(s1.diagnostics@).len() > 0
                &&& lines_of(s1.diagnostics@).last() == "player storage pointer unavailable"@
            },
            Some(storage) => {
                &&& unit_read(
                    memory,
                    handle,
                    layout,
                    storage,
                    layout.player_current_health_offset,
                    layout.player_max_health_offset,
                    s1.player_current_health,
                    s1.player_max_health,
                    s1.player_race,
                    s1.player_level,
                    s1.player_faction,
                )
                &&& (s1.player_current_health is None || s1.player_max_health is None) ==> lines_of(
                    s1.diagnostics@,
                ).contains(health_failed_line("player"@))
                &&& target_read(memory, handle, layout, distance, object_manager, base, s1)
            },
        };
    let st2 = choose|st: Option<u32>|
        #[trigger] read_word(memory, handle, st_at, st) && match pointer_spec(st) {
            None => {
                &&& no_player_unit(s2)
                &&& no_target(s2)
                &&& lines_of(s2.diagnostics@).len() > 0
                &&& lines_of(s2.diagnostics@).last() == "player storage pointer unavailable"@
            },
            Some(storage) => {
                &&& unit_read(
                    memory,
                    handle,
                    layout,
                    storage,
                    layout.player_current_health_offset,
                    layout.player_max_health_offset,
                    s2.player_current_health,
                    s2.player_max_health,
                    s2.player_race,
                    s2.player_level,
                    s2.player_faction,
                )
                &&& (s2.player_current_health is None || s2.player_max_health is None) ==> lines_of(
                    s2.diagnostics@,
                ).contains(health_failed_line("player"@))
                &&& target_read(memory, handle, layout, distance, object_manager, base, s2)
            },
        };
    lemma_word_unique(memory, handle, st_at, st1, st2);
    if let Some(storage) = pointer_spec(st1) {
        lemma_unit_unique(
            memory,
            handle,
            layout,
            storage,
            layout.player_current_health_offset,
            layout.player_max_health_offset,
            (s1.player_current_health, s1.player_max_health, s1.player_race, s1.player_level, s1.player_faction),
            (s2.player_current_health, s2.player_max_health, s2.player_race, s2.player_level, s2.player_faction),
        );
        let tg1 = choose|tg: Option<u64>|
            #[trigger] read_dword(memory, handle, layout.target_guid_addr, tg) && s1.target_guid
                == guid_spec(tg);
        let tg2 = choose|tg: Option<u64>|
            #[trigger] read_dword(memory, handle, layout.target_guid_addr, tg) && s2.target_guid
                == guid_spec(tg);
        lemma_dword_unique(memory, handle, layout.target_guid_addr, tg1, tg2);
        if let Some(g) = guid_spec(tg1) {
            lemma_target_agrees(memory, handle, layout, distance, object_manager, base, g, s1, s2);
        }
    }
}

/// Two snapshots with the same player position whose target, with guid `guid`,
/// was read out of fixed memory hold the same target values.
proof fn lemma_target_agrees<
    M: Fn(usize, usize, usize) -> Option<Vec<u8>>,
    D: Fn((u32, u32, u32), (u32, u32, u32)) -> u32,
>(
    memory: M,
    handle: usize,
    layout: ClientLayout,
    distance: D,
    object_manager: usize,
    base: usize,
    guid: u64,
    s1: MemorySnapshot,
    s2: MemorySnapshot,
)
    requires
        memory_fixed(memory),
        distance_fixed(distance),
        s1.position == s2.position,
        exists|tb: Option<usize>|
            #[trigger] target_base_read(memory, handle, layout, object_manager, guid, tb)
                && target_object_read(memory, handle, layout, distance, base, guid, tb, s1),
        exists|tb: Option<usize>|
            #[trigger] target_base_read(memory, handle, layout, object_manager, guid, tb)
                && target_object_read(memory, handle, layout, distance, base, guid, tb, s2),
    ensures
        text_view(s1.target_name) == text_view(s2.target_name),
        s1.target_current_health == s2.target_current_health,
        s1.target_max_health == s2.target_max_health,
        s1.target_race == s2.target_race && s1.target_level == s2.target_level,
        s1.target_faction == s2.target_faction,
        text_view(s1.target_hostility) == text_view(s2.target_hostility),
        s1.target_distance == s2.target_distance,
{
    lemma_reads_unique(memory);
    lemma_searches_unique(memory, handle, layout);
    let tb1 = choose|tb: Option<usize>|
        #[trigger] target_base_read(memory, handle, layout, object_manager, guid, tb)
            && target_object_read(memory, handle, layout, distance, base, guid, tb, s1);
    let tb2 = choose|tb: Option<usize>|
        #[trigger] target_base_read(memory, handle, layout, object_manager, guid, tb)
            && target_object_read(memory, handle, layout, distance, base, guid, tb, s2);
    assert(tb1 == tb2);
    if let Some(t) = tb1 {
        let st_at = t.wrapping_add(layout.object_storage_ptr_offset);
        let ts = choose|ts: Option<u32>| #[trigger] read_word(memory, handle, st_at, ts);
        if let Some(storage) = pointer_spec(ts) {
            lemma_unit_unique(
                memory,
                handle,
                layout,
                storage,
                layout.target_current_health_offset,
                layout.target_max_health_offset,
                (s1.target_current_health, s1.target_max_health, s1.target_race, s1.target_level, s1.target_faction),
                (s2.target_current_health, s2.target_max_health, s2.target_race, s2.target_level, s2.target_faction),
            );
        }
        lemma_hostility_unique(
            memory,
            handle,
            layout,
            base,
            t,
            text_view(s1.target_hostility),
            text_view(s2.target_hostility),
        );
        if let Some(p) = s1.position {
            let at = t.wrapping_add(layout.player_xyz_offset);
            let tp1 = choose|tp: Option<(u32, u32, u32)>|
                #[trigger] position_read(memory, handle, at, tp) && match tp {
                    None => s1.target_distance is None,
                    Some(q) => match s1.target_distance {
                        Some(v) => call_ensures(distance, (p, q), v),
                        None => false,
                    },
                };
            let tp2 = choose|tp: Option<(u32, u32, u32)>|
                #[trigger] position_read(memory, handle, at, tp) && match tp {
                    None => s2.target_distance is None,
                    Some(q) => match s2.target_distance {
                        Some(v) => call_ensures(distance, (p, q), v),
                        None => false,
                    },
                };
            lemma_position_unique(memory, handle, at, tp1, tp2);
        }
    }
}

/// Two snapshots agree on everything but the target.
spec fn same_player_part(a: MemorySnapshot, b: MemorySnapshot) -> bool {
    &&& a.player_name == b.player_name && a.player_guid == b.player_guid
    &&& a.player_current_health == b.player_current_health
    &&& a.player_max_health == b.player_max_health
    &&& a.player_race == b.player_race && a.player_level == b.player_level
    &&& a.player_faction == b.player_faction
    &&& a.position == b.position && a.heading_rad == b.heading_rad
    &&& a.player_object_type == b.player_object_type && a.target_object_type == b.target_object_type
    &&& a.player_unit_flags == b.player_unit_flags && a.target_unit_flags == b.target_unit_flags
    &&& a.player_monster_definition_ptr == b.player_monster_definition_ptr
    &&& a.target_monster_definition_ptr == b.target_monster_definition_ptr
    &&& a.player_display_id == b.player_display_id && a.target_display_id == b.target_display_id
    &&& a.player_native_display_id == b.player_native_display_id
    &&& a.target_native_display_id == b.target_native_display_id
}

/// A unit's fields as read from its field storage.
struct UnitReading {
    current_health: Option<u32>,
    max_health: Option<u32>,
    race: Option<u8>,
    level: Option<u32>,
    faction: Option<u32>,
}

/// Reads a unit's fields from its field storage at `storage`.
fn read_unit<M: Fn(usize, usize, usize) -> Option<Vec<u8>>>(
    memory: &M,
    handle: usize,
    layout: &ClientLayout,
    storage: usize,
    current_offset: Option<usize>,
    max_offset: Option<usize>,
    label: &str,
    diagnostics: &mut Vec<String>,
) -> (u: UnitReading)
    requires
        memory_ready(*memory),
    ensures
        (u.current_health is None || u.max_health is None) ==> lines_of(
            final(diagnostics)@,
        ).contains(health_failed_line(label@)),
        kept(old(diagnostics)@, final(diagnostics)@),
        unit_read(
            *memory,
            handle,
            *layout,
            storage,
            current_offset,
            max_offset,
            u.current_health,
            u.max_health,
            u.race,
            u.level,
            u.faction,
        ),
{
    let (current_health, max_health) = read_health_pair(
        memory,
        handle,
        storage,
        current_offset,
        max_offset,
        label,
        diagnostics,
    );
    let bytes0 = read_u32(memory, handle, storage.wrapping_add(layout.unit_field_bytes0_offset));
    assert(read_word(*memory, handle, storage.wrapping_add(layout.unit_field_bytes0_offset), bytes0));
    let race = race_of(bytes0);
    let level = read_u32(memory, handle, storage.wrapping_add(layout.unit_field_level_offset));
    let faction = read_u32(
        memory,
        handle,
        storage.wrapping_add(layout.unit_field_faction_template_offset),
    );
    UnitReading { current_health, max_health, race, level, faction }
}

/// The player's name from the name cache, or an empty name, with the failure
/// noted, when none is found.
fn player_name_of<M: Fn(usize, usize, usize) -> Option<Vec<u8>>>(
    memory: &M,
    handle: usize,
    layout: &ClientLayout,
    guid: Option<u64>,
    diagnostics: &mut Vec<String>,
) -> (n: String)
    requires
        memory_ready(*memory),
    ensures
        !n@.contains('\0'),
        n@.len() == 0 ==> lines_of(final(diagnostics)@).contains("player name not found"@),
        kept(old(diagnostics)@, final(diagnostics)@),
        player_name_read(*memory, handle, *layout, guid, n@),
        n@.len() == 0 ==> lines_of(final(diagnostics)@) == lines_of(old(diagnostics)@).push(
            "player name not found"@,
        ),
{
    let found = match guid {
        Some(g) => lookup_name_by_guid(memory, handle, layout, g, diagnostics),
        None => None,
    };
    match found {
        Some(n) => n,
        None => {
            note(diagnostics, text("player name not found"));
            String::new()
        },
    }
}

/// Reads the target: its guid at the configured address, then, when one is
/// selected, its object in the list, its unit fields, name, standing towards the
/// player at `base` and distance from the player's position.
fn read_target<
    M: Fn(usize, usize, usize) -> Option<Vec<u8>>,
    D: Fn((u32, u32, u32), (u32, u32, u32)) -> u32,
>(
    memory: &M,
    handle: usize,
    layout: &ClientLayout,
    distance: &D,
    object_manager: usize,
    base: usize,
    snap: &mut MemorySnapshot,
)
    requires
        memory_ready(*memory),
        distance_ready(*distance),
        no_target(*old(snap)),
    ensures
        kept(old(snap).diagnostics@, final(snap).diagnostics@),
        target_read(*memory, handle, *layout, *distance, object_manager, base, *final(snap)),
        same_player_part(*old(snap), *final(snap)),
{
    let tg_read = read_u64(memory, handle, layout.target_guid_addr);
    if tg_read.is_none() {
        note(&mut snap.diagnostics, text("target guid read failed"));
    }
    let target_guid = guid(tg_read);
    let g = match target_guid {
        Some(g) => g,
        None => {
            assert(read_dword(*memory, handle, layout.target_guid_addr, tg_read));
            return ;
        },
    };
    snap.target_guid = Some(g);
    let target_base = find_object_by_guid(
        memory,
        handle,
        layout,
        object_manager,
        g,
        "target",
        &mut snap.diagnostics,
    );
    assert(target_base_read(*memory, handle, *layout, object_manager, g, target_base));
    let ghost mut storage_word: Option<u32> = None;
    match target_base {
        None => {
            note(
                &mut snap.diagnostics,
                text("target selected but target object was not found in object list"),
            );
        },
        Some(tb) => {
            let ts_read = read_u32(memory, handle, tb.wrapping_add(layout.object_storage_ptr_offset));
            proof {
                storage_word = ts_read;
            }
            match pointer(ts_read) {
                None => {
                    note(&mut snap.diagnostics, text("target storage pointer unavailable"));
                },
                Some(storage) => {
                    let u = read_unit(
                        memory,
                        handle,
                        layout,
                        storage,
                        layout.target_current_health_offset,
                        layout.target_max_health_offset,
                        "target",
                        &mut snap.diagnostics,
                    );
                    snap.target_current_health = u.current_health;
                    snap.target_max_health = u.max_health;
                    snap.target_race = u.race;
                    snap.target_level = u.level;
                    snap.target_faction = u.faction;
                },
            }
        },
    }
    let by_guid = lookup_name_by_guid(memory, handle, layout, g, &mut snap.diagnostics);
    let name = match by_guid {
        Some(n) => Some(n),
        None => match target_base {
            Some(tb) => lookup_monster_name(memory, handle, layout, tb, &mut snap.diagnostics),
            None => None,
        },
    };
    snap.target_name = name;
    let ghost mut target_position: Option<(u32, u32, u32)> = None;
    match target_base {
        Some(tb) => {
            let h = hostility_label(memory, handle, layout, base, tb, &mut snap.diagnostics);
            snap.target_hostility = h;
            match snap.position {
                Some(p) => {
                    let at = tb.wrapping_add(layout.player_xyz_offset);
                    let tx = read_u32(memory, handle, at);
                    let ty = read_u32(memory, handle, at.wrapping_add(4));
                    let tz = read_u32(memory, handle, at.wrapping_add(8));
                    let tp = position_of(tx, ty, tz);
                    assert(read_word(*memory, handle, at, tx));
                    assert(read_word(*memory, handle, at.wrapping_add(4), ty));
                    assert(read_word(*memory, handle, at.wrapping_add(8), tz));
                    assert(position_read(*memory, handle, at, tp));
                    proof {
                        target_position = tp;
                    }
                    match tp {
                        Some(q) => {
                            let d = distance(p, q);
                            snap.target_distance = Some(d);
                        },
                        None => {
                            note(&mut snap.diagnostics, text("target position read failed"));
                        },
                    }
                },
                None => {},
            }
        },
        None => {},
    }
    proof {
        if let Some(t) = target_base {
            assert(read_word(
                *memory,
                handle,
                t.wrapping_add(layout.object_storage_ptr_offset),
                storage_word,
            ));
            if let Some(p) = snap.position {
                assert(position_read(
                    *memory,
                    handle,
                    t.wrapping_add(layout.player_xyz_offset),
                    target_position,
                ));
            }
            assert(distance_read(
                *memory,
                handle,
                *layout,
                *distance,
                t,
                snap.position,
                snap.target_distance,
            ));
        }
        assert(target_object_read(*memory, handle, *layout, *distance, base, g, target_base, *snap));
        assert(read_dword(*memory, handle, layout.target_guid_addr, tg_read));
    }
}

/// The `u32` at `at`; a failed read is noted as `failed`.
fn read_noted<M: Fn(usize, usize, usize) -> Option<Vec<u8>>>(
    memory: &M,
    handle: usize,
    at: usize,
    failed: &str,
    diagnostics: &mut Vec<String>,
) -> (r: Option<u32>)
    requires
        memory_ready(*memory),
    ensures
        kept(old(diagnostics)@, final(diagnostics)@),
        read_word(*memory, handle, at, r),
{
    let v = read_u32(memory, handle, at);
    if v.is_none() {
        note(diagnostics, text(failed));
    }
    v
}

/// Reads the player's object at `base`, then, through its storage pointer, its
/// unit fields and the target.
fn read_player<
    M: Fn(usize, usize, usize) -> Option<Vec<u8>>,
    D: Fn((u32, u32, u32), (u32, u32, u32)) -> u32,
>(
    memory: &M,
    handle: usize,
    layout: &ClientLayout,
    distance: &D,
    object_manager: usize,
    base: usize,
    diagnostics: Vec<String>,
) -> (s: MemorySnapshot)
    requires
        memory_ready(*memory),
        distance_ready(*distance),
    ensures
        player_read(*memory, handle, *layout, base, s),
        storage_read(*memory, handle, *layout, *distance, object_manager, base, s),
{
    let mut diagnostics = diagnostics;
    let at = base.wrapping_add(layout.player_xyz_offset);
    let x = read_noted(memory, handle, at, "player x read failed", &mut diagnostics);
    let y = read_noted(memory, handle, at.wrapping_add(4), "player y read failed", &mut diagnostics);
    let z = read_noted(memory, handle, at.wrapping_add(8), "player z read failed", &mut diagnostics);
    let position = position_of(x, y, z);
    assert(read_word(*memory, handle, at, x));
    assert(read_word(*memory, handle, at.wrapping_add(4), y));
    assert(read_word(*memory, handle, at.wrapping_add(8), z));
    assert(position_read(*memory, handle, at, position));
    let heading_rad = read_noted(
        memory,
        handle,
        base.wrapping_add(layout.player_heading_offset),
        "player heading read failed",
        &mut diagnostics,
    );
    let storage_word = read_u32(memory, handle, base.wrapping_add(layout.object_storage_ptr_offset));
    let player_storage = pointer(storage_word);
    let trace = match player_storage {
        Some(v) => line(vec![text("trace player_storage=0x"), hex8(v)]),
        None => text("trace player_storage=none"),
    };
    note(&mut diagnostics, trace);
    let guid_word = read_u64(memory, handle, base.wrapping_add(layout.object_guid_offset));
    let player_guid = guid(guid_word);
    let player_name = player_name_of(memory, handle, layout, player_guid, &mut diagnostics);
    let mut snap = MemorySnapshot {
        player_name,
        player_guid,
        player_object_type: None,
        player_current_health: None,
        player_max_health: None,
        player_race: None,
        player_level: None,
        player_faction: None,
        player_unit_flags: None,
        player_monster_definition_ptr: None,
        player_display_id: None,
        player_native_display_id: None,
        position,
        heading_rad,
        target_guid: None,
        target_object_type: None,
        target_name: None,
        target_current_health: None,
        target_max_health: None,
        target_race: None,
        target_level: None,
        target_faction: None,
        target_unit_flags: None,
        target_monster_definition_ptr: None,
        target_display_id: None,
        target_native_display_id: None,
        target_hostility: None,
        target_distance: None,
        diagnostics,
    };
    assert(read_dword(*memory, handle, base.wrapping_add(layout.object_guid_offset), guid_word));
    assert(player_read(*memory, handle, *layout, base, snap));
    match player_storage {
        None => {
            note(&mut snap.diagnostics, text("player storage pointer unavailable"));
        },
        Some(storage) => {
            let u = read_unit(
                memory,
                handle,
                layout,
                storage,
                layout.player_current_health_offset,
                layout.player_max_health_offset,
                "player",
                &mut snap.diagnostics,
            );
            snap.player_current_health = u.current_health;
            snap.player_max_health = u.max_health;
            snap.player_race = u.race;
            snap.player_level = u.level;
            snap.player_faction = u.faction;
            read_target(memory, handle, layout, distance, object_manager, base, &mut snap);
        },
    }
    assert(read_word(
        *memory,
        handle,
        base.wrapping_add(layout.object_storage_ptr_offset),
        storage_word,
    ));
    snap
}

/// Reads a snapshot of the game through `handle`, where `memory(handle, address,
/// length)` reads the game's memory and `distance` measures between positions.
/// The pointer chain is followed on one path, and a link that cannot be read or
/// is zero fails the read at its address: the client connection, then the object
/// manager, then the active player pointer. From the player's object on, each
/// value is read at its configured place only; a value that cannot be read stays
/// unknown and the failure is noted in the diagnostics (see `snapshot_read`).
pub fn read_game_snapshot<
    M: Fn(usize, usize, usize) -> Option<Vec<u8>>,
    D: Fn((u32, u32, u32), (u32, u32, u32)) -> u32,
>(handle: usize, layout: &ClientLayout, memory: &M, distance: &D) -> (r: Result<
    MemorySnapshot,
    MemoryReaderError,
>)
    requires
        memory_ready(*memory),
        distance_ready(*distance),
    ensures
        snapshot_read(*memory, handle, *layout, *distance, r),
{
    let mut diagnostics: Vec<String> = Vec::new();
    let connection_word = read_u32(memory, handle, layout.client_connection_addr);
    let client_connection = match chain_link(connection_word, layout.client_connection_addr) {
        Ok(p) => p,
        Err(e) => {
            return Err(e);
        },
    };
    note(&mut diagnostics, line(vec![text("trace client_connection=0x"), hex8(client_connection)]));
    let manager_at = client_connection.wrapping_add(layout.object_manager_offset);
    let manager_word = read_u32(memory, handle, manager_at);
    assert(read_word(
        *memory,
        handle,
        client_connection.wrapping_add(layout.object_manager_offset),
        manager_word,
    ));
    let object_manager = match chain_link(manager_word, manager_at) {
        Ok(p) => p,
        Err(e) => {
            assert(manager_read(*memory, handle, *layout, *distance, client_connection, Err(e)));
            return Err(e);
        },
    };
    note(&mut diagnostics, line(vec![text("trace object_manager=0x"), hex8(object_manager)]));
    let player_at = object_manager.wrapping_add(layout.active_player_offset);
    let player_word = read_u32(memory, handle, player_at);
    assert(read_word(
        *memory,
        handle,
        object_manager.wrapping_add(layout.active_player_offset),
        player_word,
    ));
    let player_base = match chain_link(player_word, player_at) {
        Ok(p) => p,
        Err(e) => {
            assert(active_player_read(*memory, handle, *layout, *distance, object_manager, Err(e)));
            assert(manager_read(*memory, handle, *layout, *distance, client_connection, Err(e)));
            return Err(e);
        },
    };
    note(&mut diagnostics, line(vec![text("trace active_player_ptr=0x"), hex8(player_base)]));
    note(&mut diagnostics, line(vec![text("trace player_base=0x"), hex8(player_base)]));
    let snap = read_player(memory, handle, layout, distance, object_manager, player_base, diagnostics);
    let r = Ok(snap);
    assert(active_player_read(*memory, handle, *layout, *distance, object_manager, r));
    assert(manager_read(*memory, handle, *layout, *distance, client_connection, r));
    r
}

impl MemoryReader {
    /// Reads a snapshot of the game through the attached process's handle, as
    /// `read_game_snapshot` does; `NotAttached` when no process is attached.
    pub fn read_snapshot<
        M: Fn(usize, usize, usize) -> Option<Vec<u8>>,
        D: Fn((u32, u32, u32), (u32, u32, u32)) -> u32,
    >(&self, layout: &ClientLayout, memory: &M, distance: &D) -> (r: Result<
        MemorySnapshot,
        MemoryReaderError,
    >)
        requires
            memory_ready(*memory),
            distance_ready(*distance),
        ensures
            match (self@.handle, self@.pid) {
                (Some(h), Some(_)) => snapshot_read(*memory, h, *layout, *distance, r),
                _ => r == Err::<MemorySnapshot, MemoryReaderError>(MemoryReaderError::NotAttached),
            },
    {
        match self.snapshot_handle() {
            Ok(h) => read_game_snapshot(h, layout, memory, distance),
            Err(e) => Err(e),
        }
    }
}

} // verus!
