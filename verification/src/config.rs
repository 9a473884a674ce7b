use vstd::prelude::*;
use vstd::string::StringExecFns;

use crate::text::{
    is_ascii_alphanumeric, utf8_len, width_of, same_text, to_lower, to_upper, trim, trim_lower, trim_upper,
};

verus! {

/// Longest key binding accepted, in UTF-8 bytes.
pub const MAX_BINDING_BYTES: usize = 24;

/// The names of the bindable actions, in the order of `KeybindView::actions`.
pub open spec fn action_names() -> Seq<Seq<char>> {
    seq![
        "move_forward"@,
        "move_backward"@,
        "strafe_left"@,
        "strafe_right"@,
        "ascend"@,
        "descend"@,
        "turn_left"@,
        "turn_right"@,
        "interact"@,
        "assist_target"@,
    ]
}

/// The slot that an action name addresses, if the name is one of `action_names`.
pub open spec fn action_slot(name: Seq<char>) -> Option<int> {
    if name == "move_forward"@ {
        Some(0)
    } else if name == "move_backward"@ {
        Some(1)
    } else if name == "strafe_left"@ {
        Some(2)
    } else if name == "strafe_right"@ {
        Some(3)
    } else if name == "ascend"@ {
        Some(4)
    } else if name == "descend"@ {
        Some(5)
    } else if name == "turn_left"@ {
        Some(6)
    } else if name == "turn_right"@ {
        Some(7)
    } else if name == "interact"@ {
        Some(8)
    } else if name == "assist_target"@ {
        Some(9)
    } else {
        None
    }
}

/// Each action name addresses the binding of that name: the names are listed in
/// the order of the view's bindings, each name addresses its own position, and the
/// binding at the position a name addresses is the configuration's field of that
/// name. So binding an action (see `KeybindConfig::set_binding`) changes the field
/// the action is named after, and no other.
pub proof fn lemma_action_names_address_their_fields(c: KeybindConfig)
    ensures
        action_names().len() == 10,
        forall|i: int| 0 <= i < 10 ==> #[trigger] action_slot(action_names()[i]) == Some(i),
        forall|i: int, j: int|
            0 <= i < j < 10 ==> #[trigger] action_names()[i] != #[trigger] action_names()[j],
        c@.actions[action_slot("move_forward"@)->0] == c.move_forward@,
        c@.actions[action_slot("move_backward"@)->0] == c.move_backward@,
        c@.actions[action_slot("strafe_left"@)->0] == c.strafe_left@,
        c@.actions[action_slot("strafe_right"@)->0] == c.strafe_right@,
        c@.actions[action_slot("ascend"@)->0] == c.ascend@,
        c@.actions[action_slot("descend"@)->0] == c.descend@,
        c@.actions[action_slot("turn_left"@)->0] == c.turn_left@,
        c@.actions[action_slot("turn_right"@)->0] == c.turn_right@,
        c@.actions[action_slot("interact"@)->0] == c.interact@,
        c@.actions[action_slot("assist_target"@)->0] == c.assist_target@,
{
    reveal_strlit("move_forward");
    reveal_strlit("move_backward");
    reveal_strlit("strafe_left");
    reveal_strlit("strafe_right");
    reveal_strlit("ascend");
    reveal_strlit("descend");
    reveal_strlit("turn_left");
    reveal_strlit("turn_right");
    reveal_strlit("interact");
    reveal_strlit("assist_target");
    assert("move_forward"@.len() == 12 && "move_forward"@[0] == 'm');
    assert("move_backward"@.len() == 13 && "move_backward"@[0] == 'm');
    assert("strafe_left"@.len() == 11 && "strafe_left"@[0] == 's');
    assert("strafe_right"@.len() == 12 && "strafe_right"@[0] == 's');
    assert("ascend"@.len() == 6 && "ascend"@[0] == 'a');
    assert("descend"@.len() == 7 && "descend"@[0] == 'd');
    assert("turn_left"@.len() == 9 && "turn_left"@[0] == 't');
    assert("turn_right"@.len() == 10 && "turn_right"@[0] == 't');
    assert("interact"@.len() == 8 && "interact"@[0] == 'i');
    assert("assist_target"@.len() == 13 && "assist_target"@[0] == 'a');
    assert(action_slot(action_names()[0]) == Some(0int));
    assert(action_slot(action_names()[1]) == Some(1int));
    assert(action_slot(action_names()[2]) == Some(2int));
    assert(action_slot(action_names()[3]) == Some(3int));
    assert(action_slot(action_names()[4]) == Some(4int));
    assert(action_slot(action_names()[5]) == Some(5int));
    assert(action_slot(action_names()[6]) == Some(6int));
    assert(action_slot(action_names()[7]) == Some(7int));
    assert(action_slot(action_names()[8]) == Some(8int));
    assert(action_slot(action_names()[9]) == Some(9int));
    assert forall|i: int| 0 <= i < 10 implies #[trigger] action_slot(action_names()[i]) == Some(i) by {
        if i == 0 {} else if i == 1 {} else if i == 2 {} else if i == 3 {} else if i == 4 {} else if i == 5 {} else if i == 6 {} else if i == 7 {} else if i == 8 {} else {}
    }
    assert forall|i: int, j: int|
        0 <= i < j < 10 implies #[trigger] action_names()[i] != #[trigger] action_names()[j] by {
        assert(action_slot(action_names()[i]) == Some(i));
        assert(action_slot(action_names()[j]) == Some(j));
    }
}

pub open spec fn key_char(c: char) -> bool {
    is_ascii_alphanumeric(c) || c == '_'
}

pub open spec fn empty_key_message() -> Seq<char> {
    "Key binding cannot be empty"@
}

pub open spec fn long_key_message() -> Seq<char> {
    "Key binding is too long"@
}

pub open spec fn key_charset_message() -> Seq<char> {
    "Key binding can only contain letters, numbers, or '_'"@
}

pub open spec fn slot_range_message() -> Seq<char> {
    "Rotation slot must be in range 1..=9"@
}

pub open spec fn unknown_action_message(action: Seq<char>) -> Seq<char> {
    "Unknown keybind action '"@ + action
        + "'. Expected movement, turn, interact, or assist action name"@
}

/// What a key binding normalises to: trimmed and upper-cased, then checked to be
/// non-empty, at most 24 UTF-8 bytes long and made of ASCII letters, digits and '_'.
/// The error is the message of the first check that fails.
pub open spec fn normalized_key(key: Seq<char>) -> Result<Seq<char>, Seq<char>> {
    let n = to_upper(trim(key));
    if n.len() == 0 {
        Err(empty_key_message())
    } else if utf8_len(n) > MAX_BINDING_BYTES {
        Err(long_key_message())
    } else if !(forall|i: int| 0 <= i < n.len() ==> key_char(#[trigger] n[i])) {
        Err(key_charset_message())
    } else {
        Ok(n)
    }
}

proof fn lemma_key_chars_stay(n: Seq<char>)
    requires
        n.len() > 0,
        forall|i: int| 0 <= i < n.len() ==> key_char(#[trigger] n[i]),
    ensures
        trim(n) == n,
        to_upper(n) == n || exists|i: int| 0 <= i < n.len() && crate::text::is_ascii_lower(n[i]),
{
    assert(!crate::text::is_space(n[0]));
    assert(!crate::text::is_space(n.last()));
    assert(crate::text::trim_start(n) == n);
    assert(crate::text::trim_end(n) == n);
    if forall|i: int| 0 <= i < n.len() ==> !crate::text::is_ascii_lower(#[trigger] n[i]) {
        assert(to_upper(n) =~= n);
    }
}

/// Normalising a key binding twice changes nothing: a normalised key normalises to
/// itself.
pub proof fn lemma_normalized_key_idempotent(key: Seq<char>)
    requires
        normalized_key(key) is Ok,
    ensures
        normalized_key(normalized_key(key)->Ok_0) == normalized_key(key),
{
    let n = to_upper(trim(key));
    assert forall|i: int| 0 <= i < n.len() implies !crate::text::is_ascii_lower(#[trigger] n[i]) by {
        let c = trim(key)[i];
        assert(n[i] == crate::text::upper_char(c));
        vstd::utf8::char_u32_cast(c, c as u32);
    }
    lemma_key_chars_stay(n);
    assert(to_upper(trim(n)) == n);
}

/// The action name as `set_binding` compares it: trimmed and lower-cased.
pub open spec fn action_key(action: Seq<char>) -> Seq<char> {
    to_lower(trim(action))
}

/// The contents of a `KeybindConfig`: the ten action bindings in the order of
/// `action_names`, and the nine rotation slots.
pub struct KeybindView {
    pub actions: Seq<Seq<char>>,
    pub slots: Seq<Seq<char>>,
}

#[derive(Debug)]
pub struct KeybindConfig {
    pub move_forward: String,
    pub move_backward: String,
    pub strafe_left: String,
    pub strafe_right: String,
    pub ascend: String,
    pub descend: String,
    pub turn_left: String,
    pub turn_right: String,
    pub interact: String,
    pub assist_target: String,
    pub rotation_slots: [String; 9],
}

impl View for KeybindConfig {
    type V = KeybindView;

    open spec fn view(&self) -> KeybindView {
        KeybindView {
            actions: seq![
                self.move_forward@,
                self.move_backward@,
                self.strafe_left@,
                self.strafe_right@,
                self.ascend@,
                self.descend@,
                self.turn_left@,
                self.turn_right@,
                self.interact@,
                self.assist_target@,
            ],
            slots: self.rotation_slots@.map_values(|s: String| s@),
        }
    }
}

/// The bindings a fresh configuration starts with.
pub open spec fn default_keybinds() -> KeybindView {
    KeybindView {
        actions: seq![
            "W"@,
            "S"@,
            "A"@,
            "D"@,
            "E"@,
            "Q"@,
            "MOUSE_LEFT"@,
            "MOUSE_RIGHT"@,
            "F"@,
            "T"@,
        ],
        slots: seq!["1"@, "2"@, "3"@, "4"@, "5"@, "6"@, "7"@, "8"@, "9"@],
    }
}

impl Clone for KeybindConfig {
    fn clone(&self) -> (r: Self)
        ensures
            r@ == self@,
    {
        let r = KeybindConfig {
            move_forward: self.move_forward.clone(),
            move_backward: self.move_backward.clone(),
            strafe_left: self.strafe_left.clone(),
            strafe_right: self.strafe_right.clone(),
            ascend: self.ascend.clone(),
            descend: self.descend.clone(),
            turn_left: self.turn_left.clone(),
            turn_right: self.turn_right.clone(),
            interact: self.interact.clone(),
            assist_target: self.assist_target.clone(),
            rotation_slots: [
                self.rotation_slots[0].clone(),
                self.rotation_slots[1].clone(),
                self.rotation_slots[2].clone(),
                self.rotation_slots[3].clone(),
                self.rotation_slots[4].clone(),
                self.rotation_slots[5].clone(),
                self.rotation_slots[6].clone(),
                self.rotation_slots[7].clone(),
                self.rotation_slots[8].clone(),
            ],
        };
        assert(r@.actions =~= self@.actions);
        assert(r@.slots =~= self@.slots);
        r
    }
}

/// A string holding the chars of `s`.
fn text(s: &str) -> (r: String)
    ensures
        r@ == s@,
{
    String::from_str(s)
}

impl Default for KeybindConfig {
    fn default() -> (r: Self)
        ensures
            r@ == default_keybinds(),
    {
        let r = KeybindConfig {
            move_forward: text("W"),
            move_backward: text("S"),
            strafe_left: text("A"),
            strafe_right: text("D"),
            ascend: text("E"),
            descend: text("Q"),
            turn_left: text("MOUSE_LEFT"),
            turn_right: text("MOUSE_RIGHT"),
            interact: text("F"),
            assist_target: text("T"),
            rotation_slots: [
                text("1"),
                text("2"),
                text("3"),
                text("4"),
                text("5"),
                text("6"),
                text("7"),
                text("8"),
                text("9"),
            ],
        };
        assert(r@.actions =~= default_keybinds().actions);
        assert(r@.slots =~= default_keybinds().slots);
        r
    }
}

/// Normalises a key binding: trims it, upper-cases its ASCII letters, and checks
/// that it is non-empty, at most 24 bytes long and made of letters, digits and '_'.
pub fn normalize_binding_key(key: &str) -> (r: Result<String, String>)
    ensures
        match normalized_key(key@) {
            Ok(n) => r matches Ok(s) && s@ == n,
            Err(m) => r matches Err(e) && e@ == m,
        },
{
    let normalized = trim_upper(key);
    if normalized.as_str().is_empty() {
        return Err(text("Key binding cannot be empty"));
    }
    let cs = crate::text::chars_of(normalized.as_str());
    let mut bytes: usize = 0;
    let mut j: usize = 0;
    while j < cs.len()
        invariant
            cs@ == normalized@,
            normalized@ == to_upper(trim(key@)),
            normalized@.len() != 0,
            j <= cs.len(),
            bytes == utf8_len(cs@.subrange(0, j as int)),
            bytes <= MAX_BINDING_BYTES,
        decreases cs.len() - j,
    {
        assert(cs@.subrange(0, j + 1).drop_last() =~= cs@.subrange(0, j as int));
        bytes = bytes + width_of(cs[j]);
        if bytes > MAX_BINDING_BYTES {
            proof {
                crate::text::lemma_utf8_len_prefix(cs@, j + 1);
            }
            return Err(text("Key binding is too long"));
        }
        j = j + 1;
    }
    assert(cs@.subrange(0, cs.len() as int) =~= cs@);
    let mut i: usize = 0;
    while i < cs.len()
        invariant
            cs@ == normalized@,
            normalized@ == to_upper(trim(key@)),
            normalized@.len() != 0,
            utf8_len(normalized@) <= MAX_BINDING_BYTES,
            i <= cs.len(),
            forall|k: int| 0 <= k < i ==> key_char(#[trigger] cs@[k]),
        decreases cs.len() - i,
    {
        let c = cs[i];
        let ok = ('a' <= c && c <= 'z') || ('A' <= c && c <= 'Z') || ('0' <= c && c <= '9') || c
            == '_';
        if !ok {
            assert(!key_char(cs@[i as int]));
            return Err(text("Key binding can only contain letters, numbers, or '_'"));
        }
        i = i + 1;
    }
    Ok(normalized)
}

impl KeybindConfig {
    /// Binds `action` (matched after trimming and lower-casing) to the normalised `key`.
    /// The key is checked first; an invalid key or an unknown action leaves the
    /// configuration unchanged and returns the error message.
    pub fn set_binding(&mut self, action: &str, key: &str) -> (r: Result<(), String>)
        ensures
            match normalized_key(key@) {
                Err(m) => r matches Err(e) && e@ == m && final(self)@ == old(self)@,
                Ok(k) => match action_slot(action_key(action@)) {
                    Some(i) => r is Ok && final(self)@.actions == old(self)@.actions.update(i, k)
                        && final(self)@.slots == old(self)@.slots,
                    None => r matches Err(e) && e@ == unknown_action_message(action_key(action@))
                        && final(self)@ == old(self)@,
                },
            },
    {
        let action = trim_lower(action);
        let key = match normalize_binding_key(key) {
            Ok(k) => k,
            Err(e) => return Err(e),
        };
        let a = action.as_str();
        let ghost k = key@;
        let ghost before = self@;
        if same_text(a, "move_forward") {
            self.move_forward = key;
        } else if same_text(a, "move_backward") {
            self.move_backward = key;
        } else if same_text(a, "strafe_left") {
            self.strafe_left = key;
        } else if same_text(a, "strafe_right") {
            self.strafe_right = key;
        } else if same_text(a, "ascend") {
            self.ascend = key;
        } else if same_text(a, "descend") {
            self.descend = key;
        } else if same_text(a, "turn_left") {
            self.turn_left = key;
        } else if same_text(a, "turn_right") {
            self.turn_right = key;
        } else if same_text(a, "interact") {
            self.interact = key;
        } else if same_text(a, "assist_target") {
            self.assist_target = key;
        } else {
            let mut msg = text("Unknown keybind action '");
            msg.append(a);
            msg.append("'. Expected movement, turn, interact, or assist action name");
            return Err(msg);
        }
        assert(self@.actions =~= before.actions.update(action_slot(action@).unwrap(), k));
        assert(self@.slots =~= before.slots);
        Ok(())
    }

    /// Binds rotation slot `slot` (1 to 9) to the normalised `key`. A slot out of
    /// range is refused before the key is looked at; any error leaves the
    /// configuration unchanged.
    pub fn set_rotation_slot(&mut self, slot: u8, key: &str) -> (r: Result<(), String>)
        ensures
            !(1 <= slot <= 9) ==> (r matches Err(e) && e@ == slot_range_message() && final(self)@
                == old(self)@),
            1 <= slot <= 9 ==> match normalized_key(key@) {
                Err(m) => r matches Err(e) && e@ == m && final(self)@ == old(self)@,
                Ok(k) => r is Ok && final(self)@.actions == old(self)@.actions && final(self)@.slots
                    == old(self)@.slots.update(slot - 1, k),
            },
    {
        if !(1 <= slot && slot <= 9) {
            return Err(text("Rotation slot must be in range 1..=9"));
        }
        let key = match normalize_binding_key(key) {
            Ok(k) => k,
            Err(e) => return Err(e),
        };
        let ghost before = self@;
        let ghost k = key@;
        let idx = (slot - 1) as usize;
        self.rotation_slots[idx] = key;
        assert(self@.slots =~= before.slots.update(slot - 1, k));
        assert(self@.actions =~= before.actions);
        Ok(())
    }
}

#[derive(Debug)]
pub struct AppConfig {
    pub telemetry_enabled: bool,
    pub memory_poll_ms: u64,
    pub keybinds: KeybindConfig,
}

impl Clone for AppConfig {
    fn clone(&self) -> (r: Self)
        ensures
            r.telemetry_enabled == self.telemetry_enabled,
            r.memory_poll_ms == self.memory_poll_ms,
            r.keybinds@ == self.keybinds@,
    {
        AppConfig {
            telemetry_enabled: self.telemetry_enabled,
            memory_poll_ms: self.memory_poll_ms,
            keybinds: self.keybinds.clone(),
        }
    }
}

impl Default for AppConfig {
    fn default() -> (r: Self)
        ensures
            r.telemetry_enabled,
            r.memory_poll_ms == 2500,
            r.keybinds@ == default_keybinds(),
    {
        AppConfig { telemetry_enabled: true, memory_poll_ms: 2500, keybinds: KeybindConfig::default() }
    }
}

} // verus!
