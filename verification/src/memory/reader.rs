use vstd::prelude::*;
use vstd::string::StringExecFns;
use vstd::utf8::{decode_utf8, is_scalar, valid_utf8};

use crate::format::{decimal, decimal_string, hex16_string, hex_padded};
use crate::text::{lower, push_char, same_text, to_lower, trim, trim_chars};

verus! {

#[derive(Debug, Clone, Copy, PartialEq, Eq, Structural)]
pub enum MemoryReaderError {
    NotAttached,
    InvalidPid,
    WowProcessNotFound,
    OpenProcessFailed(u32),
    ReadMemoryFailed(usize),
}

/// The text that an error displays.
pub open spec fn error_message(e: MemoryReaderError) -> Seq<char> {
    match e {
        MemoryReaderError::NotAttached => "process not attached"@,
        MemoryReaderError::InvalidPid => "invalid pid"@,
        MemoryReaderError::WowProcessNotFound => "could not find a running WoW process"@,
        MemoryReaderError::OpenProcessFailed(pid) => "failed to open process "@ + decimal(
            pid as nat,
        ),
        MemoryReaderError::ReadMemoryFailed(address) => "read process memory failed at 0x"@
            + hex_padded(address as nat, 16),
    }
}

impl MemoryReaderError {
    /// The text that the error displays.
    pub fn message(&self) -> (m: String)
        ensures
            m@ == error_message(*self),
    {
        match self {
            MemoryReaderError::NotAttached => String::from_str("process not attached"),
            MemoryReaderError::InvalidPid => String::from_str("invalid pid"),
            MemoryReaderError::WowProcessNotFound => String::from_str(
                "could not find a running WoW process",
            ),
            MemoryReaderError::OpenProcessFailed(pid) => {
                let mut m = String::from_str("failed to open process ");
                let d = decimal_string(*pid as u64);
                m.append(d.as_str());
                m
            },
            MemoryReaderError::ReadMemoryFailed(address) => {
                let mut m = String::from_str("read process memory failed at 0x");
                let h = hex16_string(*address as u64);
                m.append(h.as_str());
                m
            },
        }
    }
}

/// Whether an executable name is that of the game client, ignoring ASCII case.
pub open spec fn wow_process_name(name: Seq<char>) -> bool {
    to_lower(name) == "wow.exe"@ || to_lower(name) == "wow-64.exe"@
}

/// Whether a name is the game client's does not depend on the ASCII case of its
/// letters: lower-casing or upper-casing it first gives the same answer.
pub proof fn lemma_wow_process_name_ignores_case(name: Seq<char>)
    ensures
        wow_process_name(to_lower(name)) == wow_process_name(name),
        wow_process_name(crate::text::to_upper(name)) == wow_process_name(name),
{
    assert(to_lower(to_lower(name)) =~= to_lower(name));
    assert(to_lower(crate::text::to_upper(name)) =~= to_lower(name));
}

/// Whether `name` is `wow.exe` or `wow-64.exe`, ignoring ASCII case.
pub fn is_wow_process_name(name: &str) -> (b: bool)
    ensures
        b == wow_process_name(name@),
{
    let l = lower(name);
    same_text(l.as_str(), "wow.exe") || same_text(l.as_str(), "wow-64.exe")
}

pub open spec fn is_high_surrogate(u: u16) -> bool {
    0xD800 <= u <= 0xDBFF
}

pub open spec fn is_low_surrogate(u: u16) -> bool {
    0xDC00 <= u <= 0xDFFF
}

/// The code point that a surrogate pair stands for.
pub open spec fn surrogate_pair(high: u16, low: u16) -> u32 {
    (0x10000 + (high - 0xD800) * 0x400 + (low - 0xDC00)) as u32
}

/// UTF-16 decoding in which every unpaired surrogate becomes U+FFFD, as
/// `String::from_utf16_lossy` decodes.
pub open spec fn utf16_lossy(u: Seq<u16>) -> Seq<char>
    decreases u.len(),
{
    if u.len() == 0 {
        seq![]
    } else if is_high_surrogate(u[0]) && u.len() >= 2 && is_low_surrogate(u[1]) {
        seq![surrogate_pair(u[0], u[1]) as char] + utf16_lossy(u.skip(2))
    } else if is_high_surrogate(u[0]) || is_low_surrogate(u[0]) {
        seq!['\u{FFFD}'] + utf16_lossy(u.skip(1))
    } else {
        seq![(u[0] as u32) as char] + utf16_lossy(u.skip(1))
    }
}

/// The units of `u` before its first zero, or all of them.
pub open spec fn until_nul<T>(u: Seq<T>, zero: T) -> Seq<T>
    decreases u.len(),
{
    if u.len() == 0 || u[0] == zero {
        seq![]
    } else {
        seq![u[0]] + until_nul(u.skip(1), zero)
    }
}

/// UTF-16 text without surrogates decodes unit for unit.
pub proof fn lemma_utf16_without_surrogates(u: Seq<u16>)
    requires
        forall|i: int| 0 <= i < u.len() ==> !(0xD800 <= #[trigger] u[i] <= 0xDFFF),
    ensures
        utf16_lossy(u) =~= u.map_values(|w: u16| (w as u32) as char),
    decreases u.len(),
{
    if u.len() > 0 {
        lemma_utf16_without_surrogates(u.skip(1));
        assert(u.skip(1).map_values(|w: u16| (w as u32) as char) =~= u.map_values(
            |w: u16| (w as u32) as char,
        ).skip(1));
    }
}

/// `char::from_u32`: the char with code point `v`, which exists when `v` is a
/// Unicode scalar value.
#[verifier::external_body]
fn char_from_u32(v: u32) -> (r: Option<char>)
    ensures
        is_scalar(v) ==> r == Some(v as char),
        !is_scalar(v) ==> r is None,
{
    char::from_u32(v)
}

proof fn lemma_until_nul_prefix<T>(u: Seq<T>, zero: T, i: int)
    requires
        0 <= i <= u.len(),
        forall|k: int| 0 <= k < i ==> u[k] != zero,
        i == u.len() || u[i] == zero,
    ensures
        until_nul(u, zero) =~= u.subrange(0, i),
    decreases i,
{
    if i > 0 {
        lemma_until_nul_prefix(u.skip(1), zero, i - 1);
        assert(u.subrange(0, i) =~= seq![u[0]] + u.skip(1).subrange(0, i - 1));
    }
}

/// Decodes the UTF-16 units of `buffer` before its first zero unit, replacing
/// unpaired surrogates with U+FFFD.
pub fn utf16_to_string(buffer: &[u16]) -> (s: String)
    ensures
        s@ == utf16_lossy(until_nul(buffer@, 0u16)),
{
    let n = buffer.len();
    let mut end: usize = 0;
    while end < n && buffer[end] != 0
        invariant
            end <= n == buffer@.len(),
            forall|k: int| 0 <= k < end ==> buffer@[k] != 0u16,
        decreases n - end,
    {
        end = end + 1;
    }
    proof {
        lemma_until_nul_prefix(buffer@, 0u16, end as int);
    }
    let ghost units = buffer@.subrange(0, end as int);
    let mut s = String::new();
    let mut i: usize = 0;
    assert(units.skip(0) =~= units);
    while i < end
        invariant
            end <= n == buffer@.len(),
            i <= end,
            units == buffer@.subrange(0, end as int),
            s@ + utf16_lossy(units.skip(i as int)) == utf16_lossy(units),
        decreases end - i,
    {
        let u = buffer[i];
        let ghost rest = units.skip(i as int);
        assert(rest[0] == u);
        if 0xD800 <= u && u <= 0xDBFF && i + 1 < end && 0xDC00 <= buffer[i + 1] && buffer[i + 1]
            <= 0xDFFF {
            let lo = buffer[i + 1];
            assert(rest[1] == lo);
            let v: u32 = 0x10000 + ((u - 0xD800) as u32) * 0x400 + ((lo - 0xDC00) as u32);
            assert(v == surrogate_pair(u, lo));
            let c = char_from_u32(v);
            assert(rest.skip(2) =~= units.skip(i + 2));
            push_char(&mut s, c.unwrap());
            i = i + 2;
        } else if 0xD800 <= u && u <= 0xDFFF {
            assert(rest.skip(1) =~= units.skip(i + 1));
            push_char(&mut s, '\u{FFFD}');
            i = i + 1;
        } else {
            let c = char_from_u32(u as u32);
            assert(rest.skip(1) =~= units.skip(i + 1));
            push_char(&mut s, c.unwrap());
            i = i + 1;
        }
    }
    assert(units.skip(end as int) =~= Seq::<u16>::empty());
    s
}

/// What `String::from_utf8_lossy` decodes a byte sequence to.
pub uninterp spec fn utf8_lossy(bytes: Seq<u8>) -> Seq<char>;

/// `String::from_utf8_lossy`: decodes `bytes` as UTF-8, putting U+FFFD in place of
/// invalid sequences; a valid encoding decodes to exactly the chars it encodes, so
/// the NUL char, whose only encoding is the zero byte, comes out only where a zero
/// byte went in. Which replacement chars an invalid input gives is left unsaid.
#[verifier::external_body]
fn decode_utf8_lossy(bytes: &[u8]) -> (s: String)
    ensures
        s@ == utf8_lossy(bytes@),
        valid_utf8(bytes@) ==> s@ == decode_utf8(bytes@),
        !bytes@.contains(0u8) ==> !s@.contains('\0'),
{
    String::from_utf8_lossy(bytes).into_owned()
}

/// The text of a zero-terminated byte string: the bytes before the first zero,
/// decoded leniently as UTF-8, without leading and trailing whitespace.
pub fn c_string(bytes: &[u8]) -> (s: String)
    ensures
        s@ == trim(utf8_lossy(until_nul(bytes@, 0u8))),
        !s@.contains('\0'),
{
    let mut prefix: Vec<u8> = Vec::new();
    let mut end: usize = 0;
    while end < bytes.len() && bytes[end] != 0
        invariant
            end <= bytes@.len(),
            prefix@ == bytes@.subrange(0, end as int),
            forall|k: int| 0 <= k < end ==> bytes@[k] != 0u8,
        decreases bytes.len() - end,
    {
        prefix.push(bytes[end]);
        end = end + 1;
    }
    proof {
        lemma_until_nul_prefix(bytes@, 0u8, end as int);
    }
    assert(!prefix@.contains(0u8)) by {
        if prefix@.contains(0u8) {
            let k = choose|k: int| 0 <= k < prefix@.len() && prefix@[k] == 0u8;
            assert(bytes@[k] != 0u8);
        }
    }
    let decoded = decode_utf8_lossy(prefix.as_slice());
    let t = trim_chars(decoded.as_str());
    proof {
        crate::text::lemma_trim_keeps_chars(decoded@, '\0');
    }
    let mut s = String::new();
    let mut i: usize = 0;
    while i < t.len()
        invariant
            i <= t.len(),
            s@ == t@.subrange(0, i as int),
        decreases t.len() - i,
    {
        push_char(&mut s, t[i]);
        i = i + 1;
    }
    assert(t@.subrange(0, t.len() as int) =~= t@);
    s
}

/// One entry of the system's process list: its id and its executable name as
/// the raw, zero-terminated UTF-16 buffer.
#[derive(Debug)]
pub struct ProcessEntry {
    pub pid: u32,
    pub exe_file: Vec<u16>,
}

/// Whether a process-list entry names the game client.
pub open spec fn is_wow_entry(e: ProcessEntry) -> bool {
    wow_process_name(utf16_lossy(until_nul(e.exe_file@, 0u16)))
}

/// The id of the first entry of `entries` that names the game client.
pub open spec fn wow_pid(entries: Seq<ProcessEntry>) -> Option<u32>
    decreases entries.len(),
{
    if entries.len() == 0 {
        None
    } else if is_wow_entry(entries[0]) {
        Some(entries[0].pid)
    } else {
        wow_pid(entries.skip(1))
    }
}

/// The id of the first entry that names the game client, or `WowProcessNotFound`.
pub fn select_wow_pid(entries: &Vec<ProcessEntry>) -> (r: Result<u32, MemoryReaderError>)
    ensures
        r == match wow_pid(entries@) {
            Some(pid) => Ok::<u32, MemoryReaderError>(pid),
            None => Err(MemoryReaderError::WowProcessNotFound),
        },
{
    let mut i: usize = 0;
    assert(entries@.skip(0) =~= entries@);
    while i < entries.len()
        invariant
            i <= entries@.len(),
            wow_pid(entries@) == wow_pid(entries@.skip(i as int)),
        decreases entries.len() - i,
    {
        let ghost rest = entries@.skip(i as int);
        assert(rest[0] == entries@[i as int]);
        let name = utf16_to_string(entries[i].exe_file.as_slice());
        if is_wow_process_name(name.as_str()) {
            assert(is_wow_entry(entries@[i as int]));
            return Ok(entries[i].pid);
        }
        assert(rest.skip(1) =~= entries@.skip(i + 1));
        i = i + 1;
    }
    assert(entries@.skip(i as int) =~= Seq::<ProcessEntry>::empty());
    Err(MemoryReaderError::WowProcessNotFound)
}

/// How an attachment to `pid` ended, given what opening the process gave: the
/// handle, attached with the pid; or `None`, detached with `OpenProcessFailed`.
pub open spec fn opened_as(
    pid: u32,
    opened: Option<usize>,
    r: Result<(), MemoryReaderError>,
    after: ReaderView,
) -> bool {
    match opened {
        None => r == Err::<(), MemoryReaderError>(MemoryReaderError::OpenProcessFailed(pid))
            && after.pid is None && after.handle is None,
        Some(h) => r is Ok && after.pid == Some(pid) && after.handle == Some(h),
    }
}

/// What a `MemoryReader` holds: the attached process id and the handle opened on it.
pub struct ReaderView {
    pub pid: Option<u32>,
    pub handle: Option<usize>,
}

/// The attachment to a game process. The handle is the operating system's,
/// held as an integer; opening and closing it is left to the caller.
#[derive(Debug)]
pub struct MemoryReader {
    attached_pid: Option<u32>,
    process_handle: Option<usize>,
}

impl View for MemoryReader {
    type V = ReaderView;

    closed spec fn view(&self) -> ReaderView {
        ReaderView { pid: self.attached_pid, handle: self.process_handle }
    }
}

impl Default for MemoryReader {
    fn default() -> (r: Self)
        ensures
            r@.pid is None && r@.handle is None,
    {
        Self::new()
    }
}

impl MemoryReader {
    /// A reader attached to nothing.
    pub fn new() -> (r: Self)
        ensures
            r@.pid is None && r@.handle is None,
    {
        MemoryReader { attached_pid: None, process_handle: None }
    }

    /// Whether a process id and a handle are both held.
    pub fn is_attached(&self) -> (b: bool)
        ensures
            b == (self@.pid is Some && self@.handle is Some),
    {
        self.attached_pid.is_some() && self.process_handle.is_some()
    }

    /// Drops the attachment; `close` closes its handle, if there was one.
    pub fn detach<C: FnOnce(usize)>(&mut self, close: C)
        requires
            forall|h: usize| call_requires(close, (h,)),
        ensures
            final(self)@.pid is None && final(self)@.handle is None,
            old(self)@.handle matches Some(h) ==> call_ensures(close, (h,), ()),
    {
        if let Some(h) = self.process_handle {
            close(h);
        }
        self.process_handle = None;
        self.attached_pid = None;
    }

    /// Attaches to process `pid`. A zero pid is refused with the reader unchanged.
    /// Otherwise the reader drops its attachment (`close` closes the old handle, if
    /// any) and `open` opens the process: its handle, or `None` when the system
    /// refused, which leaves the reader detached with `OpenProcessFailed(pid)`.
    pub fn attach<C: FnOnce(usize), O: FnOnce(u32) -> Option<usize>>(
        &mut self,
        pid: u32,
        close: C,
        open: O,
    ) -> (r: Result<(), MemoryReaderError>)
        requires
            forall|h: usize| call_requires(close, (h,)),
            call_requires(open, (pid,)),
        ensures
            pid == 0 ==> r == Err::<(), MemoryReaderError>(MemoryReaderError::InvalidPid)
                && final(self)@ == old(self)@,
            pid != 0 ==> (old(self)@.handle matches Some(h) ==> call_ensures(close, (h,), ())),
            pid != 0 ==> exists|opened: Option<usize>|
                #[trigger] call_ensures(open, (pid,), opened) && opened_as(
                    pid,
                    opened,
                    r,
                    final(self)@,
                ),
    {
        if pid == 0 {
            return Err(MemoryReaderError::InvalidPid);
        }
        self.detach(close);
        let opened = open(pid);
        match opened {
            None => Err(MemoryReaderError::OpenProcessFailed(pid)),
            Some(h) => {
                self.process_handle = Some(h);
                self.attached_pid = Some(pid);
                Ok(())
            },
        }
    }

    /// The id of the first running game client in the process list that `list`
    /// gives, or `WowProcessNotFound`.
    pub fn find_wow_pid<L: FnOnce() -> Vec<ProcessEntry>>(list: L) -> (r: Result<u32, MemoryReaderError>)
        requires
            call_requires(list, ()),
        ensures
            exists|entries: Vec<ProcessEntry>|
                #[trigger] call_ensures(list, (), entries) && r == match wow_pid(entries@) {
                    Some(pid) => Ok::<u32, MemoryReaderError>(pid),
                    None => Err(MemoryReaderError::WowProcessNotFound),
                },
    {
        let entries = list();
        select_wow_pid(&entries)
    }

    /// Attaches to the first running game client, as `find_wow_pid` finds it and
    /// `attach` attaches; the pid attached to on success.
    pub fn attach_wow<
        L: FnOnce() -> Vec<ProcessEntry>,
        C: FnOnce(usize),
        O: FnOnce(u32) -> Option<usize>,
    >(&mut self, list: L, close: C, open: O) -> (r: Result<u32, MemoryReaderError>)
        requires
            call_requires(list, ()),
            forall|h: usize| call_requires(close, (h,)),
            forall|pid: u32| call_requires(open, (pid,)),
        ensures
            exists|entries: Vec<ProcessEntry>|
                #[trigger] call_ensures(list, (), entries) && match wow_pid(entries@) {
                    None => r == Err::<u32, MemoryReaderError>(MemoryReaderError::WowProcessNotFound)
                        && final(self)@ == old(self)@,
                    Some(pid) => if pid == 0 {
                        r == Err::<u32, MemoryReaderError>(MemoryReaderError::InvalidPid)
                            && final(self)@ == old(self)@
                    } else {
                        (old(self)@.handle matches Some(h) ==> call_ensures(close, (h,), ())) &&
                        exists|opened: Option<usize>|
                            #[trigger] call_ensures(open, (pid,), opened) && match opened {
                                None => r == Err::<u32, MemoryReaderError>(
                                    MemoryReaderError::OpenProcessFailed(pid),
                                ) && final(self)@.pid is None && final(self)@.handle is None,
                                Some(h) => r == Ok::<u32, MemoryReaderError>(pid)
                                    && final(self)@.pid == Some(pid)
                                    && final(self)@.handle == Some(h),
                            }
                    },
                },
    {
        let pid = match Self::find_wow_pid(list) {
            Ok(p) => p,
            Err(e) => {
                return Err(e);
            },
        };
        match self.attach(pid, close, open) {
            Ok(()) => Ok(pid),
            Err(e) => Err(e),
        }
    }

    /// The handle that a snapshot is read through, or `NotAttached`.
    pub fn snapshot_handle(&self) -> (r: Result<usize, MemoryReaderError>)
        ensures
            match (self@.handle, self@.pid) {
                (Some(h), Some(_)) => r == Ok::<usize, MemoryReaderError>(h),
                _ => r == Err::<usize, MemoryReaderError>(MemoryReaderError::NotAttached),
            },
    {
        let handle = match self.process_handle {
            Some(h) => h,
            None => return Err(MemoryReaderError::NotAttached),
        };
        if self.attached_pid.is_none() {
            return Err(MemoryReaderError::NotAttached);
        }
        Ok(handle)
    }
}

} // verus!
