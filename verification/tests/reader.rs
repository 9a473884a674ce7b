use glider_rust::memory::reader::{
    c_string, is_wow_process_name, select_wow_pid, utf16_to_string, ProcessEntry,
};
use glider_rust::memory::{MemoryReader, MemoryReaderError};

#[test]
fn detects_wow_process_names_case_insensitive() {
    assert!(is_wow_process_name("WoW.exe"));
    assert!(is_wow_process_name("wow.exe"));
    assert!(is_wow_process_name("wow-64.exe"));
    assert!(!is_wow_process_name("notepad.exe"));
}

#[test]
fn process_name_must_match_exactly() {
    assert!(is_wow_process_name("WOW-64.EXE"));
    assert!(!is_wow_process_name(" wow.exe"));
    assert!(!is_wow_process_name("wow.exe.bak"));
    assert!(!is_wow_process_name(""));
}

fn units(s: &str) -> Vec<u16> {
    s.encode_utf16().collect()
}

#[test]
fn utf16_stops_at_the_first_zero() {
    let mut buffer = units("Wow.exe");
    buffer.push(0);
    buffer.extend(units("garbage"));
    assert_eq!(utf16_to_string(&buffer), "Wow.exe");
    assert_eq!(utf16_to_string(&units("no terminator")), "no terminator");
    assert_eq!(utf16_to_string(&[0, 65]), "");
}

#[test]
fn utf16_decodes_pairs_and_replaces_lone_surrogates() {
    let mut buffer = units("a\u{1F600}b");
    assert_eq!(utf16_to_string(&buffer), "a\u{1F600}b");
    buffer = vec![0x61, 0xD800, 0x62, 0xDC00, 0x63];
    assert_eq!(utf16_to_string(&buffer), "a\u{FFFD}b\u{FFFD}c");
    assert_eq!(
        utf16_to_string(&buffer),
        String::from_utf16_lossy(&buffer)
    );
    // A high surrogate at the very end has no partner.
    assert_eq!(utf16_to_string(&[0x41, 0xD83D]), "A\u{FFFD}");
}

#[test]
fn c_string_stops_at_zero_decodes_leniently_and_trims() {
    assert_eq!(c_string(b"  Thrall \0junk"), "Thrall");
    assert_eq!(c_string(b"Jaina"), "Jaina");
    assert_eq!(c_string(b"\0Jaina"), "");
    assert_eq!(c_string(&[0x41, 0xFF, 0x42, 0]), "A\u{FFFD}B");
    assert_eq!(c_string("Ébène".as_bytes()), "Ébène");
}

fn entry(pid: u32, name: &str) -> ProcessEntry {
    let mut exe_file = units(name);
    exe_file.push(0);
    exe_file.extend([0u16; 8]);
    ProcessEntry { pid, exe_file }
}

#[test]
fn the_first_game_process_is_chosen() {
    let entries = vec![
        entry(4, "System"),
        entry(812, "notepad.exe"),
        entry(1337, "Wow.exe"),
        entry(2001, "wow-64.exe"),
    ];
    assert_eq!(select_wow_pid(&entries), Ok(1337));
    assert_eq!(
        select_wow_pid(&vec![entry(4, "System")]),
        Err(MemoryReaderError::WowProcessNotFound)
    );
    assert_eq!(select_wow_pid(&Vec::new()), Err(MemoryReaderError::WowProcessNotFound));
}

#[test]
fn reader_error_messages() {
    assert_eq!(MemoryReaderError::NotAttached.message(), "process not attached");
    assert_eq!(MemoryReaderError::InvalidPid.message(), "invalid pid");
    assert_eq!(
        MemoryReaderError::WowProcessNotFound.message(),
        "could not find a running WoW process"
    );
    assert_eq!(
        MemoryReaderError::OpenProcessFailed(4321).message(),
        "failed to open process 4321"
    );
    assert_eq!(
        MemoryReaderError::ReadMemoryFailed(0xC79CE0).message(),
        "read process memory failed at 0x0000000000C79CE0"
    );
}

#[test]
fn attaching_closes_the_old_handle_and_records_the_new_one() {
    let mut reader = MemoryReader::new();
    assert!(!reader.is_attached());
    assert_eq!(reader.snapshot_handle(), Err(MemoryReaderError::NotAttached));

    assert_eq!(
        reader.attach(0, |_| panic!("nothing to close"), |_| panic!("not opened")),
        Err(MemoryReaderError::InvalidPid)
    );
    assert_eq!(
        reader.attach(77, |_| {}, |_| None),
        Err(MemoryReaderError::OpenProcessFailed(77))
    );
    assert!(!reader.is_attached());

    assert_eq!(reader.attach(77, |_| {}, |pid| Some(pid as usize * 2)), Ok(()));
    assert!(reader.is_attached());
    assert_eq!(reader.snapshot_handle(), Ok(154));

    let mut closed = Vec::new();
    assert_eq!(reader.attach(78, |h| closed.push(h), |_| Some(0x55)), Ok(()));
    assert_eq!(closed, vec![154]);
    reader.detach(|h| closed.push(h));
    assert_eq!(closed, vec![154, 0x55]);
    assert!(!reader.is_attached());
    reader.detach(|_| panic!("nothing left to close"));
}

#[test]
fn finding_and_attaching_to_the_game() {
    assert_eq!(
        MemoryReader::find_wow_pid(|| vec![entry(1, "explorer.exe"), entry(31, "wow.EXE")]),
        Ok(31)
    );
    let mut reader = MemoryReader::new();
    assert_eq!(
        reader.attach_wow(|| vec![entry(1, "explorer.exe")], |_| {}, |_| Some(1)),
        Err(MemoryReaderError::WowProcessNotFound)
    );
    assert_eq!(
        reader.attach_wow(|| vec![entry(0, "Wow.exe")], |_| {}, |_| Some(1)),
        Err(MemoryReaderError::InvalidPid)
    );
    assert_eq!(
        reader.attach_wow(|| vec![entry(31, "Wow.exe")], |_| {}, |_| Some(9)),
        Ok(31)
    );
    assert_eq!(reader.snapshot_handle(), Ok(9));
}
