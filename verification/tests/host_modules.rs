use wasm_host::host::fs::{FsModule, BAD_DATA, BAD_PATH, FS_FAILED};
use wasm_host::host::io::{IoModule, LINE_CANCELLED};
use wasm_host::host::proc::ProcModule;
use wasm_host::host::screen::{CellWrite, Position, ScreenCell, ScreenModule, BAD_STRING, NO_CELL};
use wasm_host::host::time::{DateTime, TimeModule};
use wasm_host::host::{Exit, HostModule, WaitKey, WaitYield};
use wasm_host::state::HostState;

fn state(args: &[&str]) -> HostState {
    HostState::new(args.iter().map(|s| s.to_string()).collect())
}

#[test]
fn namespaces() {
    assert_eq!(FsModule.namespace(), "os::fs");
    assert_eq!(IoModule.namespace(), "os::io");
    assert_eq!(ProcModule.namespace(), "os::proc");
    assert_eq!(ScreenModule.namespace(), "os::screen");
    assert_eq!(TimeModule.namespace(), "os::time");
}

#[test]
fn signal_messages() {
    assert_eq!(WaitYield.message(), "yield to executor");
    assert_eq!(WaitKey.message(), "wait for key");
    assert_eq!(Exit.message(), "exit");
}

#[test]
fn args_len_counts_bytes_and_separators() {
    assert_eq!(ProcModule::args_len(&state(&[])), 0);
    assert_eq!(ProcModule::args_len(&state(&["a"])), 1);
    assert_eq!(ProcModule::args_len(&state(&["ab", "cde"])), 6);
    assert_eq!(ProcModule::args_len(&state(&["", ""])), 1);
    assert_eq!(ProcModule::args_len(&state(&["\u{e9}"])), 2);
}

#[test]
fn args_get_writes_joined_arguments() {
    let s = state(&["ab", "cde", "f"]);
    let mut mem = [0u8; 12];
    let n = ProcModule::args_get(&s, Some(&mut mem[..]), 1, 64);
    assert_eq!(n, 8);
    assert_eq!(&mem[1..9], b"ab\ncde\nf");
    assert_eq!(n, ProcModule::args_len(&s));
    assert_eq!(ProcModule::joined_args(&s), b"ab\ncde\nf".to_vec());
}

#[test]
fn args_get_is_cut_to_max_len() {
    let s = state(&["hello", "world"]);
    let mut mem = [0u8; 12];
    assert_eq!(ProcModule::args_get(&s, Some(&mut mem[..]), 0, 3), 3);
    assert_eq!(&mem[..4], b"hel\0");
    assert_eq!(ProcModule::args_get(&s, Some(&mut mem[..]), 8, 11), -2);
    assert_eq!(ProcModule::args_get(&s, None, 0, 3), -2);
}

#[test]
fn exit_records_code() {
    let mut s = state(&["x"]);
    assert_eq!(s.exit_status(), 0);
    let _signal: Exit = ProcModule::exit(&mut s, 42);
    assert_eq!(s.exit_code, Some(42));
    assert_eq!(s.exit_status(), 42);
    assert_eq!(s.args, vec!["x".to_string()]);
}

#[test]
fn fs_path_request() {
    let mem = *b"/home/a.txt\xff";
    assert_eq!(FsModule::path_request(Some(&mem[..]), 0, 11), Ok("/home/a.txt".to_string()));
    assert_eq!(FsModule::path_request(Some(&mem[..]), 6, 6), Err(BAD_PATH));
    assert_eq!(FsModule::path_request(Some(&mem[..]), 6, 10), Err(BAD_PATH));
    assert_eq!(FsModule::path_request(None, 0, 1), Err(-3));
}

#[test]
fn fs_write_request() {
    let mem = *b"pathdata";
    assert_eq!(
        FsModule::write_request(Some(&mem[..]), 0, 4, 4, 4),
        Ok(("path".to_string(), b"data".to_vec()))
    );
    assert_eq!(FsModule::write_request(Some(&mem[..]), 0, 4, 4, 5), Err(BAD_DATA));
    assert_eq!(FsModule::write_request(Some(&mem[..]), 0, 9, 4, 5), Err(BAD_PATH));
    assert_eq!(BAD_DATA, -2);
}

#[test]
fn fs_status_codes() {
    assert_eq!(FsModule::status(true), 0);
    assert_eq!(FsModule::status(false), FS_FAILED);
    assert_eq!(FS_FAILED, -1);
}

#[test]
fn fs_read_file_reply() {
    let mut mem = [0u8; 6];
    assert_eq!(FsModule::read_file_reply(Some(&mut mem[..]), 1, 3, Some(b"hello".to_vec())), 3);
    assert_eq!(mem, *b"\0hel\0\0");
    assert_eq!(FsModule::read_file_reply(Some(&mut mem[..]), 1, 3, None), -1);
    assert_eq!(FsModule::read_file_reply(Some(&mut mem[..]), 5, 3, Some(b"hello".to_vec())), -2);
}

#[test]
fn io_print_text() {
    let mem = *b"hi\xffthere";
    assert_eq!(IoModule::print(Some(&mem[..]), 0, 2), Some("hi".to_string()));
    assert_eq!(IoModule::print(Some(&mem[..]), 0, 3), Some("<invalid utf8>".to_string()));
    assert_eq!(IoModule::print(Some(&mem[..]), 3, 5), Some("there".to_string()));
    assert_eq!(IoModule::print(Some(&mem[..]), 3, 6), None);
    assert_eq!(IoModule::print(Some(&mem[..]), 0, -1), None);
    assert_eq!(IoModule::print(Some(&mem[..]), 0, 0), Some(String::new()));
    assert_eq!(IoModule::print(None, 0, 1), None);
}

#[test]
fn io_read_line_reply() {
    let mut mem = [0u8; 4];
    assert_eq!(IoModule::read_line_reply(Some(&mut mem[..]), 0, 4, Some("ok".to_string())), 2);
    assert_eq!(&mem[..2], b"ok");
    assert_eq!(IoModule::read_line_reply(Some(&mut mem[..]), 0, 4, None), LINE_CANCELLED);
    assert_eq!(LINE_CANCELLED, -1);
}

#[test]
fn screen_positions() {
    assert_eq!(ScreenModule::position(3, 4), Some(Position { row: 3, col: 4 }));
    assert_eq!(ScreenModule::position(-1, 4), None);
    assert_eq!(ScreenModule::position(3, -4), None);
}

#[test]
fn screen_write_at() {
    assert_eq!(
        ScreenModule::write_at(1, 2, 0x141, 0x10f),
        Some(CellWrite { at: Position { row: 1, col: 2 }, byte: 0x41, color: 0x0f })
    );
    assert_eq!(ScreenModule::write_at(-1, 2, 65, 7), None);
}

#[test]
fn screen_write_str_at() {
    let mem = *b"xxHELLO";
    let w = ScreenModule::write_str_at(Some(&mem[..]), 0, 5, 2, 5, 0x1e).ok().unwrap();
    assert_eq!(w.at, Position { row: 0, col: 5 });
    assert_eq!(w.text, "HELLO");
    assert_eq!(w.color, 0x1e);
    assert!(matches!(ScreenModule::write_str_at(Some(&mem[..]), -1, 5, 2, 5, 7), Err(BAD_STRING)));
    assert!(matches!(ScreenModule::write_str_at(Some(&mem[..]), 0, 5, 2, 9, 7), Err(-2)));
    assert_eq!(ScreenModule::write_str_reply(10), 10);
}

#[test]
fn screen_clear_row() {
    assert_eq!(ScreenModule::clear_row(4, 0x70), Some((4, 0x70)));
    assert_eq!(ScreenModule::clear_row(-4, 0x70), None);
}

#[test]
fn screen_read_at_reply() {
    assert_eq!(ScreenModule::read_at_reply(Some(ScreenCell { ascii: b'A', color: 0x1f })), 0x1f41);
    assert_eq!(ScreenModule::read_at_reply(Some(ScreenCell { ascii: 0, color: 0 })), 0);
    assert_eq!(ScreenModule::read_at_reply(None), NO_CELL);
    let code = ScreenModule::read_at_reply(Some(ScreenCell { ascii: 0xb2, color: 0xff }));
    assert_eq!(code & 0xff, 0xb2);
    assert_eq!(code >> 8, 0xff);
}

#[test]
fn time_record_layout() {
    let t = DateTime { year: 2025, month: 3, day: 14, hour: 15, minute: 9, second: 26 };
    let rec = TimeModule::encode(&t);
    assert_eq!(rec, [0xe9, 0x07, 3, 14, 15, 9, 26, 0]);
    assert_eq!(u16::from_le_bytes([rec[0], rec[1]]), 2025);
    let mut mem = [0xaau8; 10];
    assert_eq!(TimeModule::get_time(Some(&mut mem[..]), 1, 100, &t), 8);
    assert_eq!(&mem[1..9], &rec);
    assert_eq!(mem[0], 0xaa);
    assert_eq!(mem[9], 0xaa);
    assert_eq!(TimeModule::get_time(Some(&mut mem[..]), 3, 100, &t), -2);
}

#[test]
fn time_year_keeps_low_sixteen_bits() {
    let t = DateTime { year: 0x1_0203, month: 1, day: 1, hour: 0, minute: 0, second: 0 };
    assert_eq!(TimeModule::encode(&t)[..2], [0x03, 0x02]);
}

#[test]
fn args_come_back_from_args_get() {
    let s = state(&["run", "-v", "f\u{e9}.txt"]);
    let n = ProcModule::args_len(&s);
    let mut mem = [0u8; 32];
    assert_eq!(ProcModule::args_get(&s, Some(&mut mem[..]), 4, n), n);
    let text = String::from_utf8(mem[4..4 + n as usize].to_vec()).unwrap();
    let back: Vec<&str> = text.split('\n').collect();
    assert_eq!(back, vec!["run", "-v", "f\u{e9}.txt"]);
}
