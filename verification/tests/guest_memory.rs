use wasm_host::guest::{read_guest_bytes, read_guest_string, write_to_guest};

#[test]
fn write_copies_payload_at_pointer() {
    let mut mem = [0u8; 8];
    let r = write_to_guest(Some(&mut mem[..]), 2, 10, &[1, 2, 3]);
    assert_eq!(r, 3);
    assert_eq!(mem, [0, 0, 1, 2, 3, 0, 0, 0]);
}

#[test]
fn write_is_cut_to_max_len() {
    let mut mem = [9u8; 6];
    let r = write_to_guest(Some(&mut mem[..]), 1, 2, &[1, 2, 3, 4]);
    assert_eq!(r, 2);
    assert_eq!(mem, [9, 1, 2, 9, 9, 9]);
}

#[test]
fn write_with_negative_max_len_copies_nothing() {
    let mut mem = [5u8; 4];
    let r = write_to_guest(Some(&mut mem[..]), 0, -7, &[1, 2]);
    assert_eq!(r, 0);
    assert_eq!(mem, [5, 5, 5, 5]);
}

#[test]
fn write_out_of_bounds_is_refused() {
    let mut mem = [5u8; 4];
    let r = write_to_guest(Some(&mut mem[..]), 3, 4, &[1, 2]);
    assert_eq!(r, -2);
    assert_eq!(mem, [5, 5, 5, 5]);
}

#[test]
fn write_at_end_of_memory_fits_exactly() {
    let mut mem = [5u8; 4];
    let r = write_to_guest(Some(&mut mem[..]), 2, 4, &[1, 2]);
    assert_eq!(r, 2);
    assert_eq!(mem, [5, 5, 1, 2]);
}

#[test]
fn write_to_negative_pointer_is_refused() {
    let mut mem = [0u8; 16];
    let r = write_to_guest(Some(&mut mem[..]), -1, 4, &[1]);
    assert_eq!(r, -2);
    assert_eq!(mem, [0u8; 16]);
}

#[test]
fn write_without_memory_is_refused() {
    assert_eq!(write_to_guest(None, 0, 4, &[1, 2]), -2);
}

#[test]
fn read_back_what_was_written() {
    let mut mem = [0u8; 10];
    let payload = [7u8, 8, 9, 10, 11];
    let n = write_to_guest(Some(&mut mem[..]), 4, 3, &payload);
    assert_eq!(n, 3);
    let back = read_guest_bytes(Some(&mem[..]), 4, n).unwrap();
    assert_eq!(back, vec![7, 8, 9]);
    assert_eq!(&mem[..4], &[0, 0, 0, 0]);
    assert_eq!(&mem[7..], &[0, 0, 0]);
}

#[test]
fn read_bytes_in_range() {
    let mem = [1u8, 2, 3, 4, 5];
    assert_eq!(read_guest_bytes(Some(&mem[..]), 1, 3), Some(vec![2, 3, 4]));
    assert_eq!(read_guest_bytes(Some(&mem[..]), 5, 0), Some(vec![]));
}

#[test]
fn read_bytes_negative_len_reads_nothing() {
    let mem = [1u8, 2, 3];
    assert_eq!(read_guest_bytes(Some(&mem[..]), 1, -5), Some(vec![]));
}

#[test]
fn read_bytes_out_of_range() {
    let mem = [1u8, 2, 3];
    assert_eq!(read_guest_bytes(Some(&mem[..]), 2, 2), None);
    assert_eq!(read_guest_bytes(Some(&mem[..]), -2, 1), None);
    assert_eq!(read_guest_bytes(None, 0, 1), None);
}

#[test]
fn read_string_decodes_utf8() {
    let text = "h\u{e9}llo";
    let mut mem = vec![0u8; 2];
    mem.extend_from_slice(text.as_bytes());
    let s = read_guest_string(Some(&mem[..]), 2, text.len() as i32).unwrap();
    assert_eq!(s, "h\u{e9}llo");
}

#[test]
fn read_string_rejects_invalid_utf8() {
    let mem = [b'a', 0xff, b'b'];
    assert_eq!(read_guest_string(Some(&mem[..]), 0, 3), None);
    assert_eq!(read_guest_string(Some(&mem[..]), 0, 1), Some("a".to_string()));
}
