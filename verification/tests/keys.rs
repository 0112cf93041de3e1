use pc_keyboard::{DecodedKey, KeyCode};
use wasm_host::keyboard::{encode_key, layout_for, Edit, Key, KeyDecoder, Layout, LineEditor, NavKey};

#[test]
fn unicode_keys_encode_as_scalar_values() {
    assert_eq!(encode_key(Key::Unicode('a')), 97);
    assert_eq!(encode_key(Key::Unicode('z')), 122);
    assert_eq!(encode_key(Key::Unicode('\n')), 10);
    assert_eq!(encode_key(Key::Unicode('\r')), 13);
    assert_eq!(encode_key(Key::Unicode('\t')), 9);
    assert_eq!(encode_key(Key::Unicode('\x08')), 8);
    assert_eq!(encode_key(Key::Unicode('\x1b')), 27);
    assert_eq!(encode_key(Key::Unicode('\x18')), 24);
    assert_eq!(encode_key(Key::Unicode('\u{e4}')), 0xe4);
    assert_eq!(encode_key(Key::Unicode('\u{10FFFF}')), 0x10FFFF);
}

#[test]
fn navigation_keys_encode_negative() {
    assert_eq!(encode_key(Key::Nav(NavKey::ArrowUp)), -1);
    assert_eq!(encode_key(Key::Nav(NavKey::ArrowDown)), -2);
    assert_eq!(encode_key(Key::Nav(NavKey::ArrowLeft)), -3);
    assert_eq!(encode_key(Key::Nav(NavKey::ArrowRight)), -4);
    assert_eq!(encode_key(Key::Nav(NavKey::Home)), -5);
    assert_eq!(encode_key(Key::Nav(NavKey::End)), -6);
    assert_eq!(encode_key(Key::Nav(NavKey::Delete)), -7);
    assert_eq!(encode_key(Key::Nav(NavKey::PageUp)), -8);
    assert_eq!(encode_key(Key::Nav(NavKey::PageDown)), -9);
}

#[test]
fn other_raw_keys_encode_zero() {
    assert_eq!(encode_key(Key::OtherRaw), 0);
}

#[test]
fn decoder_reads_navigation_keys() {
    let mut d = KeyDecoder::new(Layout::Us104Key);
    let cases = [
        (0x48u8, NavKey::ArrowUp),
        (0x50, NavKey::ArrowDown),
        (0x4B, NavKey::ArrowLeft),
        (0x4D, NavKey::ArrowRight),
        (0x47, NavKey::Home),
        (0x4F, NavKey::End),
        (0x49, NavKey::PageUp),
        (0x51, NavKey::PageDown),
    ];
    for (code, nav) in cases {
        assert_eq!(d.feed(0xE0), None);
        assert_eq!(d.feed(code), Some(Key::Nav(nav)));
        // release
        assert_eq!(d.feed(0xE0), None);
        d.feed(code | 0x80);
    }
}

#[test]
fn decoder_reads_delete_as_del_character() {
    // the US layout gives the Delete key as the DEL character
    let mut d = KeyDecoder::new(Layout::Us104Key);
    assert_eq!(d.feed(0xE0), None);
    assert_eq!(d.feed(0x53), Some(Key::Unicode('\x7f')));
}

#[test]
fn decoder_reads_other_raw_keys() {
    let mut d = KeyDecoder::new(Layout::Us104Key);
    assert_eq!(d.feed(0x3B), Some(Key::OtherRaw)); // F1
    assert_eq!(d.feed(0x2A), Some(Key::OtherRaw)); // left Shift
}

#[test]
fn layout_names() {
    assert_eq!(layout_for("fise"), Layout::FiSe105Key);
    assert_eq!(layout_for("us"), Layout::Us104Key);
    assert_eq!(layout_for("FISE"), Layout::Us104Key);
    assert_eq!(layout_for(""), Layout::Us104Key);
}

#[test]
fn decoder_turns_scancodes_into_keys() {
    let mut d = KeyDecoder::new(Layout::Us104Key);
    // 'A' key pressed, then released
    assert_eq!(d.feed(0x1E), Some(Key::Unicode('a')));
    assert_eq!(d.feed(0x9E), None);
    // Enter
    assert_eq!(d.feed(0x1C), Some(Key::Unicode('\n')));
    // extended prefix, then arrow up
    assert_eq!(d.feed(0xE0), None);
    assert_eq!(d.feed(0x48), Some(Key::Nav(NavKey::ArrowUp)));
}

#[test]
fn decoder_maps_ctrl_letters_to_control_characters() {
    let mut d = KeyDecoder::new(Layout::Us104Key);
    assert_eq!(d.feed(0x1D), Some(Key::OtherRaw)); // left Ctrl down
    assert_eq!(d.feed(0x2E), Some(Key::Unicode('\x03'))); // 'c'
}

#[test]
fn decoder_uses_finnish_layout() {
    let mut d = KeyDecoder::new(Layout::FiSe105Key);
    // the key right of 'L' is 'ö' on the Finnish/Swedish layout
    assert_eq!(d.feed(0x27), Some(Key::Unicode('\u{f6}')));
    let mut us = KeyDecoder::new(Layout::Us104Key);
    assert_eq!(us.feed(0x27), Some(Key::Unicode(';')));
}

#[test]
fn line_editor_types_erases_and_submits() {
    let mut e = LineEditor::new();
    assert_eq!(e.on_key(Key::Unicode('h')), Edit::Typed('h'));
    assert_eq!(e.on_key(Key::Unicode('x')), Edit::Typed('x'));
    assert_eq!(e.on_key(Key::Unicode('\x08')), Edit::Erased);
    assert_eq!(e.on_key(Key::Unicode('i')), Edit::Typed('i'));
    assert_eq!(e.on_key(Key::Nav(NavKey::ArrowLeft)), Edit::Ignored);
    assert_eq!(e.on_key(Key::OtherRaw), Edit::Ignored);
    assert_eq!(e.on_key(Key::Unicode('\r')), Edit::Submitted);
    assert_eq!(e.into_line(), "hi");
}

#[test]
fn line_editor_backspace_on_empty_line() {
    let mut e = LineEditor::new();
    assert_eq!(e.on_key(Key::Unicode('\x08')), Edit::Ignored);
    assert_eq!(e.on_key(Key::Unicode('\n')), Edit::Submitted);
    assert_eq!(e.into_line(), "");
}

#[test]
fn line_editor_cancels_on_ctrl_c() {
    let mut e = LineEditor::new();
    assert_eq!(e.on_key(Key::Unicode('a')), Edit::Typed('a'));
    assert_eq!(e.on_key(Key::Unicode('\x03')), Edit::Cancelled);
    assert_eq!(e.into_line(), "a");
}

#[test]
fn erasing_a_typed_character_restores_the_line() {
    let mut e = LineEditor::new();
    e.on_key(Key::Unicode('o'));
    e.on_key(Key::Unicode('k'));
    e.on_key(Key::Unicode('\u{e9}'));
    e.on_key(Key::Unicode('\x08'));
    assert_eq!(e.into_line(), "ok");
}

#[test]
fn echo_texts() {
    assert_eq!(Edit::Typed('q').echo(), "q");
    assert_eq!(Edit::Erased.echo(), "\x7f");
    assert_eq!(Edit::Ignored.echo(), "");
    assert_eq!(Edit::Submitted.echo(), "\n");
    assert_eq!(Edit::Cancelled.echo(), "^C\n");
}

#[test]
fn decoded_keys_read_as_library_keys() {
    assert_eq!(Key::from_decoded(DecodedKey::Unicode('a')), Key::Unicode('a'));
    assert_eq!(Key::from_decoded(DecodedKey::RawKey(KeyCode::ArrowUp)), Key::Nav(NavKey::ArrowUp));
    assert_eq!(Key::from_decoded(DecodedKey::RawKey(KeyCode::ArrowDown)), Key::Nav(NavKey::ArrowDown));
    assert_eq!(Key::from_decoded(DecodedKey::RawKey(KeyCode::ArrowLeft)), Key::Nav(NavKey::ArrowLeft));
    assert_eq!(Key::from_decoded(DecodedKey::RawKey(KeyCode::ArrowRight)), Key::Nav(NavKey::ArrowRight));
    assert_eq!(Key::from_decoded(DecodedKey::RawKey(KeyCode::Home)), Key::Nav(NavKey::Home));
    assert_eq!(Key::from_decoded(DecodedKey::RawKey(KeyCode::End)), Key::Nav(NavKey::End));
    assert_eq!(Key::from_decoded(DecodedKey::RawKey(KeyCode::Delete)), Key::Nav(NavKey::Delete));
    assert_eq!(Key::from_decoded(DecodedKey::RawKey(KeyCode::PageUp)), Key::Nav(NavKey::PageUp));
    assert_eq!(Key::from_decoded(DecodedKey::RawKey(KeyCode::PageDown)), Key::Nav(NavKey::PageDown));
    assert_eq!(Key::from_decoded(DecodedKey::RawKey(KeyCode::F1)), Key::OtherRaw);
    assert_eq!(encode_key(Key::from_decoded(DecodedKey::RawKey(KeyCode::PageDown))), -9);
}

#[test]
fn decoders_keep_separate_state() {
    // a held Shift on one decoder does not shift keys on another
    let mut a = KeyDecoder::new(Layout::Us104Key);
    let mut b = KeyDecoder::new(Layout::Us104Key);
    assert_eq!(a.feed(0x2A), Some(Key::OtherRaw));
    assert_eq!(a.feed(0x1E), Some(Key::Unicode('A')));
    assert_eq!(b.feed(0x1E), Some(Key::Unicode('a')));
}
