//! Keys: how a decoded key is handed to a guest as an `i32`, how scancodes
//! are decoded, and the line editor behind `os::io::read_line`.

use vstd::prelude::*;
use pc_keyboard::layouts::{AnyLayout, FiSe105Key, Us104Key};
use pc_keyboard::{DecodedKey, HandleControl, KeyCode, KeyEvent, PS2Keyboard, ScancodeSet1};

verus! {

/// The keyboard crate's decoded key (a Unicode character or a raw key
/// code), opaque here.
#[verifier::external_type_specification]
#[verifier::external_body]
pub struct ExDecodedKey(DecodedKey);

/// The keyboard crate's key event (a key code and whether it went up or
/// down), opaque here.
#[verifier::external_type_specification]
#[verifier::external_body]
pub struct ExKeyEvent(KeyEvent);

/// The keyboard crate's decoding error, opaque here.
#[verifier::external_type_specification]
#[verifier::external_body]
pub struct ExKeyboardError(pc_keyboard::Error);

/// The keyboard crate's `PS2Keyboard` for scan code set 1, with Ctrl+letter
/// mapped to control characters. Its state (pending prefix bytes, held
/// modifiers, layout) is kept inside; the functions below give names to
/// what it does with that state. The generic `PS2Keyboard` is bounded by
/// the keyboard crate's own traits, so it is held here at one instance.
#[verifier::external_body]
pub struct Ps2Decoder {
    keyboard: PS2Keyboard<AnyLayout, ScancodeSet1>,
}

/// The navigation keys that a guest can tell apart.
#[derive(Clone, Copy, Debug, PartialEq, Eq, Structural)]
pub enum NavKey {
    ArrowUp,
    ArrowDown,
    ArrowLeft,
    ArrowRight,
    Home,
    End,
    Delete,
    PageUp,
    PageDown,
}

/// A decoded key: a Unicode scalar, a navigation key, or any other raw key.
#[derive(Clone, Copy, Debug, PartialEq, Eq, Structural)]
pub enum Key {
    Unicode(char),
    Nav(NavKey),
    OtherRaw,
}

/// The [`Key`] a decoded key of the keyboard crate reads as.
pub uninterp spec fn key_view(key: DecodedKey) -> Key;

/// Reads a `DecodedKey` of the keyboard crate as a [`Key`], by variant:
/// `Unicode(c)` stays `Unicode(c)`, the raw key codes `ArrowUp`,
/// `ArrowDown`, `ArrowLeft`, `ArrowRight`, `Home`, `End`, `Delete`,
/// `PageUp` and `PageDown` become the navigation key of the same name, and
/// every other raw key becomes `OtherRaw`. Claimed: the result is
/// [`key_view`] of the argument; the mapping itself is checked by tests.
#[verifier::external_body]
fn key_of(key: DecodedKey) -> (r: Key)
    ensures
        r == key_view(key),
{
    match key {
        DecodedKey::Unicode(c) => Key::Unicode(c),
        DecodedKey::RawKey(KeyCode::ArrowUp) => Key::Nav(NavKey::ArrowUp),
        DecodedKey::RawKey(KeyCode::ArrowDown) => Key::Nav(NavKey::ArrowDown),
        DecodedKey::RawKey(KeyCode::ArrowLeft) => Key::Nav(NavKey::ArrowLeft),
        DecodedKey::RawKey(KeyCode::ArrowRight) => Key::Nav(NavKey::ArrowRight),
        DecodedKey::RawKey(KeyCode::Home) => Key::Nav(NavKey::Home),
        DecodedKey::RawKey(KeyCode::End) => Key::Nav(NavKey::End),
        DecodedKey::RawKey(KeyCode::Delete) => Key::Nav(NavKey::Delete),
        DecodedKey::RawKey(KeyCode::PageUp) => Key::Nav(NavKey::PageUp),
        DecodedKey::RawKey(KeyCode::PageDown) => Key::Nav(NavKey::PageDown),
        DecodedKey::RawKey(_) => Key::OtherRaw,
    }
}

/// The keyboard layouts a user can configure.
#[derive(Clone, Copy, Debug, PartialEq, Eq, Structural)]
pub enum Layout {
    Us104Key,
    FiSe105Key,
}

/// The layout a decoder was made with.
pub uninterp spec fn made_with(decoder: Ps2Decoder) -> Layout;

/// What `PS2Keyboard::add_byte` returns for a decoder state and a byte.
pub uninterp spec fn added(decoder: Ps2Decoder, byte: u8) -> Result<Option<KeyEvent>, pc_keyboard::Error>;

/// The decoder state after `PS2Keyboard::add_byte`.
pub uninterp spec fn after_add(decoder: Ps2Decoder, byte: u8) -> Ps2Decoder;

/// What `PS2Keyboard::process_keyevent` returns for a decoder state and an
/// event.
pub uninterp spec fn processed(decoder: Ps2Decoder, event: KeyEvent) -> Option<DecodedKey>;

/// The decoder state after `PS2Keyboard::process_keyevent`.
pub uninterp spec fn after_process(decoder: Ps2Decoder, event: KeyEvent) -> Ps2Decoder;

/// `PS2Keyboard::new` on `ScancodeSet1::new()` and the given layout, with
/// `HandleControl::MapLettersToUnicode`. Claimed: the decoder is made with
/// that layout.
#[verifier::external_body]
fn ps2_new(layout: Layout) -> (r: Ps2Decoder)
    ensures
        made_with(r) == layout,
{
    let layout = match layout {
        Layout::Us104Key => AnyLayout::Us104Key(Us104Key),
        Layout::FiSe105Key => AnyLayout::FiSe105Key(FiSe105Key),
    };
    Ps2Decoder { keyboard: PS2Keyboard::new(ScancodeSet1::new(), layout, HandleControl::MapLettersToUnicode) }
}

/// `PS2Keyboard::add_byte`: feeds one scancode byte to the decoder; a key
/// event comes out once a whole scancode has been seen. Claimed: the result
/// and the new state are functions of the old state and the byte
/// ([`added`], [`after_add`]), and the layout is kept (the call only
/// advances the scancode-set state).
#[verifier::external_body]
fn ps2_add_byte(decoder: &mut Ps2Decoder, byte: u8) -> (r: Result<Option<KeyEvent>, pc_keyboard::Error>)
    ensures
        r == added(*old(decoder), byte),
        *final(decoder) == after_add(*old(decoder), byte),
        made_with(*final(decoder)) == made_with(*old(decoder)),
{
    decoder.keyboard.add_byte(byte)
}

/// `PS2Keyboard::process_keyevent`: turns a key event into a decoded key
/// under the current modifiers, or `None` for events that yield no key.
/// Claimed: the result and the new state are functions of the old state and
/// the event ([`processed`], [`after_process`]), and the layout is kept (the
/// call only updates the modifiers).
#[verifier::external_body]
fn ps2_process_keyevent(decoder: &mut Ps2Decoder, event: KeyEvent) -> (r: Option<DecodedKey>)
    ensures
        r == processed(*old(decoder), event),
        *final(decoder) == after_process(*old(decoder), event),
        made_with(*final(decoder)) == made_with(*old(decoder)),
{
    decoder.keyboard.process_keyevent(event)
}

/// The number a navigation key is handed to a guest as.
pub open spec fn nav_code(key: NavKey) -> int {
    match key {
        NavKey::ArrowUp => -1,
        NavKey::ArrowDown => -2,
        NavKey::ArrowLeft => -3,
        NavKey::ArrowRight => -4,
        NavKey::Home => -5,
        NavKey::End => -6,
        NavKey::Delete => -7,
        NavKey::PageUp => -8,
        NavKey::PageDown => -9,
    }
}

/// The `i32` returned by `os::io::read_key`: a Unicode key is its scalar
/// value (so control characters keep their ASCII codes: Enter is 10 or 13,
/// Tab 9, Backspace 8, Esc 27), a navigation key a negative number, and any
/// other raw key 0.
pub open spec fn key_code(key: Key) -> int {
    match key {
        Key::Unicode(c) => c as int,
        Key::Nav(n) => nav_code(n),
        Key::OtherRaw => 0,
    }
}

/// The numbers `os::io::read_key` can return.
pub open spec fn is_key_code(r: int) -> bool {
    ||| -9 <= r <= -1
    ||| 0 <= r < 0xD800
    ||| 0xE000 <= r <= 0x10FFFF
}

/// Encodes a key as the `i32` returned by `os::io::read_key` (see
/// [`key_code`]): a Unicode key is its scalar value, a navigation key a
/// number from -1 to -9, any other raw key 0.
pub fn encode_key(key: Key) -> (r: i32)
    ensures
        r == key_code(key),
        is_key_code(r as int),
{
    proof {
        lemma_key_code_is_key_code(key);
    }
    match key {
        Key::Unicode(c) => c as u32 as i32,
        Key::Nav(n) => match n {
            NavKey::ArrowUp => -1,
            NavKey::ArrowDown => -2,
            NavKey::ArrowLeft => -3,
            NavKey::ArrowRight => -4,
            NavKey::Home => -5,
            NavKey::End => -6,
            NavKey::Delete => -7,
            NavKey::PageUp => -8,
            NavKey::PageDown => -9,
        },
        Key::OtherRaw => 0,
    }
}

/// Every key is handed over as one of the numbers `read_key` documents.
pub proof fn lemma_key_code_is_key_code(key: Key)
    ensures
        is_key_code(key_code(key)),
{
    match key {
        Key::Unicode(c) => {
            assert(0 <= (c as int) < 0xD800 || 0xE000 <= (c as int) <= 0x10FFFF);
        },
        _ => {},
    }
}

/// The sign of a key's number tells its kind: navigation keys are exactly
/// the negative numbers.
pub proof fn lemma_key_code_sign(key: Key)
    ensures
        key_code(key) < 0 <==> key is Nav,
{
}

/// No two keys share a number, except that a raw key without a number of
/// its own is handed over as 0, as NUL is.
pub proof fn lemma_key_code_injective(a: Key, b: Key)
    requires
        a !is OtherRaw,
        b !is OtherRaw,
        key_code(a) == key_code(b),
    ensures
        a == b,
{
    match (a, b) {
        (Key::Unicode(x), Key::Unicode(y)) => {
            assert(x as int == y as int);
        },
        _ => {},
    }
}

/// Whether two byte strings are equal.
fn bytes_eq(a: &[u8], b: &[u8]) -> (r: bool)
    ensures
        r == (a@ == b@),
{
    if a.len() != b.len() {
        return false;
    }
    let mut i: usize = 0;
    while i < a.len()
        invariant
            a@.len() == b@.len(),
            i <= a@.len(),
            forall|k: int| 0 <= k < i ==> a@[k] == b@[k],
        decreases a@.len() - i,
    {
        if a[i] != b[i] {
            return false;
        }
        i = i + 1;
    }
    assert(a@ =~= b@);
    true
}

/// Whether two strings are equal.
fn str_eq(a: &str, b: &str) -> (r: bool)
    ensures
        r == (a@ == b@),
{
    let r = bytes_eq(a.as_bytes(), b.as_bytes());
    proof {
        vstd::utf8::encode_utf8_decode_utf8(a@);
        vstd::utf8::encode_utf8_decode_utf8(b@);
    }
    r
}

/// The layout a configured name selects: `"fise"` is the Finnish/Swedish
/// layout, and any other name the US one.
pub fn layout_for(name: &str) -> (r: Layout)
    ensures
        r == (if name@ == "fise"@ { Layout::FiSe105Key } else { Layout::Us104Key }),
{
    if str_eq(name, "fise") {
        Layout::FiSe105Key
    } else {
        Layout::Us104Key
    }
}

/// The key one scancode byte completes in decoder state `d`: the byte must
/// complete a key event, and the event must yield a key.
pub open spec fn feed_result(d: Ps2Decoder, byte: u8) -> Option<Key> {
    match added(d, byte) {
        Ok(Some(event)) => match processed(after_add(d, byte), event) {
            Some(decoded) => Some(key_view(decoded)),
            None => None,
        },
        _ => None,
    }
}

/// The decoder state after one scancode byte.
pub open spec fn feed_state(d: Ps2Decoder, byte: u8) -> Ps2Decoder {
    match added(d, byte) {
        Ok(Some(event)) => after_process(after_add(d, byte), event),
        _ => after_add(d, byte),
    }
}

/// Turns the scancodes of a PS/2 keyboard into keys, under the layout it
/// was made with.
pub struct KeyDecoder {
    ps2: Ps2Decoder,
}

impl KeyDecoder {
    /// The keyboard crate's decoder state.
    pub closed spec fn decoder(&self) -> Ps2Decoder {
        self.ps2
    }

    /// The layout this decoder maps keys with.
    pub open spec fn configured_layout(&self) -> Layout {
        made_with(self.decoder())
    }

    /// A decoder for the given layout, with no key held down.
    pub fn new(layout: Layout) -> (r: KeyDecoder)
        ensures
            r.configured_layout() == layout,
    {
        KeyDecoder { ps2: ps2_new(layout) }
    }

    /// Feeds one scancode byte and returns the key it completes, if any.
    /// Bytes that start a longer scancode, key releases and bytes the
    /// decoder rejects give `None`; presses of keys without a character
    /// (Shift, Ctrl, F1, ...) give a raw key.
    pub fn feed(&mut self, scancode: u8) -> (r: Option<Key>)
        ensures
            r == feed_result(old(self).decoder(), scancode),
            final(self).decoder() == feed_state(old(self).decoder(), scancode),
            final(self).configured_layout() == old(self).configured_layout(),
    {
        match ps2_add_byte(&mut self.ps2, scancode) {
            Ok(Some(event)) => match ps2_process_keyevent(&mut self.ps2, event) {
                Some(decoded) => Some(key_of(decoded)),
                None => None,
            },
            _ => None,
        }
    }
}

impl Key {
    /// The key a decoded key of the keyboard crate reads as.
    pub fn from_decoded(key: DecodedKey) -> (r: Key)
        ensures
            r == key_view(key),
    {
        key_of(key)
    }
}

/// `String::push`: the string afterwards is the string before with `c`
/// appended.
#[verifier::external_body]
fn string_push(s: &mut String, c: char)
    ensures
        final(s)@ == old(s)@.push(c),
{
    s.push(c)
}

/// `String::pop`: claimed to remove and return the last character, and to
/// return `None` and change nothing when the string is empty.
#[verifier::external_body]
fn string_pop(s: &mut String) -> (r: Option<char>)
    ensures
        old(s)@.len() == 0 ==> r is None && final(s)@ == old(s)@,
        old(s)@.len() > 0 ==> r == Some(old(s)@.last()) && final(s)@ == old(s)@.drop_last(),
{
    s.pop()
}

/// What the line editor did with a key, and so what it echoes.
#[derive(Clone, Copy, Debug, PartialEq, Eq, Structural)]
pub enum Edit {
    /// The character was appended; echo it.
    Typed(char),
    /// The last character was erased; echo DEL (`'\x7f'`).
    Erased,
    /// Nothing changed and nothing is echoed.
    Ignored,
    /// Enter: the line is complete; echo a newline.
    Submitted,
    /// Ctrl+C: reading is abandoned; echo `^C` and a newline.
    Cancelled,
}

/// What the editor echoes for an edit.
pub open spec fn echo_text(edit: Edit) -> Seq<char> {
    match edit {
        Edit::Typed(c) => seq![c],
        Edit::Erased => seq!['\x7f'],
        Edit::Ignored => Seq::empty(),
        Edit::Submitted => seq!['\n'],
        Edit::Cancelled => seq!['^', 'C', '\n'],
    }
}

impl Edit {
    /// The text to echo for this edit.
    pub fn echo(&self) -> (r: String)
        ensures
            r@ == echo_text(*self),
    {
        let mut out = String::new();
        match self {
            Edit::Typed(c) => string_push(&mut out, *c),
            Edit::Erased => string_push(&mut out, '\x7f'),
            Edit::Ignored => {},
            Edit::Submitted => string_push(&mut out, '\n'),
            Edit::Cancelled => {
                string_push(&mut out, '^');
                string_push(&mut out, 'C');
                string_push(&mut out, '\n');
            },
        }
        assert(out@ =~= echo_text(*self));
        out
    }
}

/// One step of the line editor: the line after `key`, and what it did.
pub open spec fn edit_step(line: Seq<char>, key: Key) -> (Seq<char>, Edit) {
    match key {
        Key::Unicode(c) => {
            if c == '\x03' {
                (line, Edit::Cancelled)
            } else if c == '\n' || c == '\r' {
                (line, Edit::Submitted)
            } else if c == '\x08' {
                if line.len() == 0 { (line, Edit::Ignored) } else { (line.drop_last(), Edit::Erased) }
            } else {
                (line.push(c), Edit::Typed(c))
            }
        },
        _ => (line, Edit::Ignored),
    }
}

/// The line being typed for `os::io::read_line`.
pub struct LineEditor {
    line: String,
}

impl View for LineEditor {
    type V = Seq<char>;

    closed spec fn view(&self) -> Seq<char> {
        self.line@
    }
}

impl LineEditor {
    /// An empty line.
    pub fn new() -> (r: LineEditor)
        ensures
            r@ == Seq::<char>::empty(),
    {
        LineEditor { line: String::new() }
    }

    /// Applies one key: Ctrl+C cancels, Enter (`'\n'` or `'\r'`) submits,
    /// Backspace erases the last character if there is one, any other
    /// character is appended, and keys without a character are ignored.
    pub fn on_key(&mut self, key: Key) -> (r: Edit)
        ensures
            (final(self)@, r) == edit_step(old(self)@, key),
    {
        match key {
            Key::Unicode(c) => {
                if c == '\x03' {
                    Edit::Cancelled
                } else if c == '\n' || c == '\r' {
                    Edit::Submitted
                } else if c == '\x08' {
                    match string_pop(&mut self.line) {
                        Some(_) => Edit::Erased,
                        None => Edit::Ignored,
                    }
                } else {
                    string_push(&mut self.line, c);
                    Edit::Typed(c)
                }
            },
            _ => Edit::Ignored,
        }
    }

    /// The text typed so far.
    pub fn into_line(self) -> (r: String)
        ensures
            r@ == self@,
    {
        self.line
    }
}

/// Backspace undoes typing: appending a character and erasing it gives
/// back the line as it was.
pub proof fn lemma_erase_undoes_type(line: Seq<char>, c: char)
    requires
        c != '\x03',
        c != '\n',
        c != '\r',
        c != '\x08',
    ensures
        edit_step(edit_step(line, Key::Unicode(c)).0, Key::Unicode('\x08'))
            == (line, Edit::Erased),
{
    assert(line.push(c).drop_last() =~= line);
}

/// Submitting and cancelling leave the line as typed, and a key without a
/// character never changes it.
pub proof fn lemma_line_kept(line: Seq<char>, key: Key)
    requires
        edit_step(line, key).1 == Edit::Submitted || edit_step(line, key).1 == Edit::Cancelled
            || edit_step(line, key).1 == Edit::Ignored,
    ensures
        edit_step(line, key).0 == line,
{
}


/// Ctrl+C cancels whatever the line holds, and keeps the line; Enter (as
/// `'\n'` or `'\r'`) submits it unchanged.
pub proof fn lemma_ctrl_c_and_enter(line: Seq<char>)
    ensures
        edit_step(line, Key::Unicode('\x03')) == (line, Edit::Cancelled),
        edit_step(line, Key::Unicode('\n')) == (line, Edit::Submitted),
        edit_step(line, Key::Unicode('\r')) == (line, Edit::Submitted),
{
}

/// Backspace erases the last character of a non-empty line and does
/// nothing on an empty one; any other character is appended and echoed;
/// keys without a character change nothing.
pub proof fn lemma_typing(line: Seq<char>, c: char, n: NavKey)
    ensures
        line.len() > 0 ==> edit_step(line, Key::Unicode('\x08')).0.len() == line.len() - 1
            && edit_step(line, Key::Unicode('\x08')).0 == line.subrange(0, line.len() - 1)
            && edit_step(line, Key::Unicode('\x08')).1 == Edit::Erased,
        line.len() == 0 ==> edit_step(line, Key::Unicode('\x08')) == (line, Edit::Ignored),
        c != '\x03' && c != '\n' && c != '\r' && c != '\x08' ==> {
            &&& edit_step(line, Key::Unicode(c)).0.len() == line.len() + 1
            &&& edit_step(line, Key::Unicode(c)).0[line.len() as int] == c
            &&& edit_step(line, Key::Unicode(c)).0.subrange(0, line.len() as int) == line
            &&& edit_step(line, Key::Unicode(c)).1 == Edit::Typed(c)
            &&& echo_text(edit_step(line, Key::Unicode(c)).1) == seq![c]
        },
        edit_step(line, Key::Nav(n)) == (line, Edit::Ignored),
        edit_step(line, Key::OtherRaw) == (line, Edit::Ignored),
{
    if c != '\x03' && c != '\n' && c != '\r' && c != '\x08' {
        assert(line.push(c).subrange(0, line.len() as int) =~= line);
    }
    if line.len() > 0 {
        assert(line.drop_last() =~= line.subrange(0, line.len() - 1));
    }
}

/// `feed` hands on the decoded key unchanged: when the byte completes a key
/// event and processing it yields a decoded key `k`, the result is
/// `Some(key_view(k))`; when either step yields nothing, the result is
/// `None`.
pub proof fn lemma_feed_passes_key_on(d: Ps2Decoder, byte: u8)
    ensures
        forall|event: KeyEvent, k: DecodedKey|
            added(d, byte) == Ok::<Option<KeyEvent>, pc_keyboard::Error>(Some(event))
            && processed(after_add(d, byte), event) == Some(k)
            ==> feed_result(d, byte) == Some(key_view(k)),
        forall|event: KeyEvent|
            added(d, byte) == Ok::<Option<KeyEvent>, pc_keyboard::Error>(Some(event))
            && processed(after_add(d, byte), event) is None
            ==> feed_result(d, byte) is None,
        !(added(d, byte) matches Ok(Some(_))) ==> feed_result(d, byte) is None,
{
}


/// The codes `read_key` documents: a Unicode key is handed over as its
/// scalar value, the navigation keys as -1 (up), -2 (down), -3 (left),
/// -4 (right), -5 (Home), -6 (End), -7 (Delete), -8 (Page Up) and
/// -9 (Page Down), and any other raw key as 0.
pub proof fn lemma_documented_codes(c: char)
    ensures
        key_code(Key::Unicode(c)) == c as u32 as int,
        key_code(Key::Nav(NavKey::ArrowUp)) == -1,
        key_code(Key::Nav(NavKey::ArrowDown)) == -2,
        key_code(Key::Nav(NavKey::ArrowLeft)) == -3,
        key_code(Key::Nav(NavKey::ArrowRight)) == -4,
        key_code(Key::Nav(NavKey::Home)) == -5,
        key_code(Key::Nav(NavKey::End)) == -6,
        key_code(Key::Nav(NavKey::Delete)) == -7,
        key_code(Key::Nav(NavKey::PageUp)) == -8,
        key_code(Key::Nav(NavKey::PageDown)) == -9,
        key_code(Key::OtherRaw) == 0,
{
}

/// What the editor echoes: the typed character itself, DEL for an erase,
/// a newline on submit, `^C` and a newline on cancel, nothing otherwise.
pub proof fn lemma_echo(c: char)
    ensures
        echo_text(Edit::Typed(c)) == seq![c],
        echo_text(Edit::Erased) == seq!['\x7f'],
        echo_text(Edit::Submitted) == seq!['\n'],
        echo_text(Edit::Cancelled) == seq!['^', 'C', '\n'],
        echo_text(Edit::Ignored).len() == 0,
{
}

} // verus!
