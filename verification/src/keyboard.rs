//! The native keyboard helper API (`KB*` functions) that some games look up
//! with `dlsym()`: a small state machine holding the typed text, an optional
//! guest callback and whether the keyboard is shown.
//!
//! Each guest-visible function is a transition of [`State`]; the work that
//! needs the emulator (posting notifications, starting or stopping host text
//! input, calling the guest callback) is returned as a list of
//! [`KeyboardAction`]s for the caller to perform, in order; text handed to
//! the guest is returned as the bytes the caller copies into guest memory.
#![allow(non_snake_case)]

use vstd::prelude::*;
use vstd::string::*;
use vstd::utf8::*;

use crate::text::chars_of;
use crate::text::contains;
use crate::text::has_prefix;
use crate::text::has_substring;
use crate::text::starts_with;

verus! {

/// The address of a guest function (Thumb bit included).
#[derive(Clone, Copy, PartialEq, Eq, Debug, Structural)]
pub struct GuestFunction(pub u32);

/// The UIKit keyboard notifications posted around showing and hiding.
#[derive(Clone, Copy, PartialEq, Eq, Debug, Structural)]
pub enum KeyboardNotification {
    WillShow,
    DidShow,
    WillHide,
    DidHide,
}

/// Work that a keyboard transition asks the emulator to do.
#[derive(Clone, Copy, PartialEq, Eq, Debug, Structural)]
pub enum KeyboardAction {
    /// Post the notification to the default `NSNotificationCenter`.
    Post(KeyboardNotification),
    /// Start host text input (the window begins delivering text events).
    StartTextInput,
    /// Stop host text input.
    StopTextInput,
    /// Call the guest callback that [`invoke_callback`] names at that moment,
    /// if any.
    InvokeCallback,
}

/// A text event from the host keyboard.
#[derive(Debug)]
pub enum TextInputEvent {
    Text(String),
    Backspace,
    Return,
}

/// The stubs that unimplemented `_KB*` symbols resolve to.
#[derive(Clone, Copy, PartialEq, Eq, Debug, Structural)]
pub enum KbStub {
    GetInputText,
    GetInputTextLength,
    EmptyString,
    NoOp,
}

/// The abstract keyboard state.
pub struct KeyboardModel {
    pub text: Seq<char>,
    pub callback: Option<GuestFunction>,
    pub visible: bool,
}

/// The keyboard helper state kept by the emulator.
pub struct State {
    input_text: String,
    callback: Option<GuestFunction>,
    visible: bool,
}

impl View for State {
    type V = KeyboardModel;

    closed spec fn view(&self) -> KeyboardModel {
        KeyboardModel { text: self.input_text@, callback: self.callback, visible: self.visible }
    }
}

/// The state before any keyboard call: no text, no callback, hidden.
pub open spec fn initial_model() -> KeyboardModel {
    KeyboardModel { text: Seq::empty(), callback: None, visible: false }
}

/// `KBShow`: shows a hidden keyboard; a shown one is left alone.
pub open spec fn show_model(m: KeyboardModel) -> (KeyboardModel, Seq<KeyboardAction>) {
    if m.visible {
        (m, Seq::empty())
    } else {
        (
            KeyboardModel { visible: true, ..m },
            seq![
                KeyboardAction::Post(KeyboardNotification::WillShow),
                KeyboardAction::StartTextInput,
                KeyboardAction::Post(KeyboardNotification::DidShow),
                KeyboardAction::InvokeCallback,
            ],
        )
    }
}

/// `KBHide`: hides a shown keyboard; a hidden one is left alone.
pub open spec fn hide_model(m: KeyboardModel) -> (KeyboardModel, Seq<KeyboardAction>) {
    if !m.visible {
        (m, Seq::empty())
    } else {
        (
            KeyboardModel { visible: false, ..m },
            seq![
                KeyboardAction::Post(KeyboardNotification::WillHide),
                KeyboardAction::StopTextInput,
                KeyboardAction::Post(KeyboardNotification::DidHide),
            ],
        )
    }
}

/// The text held by a NUL-terminated guest string: its bytes decoded as
/// UTF-8, or the empty text where they are not valid UTF-8.
pub open spec fn cstr_text(bytes: Seq<u8>) -> Seq<char> {
    if valid_utf8(bytes) {
        decode_utf8(bytes)
    } else {
        Seq::empty()
    }
}

/// The text after a host text event while the keyboard is shown.
pub open spec fn text_after_event(text: Seq<char>, event: TextInputEvent) -> Seq<char> {
    match event {
        TextInputEvent::Text(s) => text + s@,
        TextInputEvent::Backspace => if text.len() == 0 {
            text
        } else {
            text.drop_last()
        },
        TextInputEvent::Return => text,
    }
}

/// What `KBGetInputTextLength` reports: the UTF-8 byte length of the text,
/// wrapped into an `i32`.
pub open spec fn text_length_model(text: Seq<char>) -> i32 {
    (encode_utf8(text).len() as usize) as i32
}

/// Which stub an unimplemented symbol resolves to, if it is a `_KB*` one.
pub open spec fn kb_stub_for(symbol: Seq<char>) -> Option<KbStub> {
    if !has_prefix(symbol, "_KB"@) {
        None
    } else if has_substring(symbol, "Get"@) && has_substring(symbol, "Text"@) && !has_substring(
        symbol,
        "Length"@,
    ) {
        Some(KbStub::GetInputText)
    } else if has_substring(symbol, "Length"@) {
        Some(KbStub::GetInputTextLength)
    } else if has_substring(symbol, "String"@) || has_substring(symbol, "Ptr"@) {
        Some(KbStub::EmptyString)
    } else {
        Some(KbStub::NoOp)
    }
}

/// The exported name of a stub.
pub open spec fn stub_name(stub: KbStub) -> Seq<char> {
    match stub {
        KbStub::GetInputText => "_KBGetInputText"@,
        KbStub::GetInputTextLength => "_KBGetInputTextLength"@,
        KbStub::EmptyString => "_KBEmptyString"@,
        KbStub::NoOp => "_KBNoOp"@,
    }
}

/// `std::str::from_utf8`: the bytes as a string slice when they are valid
/// UTF-8. Claimed: `Some` exactly when the bytes are valid UTF-8 (vstd's
/// `valid_utf8`), and then the slice's UTF-8 encoding is those bytes.
#[verifier::external_body]
fn str_from_utf8(bytes: &[u8]) -> (r: Option<&str>)
    ensures
        r is Some <==> valid_utf8(bytes@),
        r matches Some(s) ==> s.spec_bytes() == bytes@,
{
    std::str::from_utf8(bytes).ok()
}

/// `String::pop`: removes and returns the last character, or `None` on an
/// empty string. Claimed: exactly that, over the string's characters.
#[verifier::external_body]
fn string_pop(s: &mut String) -> (r: Option<char>)
    ensures
        old(s)@.len() == 0 ==> r is None && final(s)@ == old(s)@,
        old(s)@.len() > 0 ==> r == Some(old(s)@.last()) && final(s)@ == old(s)@.drop_last(),
{
    s.pop()
}

/// The text of a guest C string whose bytes (without the NUL) were read by
/// the caller.
fn text_from_cstr(bytes: &[u8]) -> (r: String)
    ensures
        r@ == cstr_text(bytes@),
{
    match str_from_utf8(bytes) {
        Some(s) => {
            proof {
                encode_utf8_decode_utf8(s@);
            }
            String::from_str(s)
        },
        None => String::new(),
    }
}

/// Showing a shown keyboard changes nothing and asks for nothing.
pub proof fn lemma_show_idempotent(m: KeyboardModel)
    ensures
        show_model(show_model(m).0).0 == show_model(m).0,
        show_model(show_model(m).0).1 == Seq::<KeyboardAction>::empty(),
{
}

/// Hiding a hidden keyboard changes nothing and asks for nothing.
pub proof fn lemma_hide_idempotent(m: KeyboardModel)
    ensures
        hide_model(hide_model(m).0).0 == hide_model(m).0,
        hide_model(hide_model(m).0).1 == Seq::<KeyboardAction>::empty(),
{
}

/// After `KBShow` the keyboard is visible, after `KBHide` it is hidden; the
/// text and the callback are kept by both.
pub proof fn lemma_show_hide_visibility(m: KeyboardModel)
    ensures
        show_model(m).0.visible,
        !hide_model(m).0.visible,
        show_model(m).0.text == m.text && show_model(m).0.callback == m.callback,
        hide_model(m).0.text == m.text && hide_model(m).0.callback == m.callback,
{
}

/// Hiding a keyboard that was just shown gives back the hidden state.
pub proof fn lemma_hide_undoes_show(m: KeyboardModel)
    requires
        !m.visible,
    ensures
        hide_model(show_model(m).0).0 == m,
{
}

/// Typing one character and then Backspace gives back the text.
pub proof fn lemma_backspace_undoes_typing(text: Seq<char>, typed: String)
    requires
        typed@.len() == 1,
    ensures
        text_after_event(
            text_after_event(text, TextInputEvent::Text(typed)),
            TextInputEvent::Backspace,
        ) == text,
{
    assert((text + typed@).drop_last() =~= text);
}

/// For ASCII text shorter than 2^31 characters, `KBGetInputTextLength`
/// reports the number of characters.
pub proof fn lemma_ascii_length(text: Seq<char>)
    requires
        is_ascii_chars(text),
        text.len() < 0x8000_0000,
    ensures
        text_length_model(text) == text.len(),
{
    is_ascii_chars_encode_utf8(text);
}

/// Symbols without the `_KB` prefix never get a keyboard stub; every `_KB*`
/// symbol gets one.
pub proof fn lemma_kb_stub_exactly_for_kb_symbols(symbol: Seq<char>)
    ensures
        kb_stub_for(symbol) is Some <==> has_prefix(symbol, "_KB"@),
{
}

/// The stub a missing symbol gets, in terms of the words it contains: none
/// without the `_KB` prefix; the text getter exactly for names with "Get"
/// and "Text" but not "Length"; the length getter exactly for names with
/// "Length"; the string getter for the other names with "String" or "Ptr";
/// the no-op stub for every other `_KB*` name.
pub proof fn lemma_kb_stub_by_words(symbol: Seq<char>)
    ensures
        kb_stub_for(symbol) is None <==> !has_prefix(symbol, "_KB"@),
        kb_stub_for(symbol) == Some(KbStub::GetInputText) <==> has_prefix(symbol, "_KB"@)
            && has_substring(symbol, "Get"@) && has_substring(symbol, "Text"@) && !has_substring(
            symbol,
            "Length"@,
        ),
        kb_stub_for(symbol) == Some(KbStub::GetInputTextLength) <==> has_prefix(symbol, "_KB"@)
            && has_substring(symbol, "Length"@),
        kb_stub_for(symbol) == Some(KbStub::EmptyString) <==> has_prefix(symbol, "_KB"@)
            && !has_substring(symbol, "Length"@) && !(has_substring(symbol, "Get"@)
            && has_substring(symbol, "Text"@)) && (has_substring(symbol, "String"@)
            || has_substring(symbol, "Ptr"@)),
        kb_stub_for(symbol) == Some(KbStub::NoOp) <==> has_prefix(symbol, "_KB"@)
            && !has_substring(symbol, "Length"@) && !(has_substring(symbol, "Get"@)
            && has_substring(symbol, "Text"@)) && !has_substring(symbol, "String"@)
            && !has_substring(symbol, "Ptr"@),
        has_prefix(symbol, "_KB"@) && !has_substring(symbol, "Text"@) && !has_substring(
            symbol,
            "Length"@,
        ) && !has_substring(symbol, "String"@) && !has_substring(symbol, "Ptr"@) ==> kb_stub_for(
            symbol,
        ) == Some(KbStub::NoOp),
{
}

/// Showing a hidden keyboard makes it visible, keeps the text and the
/// callback, and asks for exactly: WillShow, start of host text input,
/// DidShow, the callback -- whatever the text and the callback are.
/// Showing a shown keyboard changes nothing and asks for nothing.
pub proof fn lemma_show_actions(m: KeyboardModel, other: KeyboardModel)
    ensures
        !m.visible ==> show_model(m).1 == seq![
            KeyboardAction::Post(KeyboardNotification::WillShow),
            KeyboardAction::StartTextInput,
            KeyboardAction::Post(KeyboardNotification::DidShow),
            KeyboardAction::InvokeCallback,
        ],
        !m.visible ==> show_model(m).0 == (KeyboardModel { visible: true, ..m }),
        m.visible ==> show_model(m).0 == m && show_model(m).1 == Seq::<KeyboardAction>::empty(),
        !m.visible && !other.visible ==> show_model(m).1 == show_model(other).1,
{
}

/// Hiding a shown keyboard hides it, keeps the text and the callback, and
/// asks for exactly: WillHide, stop of host text input, DidHide -- whatever
/// the text and the callback are. Hiding a hidden keyboard changes nothing
/// and asks for nothing.
pub proof fn lemma_hide_actions(m: KeyboardModel, other: KeyboardModel)
    ensures
        m.visible ==> hide_model(m).1 == seq![
            KeyboardAction::Post(KeyboardNotification::WillHide),
            KeyboardAction::StopTextInput,
            KeyboardAction::Post(KeyboardNotification::DidHide),
        ],
        m.visible ==> hide_model(m).0 == (KeyboardModel { visible: false, ..m }),
        !m.visible ==> hide_model(m).0 == m && hide_model(m).1 == Seq::<KeyboardAction>::empty(),
        m.visible && other.visible ==> hide_model(m).1 == hide_model(other).1,
{
}

/// `KBGetInputTextLength` reports the UTF-8 byte length of the text (the
/// length of the bytes `KBGetInputText` hands out), wrapped into an `i32`;
/// below 2^31 bytes that is the byte length itself.
pub proof fn lemma_length_is_utf8_bytes(text: Seq<char>)
    ensures
        text_length_model(text) == (encode_utf8(text).len() as usize) as i32,
        encode_utf8(text).len() < 0x8000_0000 ==> text_length_model(text) == encode_utf8(text).len(),
{
}

/// Host text events on a shown keyboard: typed text is appended, Backspace
/// removes the last character (if any), Return keeps the text.
pub proof fn lemma_text_events(text: Seq<char>, typed: String)
    ensures
        text_after_event(text, TextInputEvent::Text(typed)) == text + typed@,
        text.len() > 0 ==> text_after_event(text, TextInputEvent::Backspace) == text.subrange(
            0,
            text.len() - 1,
        ),
        text.len() == 0 ==> text_after_event(text, TextInputEvent::Backspace) == text,
        text_after_event(text, TextInputEvent::Return) == text,
{
}

/// Guest strings: valid UTF-8 is decoded, anything else reads as the empty
/// text; the decoded text encodes back to the same bytes.
pub proof fn lemma_cstr_text(bytes: Seq<u8>)
    ensures
        !valid_utf8(bytes) ==> cstr_text(bytes) == Seq::<char>::empty(),
        valid_utf8(bytes) ==> encode_utf8(cstr_text(bytes)) == bytes,
{
    if valid_utf8(bytes) {
        decode_utf8_encode_utf8(bytes);
    }
}

impl Default for State {
    fn default() -> (s: Self)
        ensures
            s@ == initial_model(),
    {
        State { input_text: String::new(), callback: None, visible: false }
    }
}

impl State {
    /// A fresh state: no text, no callback, keyboard hidden.
    pub fn new() -> (s: Self)
        ensures
            s@ == initial_model(),
    {
        State { input_text: String::new(), callback: None, visible: false }
    }

    pub fn is_visible(&self) -> (r: bool)
        ensures
            r == self@.visible,
    {
        self.visible
    }

    /// The current text.
    pub fn input_text(&self) -> (r: &str)
        ensures
            r@ == self@.text,
    {
        self.input_text.as_str()
    }

    /// The registered guest callback.
    pub fn callback(&self) -> (r: Option<GuestFunction>)
        ensures
            r == self@.callback,
    {
        self.callback
    }

    /// The bytes to copy into a fresh guest C string (the NUL is added by
    /// the writer): the UTF-8 encoding of the text. A fresh copy is made on
    /// each call, since the game may `free()` it.
    pub fn strdup_input_text(&self) -> (r: Vec<u8>)
        ensures
            r@ == encode_utf8(self@.text),
    {
        self.input_text.as_str().as_bytes_vec()
    }

    /// Replaces the text.
    pub fn set_input_text(&mut self, text: String)
        ensures
            final(self)@ == (KeyboardModel { text: text@, ..old(self)@ }),
    {
        self.input_text = text;
    }
}

/// Called when a `UITextField`'s content changes (PC keyboard path).
pub fn set_input_text(state: &mut State, text: String)
    ensures
        final(state)@ == (KeyboardModel { text: text@, ..old(state)@ }),
{
    state.set_input_text(text);
}

/// The guest callback to call for a [`KeyboardAction::InvokeCallback`], read
/// when the action is performed.
pub fn invoke_callback(state: &State) -> (r: Option<GuestFunction>)
    ensures
        r == state@.callback,
{
    state.callback
}

/// Routes a host keyboard event while the native keyboard is shown; events
/// that come while it is hidden change nothing.
pub fn handle_pc_text_input(state: &mut State, text_event: TextInputEvent) -> (r: Vec<
    KeyboardAction,
>)
    ensures
        !old(state)@.visible ==> final(state)@ == old(state)@ && r@ == Seq::<KeyboardAction>::empty(),
        old(state)@.visible ==> final(state)@ == (KeyboardModel {
            text: text_after_event(old(state)@.text, text_event),
            ..old(state)@
        }) && r@ == seq![KeyboardAction::InvokeCallback],
{
    if !state.visible {
        return Vec::new();
    }
    match text_event {
        TextInputEvent::Text(text) => {
            let mut combined = state.input_text.clone();
            combined.append(text.as_str());
            state.set_input_text(combined);
        },
        TextInputEvent::Backspace => {
            let _ = string_pop(&mut state.input_text);
        },
        TextInputEvent::Return => {},
    }
    let mut actions = Vec::new();
    actions.push(KeyboardAction::InvokeCallback);
    actions
}

pub fn KBIsReady() -> (r: i32)
    ensures
        r == 1,
{
    1
}

pub fn KBIsVisible(state: &State) -> (r: i32)
    ensures
        r == (if state@.visible { 1i32 } else { 0i32 }),
{
    if state.visible {
        1
    } else {
        0
    }
}

/// Shows the keyboard; always reports success (1).
pub fn KBShow(state: &mut State) -> (r: (i32, Vec<KeyboardAction>))
    ensures
        r.0 == 1,
        (final(state)@, r.1@) == show_model(old(state)@),
        !old(state)@.visible ==> r.1@ == seq![
            KeyboardAction::Post(KeyboardNotification::WillShow),
            KeyboardAction::StartTextInput,
            KeyboardAction::Post(KeyboardNotification::DidShow),
            KeyboardAction::InvokeCallback,
        ],
        old(state)@.visible ==> r.1@.len() == 0,
        final(state)@.visible,
        final(state)@.text == old(state)@.text,
        final(state)@.callback == old(state)@.callback,
{
    let mut actions = Vec::new();
    if state.visible {
        return (1, actions);
    }
    state.visible = true;
    actions.push(KeyboardAction::Post(KeyboardNotification::WillShow));
    actions.push(KeyboardAction::StartTextInput);
    actions.push(KeyboardAction::Post(KeyboardNotification::DidShow));
    actions.push(KeyboardAction::InvokeCallback);
    (1, actions)
}

/// Hides the keyboard; always reports success (1).
pub fn KBHide(state: &mut State) -> (r: (i32, Vec<KeyboardAction>))
    ensures
        r.0 == 1,
        (final(state)@, r.1@) == hide_model(old(state)@),
        old(state)@.visible ==> r.1@ == seq![
            KeyboardAction::Post(KeyboardNotification::WillHide),
            KeyboardAction::StopTextInput,
            KeyboardAction::Post(KeyboardNotification::DidHide),
        ],
        !old(state)@.visible ==> r.1@.len() == 0,
        !final(state)@.visible,
        final(state)@.text == old(state)@.text,
        final(state)@.callback == old(state)@.callback,
{
    let mut actions = Vec::new();
    if !state.visible {
        return (1, actions);
    }
    state.visible = false;
    actions.push(KeyboardAction::Post(KeyboardNotification::WillHide));
    actions.push(KeyboardAction::StopTextInput);
    actions.push(KeyboardAction::Post(KeyboardNotification::DidHide));
    (1, actions)
}

/// `const char* KBGetInputText(void)`: the bytes of a fresh guest C string
/// holding the text (never NULL).
pub fn KBGetInputText(state: &State) -> (r: Vec<u8>)
    ensures
        r@ == encode_utf8(state@.text),
{
    state.strdup_input_text()
}

pub fn KBGetInputTextLength(state: &State) -> (r: i32)
    ensures
        r == text_length_model(state@.text),
        r == (encode_utf8(state@.text).len() as usize) as i32,
        encode_utf8(state@.text).len() < 0x8000_0000 ==> r == encode_utf8(state@.text).len(),
{
    let n = state.input_text.as_str().len();
    n as i32
}

/// Replaces the text with the guest string (`None` for a NULL pointer, which
/// clears the text), then asks for the callback; reports 0.
pub fn KBSetInputText(state: &mut State, text: Option<&[u8]>) -> (r: (i32, Vec<KeyboardAction>))
    ensures
        r.0 == 0,
        r.1@ == seq![KeyboardAction::InvokeCallback],
        final(state)@ == (KeyboardModel {
            text: match text {
                None => Seq::<char>::empty(),
                Some(b) => cstr_text(b@),
            },
            ..old(state)@
        }),
{
    let new_text = match text {
        None => String::new(),
        Some(b) => text_from_cstr(b),
    };
    state.set_input_text(new_text);
    let mut actions = Vec::new();
    actions.push(KeyboardAction::InvokeCallback);
    (0, actions)
}

/// Appends the guest string to the text and asks for the callback; a NULL
/// pointer (`None`) changes nothing. Reports 0.
pub fn KBAppendInputText(state: &mut State, text: Option<&[u8]>) -> (r: (i32, Vec<KeyboardAction>))
    ensures
        r.0 == 0,
        text is None ==> final(state)@ == old(state)@ && r.1@ == Seq::<KeyboardAction>::empty(),
        text matches Some(b) ==> final(state)@ == (KeyboardModel {
            text: old(state)@.text + cstr_text(b@),
            ..old(state)@
        }) && r.1@ == seq![KeyboardAction::InvokeCallback],
{
    match text {
        None => (0, Vec::new()),
        Some(b) => {
            let append = text_from_cstr(b);
            let mut combined = state.input_text.clone();
            combined.append(append.as_str());
            state.set_input_text(combined);
            let mut actions = Vec::new();
            actions.push(KeyboardAction::InvokeCallback);
            (0, actions)
        },
    }
}

/// Clears the text and asks for the callback; reports 0.
pub fn KBClearInputText(state: &mut State) -> (r: (i32, Vec<KeyboardAction>))
    ensures
        r.0 == 0,
        r.1@ == seq![KeyboardAction::InvokeCallback],
        final(state)@ == (KeyboardModel { text: Seq::<char>::empty(), ..old(state)@ }),
{
    state.set_input_text(String::new());
    let mut actions = Vec::new();
    actions.push(KeyboardAction::InvokeCallback);
    (0, actions)
}

/// Registers the guest callback; reports 0.
pub fn KBSetCallback(state: &mut State, callback: GuestFunction) -> (r: i32)
    ensures
        r == 0,
        final(state)@ == (KeyboardModel { callback: Some(callback), ..old(state)@ }),
{
    state.callback = Some(callback);
    0
}

/// The no-op stub for other `_KB*` symbols; reports 1.
pub fn KBNoOp() -> (r: i32)
    ensures
        r == 1,
{
    1
}

/// The stub for `_KB*` string getters that are not modelled precisely: a
/// fresh guest C string holding the text.
pub fn KBEmptyString(state: &State) -> (r: Vec<u8>)
    ensures
        r@ == encode_utf8(state@.text),
{
    state.strdup_input_text()
}

impl KbStub {
    /// The exported name of the stub.
    pub fn name(&self) -> (r: &'static str)
        ensures
            r@ == stub_name(*self),
    {
        match self {
            KbStub::GetInputText => "_KBGetInputText",
            KbStub::GetInputTextLength => "_KBGetInputTextLength",
            KbStub::EmptyString => "_KBEmptyString",
            KbStub::NoOp => "_KBNoOp",
        }
    }
}

/// If `symbol` is an unimplemented `_KB*` helper, the stub to resolve it to.
pub fn dlsym_fallback(symbol: &str) -> (r: Option<KbStub>)
    ensures
        r == kb_stub_for(symbol@),
        r is None <==> !has_prefix(symbol@, "_KB"@),
        r == Some(KbStub::GetInputText) <==> has_prefix(symbol@, "_KB"@) && has_substring(
            symbol@,
            "Get"@,
        ) && has_substring(symbol@, "Text"@) && !has_substring(symbol@, "Length"@),
        r == Some(KbStub::GetInputTextLength) <==> has_prefix(symbol@, "_KB"@) && has_substring(
            symbol@,
            "Length"@,
        ),
        r == Some(KbStub::NoOp) <==> has_prefix(symbol@, "_KB"@) && !has_substring(
            symbol@,
            "Length"@,
        ) && !(has_substring(symbol@, "Get"@) && has_substring(symbol@, "Text"@))
            && !has_substring(symbol@, "String"@) && !has_substring(symbol@, "Ptr"@),
{
    let sym = chars_of(symbol);
    let kb = chars_of("_KB");
    if !starts_with(sym.as_slice(), kb.as_slice()) {
        return None;
    }
    let has_get = contains(sym.as_slice(), chars_of("Get").as_slice());
    let has_text = contains(sym.as_slice(), chars_of("Text").as_slice());
    let has_length = contains(sym.as_slice(), chars_of("Length").as_slice());
    if has_get && has_text && !has_length {
        Some(KbStub::GetInputText)
    } else if has_length {
        Some(KbStub::GetInputTextLength)
    } else if contains(sym.as_slice(), chars_of("String").as_slice()) || contains(
        sym.as_slice(),
        chars_of("Ptr").as_slice(),
    ) {
        Some(KbStub::EmptyString)
    } else {
        Some(KbStub::NoOp)
    }
}

} // verus!
