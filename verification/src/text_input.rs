use vstd::prelude::*;
use crate::text::{pop_char, push_char};

verus! {

/// A text field: whether it shows stars, whether it takes digits only, and
/// its text.
pub struct TextInput {
    pub hidden: bool,
    pub numbers_only: bool,
    pub text: String,
}

/// The values of a text field.
pub struct TextInputView {
    pub hidden: bool,
    pub numbers_only: bool,
    pub text: Seq<char>,
}

impl View for TextInput {
    type V = TextInputView;

    open spec fn view(&self) -> TextInputView {
        TextInputView { hidden: self.hidden, numbers_only: self.numbers_only, text: self.text@ }
    }
}

/// Which system handles a field: plain fields take pasted text and may be
/// digits-only; password fields toggle their stars and submit with Enter.
#[derive(Clone, Copy, PartialEq, Eq, Debug, Structural)]
pub enum TextInputKind {
    Plain,
    Password,
}

/// What happens to the focused field.
pub enum TextInputEvent {
    /// Backspace was pressed, or its repeat timer fired while held.
    Backspace,
    /// Home was pressed.
    ToggleHidden,
    /// Enter was pressed.
    Submit,
    /// The right mouse button pasted this clipboard text.
    Paste(String),
    /// The keyboard produced this text.
    Received(String),
}

/// What the front end does after a field event.
#[derive(Clone, Copy, PartialEq, Eq, Debug, Structural)]
pub enum TextInputAction {
    Nothing,
    /// Restart the backspace repeat timer.
    ResetBackspaceTimer,
    /// Try to unlock the wallet with the password.
    Unlock,
}

/// A control character (Unicode category Cc): U+0000 to U+001F and U+007F
/// to U+009F, the characters `char::is_control` accepts.
pub open spec fn is_control_char(c: char) -> bool {
    c <= '\u{1f}' || ('\u{7f}' <= c && c <= '\u{9f}')
}

/// `char::is_control`, written out from its definition (category Cc).
pub fn char_is_control(c: char) -> (b: bool)
    ensures
        b == is_control_char(c),
{
    c <= '\u{1f}' || ('\u{7f}' <= c && c <= '\u{9f}')
}

/// Whether `char::is_numeric` accepts a character (Unicode number
/// categories Nd, Nl and No).
pub uninterp spec fn numeric_char(c: char) -> bool;

/// `char::is_numeric`: whether the character is in one of Unicode's number
/// categories. Its tables are not restated; of its result only the
/// documented fact is claimed that the ASCII digits are numbers.
#[verifier::external_body]
fn char_is_numeric(c: char) -> (b: bool)
    ensures
        b == numeric_char(c),
        '0' <= c <= '9' ==> b,
{
    c.is_numeric()
}

/// Whether a field keeps text the keyboard produced: the text's first
/// character must exist and not be a control character, and a plain
/// digits-only field takes it only when that character is numeric.
pub open spec fn accepts_received(input: TextInputView, kind: TextInputKind, s: Seq<char>) -> bool {
    &&& s.len() > 0
    &&& !is_control_char(s[0])
    &&& (kind == TextInputKind::Plain && input.numbers_only ==> numeric_char(s[0]))
}

/// A field after one event, and the front end's action.
pub open spec fn text_input_step(input: TextInputView, kind: TextInputKind, event: TextInputEvent) -> (TextInputView, TextInputAction) {
    match event {
        TextInputEvent::Backspace => (
            TextInputView {
                text: if input.text.len() > 0 { input.text.drop_last() } else { input.text },
                ..input
            },
            TextInputAction::ResetBackspaceTimer,
        ),
        TextInputEvent::ToggleHidden => if kind == TextInputKind::Password {
            (TextInputView { hidden: !input.hidden, ..input }, TextInputAction::Nothing)
        } else {
            (input, TextInputAction::Nothing)
        },
        TextInputEvent::Submit => if kind == TextInputKind::Password {
            (input, TextInputAction::Unlock)
        } else {
            (input, TextInputAction::Nothing)
        },
        TextInputEvent::Paste(t) => if kind == TextInputKind::Plain {
            (TextInputView { text: t@, ..input }, TextInputAction::Nothing)
        } else {
            (input, TextInputAction::Nothing)
        },
        TextInputEvent::Received(s) => if accepts_received(input, kind, s@) {
            (TextInputView { text: input.text + s@, ..input }, TextInputAction::Nothing)
        } else {
            (input, TextInputAction::Nothing)
        },
    }
}

impl TextInput {
    /// Applies a keyboard or mouse event to the focused field.
    pub fn apply(&mut self, kind: TextInputKind, event: TextInputEvent) -> (action: TextInputAction)
        ensures
            (final(self)@, action) == text_input_step(old(self)@, kind, event),
    {
        match event {
            TextInputEvent::Backspace => {
                let _ = pop_char(&mut self.text);
                TextInputAction::ResetBackspaceTimer
            },
            TextInputEvent::ToggleHidden => {
                if kind == TextInputKind::Password {
                    self.hidden = !self.hidden;
                }
                TextInputAction::Nothing
            },
            TextInputEvent::Submit => {
                if kind == TextInputKind::Password {
                    TextInputAction::Unlock
                } else {
                    TextInputAction::Nothing
                }
            },
            TextInputEvent::Paste(t) => {
                if kind == TextInputKind::Plain {
                    self.text = t;
                }
                TextInputAction::Nothing
            },
            TextInputEvent::Received(s) => {
                if s.as_str().unicode_len() == 0 {
                    return TextInputAction::Nothing;
                }
                let c = s.as_str().get_char(0);
                if char_is_control(c) {
                    return TextInputAction::Nothing;
                }
                if kind == TextInputKind::Plain && self.numbers_only && !char_is_numeric(c) {
                    return TextInputAction::Nothing;
                }
                self.text.append(s.as_str());
                TextInputAction::Nothing
            },
        }
    }
}

/// Typing one character that the field keeps and then pressing Backspace
/// gives back the field as it was.
pub proof fn law_type_then_backspace(input: TextInputView, kind: TextInputKind, s: String)
    requires
        s@.len() == 1,
        accepts_received(input, kind, s@),
    ensures
        text_input_step(text_input_step(input, kind, TextInputEvent::Received(s)).0, kind, TextInputEvent::Backspace).0
            == input,
{
    let typed = text_input_step(input, kind, TextInputEvent::Received(s)).0;
    assert(typed.text.drop_last() =~= input.text);
}

/// Text that a field keeps is stored as typed, after what was there, in
/// plain and password fields alike and whether or not the field shows stars
/// (the stars are only in what is displayed); the field's settings stay and
/// nothing is asked of the front end. Text the field does not keep leaves it
/// as it was.
pub proof fn law_received_text_is_stored(input: TextInputView, kind: TextInputKind, s: String)
    ensures
        accepts_received(input, kind, s@) ==> {
            let after = text_input_step(input, kind, TextInputEvent::Received(s));
            &&& after.0.text == input.text + s@
            &&& after.0.hidden == input.hidden
            &&& after.0.numbers_only == input.numbers_only
            &&& after.1 == TextInputAction::Nothing
        },
        !accepts_received(input, kind, s@) ==> text_input_step(input, kind, TextInputEvent::Received(s)).0
            == input,
{
}

/// Toggling a password field's stars twice shows it as before.
pub proof fn law_toggle_hidden_twice(input: TextInputView)
    ensures
        text_input_step(
            text_input_step(input, TextInputKind::Password, TextInputEvent::ToggleHidden).0,
            TextInputKind::Password,
            TextInputEvent::ToggleHidden,
        ).0 == input,
{
}

/// A plain digits-only field ignores text whose first character is not
/// numeric.
pub proof fn law_digits_only_rejects(input: TextInputView, s: String)
    requires
        input.numbers_only,
        s@.len() > 0,
        !numeric_char(s@[0]),
    ensures
        text_input_step(input, TextInputKind::Plain, TextInputEvent::Received(s)).0 == input,
{
}

} // verus!
