//! The keys that the terminal client knows, and its line of input.

use vstd::prelude::*;

verus! {

/// A key.
#[derive(Debug, Clone, Copy, PartialEq, Eq, Structural)]
pub enum KeyCode {
    Char(char),
    F(u8),
    Enter,
    Backspace,
    Delete,
    Left,
    Right,
    Up,
    Down,
    Home,
    End,
    Esc,
    Other,
}

/// The keys that are held down along with another one.
#[derive(Debug, Clone, Copy, PartialEq, Eq, Structural)]
pub struct KeyModifiers {
    pub control: bool,
    pub shift: bool,
    pub other: bool,
}

impl KeyModifiers {
    /// Whether a character that is typed with these is meant as such: with none,
    /// or with shift alone.
    pub open spec fn spec_plain(self) -> bool {
        !self.control && !self.other
    }

    /// Computes [`KeyModifiers::spec_plain`].
    pub fn is_plain(&self) -> (r: bool)
        ensures
            r == self.spec_plain(),
    {
        !self.control && !self.other
    }
}

/// A key that was pressed.
#[derive(Debug, Clone, Copy, PartialEq, Eq, Structural)]
pub struct KeyEvent {
    pub code: KeyCode,
    pub modifiers: KeyModifiers,
}

impl From<KeyCode> for KeyEvent {
    fn from(code: KeyCode) -> (event: KeyEvent) {
        KeyEvent {
            code,
            modifiers: KeyModifiers { control: false, shift: false, other: false },
        }
    }
}

impl vstd::std_specs::convert::FromSpecImpl<KeyCode> for KeyEvent {
    open spec fn obeys_from_spec() -> bool {
        true
    }

    open spec fn from_spec(code: KeyCode) -> KeyEvent {
        KeyEvent {
            code,
            modifiers: KeyModifiers { control: false, shift: false, other: false },
        }
    }
}

/// A line of text with a cursor, which counts characters.
#[derive(Debug, PartialEq, Eq)]
pub struct InputState {
    pub text: String,
    pub cursor: usize,
}

/// The contents of an [`InputState`].
#[verifier::ext_equal]
pub struct InputView {
    pub text: Seq<char>,
    pub cursor: int,
}

impl View for InputState {
    type V = InputView;

    open spec fn view(&self) -> InputView {
        InputView { text: self.text@, cursor: self.cursor as int }
    }
}

impl InputView {
    /// An empty line.
    pub open spec fn cleared() -> Self {
        InputView { text: Seq::empty(), cursor: 0 }
    }

    /// Whether the cursor stands within the text or behind its end.
    pub open spec fn valid(self) -> bool {
        0 <= self.cursor <= self.text.len()
    }

    /// The line with a character put in at the cursor.
    pub open spec fn inserted(self, ch: char) -> Self {
        InputView { text: self.text.insert(self.cursor, ch), cursor: self.cursor + 1 }
    }

    /// The line without the character before the cursor.
    pub open spec fn deleted_before(self) -> Self {
        if self.cursor == 0 {
            self
        } else {
            InputView { text: self.text.remove(self.cursor - 1), cursor: self.cursor - 1 }
        }
    }

    /// The line without the character at the cursor.
    pub open spec fn deleted_at(self) -> Self {
        if self.cursor >= self.text.len() {
            self
        } else {
            InputView { text: self.text.remove(self.cursor), ..self }
        }
    }

    /// The line with the cursor one character further left.
    pub open spec fn moved_left(self) -> Self {
        InputView {
            cursor: if self.cursor > 0 {
                self.cursor - 1
            } else {
                0
            },
            ..self
        }
    }

    /// The line with the cursor one character further right.
    pub open spec fn moved_right(self) -> Self {
        InputView {
            cursor: if self.cursor < self.text.len() {
                self.cursor + 1
            } else {
                self.text.len() as int
            },
            ..self
        }
    }

    /// The line with the cursor before its first character.
    pub open spec fn moved_home(self) -> Self {
        InputView { cursor: 0, ..self }
    }

    /// The line with the cursor behind its last character.
    pub open spec fn moved_end(self) -> Self {
        InputView { cursor: self.text.len() as int, ..self }
    }

    /// The line after a key that is meant for it; any other key leaves it alone.
    pub open spec fn keyed(self, key: KeyEvent) -> Self {
        match key.code {
            KeyCode::Backspace => self.deleted_before(),
            KeyCode::Delete => self.deleted_at(),
            KeyCode::Left => self.moved_left(),
            KeyCode::Right => self.moved_right(),
            KeyCode::Home => self.moved_home(),
            KeyCode::End => self.moved_end(),
            KeyCode::Char(ch) => if key.modifiers.spec_plain() {
                self.inserted(ch)
            } else {
                self
            },
            _ => self,
        }
    }
}

impl Default for InputState {
    fn default() -> (input: Self)
        ensures
            input@ == InputView::cleared(),
    {
        InputState { text: String::new(), cursor: 0 }
    }
}

impl InputState {
    /// Empties the line.
    pub fn clear(&mut self)
        ensures
            final(self)@ == InputView::cleared(),
    {
        self.text = String::new();
        self.cursor = 0;
    }

    /// Puts a character in at the cursor.
    pub fn insert(&mut self, ch: char)
        requires
            old(self)@.valid(),
        ensures
            final(self)@ == old(self)@.inserted(ch),
    {
        let mut chars = crate::text::chars_of(self.text.as_str());
        chars.insert(self.cursor, ch);
        let end = chars.len();
        self.text = crate::text::string_from(&chars, 0, end);
        self.cursor += 1;
    }

    /// Takes the character at a position out.
    fn remove_at(&mut self, index: usize)
        requires
            index < old(self)@.text.len(),
        ensures
            final(self)@ == (InputView {
                text: old(self)@.text.remove(index as int),
                ..old(self)@
            }),
    {
        let mut chars = crate::text::chars_of(self.text.as_str());
        chars.remove(index);
        let end = chars.len();
        self.text = crate::text::string_from(&chars, 0, end);
    }

    /// Takes the character before the cursor out.
    pub fn delete_before_cursor(&mut self)
        requires
            old(self)@.valid(),
        ensures
            final(self)@ == old(self)@.deleted_before(),
    {
        if self.cursor == 0 {
            return;
        }
        self.cursor -= 1;
        let index = self.cursor;
        self.remove_at(index);
    }

    /// Takes the character at the cursor out.
    pub fn delete_at_cursor(&mut self)
        ensures
            final(self)@ == old(self)@.deleted_at(),
    {
        if self.cursor >= self.len_chars() {
            return;
        }
        let index = self.cursor;
        self.remove_at(index);
    }

    pub fn move_left(&mut self)
        ensures
            final(self)@ == old(self)@.moved_left(),
    {
        self.cursor = self.cursor.saturating_sub(1);
    }

    pub fn move_right(&mut self)
        ensures
            final(self)@ == old(self)@.moved_right(),
    {
        let len = self.len_chars();
        self.cursor = if self.cursor < len {
            self.cursor + 1
        } else {
            len
        };
    }

    pub fn move_home(&mut self)
        ensures
            final(self)@ == old(self)@.moved_home(),
    {
        self.cursor = 0;
    }

    pub fn move_end(&mut self)
        ensures
            final(self)@ == old(self)@.moved_end(),
    {
        self.cursor = self.len_chars();
    }

    /// The text before the cursor and the text behind it.
    pub fn split_for_render(&self) -> (parts: (String, String))
        requires
            self@.valid(),
        ensures
            parts.0@ == self@.text.take(self@.cursor),
            parts.1@ == self@.text.skip(self@.cursor),
    {
        let chars = crate::text::chars_of(self.text.as_str());
        let before = crate::text::string_from(&chars, 0, self.cursor);
        let behind = crate::text::string_from(&chars, self.cursor, chars.len());
        assert(before@ =~= self@.text.take(self@.cursor));
        assert(behind@ =~= self@.text.skip(self@.cursor));
        (before, behind)
    }

    /// How many characters the line has.
    pub fn len_chars(&self) -> (len: usize)
        ensures
            len == self@.text.len(),
    {
        self.text.as_str().unicode_len()
    }
}

/// Whatever key comes, the cursor stays within the text.
pub proof fn the_cursor_stays_in_the_text(input: InputView, key: KeyEvent)
    requires
        input.valid(),
    ensures
        input.keyed(key).valid(),
{
}

/// What was typed can be taken back, from either side.
pub proof fn typing_can_be_undone(input: InputView, ch: char)
    requires
        input.valid(),
    ensures
        input.inserted(ch).deleted_before() == input,
        input.inserted(ch).moved_left().deleted_at() == input,
{
    let typed = input.text.insert(input.cursor, ch);
    assert(typed.remove(input.cursor) =~= input.text);
}

/// The text before the cursor and the text behind it make up the line.
pub proof fn a_split_line_is_whole(input: InputView)
    requires
        input.valid(),
    ensures
        input.text.take(input.cursor) + input.text.skip(input.cursor) == input.text,
{
    assert(input.text.take(input.cursor) + input.text.skip(input.cursor) =~= input.text);
}

} // verus!
