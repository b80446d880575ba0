use vstd::prelude::*;

use vstd::string::StrSliceExecFns;
use vstd::string::StringExecFns;

verus! {

// The interactive screen's state: the line being edited, the cursor inside
// it, and the conversation so far.  Drawing and key handling live with the
// caller; every edit of the state is decided and performed here.

pub enum CurrentScreen {
    Main,
    Password,
    Certificate,
    Connection,
}

pub enum InputMode {
    Normal,
    Editing,
}

/// Relies on String::push: the result is exactly the one character.
#[verifier::external_body]
fn char_string(c: char) -> (r: String)
    ensures
        r@ == seq![c],
{
    let mut s = String::new();
    s.push(c);
    s
}

pub struct App {
    pub input: String,
    pub character_index: usize,
    pub input_mode: InputMode,
    pub messages: Vec<(bool, String)>,
    pub current_screen: CurrentScreen,
}

impl App {
    /// The cursor always sits on a character of the input line, or one past
    /// its end.
    pub open spec fn wf(&self) -> bool {
        self.character_index <= self.input@.len()
    }

    pub fn new() -> (r: App)
        ensures
            r.wf(),
            r.input@ == Seq::<char>::empty(),
            r.character_index == 0,
            r.input_mode is Normal,
            r.current_screen is Main,
            r.messages@ == Seq::<(bool, String)>::empty(),
    {
        App {
            input: String::new(),
            character_index: 0,
            input_mode: InputMode::Normal,
            current_screen: CurrentScreen::Main,
            messages: Vec::new(),
        }
    }

    /// Bounds a would-be cursor position to the input line.
    pub fn clamp_cursor(&self, new_cursor_pos: usize) -> (r: usize)
        ensures
            r == if new_cursor_pos <= self.input@.len() {
                new_cursor_pos as int
            } else {
                self.input@.len() as int
            },
    {
        let len = self.input.as_str().unicode_len();
        if new_cursor_pos < len {
            new_cursor_pos
        } else {
            len
        }
    }

    /// Moves the cursor one character left, stopping at the start.
    pub fn move_cursor_left(&mut self)
        ensures
            final(self).wf(),
            final(self).input == old(self).input,
            final(self).messages == old(self).messages,
            final(self).character_index == if old(self).character_index > 0 {
                if old(self).character_index - 1 <= old(self).input@.len() {
                    old(self).character_index - 1
                } else {
                    old(self).input@.len() as int
                }
            } else {
                0
            },
    {
        let cursor_moved_left = if self.character_index > 0 {
            self.character_index - 1
        } else {
            0
        };
        self.character_index = self.clamp_cursor(cursor_moved_left);
    }

    /// Moves the cursor one character right, stopping past the last
    /// character.
    pub fn move_cursor_right(&mut self)
        ensures
            final(self).wf(),
            final(self).input == old(self).input,
            final(self).messages == old(self).messages,
            final(self).character_index == ({
                let moved: int = if old(self).character_index < usize::MAX {
                    old(self).character_index + 1
                } else {
                    usize::MAX as int
                };
                if moved <= old(self).input@.len() {
                    moved
                } else {
                    old(self).input@.len() as int
                }
            }),
    {
        let cursor_moved_right = if self.character_index < usize::MAX {
            self.character_index + 1
        } else {
            usize::MAX
        };
        self.character_index = self.clamp_cursor(cursor_moved_right);
    }

    /// The byte position of the cursor inside the input line's UTF-8 text.
    pub fn byte_index(&self) -> (r: usize)
        requires
            self.wf(),
        ensures
            r == vstd::utf8::encode_utf8(
                self.input@.take(self.character_index as int),
            ).len() as usize,
    {
        let len = self.input.as_str().unicode_len();
        let prefix = self.input.as_str().substring_char(0, self.character_index);
        proof {
            assert(prefix@ =~= self.input@.take(self.character_index as int));
        }
        prefix.len()
    }

    /// Inserts a character at the cursor and moves the cursor past it.
    pub fn enter_char(&mut self, new_char: char)
        requires
            old(self).wf(),
            old(self).input@.len() < usize::MAX,
        ensures
            final(self).wf(),
            final(self).input@ == old(self).input@.take(old(self).character_index as int) + seq![
                new_char,
            ] + old(self).input@.skip(old(self).character_index as int),
            final(self).character_index == old(self).character_index + 1,
            final(self).messages == old(self).messages,
    {
        let ci = self.character_index;
        let len = self.input.as_str().unicode_len();
        let mut s = String::from_str(self.input.as_str().substring_char(0, ci));
        s.append(char_string(new_char).as_str());
        s.append(self.input.as_str().substring_char(ci, len));
        proof {
            assert(s@ =~= self.input@.take(ci as int) + seq![new_char] + self.input@.skip(
                ci as int,
            ));
        }
        self.input = s;
        self.move_cursor_right();
    }

    /// Deletes the character left of the cursor and moves the cursor onto
    /// its place; at the start of the line nothing changes.
    pub fn delete_char(&mut self)
        requires
            old(self).wf(),
        ensures
            final(self).wf(),
            final(self).messages == old(self).messages,
            old(self).character_index == 0 ==> final(self).input == old(self).input
                && final(self).character_index == 0,
            old(self).character_index > 0 ==> final(self).input@ == old(self).input@.take(
                old(self).character_index - 1,
            ) + old(self).input@.skip(old(self).character_index as int)
                && final(self).character_index == old(self).character_index - 1,
    {
        let is_not_cursor_leftmost = self.character_index != 0;
        if is_not_cursor_leftmost {
            let current_index = self.character_index;
            let from_left_to_current_index = current_index - 1;
            let len = self.input.as_str().unicode_len();
            let mut s = String::from_str(
                self.input.as_str().substring_char(0, from_left_to_current_index),
            );
            s.append(self.input.as_str().substring_char(current_index, len));
            proof {
                assert(s@ =~= self.input@.take(current_index - 1) + self.input@.skip(
                    current_index as int,
                ));
            }
            self.input = s;
            self.move_cursor_left();
        }
    }

    /// Puts the cursor at the start of the line.
    pub fn reset_cursor(&mut self)
        ensures
            final(self).wf(),
            final(self).input == old(self).input,
            final(self).messages == old(self).messages,
            final(self).character_index == 0,
    {
        self.character_index = 0;
    }

    /// Appends the edited line to the conversation as a message of this side
    /// and clears the line.
    pub fn submit_message(&mut self)
        ensures
            final(self).wf(),
            final(self).messages.deep_view() == old(self).messages.deep_view().push(
                (true, old(self).input@),
            ),
            final(self).input@ == Seq::<char>::empty(),
            final(self).character_index == 0,
    {
        let line = self.input.clone();
        self.messages.push((true, line));
        proof {
            assert(self.messages.deep_view() =~~= old(self).messages.deep_view().push(
                (true, old(self).input@),
            ));
        }
        self.input = String::new();
        self.reset_cursor();
    }
}

} // verus!
