//! The editing state of a number field: its text, a cursor counted in
//! characters, and whether the whole text is selected.

use vstd::prelude::*;
use crate::text::{str_eq, chars_of, char_is_whitespace, is_unicode_whitespace, string_from_chars};

verus! {

/// Characters a number field accepts: ASCII digits, `.`, `-` and `+`.
pub open spec fn is_numeric_char(c: char) -> bool {
    ('0' <= c <= '9') || c == '.' || c == '-' || c == '+'
}

/// Moves `p` left over the whitespace just before it.
pub open spec fn skip_space_back(t: Seq<char>, p: int) -> int
    decreases p,
{
    if 0 < p <= t.len() && is_unicode_whitespace(t[p - 1]) {
        skip_space_back(t, p - 1)
    } else {
        p
    }
}

/// Moves `p` left over the non-whitespace just before it.
pub open spec fn skip_word_back(t: Seq<char>, p: int) -> int
    decreases p,
{
    if 0 < p <= t.len() && !is_unicode_whitespace(t[p - 1]) {
        skip_word_back(t, p - 1)
    } else {
        p
    }
}

/// Moves `p` right over the whitespace at it.
pub open spec fn skip_space_forward(t: Seq<char>, p: int) -> int
    decreases t.len() - p,
{
    if 0 <= p < t.len() && is_unicode_whitespace(t[p]) {
        skip_space_forward(t, p + 1)
    } else {
        p
    }
}

/// Moves `p` right over the non-whitespace at it.
pub open spec fn skip_word_forward(t: Seq<char>, p: int) -> int
    decreases t.len() - p,
{
    if 0 <= p < t.len() && !is_unicode_whitespace(t[p]) {
        skip_word_forward(t, p + 1)
    } else {
        p
    }
}

/// Start of the word before `p` (whitespace before `p` is skipped first).
pub open spec fn word_start_before(t: Seq<char>, p: int) -> int {
    skip_word_back(t, skip_space_back(t, p))
}

/// End of the word after `p` (whitespace after `p` is skipped first).
pub open spec fn word_end_after(t: Seq<char>, p: int) -> int {
    skip_word_forward(t, skip_space_forward(t, p))
}

/// The numeric characters of `s`, in order.
pub open spec fn numeric_chars(s: Seq<char>) -> Seq<char> {
    s.filter(|c: char| is_numeric_char(c))
}

/// Editing state of a number field.
#[derive(Clone)]
pub struct NumberEditState {
    /// Whether the field is being edited.
    pub editing: bool,
    /// The text being edited.
    pub text: Vec<char>,
    /// Cursor position, in characters.
    pub cursor: usize,
    /// Whether the whole text is selected.
    pub text_selected: bool,
}

impl Default for NumberEditState {
    /// Not editing, empty text, cursor at 0, nothing selected.
    fn default() -> (s: NumberEditState)
        ensures
            !s.editing,
            s.text@ == Seq::<char>::empty(),
            s.cursor == 0,
            !s.text_selected,
    {
        NumberEditState { editing: false, text: Vec::new(), cursor: 0, text_selected: false }
    }
}

/// The characters of `t` from `from` to `to`, appended to `out`.
fn push_range(out: &mut Vec<char>, t: &Vec<char>, from: usize, to: usize)
    requires
        from <= to <= t@.len(),
    ensures
        final(out)@ == old(out)@ + t@.subrange(from as int, to as int),
{
    let mut i = from;
    while i < to
        invariant
            from <= i <= to,
            to <= t@.len(),
            out@ == old(out)@ + t@.subrange(from as int, i as int),
        decreases to - i,
    {
        out.push(t[i]);
        assert(t@.subrange(from as int, i + 1) =~= t@.subrange(from as int, i as int).push(t@[i as int]));
        i = i + 1;
    }
}

impl NumberEditState {
    /// The cursor lies within the text.
    pub open spec fn inv(&self) -> bool {
        self.cursor <= self.text@.len()
    }

    /// Starts editing `value`: whole text selected, cursor at the end.
    pub fn new(value: &str) -> (s: NumberEditState)
        ensures
            s.editing,
            s.text@ == value@,
            s.cursor == value@.len(),
            s.text_selected,
            s.inv(),
    {
        let text = chars_of(value);
        let cursor = text.len();
        NumberEditState { editing: true, text, cursor, text_selected: true }
    }

    /// The text as a string.
    pub fn text_string(&self) -> (s: String)
        ensures
            s@ == self.text@,
    {
        string_from_chars(&self.text)
    }

    /// Selects the whole text and puts the cursor at its end.
    pub fn select_all(&mut self)
        ensures
            final(self).text_selected,
            final(self).cursor == old(self).text@.len(),
            final(self).text@ == old(self).text@,
            final(self).editing == old(self).editing,
    {
        self.text_selected = true;
        self.cursor = self.text.len();
    }

    /// Clears the text when it is all selected; otherwise deletes the
    /// character before the cursor, if any.
    pub fn do_backspace(&mut self)
        requires
            old(self).inv(),
        ensures
            final(self).inv(),
            final(self).editing == old(self).editing,
            old(self).text_selected ==> final(self).text@ == Seq::<char>::empty()
                && final(self).cursor == 0 && !final(self).text_selected,
            !old(self).text_selected && old(self).cursor > 0 ==> final(self).text@
                == old(self).text@.remove(old(self).cursor - 1) && final(self).cursor
                == old(self).cursor - 1 && !final(self).text_selected,
            !old(self).text_selected && old(self).cursor == 0 ==> *final(self) == *old(self),
    {
        if self.text_selected {
            self.text.clear();
            self.cursor = 0;
            self.text_selected = false;
        } else if self.cursor > 0 {
            self.text.remove(self.cursor - 1);
            self.cursor = self.cursor - 1;
        }
    }

    /// Clears the text when it is all selected; otherwise deletes the
    /// character at the cursor, if any.
    pub fn do_delete(&mut self)
        requires
            old(self).inv(),
        ensures
            final(self).inv(),
            final(self).editing == old(self).editing,
            old(self).text_selected ==> final(self).text@ == Seq::<char>::empty()
                && final(self).cursor == 0 && !final(self).text_selected,
            !old(self).text_selected && old(self).cursor < old(self).text@.len()
                ==> final(self).text@ == old(self).text@.remove(old(self).cursor as int)
                && final(self).cursor == old(self).cursor && !final(self).text_selected,
            !old(self).text_selected && old(self).cursor == old(self).text@.len()
                ==> *final(self) == *old(self),
    {
        if self.text_selected {
            self.text.clear();
            self.cursor = 0;
            self.text_selected = false;
        } else if self.cursor < self.text.len() {
            self.text.remove(self.cursor);
        }
    }

    /// Types one character: anything but a digit, `.`, `-` or `+` is ignored;
    /// a selected text is replaced.
    pub fn insert_char(&mut self, ch: char)
        requires
            old(self).inv(),
            old(self).text@.len() < usize::MAX,
        ensures
            final(self).inv(),
            final(self).editing == old(self).editing,
            !is_numeric_char(ch) ==> *final(self) == *old(self),
            is_numeric_char(ch) && old(self).text_selected ==> final(self).text@ == seq![ch]
                && final(self).cursor == 1 && !final(self).text_selected,
            is_numeric_char(ch) && !old(self).text_selected ==> final(self).text@
                == old(self).text@.insert(old(self).cursor as int, ch) && final(self).cursor
                == old(self).cursor + 1 && !final(self).text_selected,
    {
        if !(('0' <= ch && ch <= '9') || ch == '.' || ch == '-' || ch == '+') {
            return;
        }
        if self.text_selected {
            self.text.clear();
            self.cursor = 0;
            self.text_selected = false;
        }
        self.text.insert(self.cursor, ch);
        self.cursor = self.cursor + 1;
        proof {
            if old(self).text_selected {
                assert(self.text@ =~= seq![ch]);
            }
        }
    }

    /// Moves the cursor one character left and drops the selection.
    pub fn move_left(&mut self)
        ensures
            final(self).cursor == if old(self).cursor > 0 {
                old(self).cursor - 1
            } else {
                0
            },
            final(self).text@ == old(self).text@,
            final(self).editing == old(self).editing,
            !final(self).text_selected,
    {
        if self.cursor > 0 {
            self.cursor = self.cursor - 1;
        }
        self.text_selected = false;
    }

    /// Moves the cursor one character right (not past the end) and drops the selection.
    pub fn move_right(&mut self)
        ensures
            final(self).cursor == if old(self).cursor < old(self).text@.len() {
                old(self).cursor + 1
            } else {
                old(self).cursor as int
            },
            final(self).text@ == old(self).text@,
            final(self).editing == old(self).editing,
            !final(self).text_selected,
    {
        if self.cursor < self.text.len() {
            self.cursor = self.cursor + 1;
        }
        self.text_selected = false;
    }

    /// Moves the cursor to the start and drops the selection.
    pub fn move_to_start(&mut self)
        ensures
            final(self).cursor == 0,
            final(self).text@ == old(self).text@,
            final(self).editing == old(self).editing,
            !final(self).text_selected,
    {
        self.cursor = 0;
        self.text_selected = false;
    }

    /// Moves the cursor to the end and drops the selection.
    pub fn move_to_end(&mut self)
        ensures
            final(self).cursor == old(self).text@.len(),
            final(self).text@ == old(self).text@,
            final(self).editing == old(self).editing,
            !final(self).text_selected,
    {
        self.cursor = self.text.len();
        self.text_selected = false;
    }

    /// Deletes everything after the cursor.
    pub fn kill_to_end(&mut self)
        requires
            old(self).inv(),
        ensures
            final(self).inv(),
            final(self).text@ == old(self).text@.take(old(self).cursor as int),
            final(self).cursor == old(self).cursor,
            final(self).editing == old(self).editing,
            !final(self).text_selected,
    {
        self.text.truncate(self.cursor);
        self.text_selected = false;
    }

    /// Deletes everything before the cursor, which moves to the start.
    pub fn kill_to_start(&mut self)
        requires
            old(self).inv(),
        ensures
            final(self).inv(),
            final(self).text@ == old(self).text@.skip(old(self).cursor as int),
            final(self).cursor == 0,
            final(self).editing == old(self).editing,
            !final(self).text_selected,
    {
        let mut rest: Vec<char> = Vec::new();
        push_range(&mut rest, &self.text, self.cursor, self.text.len());
        assert(rest@ =~= self.text@.skip(self.cursor as int));
        self.text = rest;
        self.cursor = 0;
        self.text_selected = false;
    }

    /// Deletes the word before the cursor (and the whitespace between them).
    pub fn kill_word_backward(&mut self)
        requires
            old(self).inv(),
        ensures
            final(self).inv(),
            old(self).cursor == 0 ==> *final(self) == *old(self),
            old(self).cursor > 0 ==> {
                let p = word_start_before(old(self).text@, old(self).cursor as int);
                &&& final(self).text@ == old(self).text@.take(p) + old(self).text@.skip(
                    old(self).cursor as int,
                )
                &&& final(self).cursor == p
                &&& !final(self).text_selected
            },
            final(self).editing == old(self).editing,
    {
        if self.cursor == 0 {
            return;
        }
        let ghost t = self.text@;
        let mut p = self.cursor;
        while p > 0 && char_is_whitespace(self.text[p - 1])
            invariant
                p <= self.cursor,
                self.text@ == t,
                self.cursor <= t.len(),
                skip_space_back(t, p as int) == skip_space_back(t, self.cursor as int),
            decreases p,
        {
            p = p - 1;
        }
        let ghost q = p;
        while p > 0 && !char_is_whitespace(self.text[p - 1])
            invariant
                p <= q <= self.cursor,
                self.text@ == t,
                self.cursor <= t.len(),
                q == skip_space_back(t, self.cursor as int),
                skip_word_back(t, p as int) == skip_word_back(t, q as int),
            decreases p,
        {
            p = p - 1;
        }
        let mut out: Vec<char> = Vec::new();
        push_range(&mut out, &self.text, 0, p);
        push_range(&mut out, &self.text, self.cursor, self.text.len());
        assert(out@ =~= t.take(p as int) + t.skip(self.cursor as int));
        self.text = out;
        self.cursor = p;
        self.text_selected = false;
    }

    /// Deletes the word after the cursor (and the whitespace between them).
    pub fn kill_word_forward(&mut self)
        requires
            old(self).inv(),
        ensures
            final(self).inv(),
            ({
                let e = word_end_after(old(self).text@, old(self).cursor as int);
                &&& final(self).text@ == old(self).text@.take(old(self).cursor as int)
                    + old(self).text@.skip(e)
                &&& final(self).cursor == old(self).cursor
                &&& !final(self).text_selected
            }),
            final(self).editing == old(self).editing,
    {
        let ghost t = self.text@;
        let len = self.text.len();
        let mut p = self.cursor;
        while p < len && char_is_whitespace(self.text[p])
            invariant
                self.cursor <= p <= len,
                len == t.len(),
                self.text@ == t,
                skip_space_forward(t, p as int) == skip_space_forward(t, self.cursor as int),
            decreases len - p,
        {
            p = p + 1;
        }
        let ghost q = p;
        while p < len && !char_is_whitespace(self.text[p])
            invariant
                self.cursor <= q <= p <= len,
                len == t.len(),
                self.text@ == t,
                q == skip_space_forward(t, self.cursor as int),
                skip_word_forward(t, p as int) == skip_word_forward(t, q as int),
            decreases len - p,
        {
            p = p + 1;
        }
        let mut out: Vec<char> = Vec::new();
        push_range(&mut out, &self.text, 0, self.cursor);
        push_range(&mut out, &self.text, p, len);
        assert(out@ =~= t.take(self.cursor as int) + t.skip(p as int));
        self.text = out;
        self.text_selected = false;
    }

    /// The whole text, when it is selected and not empty.
    pub fn get_selected_text(&self) -> (r: Option<String>)
        ensures
            r is Some <==> self.text_selected && self.text@.len() > 0,
            r matches Some(s) ==> s@ == self.text@,
    {
        if self.text_selected && self.text.len() > 0 {
            Some(self.text_string())
        } else {
            None
        }
    }

    /// Clears a selected text; returns whether there was a selection.
    pub fn delete_selected(&mut self) -> (deleted: bool)
        ensures
            deleted == old(self).text_selected,
            deleted ==> final(self).text@ == Seq::<char>::empty() && final(self).cursor == 0
                && !final(self).text_selected,
            !deleted ==> *final(self) == *old(self),
            final(self).editing == old(self).editing,
    {
        if self.text_selected {
            self.text.clear();
            self.cursor = 0;
            self.text_selected = false;
            true
        } else {
            false
        }
    }

    /// Pastes `s`: a selected text is cleared first, then the numeric
    /// characters of `s` are inserted at the cursor, which moves past them.
    pub fn insert_str(&mut self, s: &str)
        requires
            old(self).inv(),
            old(self).text@.len() + s@.len() <= usize::MAX,
        ensures
            final(self).inv(),
            ({
                let base = if old(self).text_selected {
                    Seq::<char>::empty()
                } else {
                    old(self).text@
                };
                let at: int = if old(self).text_selected {
                    0
                } else {
                    old(self).cursor as int
                };
                let ins = numeric_chars(s@);
                &&& final(self).text@ == base.take(at) + ins + base.skip(at)
                &&& final(self).cursor == at + ins.len()
                &&& !final(self).text_selected
            }),
            final(self).editing == old(self).editing,
    {
        self.delete_selected();
        let chars = chars_of(s);
        let mut filtered: Vec<char> = Vec::new();
        let mut i: usize = 0;
        while i < chars.len()
            invariant
                i <= chars@.len(),
                chars@ == s@,
                filtered@ == numeric_chars(chars@.take(i as int)),
                filtered@.len() <= i,
            decreases chars@.len() - i,
        {
            let c = chars[i];
            proof {
                let pred = |c: char| is_numeric_char(c);
                assert(chars@.take(i + 1).drop_last() =~= chars@.take(i as int));
                reveal_with_fuel(Seq::filter, 1);
            }
            if ('0' <= c && c <= '9') || c == '.' || c == '-' || c == '+' {
                filtered.push(c);
            }
            i = i + 1;
        }
        assert(chars@.take(i as int) =~= chars@);
        if filtered.len() == 0 {
            assert(self.text@.take(self.cursor as int) + filtered@ + self.text@.skip(
                self.cursor as int,
            ) =~= self.text@);
            return;
        }
        let ghost t = self.text@;
        let mut out: Vec<char> = Vec::new();
        push_range(&mut out, &self.text, 0, self.cursor);
        push_range(&mut out, &filtered, 0, filtered.len());
        push_range(&mut out, &self.text, self.cursor, self.text.len());
        assert(out@ =~= t.take(self.cursor as int) + filtered@ + t.skip(self.cursor as int));
        self.text = out;
        self.cursor = self.cursor + filtered.len();
    }

    /// Leaves edit mode: the text is cleared and the selection dropped; the
    /// cursor is left as it was.
    pub fn end_edit(&mut self)
        ensures
            !final(self).editing,
            final(self).text@ == Seq::<char>::empty(),
            !final(self).text_selected,
            final(self).cursor == old(self).cursor,
    {
        self.editing = false;
        self.text.clear();
        self.text_selected = false;
    }
}

/// What a key press does to a number field that is being edited.
#[derive(Debug, Clone, Copy, PartialEq, Eq, Structural)]
pub enum EditKeyCommand {
    /// Select the whole text.
    SelectAll,
    /// Copy the selected text to the clipboard.
    Copy,
    /// Copy the selected text to the clipboard and clear it.
    Cut,
    /// Insert the clipboard's text (command or control `v`).
    Paste,
    /// Insert the clipboard's text (control `y`).
    Yank,
    /// Delete the word before the cursor.
    KillWordBackward,
    /// Delete the word after the cursor.
    KillWordForward,
    /// Move the cursor to the start.
    MoveToStart,
    /// Move the cursor to the end.
    MoveToEnd,
    /// Delete everything after the cursor.
    KillToEnd,
    /// Delete everything before the cursor.
    KillToStart,
    /// Delete the character before the cursor (or the selection).
    Backspace,
    /// Delete the character at the cursor (or the selection).
    Delete,
    /// Move the cursor right.
    MoveRight,
    /// Move the cursor left.
    MoveLeft,
    /// A control chord without a binding: nothing changes, the field redraws.
    Redraw,
    /// Parse the text, report the value and stop editing.
    Commit,
    /// Stop editing and keep the old value.
    Cancel,
    /// Type the character the key produces.
    TypeChar,
    /// Ignore the key (a command chord without a binding of its own).
    Ignore,
}

/// The keys bound to control chords while editing, with the command they run.
pub open spec fn ctrl_binding(key: Seq<char>) -> EditKeyCommand {
    if key == "a"@ {
        EditKeyCommand::MoveToStart
    } else if key == "e"@ {
        EditKeyCommand::MoveToEnd
    } else if key == "k"@ {
        EditKeyCommand::KillToEnd
    } else if key == "u"@ {
        EditKeyCommand::KillToStart
    } else if key == "w"@ {
        EditKeyCommand::KillWordBackward
    } else if key == "h"@ {
        EditKeyCommand::Backspace
    } else if key == "d"@ {
        EditKeyCommand::Delete
    } else if key == "f"@ {
        EditKeyCommand::MoveRight
    } else if key == "b"@ {
        EditKeyCommand::MoveLeft
    } else if key == "y"@ {
        EditKeyCommand::Yank
    } else {
        EditKeyCommand::Redraw
    }
}

/// The command a key runs while editing. Clipboard chords come first
/// (command with any of `a c x v`, or control with one of them), then
/// alt-backspace and alt-`d`, then the control bindings (every other control
/// chord only redraws), then the plain keys; any other key types its character.
pub open spec fn edit_key_command_spec(key: Seq<char>, ctrl: bool, cmd: bool, alt: bool) -> EditKeyCommand {
    let clip = key == "a"@ || key == "c"@ || key == "x"@ || key == "v"@;
    if (cmd || (ctrl && clip)) && clip {
        if key == "a"@ {
            EditKeyCommand::SelectAll
        } else if key == "c"@ {
            EditKeyCommand::Copy
        } else if key == "x"@ {
            EditKeyCommand::Cut
        } else {
            EditKeyCommand::Paste
        }
    } else if alt && key == "backspace"@ {
        EditKeyCommand::KillWordBackward
    } else if alt && key == "d"@ {
        EditKeyCommand::KillWordForward
    } else if ctrl {
        ctrl_binding(key)
    } else if key == "enter"@ {
        EditKeyCommand::Commit
    } else if key == "escape"@ {
        EditKeyCommand::Cancel
    } else if key == "backspace"@ {
        EditKeyCommand::Backspace
    } else if key == "delete"@ {
        EditKeyCommand::Delete
    } else if key == "left"@ {
        EditKeyCommand::MoveLeft
    } else if key == "right"@ {
        EditKeyCommand::MoveRight
    } else if key == "home"@ {
        EditKeyCommand::MoveToStart
    } else if key == "end"@ {
        EditKeyCommand::MoveToEnd
    } else {
        EditKeyCommand::TypeChar
    }
}

/// The control binding for `key`.
fn ctrl_binding_of(key: &str) -> (c: EditKeyCommand)
    ensures
        c == ctrl_binding(key@),
{
    if str_eq(key, "a") {
        EditKeyCommand::MoveToStart
    } else if str_eq(key, "e") {
        EditKeyCommand::MoveToEnd
    } else if str_eq(key, "k") {
        EditKeyCommand::KillToEnd
    } else if str_eq(key, "u") {
        EditKeyCommand::KillToStart
    } else if str_eq(key, "w") {
        EditKeyCommand::KillWordBackward
    } else if str_eq(key, "h") {
        EditKeyCommand::Backspace
    } else if str_eq(key, "d") {
        EditKeyCommand::Delete
    } else if str_eq(key, "f") {
        EditKeyCommand::MoveRight
    } else if str_eq(key, "b") {
        EditKeyCommand::MoveLeft
    } else if str_eq(key, "y") {
        EditKeyCommand::Yank
    } else {
        EditKeyCommand::Redraw
    }
}

/// The command that a key press runs while the field is being edited.
pub fn edit_key_command(key: &str, ctrl: bool, cmd: bool, alt: bool) -> (c: EditKeyCommand)
    ensures
        c == edit_key_command_spec(key@, ctrl, cmd, alt),
{
    let is_a = str_eq(key, "a");
    let is_c = str_eq(key, "c");
    let is_x = str_eq(key, "x");
    let is_v = str_eq(key, "v");
    let clip = is_a || is_c || is_x || is_v;
    if (cmd || (ctrl && clip)) && clip {
        if is_a {
            EditKeyCommand::SelectAll
        } else if is_c {
            EditKeyCommand::Copy
        } else if is_x {
            EditKeyCommand::Cut
        } else {
            EditKeyCommand::Paste
        }
    } else if alt && str_eq(key, "backspace") {
        EditKeyCommand::KillWordBackward
    } else if alt && str_eq(key, "d") {
        EditKeyCommand::KillWordForward
    } else if ctrl {
        ctrl_binding_of(key)
    } else if str_eq(key, "enter") {
        EditKeyCommand::Commit
    } else if str_eq(key, "escape") {
        EditKeyCommand::Cancel
    } else if str_eq(key, "backspace") {
        EditKeyCommand::Backspace
    } else if str_eq(key, "delete") {
        EditKeyCommand::Delete
    } else if str_eq(key, "left") {
        EditKeyCommand::MoveLeft
    } else if str_eq(key, "right") {
        EditKeyCommand::MoveRight
    } else if str_eq(key, "home") {
        EditKeyCommand::MoveToStart
    } else if str_eq(key, "end") {
        EditKeyCommand::MoveToEnd
    } else {
        EditKeyCommand::TypeChar
    }
}

/// Which way a key steps the value of a field that is not being edited:
/// up and right increase, down and left decrease, other keys do nothing.
pub open spec fn step_key_direction_spec(key: Seq<char>) -> Option<bool> {
    if key == "up"@ || key == "right"@ {
        Some(true)
    } else if key == "down"@ || key == "left"@ {
        Some(false)
    } else {
        None
    }
}

/// `Some(true)` to step the value up, `Some(false)` to step it down.
pub fn step_key_direction(key: &str) -> (d: Option<bool>)
    ensures
        d == step_key_direction_spec(key@),
{
    if str_eq(key, "up") || str_eq(key, "right") {
        Some(true)
    } else if str_eq(key, "down") || str_eq(key, "left") {
        Some(false)
    } else {
        None
    }
}

/// The key names the editing commands are bound to differ from one another.
proof fn lemma_edit_key_names_differ()
    ensures
        "left"@.len() == 4 && "right"@.len() == 5 && "enter"@.len() == 5,
        "escape"@.len() == 6 && "delete"@.len() == 6 && "backspace"@.len() == 9,
        "home"@.len() == 4 && "end"@.len() == 3,
        "left"@[0] == 'l' && "home"@[0] == 'h' && "right"@[0] == 'r' && "enter"@[0] == 'e',
        "a"@.len() == 1 && "a"@[0] == 'a' && "c"@.len() == 1 && "c"@[0] == 'c',
        "x"@.len() == 1 && "x"@[0] == 'x' && "v"@.len() == 1 && "v"@[0] == 'v',
        "d"@.len() == 1 && "d"@[0] == 'd' && "e"@.len() == 1 && "e"@[0] == 'e',
        "k"@.len() == 1 && "k"@[0] == 'k' && "u"@.len() == 1 && "u"@[0] == 'u',
        "w"@.len() == 1 && "w"@[0] == 'w' && "h"@.len() == 1 && "h"@[0] == 'h',
        "f"@.len() == 1 && "f"@[0] == 'f' && "b"@.len() == 1 && "b"@[0] == 'b',
        "y"@.len() == 1 && "y"@[0] == 'y',
{
    reveal_strlit("left");
    reveal_strlit("right");
    reveal_strlit("enter");
    reveal_strlit("escape");
    reveal_strlit("delete");
    reveal_strlit("backspace");
    reveal_strlit("home");
    reveal_strlit("end");
    reveal_strlit("a");
    reveal_strlit("c");
    reveal_strlit("x");
    reveal_strlit("v");
    reveal_strlit("d");
    reveal_strlit("e");
    reveal_strlit("k");
    reveal_strlit("u");
    reveal_strlit("w");
    reveal_strlit("h");
    reveal_strlit("f");
    reveal_strlit("b");
    reveal_strlit("y");
}

/// Law: while editing, the cursor moves right exactly on the right arrow
/// without control or on control-`f`, and left exactly on the left arrow
/// without control or on control-`b`, whatever the command and alt keys say;
/// so without control the two arrows never run the same command.
pub proof fn lemma_arrows_move_the_cursor_their_way(key: Seq<char>, ctrl: bool, cmd: bool, alt: bool)
    ensures
        edit_key_command_spec(key, ctrl, cmd, alt) == EditKeyCommand::MoveRight <==> ((!ctrl && key
            == "right"@) || (ctrl && key == "f"@)),
        edit_key_command_spec(key, ctrl, cmd, alt) == EditKeyCommand::MoveLeft <==> ((!ctrl && key
            == "left"@) || (ctrl && key == "b"@)),
        !ctrl ==> edit_key_command_spec("right"@, ctrl, cmd, alt) != edit_key_command_spec(
            "left"@,
            ctrl,
            cmd,
            alt,
        ),
{
    lemma_edit_key_names_differ();
}

/// Law: on a field that is not being edited, `up` and `right` step the value
/// up and `down` and `left` step it down; the two arrows of each axis go in
/// opposite directions.
pub proof fn lemma_step_arrows(key: Seq<char>)
    ensures
        step_key_direction_spec(key) == Some(true) <==> (key == "up"@ || key == "right"@),
        step_key_direction_spec(key) == Some(false) <==> (key == "down"@ || key == "left"@),
        step_key_direction_spec("left"@) != step_key_direction_spec("right"@),
        step_key_direction_spec("down"@) != step_key_direction_spec("up"@),
{
    reveal_strlit("up");
    reveal_strlit("down");
    reveal_strlit("left");
    reveal_strlit("right");
    assert("up"@.len() == 2 && "down"@.len() == 4 && "left"@.len() == 4 && "right"@.len() == 5);
    assert("down"@[0] == 'd' && "left"@[0] == 'l');
}

/// Typing a character and then pressing backspace gives back the text and
/// the cursor: backspace deletes exactly what was typed.
pub proof fn lemma_backspace_undoes_insert(text: Seq<char>, cursor: int, ch: char)
    requires
        0 <= cursor <= text.len(),
    ensures
        text.insert(cursor, ch).remove((cursor + 1) - 1) == text,
{
    assert(text.insert(cursor, ch).remove(cursor) =~= text);
}

/// Pasting text without any numeric character into a field with nothing
/// selected leaves its text as it was.
pub proof fn lemma_paste_without_digits(text: Seq<char>, cursor: int, pasted: Seq<char>)
    requires
        0 <= cursor <= text.len(),
        forall|i: int| 0 <= i < pasted.len() ==> !is_numeric_char(#[trigger] pasted[i]),
    ensures
        text.take(cursor) + numeric_chars(pasted) + text.skip(cursor) == text,
{
    broadcast use vstd::seq_lib::group_filter_ensures;
    if numeric_chars(pasted).len() > 0 {
        let c = numeric_chars(pasted)[0];
        assert(numeric_chars(pasted).contains(c));
        pasted.lemma_filter_contains_rev(|c: char| is_numeric_char(c), c);
    }
    assert(numeric_chars(pasted) =~= Seq::<char>::empty());
    assert(text.take(cursor) + Seq::<char>::empty() + text.skip(cursor) =~= text);
}

} // verus!
