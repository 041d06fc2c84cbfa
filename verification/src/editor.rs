//! The edit buffer: a `tui_textarea::TextArea`, reached only through the
//! few operations the notebook needs.

use vstd::prelude::*;
use tui_textarea::{Input, Key, TextArea};
use crate::keys::{KeyCode, KeyInput};
use crate::text::{
    join_lines, join_text, lemma_join_split, lemma_split_nonempty, line_views, split_lines,
    split_text,
};

verus! {

/// The edit buffer. It owns a `tui_textarea::TextArea`, the multi-line text
/// widget that holds the text being edited; nothing of the widget's inside
/// is visible to the proofs.
#[verifier::external_body]
#[derive(Debug)]
pub struct Editor {
    area: TextArea<'static>,
}

/// The lines of text that a buffer holds, top to bottom: what
/// `TextArea::lines` hands out.
pub uninterp spec fn editor_lines(editor: Editor) -> Seq<Seq<char>>;

/// Where the cursor of a buffer stands, as its row and its column, both
/// counted from zero: what `TextArea::cursor` hands out.
pub uninterp spec fn editor_cursor_at(editor: Editor) -> (usize, usize);

/// The lines that a buffer holds after it was handed a key: what
/// `TextArea::lines` hands out after `TextArea::input`. The widget decides
/// this from its text, its cursor, its selection and its history, and from
/// nothing outside itself.
pub uninterp spec fn editor_lines_after(editor: Editor, key: KeyInput) -> Seq<Seq<char>>;

/// Calls `TextArea::new`. As its source shows, the widget keeps the lines it
/// is given, in order, starts from one empty line when given none, and puts
/// its cursor at the start of the first line.
#[verifier::external_body]
fn editor_with_lines(lines: Vec<String>) -> (editor: Editor)
    ensures
        editor_lines(editor) == if lines@.len() == 0 {
            seq![Seq::<char>::empty()]
        } else {
            line_views(lines@)
        },
        editor_cursor_at(editor) == (0usize, 0usize),
{
    Editor { area: TextArea::new(lines) }
}

/// Calls `TextArea::lines` and copies what it returns: the buffer's lines,
/// in order.
#[verifier::external_body]
fn editor_copy_lines(editor: &Editor) -> (lines: Vec<String>)
    ensures
        line_views(lines@) == editor_lines(*editor),
{
    editor.area.lines().to_vec()
}

/// Calls `TextArea::input` with the key press written as the widget's own
/// `Input`. What the widget does with a key depends on its cursor, its
/// selection and its history, so the lines it holds afterwards are named,
/// not spelled out.
#[verifier::external_body]
fn editor_input(editor: &mut Editor, key: KeyInput)
    ensures
        editor_lines(*final(editor)) == editor_lines_after(*old(editor), key),
{
    let code = match key.code {
        KeyCode::Char(c) => Key::Char(c), KeyCode::F(n) => Key::F(n),
        KeyCode::Backspace => Key::Backspace, KeyCode::Enter => Key::Enter,
        KeyCode::Left => Key::Left, KeyCode::Right => Key::Right,
        KeyCode::Up => Key::Up, KeyCode::Down => Key::Down,
        KeyCode::Tab => Key::Tab, KeyCode::Delete => Key::Delete,
        KeyCode::Home => Key::Home, KeyCode::End => Key::End,
        KeyCode::PageUp => Key::PageUp, KeyCode::PageDown => Key::PageDown,
        KeyCode::Esc => Key::Esc, KeyCode::Null => Key::Null,
    };
    editor.area.input(Input { key: code, ctrl: key.ctrl, alt: key.alt, shift: key.shift });
}

/// Calls `TextArea::cursor`: the row and the column of the cursor, both
/// counted from zero.
#[verifier::external_body]
fn editor_cursor(editor: &Editor) -> (position: (usize, usize))
    ensures
        position == editor_cursor_at(*editor),
{
    editor.area.cursor()
}

impl Editor {
    /// The buffer's text: its lines joined by line feeds.
    pub open spec fn text_view(self) -> Seq<char> {
        join_lines(editor_lines(self))
    }

    /// An empty buffer: one line with nothing on it.
    pub fn new() -> (editor: Editor)
        ensures
            editor_lines(editor) == seq![Seq::<char>::empty()],
            editor_cursor_at(editor) == (0usize, 0usize),
    {
        let lines: Vec<String> = Vec::new();
        editor_with_lines(lines)
    }

    /// A buffer that holds exactly the given text, its cursor at the start.
    pub fn from_text(text: &str) -> (editor: Editor)
        ensures
            editor_lines(editor) == split_lines(text@),
            editor.text_view() == text@,
            editor_cursor_at(editor) == (0usize, 0usize),
    {
        let lines = split_text(text);
        proof {
            lemma_split_nonempty(text@);
            lemma_join_split(text@);
            assert(line_views(lines@).len() == lines@.len());
        }
        editor_with_lines(lines)
    }

    /// A copy of the buffer's lines, top to bottom.
    pub fn lines(&self) -> (lines: Vec<String>)
        ensures
            line_views(lines@) == editor_lines(*self),
    {
        editor_copy_lines(self)
    }

    /// The buffer's text as one string.
    pub fn text(&self) -> (text: String)
        ensures
            text@ == self.text_view(),
    {
        let lines = editor_copy_lines(self);
        join_text(&lines)
    }

    /// Where the cursor stands: its row and column, counted from zero. A
    /// renderer needs it to draw the buffer.
    pub fn cursor(&self) -> (position: (usize, usize))
        ensures
            position == editor_cursor_at(*self),
    {
        editor_cursor(self)
    }

    /// Hands one key press to the widget, which edits its text or moves its
    /// cursor as it sees fit: afterwards the buffer holds the lines that the
    /// widget makes of the key.
    pub fn input(&mut self, key: KeyInput)
        ensures
            editor_lines(*final(self)) == editor_lines_after(*old(self), key),
    {
        editor_input(self, key)
    }
}

} // verus!
