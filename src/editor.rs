use vstd::prelude::*;

verus! {

/// The interpretation currently given to keystrokes.
///
/// - `Command`: text typed goes to the command line, not to the document.
/// - `Insert`: text typed goes to the document.
/// - `Cursor`: navigation only; character keys are ignored.
#[derive(PartialEq, Eq, Structural, Clone, Copy, Debug)]
pub enum EditorMode {
    Command,
    Insert,
    Cursor,
}

/// One input event, already classified. Both backspace codes that terminals
/// send arrive here as the single `Backspace`.
#[derive(PartialEq, Eq, Structural, Clone, Copy, Debug)]
pub enum Key {
    Char(char),
    Escape,
    Backspace,
    Up,
    Down,
    Left,
    Right,
    Other,
}

/// One call on the terminal surface, in the order it must be made.
#[derive(PartialEq, Eq, Structural, Clone, Copy, Debug)]
pub enum Action {
    /// Draw `ch` in the cell at `(row, col)`.
    DrawChar { row: usize, col: usize, ch: char },
    /// Put the terminal cursor at `(row, col)`.
    MoveCursor { row: usize, col: usize },
    /// Erase the glyph under the cursor.
    DeleteChar,
    /// Put the content region's top edge at `row`; its left edge stays.
    MoveOrigin { row: usize },
    /// Flush what was drawn.
    Refresh,
}

/// The escape character, which switches to command mode.
pub const ESCAPE: char = '\x1b';

/// The delete code, which some terminals send for the backspace key.
pub const DELETE: char = '\x7f';

/// The glyph drawn at the start of the command line.
pub const PROMPT: char = ':';

/// Whether `c` is printable: not a C0 control (U+0000 to U+001F), not
/// delete (U+007F), not a C1 control (U+0080 to U+009F).
pub open spec fn is_printable(c: char) -> bool {
    !((c as u32) < 0x20 || (0x7f <= (c as u32) && (c as u32) <= 0x9f))
}

/// How a raw character is classified: escape and delete have their own
/// keys, other control characters are ignored, the rest are typed.
pub open spec fn classify(c: char) -> Key {
    if c == ESCAPE {
        Key::Escape
    } else if c == DELETE {
        Key::Backspace
    } else if !is_printable(c) {
        Key::Other
    } else {
        Key::Char(c)
    }
}

/// Whether `c` is printable; see `is_printable`.
fn printable(c: char) -> (r: bool)
    ensures
        r == is_printable(c),
{
    let n = c as u32;
    !(n < 0x20 || (0x7f <= n && n <= 0x9f))
}

impl Key {
    /// Classifies a raw character read from the terminal.
    pub fn from_char(c: char) -> (r: Key)
        ensures
            r == classify(c),
    {
        if c == ESCAPE {
            Key::Escape
        } else if c == DELETE {
            Key::Backspace
        } else if !printable(c) {
            Key::Other
        } else {
            Key::Char(c)
        }
    }
}

/// The editor's state as mathematics sees it.
pub struct EditorView {
    pub mode: EditorMode,
    pub text: Seq<char>,
    pub command: Seq<char>,
    pub row: usize,
    pub col: usize,
    pub origin: usize,
    pub height: usize,
    pub width: usize,
}

impl EditorView {
    /// The content region is not empty and the cursor lies inside it.
    pub open spec fn wf(self) -> bool {
        &&& 0 < self.height
        &&& 0 < self.width
        &&& self.row < self.height
        &&& self.col < self.width
    }

    /// The last row of the content region, where the command line sits.
    pub open spec fn bottom(self) -> usize {
        (self.height - 1) as usize
    }

    /// The column after `c`, held at the right edge.
    pub open spec fn next_col(self, c: usize) -> usize {
        if c + 1 < self.width {
            (c + 1) as usize
        } else {
            (self.width - 1) as usize
        }
    }

    /// The column where a command character is drawn: the cursor's column,
    /// but never on top of the prompt in column 0.
    pub open spec fn command_col(self) -> usize {
        if self.col != 0 {
            self.col
        } else {
            self.next_col(0)
        }
    }
}

/// The state of a fresh editor on a region of the given size.
pub open spec fn initial(height: usize, width: usize) -> EditorView {
    EditorView {
        mode: EditorMode::Insert,
        text: Seq::empty(),
        command: Seq::empty(),
        row: 0,
        col: 0,
        origin: 0,
        height,
        width,
    }
}

/// The state after switching to mode `m`. Entering command mode from
/// another mode puts the cursor just after the prompt on the bottom row;
/// in command mode it changes nothing.
pub open spec fn enter_mode(s: EditorView, m: EditorMode) -> EditorView {
    if m == EditorMode::Command && s.mode == EditorMode::Command {
        s
    } else if m == EditorMode::Command {
        EditorView { mode: m, row: s.bottom(), col: s.next_col(0), ..s }
    } else {
        EditorView { mode: m, ..s }
    }
}

/// The terminal calls made when switching to mode `m`.
pub open spec fn enter_mode_actions(s: EditorView, m: EditorMode) -> Seq<Action> {
    if m == EditorMode::Command && s.mode != EditorMode::Command {
        seq![
            Action::DrawChar { row: s.bottom(), col: 0, ch: PROMPT },
            Action::MoveCursor { row: s.bottom(), col: s.next_col(0) },
            Action::Refresh,
        ]
    } else {
        seq![]
    }
}

/// The row above `r`, or row 0 when `r` is row 0.
pub open spec fn up_one(r: usize) -> usize {
    if r > 0 {
        (r - 1) as usize
    } else {
        0
    }
}

/// The state after one event.
///
/// - Escape enters command mode; in command mode it changes nothing.
/// - A printable character goes to the document in insert mode and to the
///   command line in command mode, and the cursor advances one column (held
///   at the right edge); in cursor mode it is ignored. A character that is
///   not printable is ignored in every mode.
/// - Backspace moves the cursor one column left and erases the glyph there;
///   the buffers keep their contents. At column 0 it changes nothing.
/// - Up scrolls: the region's origin moves up one row (it stays at row 0
///   when it is there), the cursor goes one row up (staying on row 0 when it
///   is there) and to column 0. When both are already on row 0 it changes
///   nothing.
/// - Every other key changes nothing.
///
/// No event leaves command mode: `Editor::set_curr_mode` is the only way out.
/// Entering command mode keeps what the command line already holds.
pub open spec fn step(s: EditorView, k: Key) -> EditorView {
    match k {
        Key::Escape => enter_mode(s, EditorMode::Command),
        Key::Char(c) => if !is_printable(c) {
            s
        } else {
            match s.mode {
            EditorMode::Insert => EditorView { text: s.text.push(c), col: s.next_col(s.col), ..s },
            EditorMode::Command => EditorView {
                command: s.command.push(c),
                row: s.bottom(),
                col: s.next_col(s.command_col()),
                ..s
            },
            EditorMode::Cursor => s,
        }},
        Key::Backspace => if s.col > 0 {
            EditorView { col: (s.col - 1) as usize, ..s }
        } else {
            s
        },
        Key::Up => if s.row > 0 || s.origin > 0 {
            EditorView { row: up_one(s.row), col: 0, origin: up_one(s.origin), ..s }
        } else {
            s
        },
        _ => s,
    }
}

/// The terminal calls made for one event, so that the screen follows `step`.
pub open spec fn reaction(s: EditorView, k: Key) -> Seq<Action> {
    let t = step(s, k);
    match k {
        Key::Escape => enter_mode_actions(s, EditorMode::Command),
        Key::Char(c) => if !is_printable(c) {
            seq![]
        } else {
            match s.mode {
            EditorMode::Insert => seq![
                Action::DrawChar { row: s.row, col: s.col, ch: c },
                Action::MoveCursor { row: t.row, col: t.col },
                Action::Refresh,
            ],
            EditorMode::Command => seq![
                Action::DrawChar { row: s.bottom(), col: s.command_col(), ch: c },
                Action::MoveCursor { row: t.row, col: t.col },
                Action::Refresh,
            ],
            EditorMode::Cursor => seq![],
        }},
        Key::Backspace => if s.col > 0 {
            seq![Action::MoveCursor { row: t.row, col: t.col }, Action::DeleteChar, Action::Refresh]
        } else {
            seq![]
        },
        Key::Up => if s.row > 0 || s.origin > 0 {
            seq![
                Action::MoveOrigin { row: t.origin },
                Action::MoveCursor { row: t.row, col: t.col },
                Action::Refresh,
            ]
        } else {
            seq![]
        },
        _ => seq![],
    }
}

/// The state after a sequence of events, taken in order.
pub open spec fn run(s: EditorView, keys: Seq<Key>) -> EditorView
    decreases keys.len(),
{
    if keys.len() == 0 {
        s
    } else {
        run(step(s, keys[0]), keys.drop_first())
    }
}

/// Whether every event of `keys` is a typed printable character.
pub open spec fn all_printable(keys: Seq<Key>) -> bool {
    forall|i: int|
        0 <= i < keys.len() ==> (#[trigger] keys[i]) is Char && is_printable(keys[i]->Char_0)
}

/// The characters that the events of `keys` type, in order.
pub open spec fn chars_of(keys: Seq<Key>) -> Seq<char> {
    keys.map_values(|k: Key| k->Char_0)
}

/// Relies on std's `String::push`: the character is appended at the end.
#[verifier::external_body]
fn push_char(s: &mut String, c: char)
    ensures
        final(s)@ == old(s)@.push(c),
{
    s.push(c);
}

/// A modal editor bound to a content region of fixed size: its mode, the
/// document text, the command line, the cursor and the region's origin.
pub struct Editor {
    curr_mode: EditorMode,
    text_buf: String,
    command_buf: String,
    row: usize,
    col: usize,
    origin: usize,
    height: usize,
    width: usize,
}

impl View for Editor {
    type V = EditorView;

    closed spec fn view(&self) -> EditorView {
        EditorView {
            mode: self.curr_mode,
            text: self.text_buf@,
            command: self.command_buf@,
            row: self.row,
            col: self.col,
            origin: self.origin,
            height: self.height,
            width: self.width,
        }
    }
}

impl Editor {
    /// Creates an editor in insert mode, with empty buffers and the cursor
    /// at the top left, on a region of `height` rows and `width` columns.
    /// Returns `None` when the region would be empty.
    pub fn new(height: usize, width: usize) -> (r: Option<Editor>)
        ensures
            r is Some <==> (height > 0 && width > 0),
            r matches Some(e) ==> e@ == initial(height, width) && e@.wf(),
    {
        if height == 0 || width == 0 {
            return None;
        }
        Some(
            Editor {
                curr_mode: EditorMode::Insert,
                text_buf: String::new(),
                command_buf: String::new(),
                row: 0,
                col: 0,
                origin: 0,
                height,
                width,
            },
        )
    }

    /// The column after `c`, held at the right edge.
    fn next_col(&self, c: usize) -> (r: usize)
        requires
            self@.wf(),
        ensures
            r == self@.next_col(c),
    {
        if c < self.width - 1 {
            c + 1
        } else {
            self.width - 1
        }
    }

    /// Whether the current mode lets characters be typed: true in insert and
    /// command mode, false in cursor mode.
    pub fn can_edit(&self) -> (r: bool)
        ensures
            r == (self@.mode != EditorMode::Cursor),
    {
        match self.curr_mode {
            EditorMode::Command => true,
            EditorMode::Insert => true,
            EditorMode::Cursor => false,
        }
    }

    /// Whether the editor is in command mode.
    pub fn is_command_mode(&self) -> (r: bool)
        ensures
            r == (self@.mode == EditorMode::Command),
    {
        self.get_curr_mode() == EditorMode::Command
    }

    /// The current mode.
    pub fn get_curr_mode(&self) -> (r: EditorMode)
        ensures
            r == self@.mode,
    {
        self.curr_mode
    }

    /// Switches to `mode` and returns the terminal calls that go with it:
    /// entering command mode from another mode draws the prompt on the bottom
    /// row and puts the cursor just after it; in command mode, switching to
    /// command mode changes nothing.
    pub fn set_curr_mode(&mut self, mode: EditorMode) -> (r: Vec<Action>)
        requires
            old(self)@.wf(),
        ensures
            final(self)@ == enter_mode(old(self)@, mode),
            final(self)@.wf(),
            r@ == enter_mode_actions(old(self)@, mode),
    {
        if mode == EditorMode::Command && self.curr_mode == EditorMode::Command {
            return Vec::new();
        }
        self.curr_mode = mode;
        if mode == EditorMode::Command {
            let bottom = self.height - 1;
            let col = self.next_col(0);
            self.row = bottom;
            self.col = col;
            vec![
                Action::DrawChar { row: bottom, col: 0, ch: PROMPT },
                Action::MoveCursor { row: bottom, col },
                Action::Refresh,
            ]
        } else {
            Vec::new()
        }
    }

    /// The document text typed so far.
    pub fn get_text_buf(&self) -> (r: &String)
        ensures
            r@ == self@.text,
    {
        &self.text_buf
    }

    /// The command line typed so far; kept apart from the document text.
    pub fn get_command_buf(&self) -> (r: &String)
        ensures
            r@ == self@.command,
    {
        &self.command_buf
    }

    /// The cursor's position in the content region, as `(row, column)`.
    pub fn get_cursor(&self) -> (r: (usize, usize))
        ensures
            r == (self@.row, self@.col),
    {
        (self.row, self.col)
    }

    /// The row at which the content region's origin stands.
    pub fn get_scroll_origin(&self) -> (r: usize)
        ensures
            r == self@.origin,
    {
        self.origin
    }

    /// The content region's size, as `(rows, columns)`.
    pub fn get_size(&self) -> (r: (usize, usize))
        ensures
            r == (self@.height, self@.width),
    {
        (self.height, self.width)
    }

    /// Takes a typed character: in insert mode to the document, in command
    /// mode to the command line (drawn after the prompt), in cursor mode
    /// nowhere. A character that is not printable is ignored.
    fn handle_char_input(&mut self, c: char) -> (r: Vec<Action>)
        requires
            old(self)@.wf(),
        ensures
            final(self)@ == step(old(self)@, Key::Char(c)),
            r@ == reaction(old(self)@, Key::Char(c)),
    {
        if !printable(c) {
            return Vec::new();
        }
        match self.curr_mode {
            EditorMode::Command => {
                push_char(&mut self.command_buf, c);
                let bottom = self.height - 1;
                let at = if self.col != 0 {
                    self.col
                } else {
                    self.next_col(0)
                };
                let col = self.next_col(at);
                self.row = bottom;
                self.col = col;
                vec![
                    Action::DrawChar { row: bottom, col: at, ch: c },
                    Action::MoveCursor { row: bottom, col },
                    Action::Refresh,
                ]
            },
            EditorMode::Insert => {
                push_char(&mut self.text_buf, c);
                let row = self.row;
                let at = self.col;
                let col = self.next_col(at);
                self.col = col;
                vec![
                    Action::DrawChar { row, col: at, ch: c },
                    Action::MoveCursor { row, col },
                    Action::Refresh,
                ]
            },
            EditorMode::Cursor => Vec::new(),
        }
    }

    /// Moves the cursor one column left and erases the glyph there. The
    /// buffers keep their contents; at column 0 nothing happens.
    fn handle_backspace(&mut self) -> (r: Vec<Action>)
        requires
            old(self)@.wf(),
        ensures
            final(self)@ == step(old(self)@, Key::Backspace),
            r@ == reaction(old(self)@, Key::Backspace),
    {
        if self.col == 0 {
            return Vec::new();
        }
        let col = self.col - 1;
        self.col = col;
        vec![Action::MoveCursor { row: self.row, col }, Action::DeleteChar, Action::Refresh]
    }

    /// Handles a directional key. Up scrolls the content region: its origin
    /// and the cursor each go one row up (each staying on row 0 when it is
    /// there), the cursor to column 0; nothing happens when both are on row 0.
    /// The other directions do nothing.
    fn handle_cursor_key(&mut self, key: Key) -> (r: Vec<Action>)
        requires
            old(self)@.wf(),
            key is Up || key is Down || key is Left || key is Right,
        ensures
            final(self)@ == step(old(self)@, key),
            r@ == reaction(old(self)@, key),
    {
        match key {
            Key::Up => {
                if self.row == 0 && self.origin == 0 {
                    return Vec::new();
                }
                let origin = if self.origin > 0 {
                    self.origin - 1
                } else {
                    0
                };
                let row = if self.row > 0 {
                    self.row - 1
                } else {
                    0
                };
                self.origin = origin;
                self.row = row;
                self.col = 0;
                vec![
                    Action::MoveOrigin { row: origin },
                    Action::MoveCursor { row, col: 0 },
                    Action::Refresh,
                ]
            },
            _ => Vec::new(),
        }
    }

    /// Handles one input event: updates the state as `step` says and returns
    /// the terminal calls, in order, that bring the screen along.
    pub fn handle_input(&mut self, key: Key) -> (r: Vec<Action>)
        requires
            old(self)@.wf(),
        ensures
            final(self)@ == step(old(self)@, key),
            final(self)@.wf(),
            r@ == reaction(old(self)@, key),
    {
        match key {
            Key::Escape => self.set_curr_mode(EditorMode::Command),
            Key::Char(c) => self.handle_char_input(c),
            Key::Up | Key::Down | Key::Left | Key::Right => self.handle_cursor_key(key),
            Key::Backspace => self.handle_backspace(),
            Key::Other => Vec::new(),
        }
    }
}

} // verus!
