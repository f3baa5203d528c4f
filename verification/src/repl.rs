use crate::history::{entry_at, stepped_back, stepped_on, History};
use crate::scroller::Scroller;
use vstd::prelude::*;
use vstd::string::{StrSliceExecFns, StringExecFns};

verus! {

/// What stands before the line that is being typed.
pub const PROMPT: &'static str = "rcon> ";

/// One event from the keyboard.
#[derive(Debug, Clone, Copy, PartialEq, Eq, Structural)]
pub enum Key {
    Char(char),
    Backspace,
    Delete,
    Left,
    Right,
    Up,
    Down,
    Enter,
    Escape,
}

/// What the editor is doing.
#[derive(Debug, Clone, Copy, PartialEq, Eq, Structural)]
pub enum Mode {
    /// Keys change the line.
    Editing,
    /// A line was entered and waits to be carried out.
    Submitted,
    /// The editor is done.
    Exited,
}

/// What the caller has to do for a line that was entered.
pub enum Step {
    /// Show the stored commands; the server is not asked.
    ShowHistory,
    /// Send the command to the server.
    Run(String),
}

/// The editor: the line that is being typed, the place in it where keys
/// take effect, the commands entered so far and the responses shown.
pub struct TerminalState {
    pub history: History,
    pub scroller: Scroller,
    /// The line that is being typed.
    pub input: Vec<char>,
    /// The edit position: a number of characters from the start of the line.
    pub position: usize,
    pub mode: Mode,
    /// Whether the line on the screen has to be drawn again.
    pub dirty: bool,
    /// The screen row that the cursor was on when the line was entered.
    pub row: u16,
    /// Whether the line that was entered asks to leave.
    pub quit: bool,
}

/// The line and the edit position after a key that edits the line or moves
/// within it. Other keys leave both alone.
pub open spec fn edited(input: Seq<char>, position: int, key: Key) -> (Seq<char>, int) {
    match key {
        Key::Char(c) => (input.insert(position, c), position + 1),
        Key::Backspace => if position > 0 {
            (input.remove(position - 1), position - 1)
        } else {
            (input, position)
        },
        Key::Delete => if position < input.len() {
            (input.remove(position), position)
        } else {
            (input, position)
        },
        Key::Left => if position > 0 {
            (input, position - 1)
        } else {
            (input, position)
        },
        Key::Right => if position < input.len() {
            (input, position + 1)
        } else {
            (input, position)
        },
        _ => (input, position),
    }
}

/// Whether a key changes the line, so that it has to be drawn again.
pub open spec fn changes_line(input: Seq<char>, position: int, key: Key) -> bool {
    match key {
        Key::Char(_) => true,
        Key::Backspace => position > 0,
        Key::Delete => position < input.len(),
        _ => false,
    }
}

/// Whether a key is one of those that `edited` describes.
pub open spec fn edits(key: Key) -> bool {
    key is Char || key is Backspace || key is Delete || key is Left || key is Right
}

/// `String::from_iter` over the characters of `chars`: the string made of
/// them, in their order.
#[verifier::external_body]
fn string_of(chars: &Vec<char>) -> (s: String)
    ensures
        s@ == chars@,
{
    String::from_iter(chars)
}

/// The characters of a string.
pub fn chars_of(s: &str) -> (chars: Vec<char>)
    ensures
        chars@ == s@,
{
    let len = s.unicode_len();
    let mut chars: Vec<char> = Vec::new();
    let mut i: usize = 0;
    while i < len
        invariant
            len == s@.len(),
            i <= len,
            chars@ == s@.subrange(0, i as int),
        decreases len - i,
    {
        chars.push(s.get_char(i));
        i += 1;
        assert(chars@ =~= s@.subrange(0, i as int));
    }
    assert(s@.subrange(0, len as int) =~= s@);
    chars
}

/// Whether a line is the one that asks for the stored commands.
pub fn is_history_request(cmd: &str) -> (r: bool)
    ensures
        r == (cmd@ == "~history"@),
{
    let line = cmd.to_owned();
    let sentinel = "~history".to_owned();
    line == sentinel
}

/// Whether a line is the one that asks to leave.
pub fn is_quit(cmd: &str) -> (r: bool)
    ensures
        r == (cmd@ == "q"@),
{
    let line = cmd.to_owned();
    let sentinel = "q".to_owned();
    line == sentinel
}

/// What to show of a response: nothing where it is empty.
pub fn shown(response: String) -> (r: Option<String>)
    ensures
        response@.len() == 0 ==> r is None,
        response@.len() > 0 ==> r == Some(response),
{
    if response.as_str().is_empty() {
        None
    } else {
        Some(response)
    }
}

/// Stores the line among the commands and says what to do for it.
pub fn execute(ts: &mut TerminalState, cmd: &str) -> (step: Step)
    requires
        old(ts).history.entries().len() < isize::MAX,
    ensures
        final(ts).history.entries() == old(ts).history.entries().push(cmd@),
        final(ts).history.index == final(ts).history.entries().len(),
        final(ts).scroller == old(ts).scroller,
        final(ts).input == old(ts).input,
        final(ts).position == old(ts).position,
        final(ts).mode == old(ts).mode,
        final(ts).dirty == old(ts).dirty,
        final(ts).row == old(ts).row,
        final(ts).quit == (cmd@ == "q"@),
        cmd@ == "~history"@ ==> step is ShowHistory,
        cmd@ != "~history"@ ==> step is Run && step->Run_0@ == cmd@,
{
    ts.history.push(cmd.to_owned());
    ts.quit = is_quit(cmd);
    if is_history_request(cmd) {
        Step::ShowHistory
    } else {
        Step::Run(cmd.to_owned())
    }
}

impl TerminalState {
    /// The edit position lies within the line or at its end.
    pub open spec fn wf(&self) -> bool {
        self.position <= self.input@.len()
    }

    /// An editor with an empty line and nothing stored.
    pub fn new() -> (ts: Self)
        ensures
            ts.wf(),
            ts.history.entries().len() == 0,
            ts.history.index == 0,
            ts.scroller.lines@.len() == 0,
            ts.scroller.buffer@.len() == 0,
            ts.scroller.index == 0,
            ts.scroller.wf(),
            ts.input@.len() == 0,
            ts.position == 0,
            ts.mode == Mode::Editing,
            ts.row == 0,
            !ts.dirty,
            !ts.quit,
    {
        Self {
            history: History::new(),
            scroller: Scroller::new(),
            input: Vec::new(),
            position: 0,
            mode: Mode::Editing,
            dirty: false,
            row: 0,
            quit: false,
        }
    }

    /// Puts a recalled command in place of the line, if there is one.
    fn recall(&mut self, recalled: Option<String>)
        ensures
            final(self).history == old(self).history,
            final(self).scroller == old(self).scroller,
            final(self).mode == old(self).mode,
            final(self).row == old(self).row,
            final(self).quit == old(self).quit,
            match recalled {
                Some(cmd) => final(self).input@ == cmd@ && final(self).position == cmd@.len()
                    && final(self).dirty,
                None => final(self).input == old(self).input && final(self).position == old(
                    self,
                ).position && final(self).dirty == old(self).dirty,
            },
    {
        if let Some(cmd) = recalled {
            self.input = chars_of(cmd.as_str());
            self.position = self.input.len();
            self.dirty = true;
        }
    }

    /// Takes one key. While a line is being edited: a character is put in
    /// at the edit position; backspace and delete take out the character
    /// before and at it; the arrows left and right move it; the arrows up
    /// and down recall a stored command, which then replaces the line;
    /// enter submits the line, noting the cursor's row; escape leaves. In
    /// any other mode the key does nothing.
    pub fn handle_key(&mut self, key: Key, cursor_row: u16)
        requires
            old(self).wf(),
            old(self).history.entries().len() <= isize::MAX,
        ensures
            final(self).wf(),
            final(self).scroller == old(self).scroller,
            final(self).quit == old(self).quit,
            final(self).history.entries() == old(self).history.entries(),
            old(self).mode != Mode::Editing ==> *final(self) == *old(self),
            old(self).mode == Mode::Editing && edits(key) ==> {
                &&& (final(self).input@, final(self).position as int) == edited(
                    old(self).input@,
                    old(self).position as int,
                    key,
                )
                &&& final(self).dirty == (old(self).dirty || changes_line(
                    old(self).input@,
                    old(self).position as int,
                    key,
                ))
                &&& final(self).history == old(self).history
                &&& final(self).mode == Mode::Editing
                &&& final(self).row == old(self).row
            },
            old(self).mode == Mode::Editing && (key is Up || key is Down) ==> {
                &&& final(self).history.index == if key is Up {
                    stepped_back(old(self).history.index as int)
                } else {
                    stepped_on(
                        old(self).history.index as int,
                        old(self).history.entries().len() as int,
                    )
                }
                &&& match entry_at(
                    final(self).history.entries(),
                    final(self).history.index as int,
                ) {
                    Some(cmd) => final(self).input@ == cmd && final(self).position == cmd.len()
                        && final(self).dirty,
                    None => final(self).input == old(self).input && final(self).position == old(
                        self,
                    ).position && final(self).dirty == old(self).dirty,
                }
                &&& final(self).mode == Mode::Editing
                &&& final(self).row == old(self).row
            },
            old(self).mode == Mode::Editing && key is Enter ==> {
                &&& final(self).mode == Mode::Submitted
                &&& final(self).row == cursor_row
                &&& final(self).position == 0
                &&& final(self).input == old(self).input
                &&& final(self).history == old(self).history
                &&& final(self).dirty == old(self).dirty
            },
            old(self).mode == Mode::Editing && key is Escape ==> {
                &&& final(self).mode == Mode::Exited
                &&& final(self).row == old(self).row
                &&& final(self).position == old(self).position
                &&& final(self).input == old(self).input
                &&& final(self).history == old(self).history
                &&& final(self).dirty == old(self).dirty
            },
    {
        if self.mode != Mode::Editing {
            return ;
        }
        match key {
            Key::Char(c) => {
                self.input.insert(self.position, c);
                if self.position < self.input.len() {
                    self.position = self.position + 1;
                }
                self.dirty = true;
            },
            Key::Backspace => {
                if self.position > 0 {
                    self.input.remove(self.position - 1);
                    self.position = self.position - 1;
                    self.dirty = true;
                }
            },
            Key::Delete => {
                if self.position < self.input.len() {
                    self.input.remove(self.position);
                    self.dirty = true;
                }
            },
            Key::Left => {
                if self.position > 0 {
                    self.position = self.position - 1;
                }
            },
            Key::Right => {
                if self.position < self.input.len() {
                    self.position = self.position + 1;
                }
            },
            Key::Up => {
                let recalled = self.history.prev();
                self.recall(recalled);
            },
            Key::Down => {
                let recalled = self.history.next();
                self.recall(recalled);
            },
            Key::Enter => {
                self.mode = Mode::Submitted;
                self.row = cursor_row;
                self.position = 0;
            },
            Key::Escape => {
                self.mode = Mode::Exited;
            },
        }
    }

    /// Carries the entered line to the stored commands and says what to do
    /// for it.
    pub fn submit(&mut self) -> (step: Step)
        requires
            old(self).mode == Mode::Submitted,
            old(self).history.entries().len() < isize::MAX,
        ensures
            final(self).history.entries() == old(self).history.entries().push(old(self).input@),
            final(self).history.index == final(self).history.entries().len(),
            final(self).scroller == old(self).scroller,
            final(self).input == old(self).input,
            final(self).position == old(self).position,
            final(self).mode == Mode::Submitted,
            final(self).dirty == old(self).dirty,
            final(self).row == old(self).row,
            final(self).quit == (old(self).input@ == "q"@),
            old(self).input@ == "~history"@ ==> step is ShowHistory,
            old(self).input@ != "~history"@ ==> step is Run && step->Run_0@ == old(self).input@,
    {
        let line = string_of(&self.input);
        execute(self, line.as_str())
    }

    /// Ends the work on the entered line: a response that is not empty
    /// becomes a line of the scrollback, the line is emptied, and the editor
    /// takes keys again, unless the line asked to leave.
    pub fn complete(&mut self, response: Option<String>)
        requires
            old(self).scroller.lines@.len() < isize::MAX,
        ensures
            final(self).wf(),
            final(self).history == old(self).history,
            final(self).input@.len() == 0,
            final(self).position == 0,
            final(self).dirty,
            final(self).row == old(self).row,
            !final(self).quit,
            final(self).mode == if old(self).quit || old(self).mode == Mode::Exited {
                Mode::Exited
            } else {
                Mode::Editing
            },
            match response {
                Some(text) if text@.len() > 0 => {
                    &&& final(self).scroller.texts() == old(self).scroller.texts().push(text@)
                    &&& final(self).scroller.index == final(self).scroller.lines@.len() - 1
                    &&& final(self).scroller.buffer == old(self).scroller.buffer
                },
                _ => final(self).scroller == old(self).scroller,
            },
    {
        if let Some(text) = response {
            if !text.as_str().is_empty() {
                self.scroller.add_line(text);
            }
        }
        self.input.clear();
        self.position = 0;
        self.dirty = true;
        if self.quit || self.mode == Mode::Exited {
            self.mode = Mode::Exited;
        } else {
            self.mode = Mode::Editing;
        }
        self.quit = false;
    }

    /// The line that is being typed, as a string to draw.
    pub fn line(&self) -> (s: String)
        ensures
            s@ == self.input@,
    {
        string_of(&self.input)
    }

    /// The text of the input row on the screen: the prompt, then the line.
    pub fn prompt_line(&self) -> (s: String)
        ensures
            s@ == PROMPT@ + self.input@,
    {
        let line = string_of(&self.input);
        PROMPT.to_owned().concat(line.as_str())
    }

    /// What to draw after a key: the input row anew where the line has
    /// changed since it was drawn, and nothing else. The line then counts as
    /// drawn.
    pub fn redraw(&mut self) -> (r: Option<String>)
        ensures
            *final(self) == (TerminalState { dirty: false, ..*old(self) }),
            old(self).dirty ==> r is Some && r->Some_0@ == PROMPT@ + old(self).input@,
            !old(self).dirty ==> r is None,
    {
        if self.dirty {
            self.dirty = false;
            Some(self.prompt_line())
        } else {
            None
        }
    }

    /// Notes that the line on the screen was drawn again.
    pub fn drawn(&mut self)
        ensures
            *final(self) == (TerminalState { dirty: false, ..*old(self) }),
    {
        self.dirty = false;
    }
}

} // verus!
