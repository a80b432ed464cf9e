//! The editor state and its reducer: a pure transition function from a state
//! and an action to the next state, encoding the mode table and the buffer
//! mutation rules.
//!
//! The editing discipline is immediate insertion: `AddChar` applied in input
//! mode inserts one character into the document at the cursor and advances
//! the cursor one column; `Enter` inserts a line break and moves the cursor
//! to the start of the next line. The transition table is closed: a (mode,
//! action) pair outside it — among them `StartInsertingInput`, the batched
//! `AddInputLine` and `SetLineNumber` — leaves the state unchanged,
//! deliberately and silently, and an append target at or past the current
//! line count is rejected the same way.

use vstd::prelude::*;
use vstd::string::StrSliceExecFns;
use vstd::string::StringExecFns;

use crate::action::Action;
use crate::action::ActionModel;
use crate::action::Effect;
use crate::document::Document;
use crate::text::clean_text;
use crate::text::is_exotic_break;
use crate::text::lemma_insert_newline;
use crate::text::lemma_insert_plain_count;
use crate::text::lemma_insert_plain_start;
use crate::text::lemma_line_count_le;
use crate::text::lemma_line_count_pos;
use crate::text::lemma_line_start_bounds;
use crate::text::lemma_line_within;
use crate::text::line_count;
use crate::text::line_end;
use crate::text::line_start;

verus! {

/// The editing context: idle, accumulating a colon command, entering free
/// text, awaiting exit confirmation, or terminated.
#[derive(Debug)]
pub enum Mode {
    Normal,
    Command(String),
    Input,
    Exit,
    ConfirmExit,
}

/// The mathematical value of a [`Mode`]: pending command text as a sequence.
#[verifier::ext_equal]
pub enum ModeModel {
    Normal,
    Command(Seq<char>),
    Input,
    Exit,
    ConfirmExit,
}

impl View for Mode {
    type V = ModeModel;

    open spec fn view(&self) -> ModeModel {
        match self {
            Mode::Normal => ModeModel::Normal,
            Mode::Command(t) => ModeModel::Command(t@),
            Mode::Input => ModeModel::Input,
            Mode::Exit => ModeModel::Exit,
            Mode::ConfirmExit => ModeModel::ConfirmExit,
        }
    }
}

impl PartialEq for Mode {
    fn eq(&self, other: &Mode) -> (r: bool) {
        match (self, other) {
            (Mode::Normal, Mode::Normal) => true,
            (Mode::Command(a), Mode::Command(b)) => a.eq(b),
            (Mode::Input, Mode::Input) => true,
            (Mode::Exit, Mode::Exit) => true,
            (Mode::ConfirmExit, Mode::ConfirmExit) => true,
            _ => false,
        }
    }
}

impl vstd::std_specs::cmp::PartialEqSpecImpl for Mode {
    open spec fn obeys_eq_spec() -> bool {
        true
    }

    open spec fn eq_spec(&self, other: &Mode) -> bool {
        self@ == other@
    }
}

impl Eq for Mode {

}

impl Default for Mode {
    /// The editor starts idle.
    fn default() -> (m: Mode)
        ensures
            m@ == ModeModel::Normal,
    {
        Mode::Normal
    }
}

/// The status-bar label of a mode.
pub open spec fn mode_label(m: ModeModel) -> Seq<char> {
    match m {
        ModeModel::Command(_) => "COMMAND"@,
        ModeModel::Input => "INSERT"@,
        ModeModel::Normal => "NORMAL"@,
        _ => ""@,
    }
}

/// The echo line of a mode: the pending command text behind a colon, empty
/// outside command mode.
pub open spec fn mode_echo(m: ModeModel) -> Seq<char> {
    match m {
        ModeModel::Command(t) => seq![':'] + t,
        _ => Seq::empty(),
    }
}

impl Mode {
    /// An immutable copy of this mode.
    pub fn snapshot(&self) -> (m: Mode)
        ensures
            m@ == self@,
    {
        match self {
            Mode::Normal => Mode::Normal,
            Mode::Command(t) => Mode::Command(t.clone()),
            Mode::Input => Mode::Input,
            Mode::Exit => Mode::Exit,
            Mode::ConfirmExit => Mode::ConfirmExit,
        }
    }

    /// The label a status bar shows for this mode.
    pub fn status_label(&self) -> (r: &'static str)
        ensures
            r@ == mode_label(self@),
    {
        match self {
            Mode::Command(_) => "COMMAND",
            Mode::Input => "INSERT",
            Mode::Normal => "NORMAL",
            _ => "",
        }
    }

    /// The command echo line: the pending command text behind a colon.
    pub fn command_echo(&self) -> (r: String)
        ensures
            r@ == mode_echo(self@),
    {
        match self {
            Mode::Command(sofar) => {
                let mut s: String = ":".to_owned();
                proof {
                    reveal_strlit(":");
                    assert(":"@ =~= seq![':']);
                }
                s.append(sofar.as_str());
                s
            },
            _ => String::new(),
        }
    }
}

/// The next character-insertion point: `row` is the addressed line, `column`
/// the offset within it.
#[derive(Clone, Copy, Debug, PartialEq, Eq, Structural)]
pub struct CursorPostion {
    pub row: usize,
    pub column: usize,
}

/// The mathematical value of a [`CursorPostion`].
#[verifier::ext_equal]
pub struct CursorModel {
    pub row: int,
    pub column: int,
}

impl View for CursorPostion {
    type V = CursorModel;

    open spec fn view(&self) -> CursorModel {
        CursorModel { row: self.row as int, column: self.column as int }
    }
}

impl Default for CursorPostion {
    /// The cursor starts at the first column of the first line.
    fn default() -> (c: CursorPostion)
        ensures
            c@.row == 0,
            c@.column == 0,
    {
        CursorPostion { row: 0, column: 0 }
    }
}

/// The authoritative editor state: mode, cursor and document.
pub struct State {
    pub mode: Mode,
    pub cursor_position: CursorPostion,
    pub rope: Document,
}

/// The mathematical value of a [`State`].
#[verifier::ext_equal]
pub struct StateModel {
    pub mode: ModeModel,
    pub cursor: CursorModel,
    pub content: Seq<char>,
}

impl View for State {
    type V = StateModel;

    open spec fn view(&self) -> StateModel {
        StateModel { mode: self.mode@, cursor: self.cursor_position@, content: self.rope@ }
    }
}

/// The character index the cursor addresses.
pub open spec fn cursor_index(s: StateModel) -> int {
    line_start(s.content, s.cursor.row) + s.cursor.column
}

/// Well-formedness of a state: the document's only break is `'\n'`, the
/// cursor's line exists, and its column stays within that line.
pub open spec fn state_wf(s: StateModel) -> bool {
    &&& clean_text(s.content)
    &&& 0 <= s.cursor.row < line_count(s.content)
    &&& 0 <= s.cursor.column
    &&& cursor_index(s) <= line_end(s.content, s.cursor.row)
}

/// The state every editor starts in: idle, cursor at the origin, empty
/// document.
pub open spec fn initial_state() -> StateModel {
    StateModel {
        mode: ModeModel::Normal,
        cursor: CursorModel { row: 0, column: 0 },
        content: Seq::empty(),
    }
}

/// A character that input mode inserts as itself: not a `'\n'` (which only
/// `Enter` inserts) and not one of the exotic break characters the document
/// keeps out.
pub open spec fn insertable(c: char) -> bool {
    c != '\n' && !is_exotic_break(c)
}

/// Exec twin of [`insertable`].
pub fn char_is_insertable(c: char) -> (r: bool)
    ensures
        r == insertable(c),
{
    c != '\n' && c != '\u{000B}' && c != '\u{000C}' && c != '\u{000D}' && c != '\u{0085}' && c
        != '\u{2028}' && c != '\u{2029}'
}

/// The mode transition table and buffer mutation rules, as a pure function.
/// Unrecognized (mode, action) pairs return the state unchanged; so do an
/// append at a line at or past the line count, and an insertion into a
/// document that has reached the largest representable size.
pub open spec fn apply_action_spec(s: StateModel, a: ActionModel) -> StateModel {
    match s.mode {
        ModeModel::Normal => match a {
            ActionModel::StartAppendingInput(n) => {
                if 0 <= n < line_count(s.content) {
                    StateModel {
                        mode: ModeModel::Input,
                        cursor: CursorModel { row: n, column: 0 },
                        content: s.content,
                    }
                } else {
                    s
                }
            },
            ActionModel::ChangeToCommandMode => StateModel {
                mode: ModeModel::Command(Seq::empty()),
                ..s
            },
            _ => s,
        },
        ModeModel::Input => match a {
            ActionModel::AddChar(c) => {
                if insertable(c) && s.content.len() < usize::MAX {
                    StateModel {
                        mode: s.mode,
                        cursor: CursorModel { row: s.cursor.row, column: s.cursor.column + 1 },
                        content: s.content.insert(cursor_index(s), c),
                    }
                } else {
                    s
                }
            },
            ActionModel::Enter => {
                if s.content.len() < usize::MAX {
                    StateModel {
                        mode: s.mode,
                        cursor: CursorModel { row: s.cursor.row + 1, column: 0 },
                        content: s.content.insert(cursor_index(s), '\n'),
                    }
                } else {
                    s
                }
            },
            ActionModel::ChangeToNormalMode => StateModel { mode: ModeModel::Normal, ..s },
            _ => s,
        },
        ModeModel::Command(t) => match a {
            ActionModel::Quit => StateModel { mode: ModeModel::Exit, ..s },
            ActionModel::AddChar(c) => {
                if t.len() < usize::MAX {
                    StateModel { mode: ModeModel::Command(t.push(c)), ..s }
                } else {
                    s
                }
            },
            ActionModel::ChangeToNormalMode => StateModel { mode: ModeModel::Normal, ..s },
            _ => s,
        },
        ModeModel::ConfirmExit => match a {
            ActionModel::Quit => StateModel { mode: ModeModel::Exit, ..s },
            _ => s,
        },
        ModeModel::Exit => s,
    }
}

/// The reducer preserves well-formedness: every action applied to a
/// well-formed state yields a well-formed state.
pub proof fn lemma_apply_action_wf(s: StateModel, a: ActionModel)
    requires
        state_wf(s),
    ensures
        state_wf(apply_action_spec(s, a)),
{
    lemma_line_start_bounds(s.content, s.cursor.row);
    lemma_line_start_bounds(s.content, s.cursor.row + 1);
    match s.mode {
        ModeModel::Normal => {
            if let ActionModel::StartAppendingInput(n) = a {
                if 0 <= n < line_count(s.content) {
                    lemma_line_within(s.content, n);
                }
            }
        },
        ModeModel::Input => match a {
            ActionModel::AddChar(c) => {
                if insertable(c) && s.content.len() < usize::MAX {
                    lemma_input_add_char(s, c);
                }
            },
            ActionModel::Enter => {
                if s.content.len() < usize::MAX {
                    lemma_input_enter(s);
                }
            },
            _ => {},
        },
        _ => {},
    }
}

/// In input mode, an insertable character goes in at the cursor index, the
/// cursor moves one column right, and the cursor index moves one past the
/// inserted character.
pub proof fn lemma_input_add_char(s: StateModel, c: char)
    requires
        state_wf(s),
        s.mode is Input,
        insertable(c),
        s.content.len() < usize::MAX,
    ensures
        state_wf(apply_action_spec(s, ActionModel::AddChar(c))),
        apply_action_spec(s, ActionModel::AddChar(c)).mode == s.mode,
        apply_action_spec(s, ActionModel::AddChar(c)).cursor.row == s.cursor.row,
        apply_action_spec(s, ActionModel::AddChar(c)).cursor.column == s.cursor.column + 1,
        apply_action_spec(s, ActionModel::AddChar(c)).content == s.content.insert(
            cursor_index(s),
            c,
        ),
        cursor_index(apply_action_spec(s, ActionModel::AddChar(c))) == cursor_index(s) + 1,
{
    let i = cursor_index(s);
    let r = s.cursor.row;
    lemma_line_start_bounds(s.content, r);
    lemma_line_start_bounds(s.content, r + 1);
    lemma_insert_plain_count(s.content, i, c);
    lemma_insert_plain_start(s.content, i, c, r);
    if r + 1 < line_count(s.content) {
        lemma_insert_plain_start(s.content, i, c, r + 1);
    }
    crate::text::lemma_insert_clean(s.content, i, c);
}

/// In input mode, `Enter` inserts a line break at the cursor index and moves
/// the cursor to the start of the next line.
pub proof fn lemma_input_enter(s: StateModel)
    requires
        state_wf(s),
        s.mode is Input,
        s.content.len() < usize::MAX,
    ensures
        state_wf(apply_action_spec(s, ActionModel::Enter)),
        apply_action_spec(s, ActionModel::Enter).content == s.content.insert(
            cursor_index(s),
            '\n',
        ),
        apply_action_spec(s, ActionModel::Enter).cursor.row == s.cursor.row + 1,
        apply_action_spec(s, ActionModel::Enter).cursor.column == 0,
{
    let i = cursor_index(s);
    let r = s.cursor.row;
    lemma_line_start_bounds(s.content, r);
    lemma_line_start_bounds(s.content, r + 1);
    lemma_insert_newline(s.content, i, r);
    crate::text::lemma_insert_clean(s.content, i, '\n');
    lemma_line_within(s.content.insert(i, '\n'), r + 1);
}

/// Replays a sequence of characters through the reducer, each as one
/// `AddChar` action.
pub open spec fn add_chars_spec(s: StateModel, cs: Seq<char>) -> StateModel
    decreases cs.len(),
{
    if cs.len() <= 0 {
        s
    } else {
        add_chars_spec(apply_action_spec(s, ActionModel::AddChar(cs[0])), cs.skip(1))
    }
}

/// In input mode, replaying any sequence of insertable characters as
/// `AddChar` actions yields a document equal to the old content with exactly
/// that sequence spliced in, in order, at the cursor index that was active
/// when the replay began; the mode stays input and the cursor advances by
/// the number of characters.
pub proof fn lemma_input_chars_concatenate(s: StateModel, cs: Seq<char>)
    requires
        state_wf(s),
        s.mode is Input,
        forall|k: int| 0 <= k < cs.len() ==> insertable(#[trigger] cs[k]),
        s.content.len() + cs.len() <= usize::MAX,
    ensures
        add_chars_spec(s, cs).content =~= s.content.take(cursor_index(s)) + cs + s.content.skip(
            cursor_index(s),
        ),
        add_chars_spec(s, cs).mode == s.mode,
        add_chars_spec(s, cs).cursor.row == s.cursor.row,
        add_chars_spec(s, cs).cursor.column == s.cursor.column + cs.len(),
        state_wf(add_chars_spec(s, cs)),
    decreases cs.len(),
{
    let p = cursor_index(s);
    lemma_line_start_bounds(s.content, s.cursor.row);
    lemma_line_start_bounds(s.content, s.cursor.row + 1);
    if cs.len() == 0 {
        assert(add_chars_spec(s, cs).content =~= s.content.take(p) + cs + s.content.skip(p));
    } else {
        lemma_input_add_char(s, cs[0]);
        let s1 = apply_action_spec(s, ActionModel::AddChar(cs[0]));
        s.content.insert_ensures(p, cs[0]);
        lemma_input_chars_concatenate(s1, cs.skip(1));
        assert(s1.content.take(p + 1) =~= s.content.take(p).push(cs[0]));
        assert(s1.content.skip(p + 1) =~= s.content.skip(p));
        assert(cs =~= seq![cs[0]] + cs.skip(1));
        assert(add_chars_spec(s, cs).content =~= s.content.take(p) + cs + s.content.skip(p));
    }
}

/// `Quit` from command or exit-confirmation mode always exits.
pub proof fn lemma_quit_exits(s: StateModel)
    requires
        s.mode is Command || s.mode is ConfirmExit,
    ensures
        apply_action_spec(s, ActionModel::Quit).mode == ModeModel::Exit,
{
}

/// Exit is terminal: once a state has exited, no action changes it.
pub proof fn lemma_exit_terminal(s: StateModel, a: ActionModel)
    requires
        s.mode is Exit,
    ensures
        apply_action_spec(s, a) == s,
{
}

/// An append whose target line is at or past the line count is rejected
/// before any mutation: the state — mode, cursor and document — is unchanged.
pub proof fn lemma_append_out_of_range(s: StateModel, n: int)
    requires
        n >= line_count(s.content),
    ensures
        apply_action_spec(s, ActionModel::StartAppendingInput(n)) == s,
{
}

/// Relies on String::push: appends one character at the end of the string.
#[verifier::external_body]
fn push_char(s: &mut String, c: char)
    requires
        old(s)@.len() < usize::MAX,
    ensures
        final (s)@ == old(s)@.push(c),
{
    s.push(c)
}

impl State {
    /// A fresh editor state: idle mode, cursor at the origin, empty document.
    pub fn new() -> (s: State)
        ensures
            s@ == initial_state(),
            state_wf(s@),
    {
        let s = State {
            mode: Mode::Normal,
            cursor_position: CursorPostion { row: 0, column: 0 },
            rope: Document::new(),
        };
        proof {
            assert(s@ =~= initial_state());
            assert(line_count(Seq::<char>::empty()) == 1);
        }
        s
    }

    /// Well-formedness of the state (see [`state_wf`]).
    pub open spec fn wf(&self) -> bool {
        state_wf(self@)
    }

    /// The full document text, serialized in order.
    pub fn get_entire_rope(&self) -> (out: String)
        ensures
            out@ == self@.content,
    {
        self.rope.serialize()
    }

    /// An immutable copy of the state, sharing the document's structure.
    pub fn snapshot(&self) -> (s: State)
        ensures
            s@ == self@,
    {
        let s = State {
            mode: self.mode.snapshot(),
            cursor_position: self.cursor_position,
            rope: self.rope.snapshot(),
        };
        proof {
            assert(s@ =~= self@);
        }
        s
    }

    /// Applies one action: the reducer. The new state is exactly what
    /// [`apply_action_spec`] says, and stays well-formed.
    pub fn apply_action(&mut self, action: &Action)
        requires
            old(self).wf(),
        ensures
            final (self)@ == apply_action_spec(old(self)@, action@),
            final (self).wf(),
    {
        proof {
            lemma_apply_action_wf(old(self)@, action@);
        }
        match (&self.mode, action) {
            (Mode::Normal, Action::StartAppendingInput(n)) => {
                let n: usize = *n;
                if n < self.rope.len_lines() {
                    self.mode = Mode::Input;
                    self.cursor_position = CursorPostion { row: n, column: 0 };
                }
            },
            (Mode::Normal, Action::ChangeToCommandMode) => {
                self.mode = Mode::Command(String::new());
            },
            (Mode::Input, Action::AddChar(c)) => {
                let c: char = *c;
                if char_is_insertable(c) && self.rope.len_chars() < usize::MAX {
                    proof {
                        lemma_line_start_bounds(self@.content, self@.cursor.row);
                        lemma_line_start_bounds(self@.content, self@.cursor.row + 1);
                    }
                    let row: usize = self.cursor_position.row;
                    let start: usize = self.rope.line_to_char(row);
                    let idx: usize = start + self.cursor_position.column;
                    self.rope.insert_char(idx, c);
                    self.cursor_position.column = self.cursor_position.column + 1;
                }
            },
            (Mode::Input, Action::Enter) => {
                if self.rope.len_chars() < usize::MAX {
                    proof {
                        lemma_line_start_bounds(self@.content, self@.cursor.row);
                        lemma_line_start_bounds(self@.content, self@.cursor.row + 1);
                        lemma_line_count_le(self@.content);
                        assert(!is_exotic_break('\n'));
                    }
                    let row: usize = self.cursor_position.row;
                    let start: usize = self.rope.line_to_char(row);
                    let idx: usize = start + self.cursor_position.column;
                    self.rope.insert_char(idx, '\n');
                    self.cursor_position = CursorPostion { row: row + 1, column: 0 };
                }
            },
            (Mode::Input, Action::ChangeToNormalMode) => {
                self.mode = Mode::Normal;
            },
            (Mode::Command(_), Action::Quit) => {
                self.mode = Mode::Exit;
            },
            (Mode::Command(chars), Action::AddChar(c)) => {
                let c: char = *c;
                let mut t: String = chars.clone();
                if t.as_str().unicode_len() < usize::MAX {
                    push_char(&mut t, c);
                    self.mode = Mode::Command(t);
                }
            },
            (Mode::Command(_), Action::ChangeToNormalMode) => {
                self.mode = Mode::Normal;
            },
            (Mode::ConfirmExit, Action::Quit) => {
                self.mode = Mode::Exit;
            },
            _ => {},
        }
        proof {
            assert(self@ =~= apply_action_spec(old(self)@, action@));
        }
    }

    /// Runs one effect against a snapshot of the state. `Print` serializes
    /// the document — the output is exactly the document's content at the
    /// time the effect runs — and emits no follow-up actions.
    pub fn apply_effect(&self, effect: &Effect) -> (r: (String, Vec<Action>))
        ensures
            r.0@ == self@.content,
            r.1@.len() == 0,
    {
        match effect {
            Effect::Print => (self.get_entire_rope(), Vec::new()),
        }
    }
}

impl Default for State {
    /// The default state is the initial one.
    fn default() -> (s: State)
        ensures
            s@ == initial_state(),
            state_wf(s@),
    {
        State::new()
    }
}

/// Lines accumulated for a deferred insertion: the batched-input discipline
/// collects entered lines here and counts them, so that they can be inserted
/// in one step when input mode is left.
#[derive(Debug)]
pub struct InputLinesToAdd {
    pub num_lines: usize,
    pub lines: String,
}

impl InputLinesToAdd {
    /// An empty accumulator.
    pub fn new() -> (a: InputLinesToAdd)
        ensures
            a.num_lines == 0,
            a.lines@ == Seq::<char>::empty(),
    {
        InputLinesToAdd { num_lines: 0, lines: String::new() }
    }

    /// Appends one entered line, terminated with a line break, and counts it.
    pub fn add_line(&mut self, line: &str)
        requires
            old(self).num_lines < usize::MAX,
            old(self).lines@.len() + line@.len() < usize::MAX,
        ensures
            final (self).lines@ == old(self).lines@ + line@ + seq!['\n'],
            final (self).num_lines == old(self).num_lines + 1,
    {
        self.lines.append(line);
        push_char(&mut self.lines, '\n');
        self.num_lines = self.num_lines + 1;
        proof {
            assert(self.lines@ =~= old(self).lines@ + line@ + seq!['\n']);
        }
    }
}

impl Default for InputLinesToAdd {
    /// The default accumulator is empty.
    fn default() -> (a: InputLinesToAdd)
        ensures
            a.num_lines == 0,
            a.lines@ == Seq::<char>::empty(),
    {
        InputLinesToAdd::new()
    }
}

} // verus!
