//! The vocabulary of the editor: the closed set of mutation requests
//! (`Action`) an input source may dispatch, and the closed set of
//! asynchronous side-effect requests (`Effect`) a state may emit. Both are
//! immutable values; actions are consumed exactly once by the reducer, and
//! effects only read the state.

use vstd::prelude::*;

verus! {

/// A request to mutate the editor state. Actions whose meaning depends on a
/// line carry the target line number; the reducer validates it.
#[derive(Clone, Debug)]
pub enum Action {
    AddInputLine(String),
    AddChar(char),
    Enter,
    StartInsertingInput,
    StartAppendingInput(usize),
    ChangeToNormalMode,
    ChangeToCommandMode,
    Quit,
    SetLineNumber(usize),
}

/// The mathematical value of an [`Action`]: strings become character
/// sequences and line numbers become unbounded integers.
#[verifier::ext_equal]
pub enum ActionModel {
    AddInputLine(Seq<char>),
    AddChar(char),
    Enter,
    StartInsertingInput,
    StartAppendingInput(int),
    ChangeToNormalMode,
    ChangeToCommandMode,
    Quit,
    SetLineNumber(int),
}

impl View for Action {
    type V = ActionModel;

    open spec fn view(&self) -> ActionModel {
        match self {
            Action::AddInputLine(s) => ActionModel::AddInputLine(s@),
            Action::AddChar(c) => ActionModel::AddChar(*c),
            Action::Enter => ActionModel::Enter,
            Action::StartInsertingInput => ActionModel::StartInsertingInput,
            Action::StartAppendingInput(n) => ActionModel::StartAppendingInput(*n as int),
            Action::ChangeToNormalMode => ActionModel::ChangeToNormalMode,
            Action::ChangeToCommandMode => ActionModel::ChangeToCommandMode,
            Action::Quit => ActionModel::Quit,
            Action::SetLineNumber(n) => ActionModel::SetLineNumber(*n as int),
        }
    }
}

impl PartialEq for Action {
    fn eq(&self, other: &Action) -> (r: bool) {
        match (self, other) {
            (Action::AddInputLine(a), Action::AddInputLine(b)) => a.eq(b),
            (Action::AddChar(a), Action::AddChar(b)) => *a == *b,
            (Action::Enter, Action::Enter) => true,
            (Action::StartInsertingInput, Action::StartInsertingInput) => true,
            (Action::StartAppendingInput(a), Action::StartAppendingInput(b)) => *a == *b,
            (Action::ChangeToNormalMode, Action::ChangeToNormalMode) => true,
            (Action::ChangeToCommandMode, Action::ChangeToCommandMode) => true,
            (Action::Quit, Action::Quit) => true,
            (Action::SetLineNumber(a), Action::SetLineNumber(b)) => *a == *b,
            _ => false,
        }
    }
}

impl vstd::std_specs::cmp::PartialEqSpecImpl for Action {
    open spec fn obeys_eq_spec() -> bool {
        true
    }

    open spec fn eq_spec(&self, other: &Action) -> bool {
        self@ == other@
    }
}

impl Eq for Action {

}

/// A request for an asynchronous side computation that reads the state and
/// may emit further actions. `Print` serializes the document to the output
/// sink.
#[derive(Clone, Copy, Debug, PartialEq, Eq, Structural)]
pub enum Effect {
    Print,
}

} // verus!
