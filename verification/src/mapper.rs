//! The input mapper: translates key events into action/effect pairs,
//! consulting the current state to decide the grammar.
//!
//! In normal mode single keys switch modes. In command mode characters
//! accumulate into the pending command text, and a newline interprets that
//! text: `q` and `q!` quit, `<N>a` parses to an append at line `N` (default:
//! the cursor's line), `<N>p` asks for the document to be printed when line
//! `N` exists. A line that matches no known pattern produces nothing: the
//! state stays as it is and no feedback is defined here. In input mode
//! characters are inserted, newline breaks the line and escape returns to
//! normal mode.
//!
//! The mapper only names actions; whether one takes effect is the reducer's
//! closed transition table's decision. Two deliberate consequences: the
//! append action parsed from a command line is dropped by the reducer, whose
//! table accepts it in normal mode alone; and the `i` key names the
//! start-inserting action, which no row of the table accepts, so it too is
//! dropped. Appending input is entered through the table's one door, the
//! append action applied in normal mode.

use vstd::prelude::*;
use vstd::string::StrSliceExecFns;

use crate::action::Action;
use crate::action::ActionModel;
use crate::action::Effect;
use crate::mode::Mode;
use crate::mode::State;
use crate::mode::StateModel;
use crate::text::line_count;

verus! {

/// A key event, as the editor reads it: a typed character (newline included),
/// the escape key, or any other key, which the mapper ignores.
#[derive(Clone, Copy, Debug, PartialEq, Eq, Structural)]
pub enum Key {
    Char(char),
    Esc,
    Other,
}

/// A decimal digit.
pub open spec fn is_digit(c: char) -> bool {
    48 <= c as int <= 57
}

/// The value of a decimal digit.
pub open spec fn digit_val(c: char) -> int {
    c as int - 48
}

/// Every character of `s` is a decimal digit.
pub open spec fn all_digits(s: Seq<char>) -> bool {
    forall|k: int| 0 <= k < s.len() ==> is_digit(#[trigger] s[k])
}

/// The number the digit string `s` denotes, most significant digit first;
/// the empty string denotes zero.
pub open spec fn digits_value(s: Seq<char>) -> int
    decreases s.len(),
{
    if s.len() == 0 {
        0
    } else {
        digits_value(s.drop_last()) * 10 + digit_val(s.last())
    }
}

/// A digit string denotes a non-negative number.
pub proof fn lemma_digits_value_nonneg(s: Seq<char>)
    requires
        all_digits(s),
    ensures
        digits_value(s) >= 0,
    decreases s.len(),
{
    if s.len() > 0 {
        assert(all_digits(s.drop_last()));
        lemma_digits_value_nonneg(s.drop_last());
    }
}

/// A digit string denotes at least what any of its prefixes denotes.
pub proof fn lemma_digits_value_prefix_le(s: Seq<char>, k: int)
    requires
        all_digits(s),
        0 <= k <= s.len(),
    ensures
        digits_value(s.take(k)) <= digits_value(s),
    decreases s.len(),
{
    if k == s.len() {
        assert(s.take(k) =~= s);
    } else {
        assert(all_digits(s.drop_last()));
        lemma_digits_value_nonneg(s.drop_last());
        lemma_digits_value_prefix_le(s.drop_last(), k);
        assert(s.drop_last().take(k) =~= s.take(k));
    }
}

/// The text is a command of the form `<digits><suffix>` — possibly no digits
/// — whose number fits a `usize`.
pub open spec fn is_suffixed_number(t: Seq<char>, suffix: char) -> bool {
    &&& t.len() >= 1
    &&& t.last() == suffix
    &&& all_digits(t.drop_last())
    &&& digits_value(t.drop_last()) <= usize::MAX
}

/// What a newline makes of the pending command text `t`: quit, append at a
/// line, print when the target line exists, or nothing for a line that
/// matches no known pattern.
pub open spec fn command_line_spec(t: Seq<char>, s: StateModel) -> Option<
    (Option<ActionModel>, Option<Effect>),
> {
    if t == "q"@ || t == "q!"@ {
        Some((Some(ActionModel::Quit), Option::<Effect>::None))
    } else if is_suffixed_number(t, 'a') {
        Some(
            (
                Some(ActionModel::StartAppendingInput(command_target(t, s.cursor.row))),
                Option::<Effect>::None,
            ),
        )
    } else if is_suffixed_number(t, 'p') {
        if command_target(t, s.cursor.row) < line_count(s.content) {
            Some((Option::<ActionModel>::None, Some(Effect::Print)))
        } else {
            None
        }
    } else {
        None
    }
}

/// The line a counted command addresses: its digits, or the cursor's line
/// when it has none.
pub open spec fn command_target(t: Seq<char>, current_row: int) -> int {
    if t.len() == 1 {
        current_row
    } else {
        digits_value(t.drop_last())
    }
}

/// The whole mapping table: what each key produces in each mode.
pub open spec fn map_key_spec(s: StateModel, key: Key) -> Option<
    (Option<ActionModel>, Option<Effect>),
> {
    match s.mode {
        crate::mode::ModeModel::Normal => match key {
            Key::Char(c) => {
                if c == 'a' {
                    Some(
                        (
                            Some(ActionModel::StartAppendingInput(s.cursor.row)),
                            Option::<Effect>::None,
                        ),
                    )
                } else if c == 'i' {
                    Some((Some(ActionModel::StartInsertingInput), Option::<Effect>::None))
                } else if c == ':' {
                    Some((Some(ActionModel::ChangeToCommandMode), Option::<Effect>::None))
                } else {
                    None
                }
            },
            _ => None,
        },
        crate::mode::ModeModel::Command(t) => match key {
            Key::Esc => Some((Some(ActionModel::ChangeToNormalMode), Option::<Effect>::None)),
            Key::Char(c) => {
                if c == '\n' {
                    command_line_spec(t, s)
                } else {
                    Some((Some(ActionModel::AddChar(c)), Option::<Effect>::None))
                }
            },
            _ => None,
        },
        crate::mode::ModeModel::Input => match key {
            Key::Char(c) => {
                if c == '\n' {
                    Some((Some(ActionModel::Enter), Option::<Effect>::None))
                } else {
                    Some((Some(ActionModel::AddChar(c)), Option::<Effect>::None))
                }
            },
            Key::Esc => Some((Some(ActionModel::ChangeToNormalMode), Option::<Effect>::None)),
            _ => None,
        },
        _ => None,
    }
}

/// The mathematical value of a mapping result.
pub open spec fn mapped_view(r: Option<(Option<Action>, Option<Effect>)>) -> Option<
    (Option<ActionModel>, Option<Effect>),
> {
    match r {
        Some((a, e)) => Some(
            (
                match a {
                    Some(x) => Some(x@),
                    None => None,
                },
                e,
            ),
        ),
        None => None,
    }
}

/// Relies on regex::Regex::is_match with the anchored pattern `^q!?$`, which
/// matches exactly the whole texts `q` and `q!`; and on regex::Regex::new,
/// which accepts that fixed, valid pattern.
#[verifier::external_body]
fn is_quit_command(s: &str) -> (r: bool)
    ensures
        r == (s@ == "q"@ || s@ == "q!"@),
{
    match regex::Regex::new("^q!?$") {
        Ok(re) => re.is_match(s),
        Err(_) => false,
    }
}

/// Parses a command of the form `<digits><suffix>`: `Some(Some(n))` when
/// digits are given and denote `n`, `Some(None)` when the suffix stands
/// alone, `None` when the text has another form or its number does not fit
/// a `usize`.
fn parse_counted(t: &str, suffix: char) -> (r: Option<Option<usize>>)
    ensures
        match r {
            Some(inner) => is_suffixed_number(t@, suffix) && (match inner {
                Some(n) => t@.len() > 1 && n as int == digits_value(t@.drop_last()),
                None => t@.len() == 1,
            }),
            None => !is_suffixed_number(t@, suffix),
        },
{
    let len: usize = t.unicode_len();
    if len == 0 {
        return None;
    }
    let last: char = t.get_char(len - 1);
    if last != suffix {
        return None;
    }
    let ghost digits = t@.drop_last();
    let mut acc: u128 = 0;
    let mut i: usize = 0;
    while i < len - 1
        invariant
            1 <= len,
            len == t@.len(),
            0 <= i <= len - 1,
            t@.last() == suffix,
            digits == t@.drop_last(),
            all_digits(t@.take(i as int)),
            acc as int == digits_value(t@.take(i as int)),
            acc <= usize::MAX as u128,
        decreases len - 1 - i,
    {
        let c: char = t.get_char(i);
        let u: u32 = c as u32;
        if !(48 <= u && u <= 57) {
            proof {
                assert(digits[i as int] == t@[i as int]);
                assert(!is_digit(t@[i as int]));
            }
            return None;
        }
        proof {
            assert(t@.take(i as int + 1).drop_last() =~= t@.take(i as int));
            assert(t@.take(i as int + 1).last() == t@[i as int]);
        }
        let d: u128 = (u - 48) as u128;
        acc = acc * 10 + d;
        if acc > usize::MAX as u128 {
            proof {
                if all_digits(digits) {
                    assert(digits.take(i as int + 1) =~= t@.take(i as int + 1));
                    lemma_digits_value_prefix_le(digits, i as int + 1);
                }
            }
            return None;
        }
        i = i + 1;
    }
    proof {
        assert(t@.take(len - 1 as int) =~= digits);
    }
    if len == 1 {
        Some(None)
    } else {
        Some(Some(acc as usize))
    }
}

/// Translates one key event, read against the current state, into at most
/// one action and at most one effect to dispatch: exactly [`map_key_spec`].
pub fn map_line_to_action(state: &State, key: Key) -> (r: Option<(Option<Action>, Option<Effect>)>)
    requires
        state.wf(),
    ensures
        mapped_view(r) == map_key_spec(state@, key),
{
    match (&state.mode, key) {
        (Mode::Normal, Key::Char(c)) => {
            if c == 'a' {
                Some((Some(Action::StartAppendingInput(state.cursor_position.row)), None))
            } else if c == 'i' {
                Some((Some(Action::StartInsertingInput), None))
            } else if c == ':' {
                Some((Some(Action::ChangeToCommandMode), None))
            } else {
                None
            }
        },
        (Mode::Command(_), Key::Esc) => Some((Some(Action::ChangeToNormalMode), None)),
        (Mode::Command(sofar), Key::Char(c)) => {
            if c == '\n' {
                if is_quit_command(sofar.as_str()) {
                    Some((Some(Action::Quit), None))
                } else if let Some(target) = parse_counted(sofar.as_str(), 'a') {
                    let n: usize = match target {
                        Some(n) => n,
                        None => state.cursor_position.row,
                    };
                    Some((Some(Action::StartAppendingInput(n)), None))
                } else if let Some(target) = parse_counted(sofar.as_str(), 'p') {
                    let n: usize = match target {
                        Some(n) => n,
                        None => state.cursor_position.row,
                    };
                    if n < state.rope.len_lines() {
                        Some((None, Some(Effect::Print)))
                    } else {
                        None
                    }
                } else {
                    None
                }
            } else {
                Some((Some(Action::AddChar(c)), None))
            }
        },
        (Mode::Input, Key::Char(c)) => {
            if c == '\n' {
                Some((Some(Action::Enter), None))
            } else {
                Some((Some(Action::AddChar(c)), None))
            }
        },
        (Mode::Input, Key::Esc) => Some((Some(Action::ChangeToNormalMode), None)),
        _ => None,
    }
}

} // verus!
