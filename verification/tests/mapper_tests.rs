use edcore::action::Action;
use edcore::action::Effect;
use edcore::document::Document;
use edcore::mapper::map_line_to_action;
use edcore::mapper::Key;
use edcore::mode::CursorPostion;
use edcore::mode::Mode;
use edcore::mode::State;
use edcore::mode::InputLinesToAdd;

fn command_state(text: &str) -> State {
    State {
        mode: Mode::Command(text.to_string()),
        cursor_position: CursorPostion { row: 0, column: 0 },
        rope: Document::new(),
    }
}

#[test]
fn normal_mode_keys_switch_modes() {
    let state = State::new();
    assert_eq!(
        map_line_to_action(&state, Key::Char('a')),
        Some((Some(Action::StartAppendingInput(0)), None))
    );
    assert_eq!(
        map_line_to_action(&state, Key::Char('i')),
        Some((Some(Action::StartInsertingInput), None))
    );
    assert_eq!(
        map_line_to_action(&state, Key::Char(':')),
        Some((Some(Action::ChangeToCommandMode), None))
    );
    assert_eq!(map_line_to_action(&state, Key::Char('x')), None);
    assert_eq!(map_line_to_action(&state, Key::Esc), None);
    assert_eq!(map_line_to_action(&state, Key::Other), None);
}

#[test]
fn append_key_uses_current_line() {
    let mut state = State::new();
    state.apply_action(&Action::StartAppendingInput(0));
    state.apply_action(&Action::AddChar('u'));
    state.apply_action(&Action::Enter);
    state.apply_action(&Action::ChangeToNormalMode);
    assert_eq!(state.cursor_position.row, 1);
    assert_eq!(
        map_line_to_action(&state, Key::Char('a')),
        Some((Some(Action::StartAppendingInput(1)), None))
    );
}

#[test]
fn command_mode_chars_accumulate() {
    let state = command_state("");
    assert_eq!(
        map_line_to_action(&state, Key::Char('q')),
        Some((Some(Action::AddChar('q')), None))
    );
    assert_eq!(
        map_line_to_action(&state, Key::Esc),
        Some((Some(Action::ChangeToNormalMode), None))
    );
    assert_eq!(map_line_to_action(&state, Key::Other), None);
}

#[test]
fn quit_patterns_are_detected() {
    assert_eq!(
        map_line_to_action(&command_state("q"), Key::Char('\n')),
        Some((Some(Action::Quit), None))
    );
    assert_eq!(
        map_line_to_action(&command_state("q!"), Key::Char('\n')),
        Some((Some(Action::Quit), None))
    );
    // Near misses are not quits and match no other pattern either.
    assert_eq!(map_line_to_action(&command_state("qq"), Key::Char('\n')), None);
    assert_eq!(map_line_to_action(&command_state("q!!"), Key::Char('\n')), None);
    assert_eq!(map_line_to_action(&command_state(" q"), Key::Char('\n')), None);
}

#[test]
fn append_command_parses_line_number() {
    assert_eq!(
        map_line_to_action(&command_state("5a"), Key::Char('\n')),
        Some((Some(Action::StartAppendingInput(5)), None))
    );
    assert_eq!(
        map_line_to_action(&command_state("12a"), Key::Char('\n')),
        Some((Some(Action::StartAppendingInput(12)), None))
    );
    assert_eq!(
        map_line_to_action(&command_state("0a"), Key::Char('\n')),
        Some((Some(Action::StartAppendingInput(0)), None))
    );
    // Without digits the cursor's line is the target.
    assert_eq!(
        map_line_to_action(&command_state("a"), Key::Char('\n')),
        Some((Some(Action::StartAppendingInput(0)), None))
    );
}

#[test]
fn command_mode_append_action_is_dropped_by_the_reducer() {
    // The mapper names the append action for `3a`, but the reducer's closed
    // table accepts that action in normal mode alone: dispatched from command
    // mode it is a silent no-op.
    let mut state = command_state("3a");
    let mapped = map_line_to_action(&state, Key::Char('\n'));
    assert_eq!(mapped, Some((Some(Action::StartAppendingInput(3)), None)));
    state.apply_action(&Action::StartAppendingInput(3));
    assert_eq!(state.mode, Mode::Command("3a".to_string()));
}

#[test]
fn start_inserting_key_names_a_dropped_action() {
    // `i` names the start-inserting action; no row of the table accepts it.
    let mut state = State::new();
    let mapped = map_line_to_action(&state, Key::Char('i'));
    assert_eq!(mapped, Some((Some(Action::StartInsertingInput), None)));
    state.apply_action(&Action::StartInsertingInput);
    assert_eq!(state.mode, Mode::Normal);
}

#[test]
fn print_command_checks_the_target_line() {
    // The empty document has one line, so line 0 exists and line 1 does not.
    assert_eq!(
        map_line_to_action(&command_state("p"), Key::Char('\n')),
        Some((None, Some(Effect::Print)))
    );
    assert_eq!(
        map_line_to_action(&command_state("0p"), Key::Char('\n')),
        Some((None, Some(Effect::Print)))
    );
    assert_eq!(map_line_to_action(&command_state("1p"), Key::Char('\n')), None);
    assert_eq!(map_line_to_action(&command_state("7p"), Key::Char('\n')), None);
}

#[test]
fn malformed_commands_produce_nothing() {
    assert_eq!(map_line_to_action(&command_state(""), Key::Char('\n')), None);
    assert_eq!(map_line_to_action(&command_state("xyz"), Key::Char('\n')), None);
    assert_eq!(map_line_to_action(&command_state("5x"), Key::Char('\n')), None);
    assert_eq!(map_line_to_action(&command_state("a5"), Key::Char('\n')), None);
    assert_eq!(map_line_to_action(&command_state("5 a"), Key::Char('\n')), None);
    // A line number too large for the machine is malformed, not wrapped.
    assert_eq!(
        map_line_to_action(
            &command_state("99999999999999999999999999999999999999a"),
            Key::Char('\n')
        ),
        None
    );
}

#[test]
fn input_mode_keys_insert_break_and_leave() {
    let mut state = State::new();
    state.apply_action(&Action::StartAppendingInput(0));
    assert_eq!(
        map_line_to_action(&state, Key::Char('h')),
        Some((Some(Action::AddChar('h')), None))
    );
    assert_eq!(
        map_line_to_action(&state, Key::Char('\n')),
        Some((Some(Action::Enter), None))
    );
    assert_eq!(
        map_line_to_action(&state, Key::Esc),
        Some((Some(Action::ChangeToNormalMode), None))
    );
    assert_eq!(map_line_to_action(&state, Key::Other), None);
}

#[test]
fn exit_mode_maps_nothing() {
    let mut state = State::new();
    state.apply_action(&Action::ChangeToCommandMode);
    state.apply_action(&Action::Quit);
    assert_eq!(map_line_to_action(&state, Key::Char('q')), None);
    assert_eq!(map_line_to_action(&state, Key::Esc), None);
}

#[test]
fn input_lines_accumulator_counts_lines() {
    let mut acc = InputLinesToAdd::new();
    assert_eq!(acc.num_lines, 0);
    assert_eq!(acc.lines, "");
    acc.add_line("ab");
    acc.add_line("");
    acc.add_line("c");
    assert_eq!(acc.num_lines, 3);
    assert_eq!(acc.lines, "ab\n\nc\n");
    let other = InputLinesToAdd::default();
    assert_eq!(other.num_lines, 0);
}
