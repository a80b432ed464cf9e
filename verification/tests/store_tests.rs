use edcore::action::Action;
use edcore::action::Effect;
use edcore::mode::Mode;
use edcore::mode::State;
use edcore::store::StepOutcome;
use edcore::store::Store;

#[test]
fn one_snapshot_per_action_in_order() {
    // A subscriber that attaches before any dispatch sees the initial state,
    // then exactly one snapshot per applied action, in application order.
    let mut store = Store::new(State::new());
    let first = store.get_state();
    assert_eq!(first.mode, Mode::Normal);

    store.dispatch(Some(Action::ChangeToCommandMode), None);
    store.dispatch(Some(Action::AddChar('q')), None);
    store.dispatch(Some(Action::Quit), None);
    let (snapshots, outputs) = store.run_pending();
    assert_eq!(snapshots.len(), 3);
    assert_eq!(outputs.len(), 0);
    assert_eq!(snapshots[0].mode, Mode::Command(String::new()));
    assert_eq!(snapshots[1].mode, Mode::Command("q".to_string()));
    assert_eq!(snapshots[2].mode, Mode::Exit);
    assert_eq!(store.get_state().mode, Mode::Exit);
}

#[test]
fn print_outputs_document_at_print_time() {
    // Building a document through dispatched actions and then issuing Print
    // writes exactly the document's serialized content at that time.
    let mut store = Store::new(State::new());
    store.dispatch(Some(Action::StartAppendingInput(0)), None);
    store.dispatch(Some(Action::AddChar('h')), None);
    store.dispatch(Some(Action::AddChar('i')), None);
    store.dispatch(Some(Action::ChangeToNormalMode), None);
    store.dispatch(None, Some(Effect::Print));
    let (snapshots, outputs) = store.run_pending();
    assert_eq!(snapshots.len(), 4);
    assert_eq!(outputs, vec!["hi".to_string()]);
    assert_eq!(store.get_state().get_entire_rope(), "hi");
}

#[test]
fn print_runs_after_the_action_of_the_same_dispatch() {
    let mut store = Store::new(State::new());
    store.dispatch(Some(Action::StartAppendingInput(0)), Some(Effect::Print));
    let (snapshots, outputs) = store.run_pending();
    assert_eq!(snapshots.len(), 1);
    assert_eq!(snapshots[0].mode, Mode::Input);
    assert_eq!(outputs, vec![String::new()]);
}

#[test]
fn step_on_empty_queue_is_idle() {
    let mut store = Store::new(State::new());
    assert!(matches!(store.step(), StepOutcome::Idle));
    assert_eq!(store.get_state().mode, Mode::Normal);
}

#[test]
fn steps_apply_in_fifo_order() {
    let mut store = Store::new(State::new());
    store.dispatch(Some(Action::ChangeToCommandMode), None);
    store.dispatch(Some(Action::AddChar('a')), None);
    match store.step() {
        StepOutcome::Applied(snap) => assert_eq!(snap.mode, Mode::Command(String::new())),
        _ => panic!("expected an applied action"),
    }
    match store.step() {
        StepOutcome::Applied(snap) => assert_eq!(snap.mode, Mode::Command("a".to_string())),
        _ => panic!("expected an applied action"),
    }
    assert!(matches!(store.step(), StepOutcome::Idle));
}

#[test]
fn get_state_does_not_disturb_the_store() {
    let mut store = Store::new(State::new());
    store.dispatch(Some(Action::StartAppendingInput(0)), None);
    let before = store.get_state();
    assert_eq!(before.mode, Mode::Normal);
    let (snapshots, _outputs) = store.run_pending();
    assert_eq!(snapshots.len(), 1);
    assert_eq!(before.mode, Mode::Normal);
    assert_eq!(store.get_state().mode, Mode::Input);
}
