use data_device::{default_action_chooser, DndAction};

fn actions(copy: bool, move_: bool, ask: bool) -> DndAction {
    DndAction { copy, move_, ask }
}

#[test]
fn preferred_single_and_available_wins() {
    // choose({Copy,Move}, {Move}) = Move
    let r = default_action_chooser(actions(true, true, false), actions(false, true, false));
    assert_eq!(r, actions(false, true, false));
}

#[test]
fn preferred_unavailable_falls_back_in_order() {
    // choose({Copy,Move}, {Ask}) = Copy: Ask not available, Copy before Move
    let r = default_action_chooser(actions(true, true, false), actions(false, false, true));
    assert_eq!(r, actions(true, false, false));
}

#[test]
fn nothing_available_yields_empty() {
    // choose({}, {Move}) = empty
    let r = default_action_chooser(actions(false, false, false), actions(false, true, false));
    assert_eq!(r, DndAction::empty());
}

#[test]
fn multi_action_preferred_is_invalid_and_falls_back() {
    // choose({Ask,Copy,Move}, {Copy,Move}) = Ask
    let r = default_action_chooser(actions(true, true, true), actions(true, true, false));
    assert_eq!(r, actions(false, false, true));
}

#[test]
fn ask_precedes_copy_precedes_move() {
    let all = actions(true, true, true);
    assert_eq!(default_action_chooser(all, DndAction::empty()), actions(false, false, true));
    let copy_move = actions(true, true, false);
    assert_eq!(
        default_action_chooser(copy_move, DndAction::empty()),
        actions(true, false, false)
    );
    let move_only = actions(false, true, false);
    assert_eq!(
        default_action_chooser(move_only, DndAction::empty()),
        actions(false, true, false)
    );
}

#[test]
fn result_is_member_of_available_or_empty() {
    // every combination of available and preferred over the three actions
    for av in 0u8..8 {
        for pr in 0u8..8 {
            let available = actions(av & 1 != 0, av & 2 != 0, av & 4 != 0);
            let preferred = actions(pr & 1 != 0, pr & 2 != 0, pr & 4 != 0);
            let r = default_action_chooser(available, preferred);
            assert!(r == DndAction::empty() || available.contains(&r));
        }
    }
}

#[test]
fn never_move_when_ask_or_copy_available_and_preferred_invalid() {
    let available = actions(true, true, false);
    // preferred is not a single action available at the source
    let preferred = actions(false, false, false);
    let r = default_action_chooser(available, preferred);
    assert_ne!(r, actions(false, true, false));
}

#[test]
fn set_predicates() {
    assert!(DndAction::empty().is_empty());
    assert!(!actions(true, false, false).is_empty());
    assert!(actions(false, true, false).is_single());
    assert!(!actions(true, true, false).is_single());
    assert!(!DndAction::empty().is_single());
    assert!(actions(true, true, true).contains(&actions(true, false, true)));
    assert!(!actions(true, false, false).contains(&actions(false, true, false)));
    // the empty set is contained in anything
    assert!(actions(false, false, false).contains(&DndAction::empty()));
}
