use data_device::device::client_set_selection;
use data_device::{
    DataSource, DeviceEntry, DndAction, RequestError, SeatData, Selection, SelectionEffect,
    SourceMetadata,
};

fn source_with(id: u64, mimes: &[&str]) -> DataSource {
    let mut src = DataSource::new(id);
    for m in mimes {
        src.offer(m.to_string());
    }
    src
}

#[test]
fn selection_replaced_twice_cancels_first_exactly_once() {
    let mut seat = SeatData::new();
    let first = seat.set_selection(Selection::Client(source_with(7, &["text/plain"])));
    // nothing was selected before, so nothing is cancelled
    assert_eq!(first, vec![]);
    let second = seat.set_selection(Selection::Client(source_with(9, &["text/plain"])));
    let cancels_of_7 = |effects: &Vec<SelectionEffect>| {
        effects
            .iter()
            .filter(|e| matches!(e, SelectionEffect::CancelSource { source: 7 }))
            .count()
    };
    assert_eq!(cancels_of_7(&first) + cancels_of_7(&second), 1);
    // replacing by a third value cancels source 9, and source 7 never again
    let third = seat.set_selection(Selection::Empty);
    assert_eq!(third, vec![SelectionEffect::CancelSource { source: 9 }]);
    assert_eq!(cancels_of_7(&third), 0);
}

#[test]
fn resetting_the_same_source_does_not_cancel_it() {
    let mut seat = SeatData::new();
    seat.set_selection(Selection::Client(source_with(7, &["text/plain"])));
    let again = seat.set_selection(Selection::Client(source_with(7, &["text/plain"])));
    assert_eq!(again, vec![]);
}

#[test]
fn focus_change_offers_once_per_device_of_new_focus_only() {
    let mut seat = SeatData::new();
    seat.add_device(DeviceEntry { device: 1, client: 10 });
    seat.add_device(DeviceEntry { device: 2, client: 20 });
    seat.add_device(DeviceEntry { device: 3, client: 20 });
    seat.set_focus(Some(10));
    seat.set_selection(Selection::Compositor(SourceMetadata::new(vec![
        "text/plain".to_string(),
    ])));
    // moving the focus from client 10 to client 20: one offer per endpoint
    // of client 20, none for the endpoint of client 10
    let offers = seat.set_focus(Some(20));
    assert_eq!(
        offers,
        vec![
            SelectionEffect::Offer { device: 2 },
            SelectionEffect::Offer { device: 3 },
        ]
    );
}

#[test]
fn focus_change_without_selection_offers_nothing() {
    let mut seat = SeatData::new();
    seat.add_device(DeviceEntry { device: 1, client: 10 });
    let offers = seat.set_focus(Some(10));
    assert_eq!(offers, vec![]);
}

#[test]
fn unchanged_focus_is_a_no_op() {
    let mut seat = SeatData::new();
    seat.add_device(DeviceEntry { device: 1, client: 10 });
    seat.set_selection(Selection::Compositor(SourceMetadata::new(vec![
        "text/plain".to_string(),
    ])));
    seat.set_focus(Some(10));
    let again = seat.set_focus(Some(10));
    assert_eq!(again, vec![]);
}

#[test]
fn setting_selection_broadcasts_to_current_focus() {
    let mut seat = SeatData::new();
    seat.add_device(DeviceEntry { device: 1, client: 10 });
    seat.add_device(DeviceEntry { device: 2, client: 10 });
    seat.set_focus(Some(10));
    let effects = seat.set_selection(Selection::Client(source_with(5, &["text/plain"])));
    assert_eq!(
        effects,
        vec![
            SelectionEffect::Offer { device: 1 },
            SelectionEffect::Offer { device: 2 },
        ]
    );
}

#[test]
fn clearing_the_selection_sends_no_offer() {
    let mut seat = SeatData::new();
    seat.add_device(DeviceEntry { device: 1, client: 10 });
    seat.set_focus(Some(10));
    seat.set_selection(Selection::Client(source_with(5, &["text/plain"])));
    let effects = seat.set_selection(Selection::Empty);
    assert_eq!(effects, vec![SelectionEffect::CancelSource { source: 5 }]);
}

#[test]
fn device_added_on_focused_selected_seat_gets_one_offer() {
    let mut seat = SeatData::new();
    seat.set_focus(Some(10));
    seat.set_selection(Selection::Compositor(SourceMetadata::new(vec![
        "image/png".to_string(),
    ])));
    let effects = seat.add_device(DeviceEntry { device: 4, client: 10 });
    assert_eq!(effects, vec![SelectionEffect::Offer { device: 4 }]);
    // an endpoint of an unfocused client gets none
    let effects = seat.add_device(DeviceEntry { device: 5, client: 11 });
    assert_eq!(effects, vec![]);
}

#[test]
fn removed_device_no_longer_receives_offers() {
    let mut seat = SeatData::new();
    seat.add_device(DeviceEntry { device: 1, client: 10 });
    seat.add_device(DeviceEntry { device: 2, client: 10 });
    seat.remove_device(1);
    seat.set_selection(Selection::Compositor(SourceMetadata::new(vec![
        "text/plain".to_string(),
    ])));
    let offers = seat.set_focus(Some(10));
    assert_eq!(offers, vec![SelectionEffect::Offer { device: 2 }]);
}

#[test]
fn replacing_the_selection_leaves_in_flight_receives_alone() {
    // A receiver that was already handed a descriptor for the old selection
    // keeps it: replacing the selection cancels the replaced source and
    // offers the new one, and emits nothing that would revoke or close an
    // already-granted transfer. In-flight receives are independent of
    // selection replacement and simply run to completion.
    let mut seat = SeatData::new();
    seat.add_device(DeviceEntry { device: 1, client: 10 });
    seat.set_focus(Some(10));
    seat.set_selection(Selection::Client(source_with(7, &["text/plain"])));
    // client 10 is mid-receive from source 7 here; now the selection moves
    let effects = seat.set_selection(Selection::Client(source_with(9, &["text/plain"])));
    assert_eq!(
        effects,
        vec![
            SelectionEffect::CancelSource { source: 7 },
            SelectionEffect::Offer { device: 1 },
        ]
    );
}

#[test]
fn stale_selection_request_is_refused_without_state_change() {
    let mut seat = SeatData::new();
    let r = client_set_selection(&mut seat, Some(source_with(7, &["text/plain"])), 40);
    assert!(r.is_ok());
    // an older serial must not clobber the newer selection
    let r = client_set_selection(&mut seat, Some(source_with(8, &["text/html"])), 39);
    assert_eq!(r, Err(RequestError::StaleSerial));
    assert!(matches!(seat.selection, Selection::Client(ref s) if s.id == 7));
    // a duplicate of the accepted serial is stale as well
    let r = client_set_selection(&mut seat, None, 40);
    assert_eq!(r, Err(RequestError::StaleSerial));
    // a newer serial replaces the selection and cancels the old source
    let r = client_set_selection(&mut seat, None, 41);
    assert_eq!(r, Ok(vec![SelectionEffect::CancelSource { source: 7 }]));
    assert!(matches!(seat.selection, Selection::Empty));
}

#[test]
fn accepted_selection_request_publishes_the_source() {
    let mut seat = SeatData::new();
    let src = source_with(7, &["text/plain"]);
    assert!(!src.published);
    client_set_selection(&mut seat, Some(src), 1).unwrap();
    match &seat.selection {
        Selection::Client(s) => {
            assert!(s.published);
            assert_eq!(s.metadata.mime_types, vec!["text/plain".to_string()]);
        }
        _ => panic!("selection should be client-owned"),
    }
}

#[test]
fn published_source_ignores_late_mutation() {
    let mut src = source_with(7, &["text/plain"]);
    src.set_actions(DndAction { copy: true, move_: false, ask: false });
    src.publish();
    src.offer("text/html".to_string());
    src.set_actions(DndAction { copy: true, move_: true, ask: true });
    assert_eq!(src.metadata.mime_types, vec!["text/plain".to_string()]);
    assert_eq!(src.metadata.dnd_action, DndAction { copy: true, move_: false, ask: false });
}
