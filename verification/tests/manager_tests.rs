use data_device::{
    device_set_selection, set_data_device_focus, set_data_device_selection, start_dnd,
    DataDeviceState, DataSource, DeviceEntry, GrabPhase, RequestError, Selection, SelectionEffect,
    SourceMetadata,
};

#[test]
fn unmanaged_seat_is_refused_without_state_change() {
    let mut state = DataDeviceState::new();
    let r = state.get_data_device(None, DeviceEntry { device: 1, client: 10 });
    assert_eq!(r, Err(RequestError::UnmanagedSeat));
    assert_eq!(state.seats.len(), 0);
}

#[test]
fn seat_state_is_attached_lazily_on_first_use() {
    let mut state = DataDeviceState::new();
    let r = state.get_data_device(Some(1), DeviceEntry { device: 1, client: 10 });
    assert_eq!(r, Ok(vec![]));
    assert_eq!(state.seats.len(), 1);
    assert_eq!(state.seats[0].seat, 1);
    // a second request for the same seat reuses the entry
    let r = state.get_data_device(Some(1), DeviceEntry { device: 2, client: 20 });
    assert_eq!(r, Ok(vec![]));
    assert_eq!(state.seats.len(), 1);
    assert_eq!(state.seats[0].data.devices.len(), 2);
}

#[test]
fn device_created_on_focused_selected_seat_gets_an_immediate_offer() {
    let mut state = DataDeviceState::new();
    set_data_device_focus(&mut state, 1, Some(10));
    set_data_device_selection(&mut state, 1, vec!["text/plain".to_string()]);
    let r = state.get_data_device(Some(1), DeviceEntry { device: 7, client: 10 });
    assert_eq!(r, Ok(vec![SelectionEffect::Offer { device: 7 }]));
    // an endpoint of another client gets nothing
    let r = state.get_data_device(Some(1), DeviceEntry { device: 8, client: 11 });
    assert_eq!(r, Ok(vec![]));
}

#[test]
fn compositor_selection_is_broadcast_to_the_focused_client() {
    let mut state = DataDeviceState::new();
    state
        .get_data_device(Some(1), DeviceEntry { device: 7, client: 10 })
        .unwrap();
    set_data_device_focus(&mut state, 1, Some(10));
    let offers = set_data_device_selection(&mut state, 1, vec!["text/plain".to_string()]);
    assert_eq!(offers, vec![SelectionEffect::Offer { device: 7 }]);
    match &state.seats[0].data.selection {
        Selection::Compositor(m) => {
            assert_eq!(m.mime_types, vec!["text/plain".to_string()]);
        }
        _ => panic!("selection should be compositor-owned"),
    }
}

#[test]
fn client_selection_requests_are_serial_ordered_per_seat() {
    let mut state = DataDeviceState::new();
    let mut src = DataSource::new(7);
    src.offer("text/plain".to_string());
    let r = device_set_selection(&mut state, 1, Some(src), 10);
    assert_eq!(r, Ok(vec![]));
    let r = device_set_selection(&mut state, 1, None, 9);
    assert_eq!(r, Err(RequestError::StaleSerial));
    let r = device_set_selection(&mut state, 1, None, 11);
    assert_eq!(r, Ok(vec![SelectionEffect::CancelSource { source: 7 }]));
}

#[test]
fn start_dnd_needs_a_pointer_and_attaches_the_seat() {
    let mut state = DataDeviceState::new();
    let none = start_dnd(
        &mut state,
        1,
        5,
        SourceMetadata::new(vec!["text/plain".to_string()]),
        false,
    );
    assert!(none.is_none());
    assert_eq!(state.seats.len(), 1);
    let grab = start_dnd(
        &mut state,
        1,
        5,
        SourceMetadata::new(vec!["text/plain".to_string()]),
        true,
    )
    .unwrap();
    assert_eq!(grab.start_serial, 5);
    assert_eq!(grab.phase, GrabPhase::Active);
    assert_eq!(grab.current_target, None);
    assert_eq!(grab.metadata.mime_types, vec!["text/plain".to_string()]);
    assert_eq!(state.seats.len(), 1);
}

#[test]
fn focus_move_routes_offers_through_the_manager() {
    let mut state = DataDeviceState::new();
    state
        .get_data_device(Some(1), DeviceEntry { device: 1, client: 10 })
        .unwrap();
    state
        .get_data_device(Some(1), DeviceEntry { device: 2, client: 20 })
        .unwrap();
    set_data_device_focus(&mut state, 1, Some(10));
    set_data_device_selection(&mut state, 1, vec!["text/plain".to_string()]);
    let offers = set_data_device_focus(&mut state, 1, Some(20));
    assert_eq!(offers, vec![SelectionEffect::Offer { device: 2 }]);
}
