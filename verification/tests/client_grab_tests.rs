use data_device::device::start_drag;
use data_device::{
    ClientDndEffect, ClientDndEvent, ClientDndGrab, DataSource, DndAction, GrabPhase,
    RequestError, Target,
};

fn payload(id: u64) -> DataSource {
    let mut src = DataSource::new(id);
    src.offer("text/plain".to_string());
    src.set_actions(DndAction { copy: true, move_: true, ask: false });
    src
}

#[test]
fn start_drag_requires_matching_pressed_serial() {
    let r = start_drag(10, Some(payload(7)), None, 5, Some(5));
    let grab = r.unwrap();
    assert_eq!(grab.phase, GrabPhase::Active);
    assert!(grab.current_target.is_none());
    assert!(matches!(grab.payload, Some(ref s) if s.id == 7 && s.published));

    // no button pressed, or another serial pressed: the request is ignored
    assert!(matches!(
        start_drag(10, Some(payload(7)), None, 5, None),
        Err(RequestError::StaleSerial)
    ));
    assert!(matches!(
        start_drag(10, Some(payload(7)), None, 5, Some(6)),
        Err(RequestError::StaleSerial)
    ));
}

#[test]
fn released_without_target_still_fires_dropped_once() {
    let mut grab = start_drag(10, Some(payload(7)), None, 5, Some(5)).unwrap();
    let effects = grab.handle(ClientDndEvent::Release);
    let dropped = effects
        .iter()
        .filter(|e| matches!(e, ClientDndEffect::Dropped))
        .count();
    assert_eq!(dropped, 1);
    assert_eq!(grab.phase, GrabPhase::Dropped);
    // with no target the payload is released
    assert!(effects.contains(&ClientDndEffect::CancelSource { source: 7 }));
    // no later event may fire it again
    let more = grab.handle(ClientDndEvent::Release);
    assert_eq!(more, vec![]);
    let more = grab.handle(ClientDndEvent::Destroy);
    assert_eq!(more, vec![]);
}

#[test]
fn motion_enters_negotiates_and_leaves() {
    let mut grab = start_drag(10, Some(payload(7)), None, 5, Some(5)).unwrap();
    let a = Target { client: 20, surface: 100 };
    let effects = grab.handle(ClientDndEvent::Motion { hit: Some(a) });
    // entering offers the payload and the freshly negotiated action:
    // no preference declared yet, so Copy wins over Move
    assert_eq!(
        effects,
        vec![
            ClientDndEffect::Enter { target: a },
            ClientDndEffect::OfferAction {
                target: a,
                action: DndAction { copy: true, move_: false, ask: false },
            },
        ]
    );
    assert_eq!(grab.current_target, Some(a));

    // moving within the same surface changes nothing
    let same = grab.handle(ClientDndEvent::Motion { hit: Some(a) });
    assert_eq!(same, vec![]);

    // leaving clears the target
    let effects = grab.handle(ClientDndEvent::Motion { hit: None });
    assert_eq!(effects, vec![ClientDndEffect::Leave { target: a }]);
    assert_eq!(grab.current_target, None);
}

#[test]
fn target_preference_reruns_negotiation() {
    let mut grab = start_drag(10, Some(payload(7)), None, 5, Some(5)).unwrap();
    let a = Target { client: 20, surface: 100 };
    grab.handle(ClientDndEvent::Motion { hit: Some(a) });
    let effects = grab.handle(ClientDndEvent::TargetAction {
        preferred: DndAction { copy: false, move_: true, ask: false },
    });
    assert_eq!(
        effects,
        vec![ClientDndEffect::OfferAction {
            target: a,
            action: DndAction { copy: false, move_: true, ask: false },
        }]
    );
    assert_eq!(grab.negotiated_action, DndAction { copy: false, move_: true, ask: false });
    // declaring the same preference again changes nothing
    let again = grab.handle(ClientDndEvent::TargetAction {
        preferred: DndAction { copy: false, move_: true, ask: false },
    });
    assert_eq!(again, vec![]);
}

#[test]
fn drop_on_a_target_delivers_the_drop_and_keeps_the_payload() {
    let mut grab = start_drag(10, Some(payload(7)), None, 5, Some(5)).unwrap();
    let a = Target { client: 20, surface: 100 };
    grab.handle(ClientDndEvent::Motion { hit: Some(a) });
    grab.handle(ClientDndEvent::Accept { mime_type: Some("text/plain".to_string()) });
    let effects = grab.handle(ClientDndEvent::Release);
    assert_eq!(
        effects,
        vec![ClientDndEffect::DropOn { target: a }, ClientDndEffect::Dropped]
    );
    assert_eq!(grab.phase, GrabPhase::Dropped);
}

#[test]
fn destroyed_while_active_leaves_target_and_cancels_payload() {
    let mut grab = start_drag(10, Some(payload(7)), Some(900), 5, Some(5)).unwrap();
    let a = Target { client: 20, surface: 100 };
    grab.handle(ClientDndEvent::Motion { hit: Some(a) });
    let effects = grab.handle(ClientDndEvent::Destroy);
    assert_eq!(
        effects,
        vec![
            ClientDndEffect::Leave { target: a },
            ClientDndEffect::CancelSource { source: 7 },
        ]
    );
    assert_eq!(grab.phase, GrabPhase::Cancelled);
    // terminal: no dropped can follow
    assert_eq!(grab.handle(ClientDndEvent::Release), vec![]);
}

#[test]
fn drag_without_payload_is_restricted_to_the_origin_client() {
    let mut grab = start_drag(10, None, None, 5, Some(5)).unwrap();
    // a surface of another client is not a target at all
    let foreign = Target { client: 20, surface: 100 };
    assert_eq!(grab.handle(ClientDndEvent::Motion { hit: Some(foreign) }), vec![]);
    assert_eq!(grab.current_target, None);
    // a surface of the originating client is entered, but without an offer
    let own = Target { client: 10, surface: 42 };
    let effects = grab.handle(ClientDndEvent::Motion { hit: Some(own) });
    assert_eq!(effects, vec![ClientDndEffect::Enter { target: own }]);
    // and releasing over it drops without cancelling anything
    let effects = grab.handle(ClientDndEvent::Release);
    assert_eq!(
        effects,
        vec![ClientDndEffect::DropOn { target: own }, ClientDndEffect::Dropped]
    );
}

#[test]
fn fresh_grab_fields() {
    let grab = ClientDndGrab::new(10, None, Some(33));
    assert_eq!(grab.origin_client, 10);
    assert_eq!(grab.icon, Some(33));
    assert_eq!(grab.phase, GrabPhase::Active);
    assert_eq!(grab.negotiated_action, DndAction::empty());
    assert_eq!(grab.accepted_mime, None);
}
