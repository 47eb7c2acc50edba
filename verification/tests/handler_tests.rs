use data_device::{
    default_action_chooser, dispatch_client_effect, dispatch_server_effect, ClientDndEffect,
    ClientDndGrabHandler, DataDeviceHandler, DndAction, ServerDndEffect, ServerDndEvent,
    ServerDndGrab, ServerDndGrabHandler, SourceMetadata, Target,
};

#[derive(Default)]
struct Recorder {
    log: Vec<String>,
}

impl ClientDndGrabHandler for Recorder {
    fn dropped(&mut self, seat: u64) {
        self.log.push(format!("client dropped seat={seat}"));
    }
}

impl ServerDndGrabHandler for Recorder {
    fn action(&mut self, action: DndAction) {
        self.log.push(format!(
            "action copy={} move={} ask={}",
            action.copy, action.move_, action.ask
        ));
    }

    fn dropped(&mut self) {
        self.log.push("dropped".to_string());
    }

    fn cancelled(&mut self) {
        self.log.push("cancelled".to_string());
    }

    fn send(&mut self, mime_type: String, fd: i32) {
        self.log.push(format!("send {mime_type} fd={fd}"));
    }

    fn finished(&mut self) {
        self.log.push("finished".to_string());
    }
}

impl DataDeviceHandler for Recorder {}

#[test]
fn server_grab_callbacks_reach_the_handler_in_order() {
    let mut handler = Recorder::default();
    let mut metadata = SourceMetadata::new(vec!["text/plain".to_string()]);
    metadata.dnd_action = DndAction { copy: true, move_: false, ask: false };
    let mut grab = ServerDndGrab::new(5, metadata);
    let a = Target { client: 20, surface: 100 };
    let events = [
        ServerDndEvent::Motion { hit: Some(a) },
        ServerDndEvent::Release,
        ServerDndEvent::SendRequest { mime_type: "text/plain".to_string(), fd: 3 },
        ServerDndEvent::Finish,
    ];
    for ev in events {
        for effect in grab.handle(ev) {
            dispatch_server_effect(&mut handler, effect);
        }
    }
    assert_eq!(
        handler.log,
        vec![
            "action copy=true move=false ask=false".to_string(),
            "dropped".to_string(),
            "send text/plain fd=3".to_string(),
            "finished".to_string(),
        ]
    );
}

#[test]
fn protocol_effects_are_not_handler_callbacks() {
    let mut handler = Recorder::default();
    dispatch_server_effect(&mut handler, ServerDndEffect::Enter {
        target: Target { client: 20, surface: 100 },
    });
    dispatch_server_effect(&mut handler, ServerDndEffect::Leave {
        target: Target { client: 20, surface: 100 },
    });
    assert_eq!(handler.log, Vec::<String>::new());
}

#[test]
fn client_drop_notification_reaches_the_handler() {
    let mut handler = Recorder::default();
    let target = Target { client: 20, surface: 100 };
    dispatch_client_effect(&mut handler, 1, ClientDndEffect::DropOn { target });
    dispatch_client_effect(&mut handler, 1, ClientDndEffect::Dropped);
    dispatch_client_effect(&mut handler, 1, ClientDndEffect::CancelSource { source: 7 });
    assert_eq!(handler.log, vec!["client dropped seat=1".to_string()]);
}

#[test]
fn default_action_choice_applies_the_default_chooser() {
    let mut handler = Recorder::default();
    let available = DndAction { copy: true, move_: true, ask: false };
    let preferred = DndAction { copy: false, move_: true, ask: false };
    assert_eq!(
        handler.action_choice(available, preferred),
        default_action_chooser(available, preferred)
    );
    assert_eq!(
        handler.action_choice(available, preferred),
        DndAction { copy: false, move_: true, ask: false }
    );
}
