//! The client-initiated drag-and-drop grab: a pointer-grab state machine
//! entered when a client starts a drag.
//!
//! The grab reacts to pointer motion (with the surface found under the
//! cursor), to the target's action declarations, to the drop trigger and to
//! its own destruction. Every reaction returns the exact list of effects the
//! compositor must perform: protocol enter/leave/action/drop messages to the
//! target client, the seat-scoped `dropped` notification, and cancellation
//! of the payload source.

use vstd::prelude::*;

use crate::action::{empty_action, spec_choose_action, DndAction};
use crate::source::DataSource;

verus! {

/// Phase of a drag grab. `Active` is initial; `Dropped` and `Cancelled` are
/// reached from `Active` only; `Finished` is reached from `Dropped` only;
/// `Finished` and `Cancelled` are terminal.
#[derive(Clone, Copy, Debug, PartialEq, Eq, Structural)]
pub enum GrabPhase {
    /// The drag is in progress.
    Active,
    /// The pointer was released; a transfer may still follow.
    Dropped,
    /// The receiving client signalled completion.
    Finished,
    /// The drag ended without a completed transfer.
    Cancelled,
}

/// The client surface currently under the pointer.
#[derive(Clone, Copy, Debug, PartialEq, Eq, Structural)]
pub struct Target {
    /// The client owning the surface.
    pub client: u64,
    /// The surface under the cursor.
    pub surface: u64,
}

/// State of a client-initiated drag grab.
#[derive(Debug)]
pub struct ClientDndGrab {
    /// The client that started the drag.
    pub origin_client: u64,
    /// The dragged payload. `None` restricts the drag to surfaces of the
    /// originating client, which manages the transfer itself.
    pub payload: Option<DataSource>,
    /// The surface used as the drag icon, if any.
    pub icon: Option<u64>,
    /// The surface currently under the pointer that the drag may drop on.
    pub current_target: Option<Target>,
    /// The action the current target most recently declared preferred.
    pub target_preferred: DndAction,
    /// The effective action of the last negotiation.
    pub negotiated_action: DndAction,
    /// The MIME type the current target accepted, if any.
    pub accepted_mime: Option<String>,
    /// Lifecycle phase of the grab.
    pub phase: GrabPhase,
}

/// An input the grab reacts to.
#[derive(Debug)]
pub enum ClientDndEvent {
    /// The pointer moved; `hit` is the surface found under the cursor.
    Motion { hit: Option<Target> },
    /// The current target declared its preferred action.
    TargetAction { preferred: DndAction },
    /// The current target accepted a MIME type (or retracted, with `None`).
    Accept { mime_type: Option<String> },
    /// The pointer button was released: the drop trigger.
    Release,
    /// The grab is destroyed: icon surface gone, seat detached, or an
    /// explicit release.
    Destroy,
}

/// An effect the compositor must perform after a grab transition.
#[derive(Debug, PartialEq, Eq)]
pub enum ClientDndEffect {
    /// Send the target an enter event, with the payload's MIME types when a
    /// payload exists.
    Enter { target: Target },
    /// Send the target a leave event.
    Leave { target: Target },
    /// Send the target the newly negotiated action.
    OfferAction { target: Target, action: DndAction },
    /// Send the target a drop event; it may then request the transfer.
    DropOn { target: Target },
    /// Fire the seat-scoped `dropped` notification, once.
    Dropped,
    /// Notify the owner of this source that the payload is released.
    CancelSource { source: u64 },
}

/// The actions the payload makes available: none when the drag carries no
/// payload.
pub open spec fn spec_client_available(pre: ClientDndGrab) -> DndAction {
    match pre.payload {
        Option::Some(src) => src.metadata.dnd_action,
        Option::None => empty_action(),
    }
}

/// The surface a motion hit may actually target: a drag without a payload
/// is restricted to surfaces of the originating client.
pub open spec fn spec_effective_hit(pre: ClientDndGrab, hit: Option<Target>) -> Option<Target> {
    match hit {
        Option::Some(t) => if pre.payload is None && t.client != pre.origin_client {
            Option::None
        } else {
            Option::Some(t)
        },
        Option::None => Option::None,
    }
}

/// Transition for a pointer motion while the grab is active.
pub open spec fn spec_client_motion(pre: ClientDndGrab, hit: Option<Target>) -> (ClientDndGrab, Seq<
    ClientDndEffect,
>) {
    let eff_hit = spec_effective_hit(pre, hit);
    if eff_hit == pre.current_target {
        (pre, Seq::empty())
    } else {
        let leaves = match pre.current_target {
            Option::Some(t) => seq![ClientDndEffect::Leave { target: t }],
            Option::None => Seq::empty(),
        };
        match eff_hit {
            Option::Some(nt) => {
                let a = spec_choose_action(spec_client_available(pre), empty_action());
                let enters = if pre.payload is Some {
                    seq![
                        ClientDndEffect::Enter { target: nt },
                        ClientDndEffect::OfferAction { target: nt, action: a },
                    ]
                } else {
                    seq![ClientDndEffect::Enter { target: nt }]
                };
                (
                    ClientDndGrab {
                        current_target: Option::Some(nt),
                        target_preferred: empty_action(),
                        negotiated_action: a,
                        ..pre
                    },
                    leaves + enters,
                )
            },
            Option::None => (
                ClientDndGrab {
                    current_target: Option::None,
                    target_preferred: empty_action(),
                    negotiated_action: empty_action(),
                    ..pre
                },
                leaves,
            ),
        }
    }
}

/// Transition for an action declaration by the current target.
pub open spec fn spec_client_target_action(pre: ClientDndGrab, preferred: DndAction) -> (
    ClientDndGrab,
    Seq<ClientDndEffect>,
) {
    match pre.current_target {
        Option::Some(t) => if pre.payload is Some {
            let a = spec_choose_action(spec_client_available(pre), preferred);
            let effs = if a != pre.negotiated_action {
                seq![ClientDndEffect::OfferAction { target: t, action: a }]
            } else {
                Seq::empty()
            };
            (ClientDndGrab { target_preferred: preferred, negotiated_action: a, ..pre }, effs)
        } else {
            (pre, Seq::empty())
        },
        Option::None => (pre, Seq::empty()),
    }
}

/// Transition for a MIME-type acceptance by the current target.
pub open spec fn spec_client_accept(pre: ClientDndGrab, mime_type: Option<String>) -> (
    ClientDndGrab,
    Seq<ClientDndEffect>,
) {
    if pre.current_target is Some && pre.payload is Some {
        (ClientDndGrab { accepted_mime: mime_type, ..pre }, Seq::empty())
    } else {
        (pre, Seq::empty())
    }
}

/// Transition for the drop trigger: the target, if any, receives the drop;
/// without a target the payload is released; the seat-scoped `dropped`
/// notification fires either way, exactly once.
pub open spec fn spec_client_release(pre: ClientDndGrab) -> (ClientDndGrab, Seq<ClientDndEffect>) {
    match pre.current_target {
        Option::Some(t) => (
            ClientDndGrab { phase: GrabPhase::Dropped, ..pre },
            seq![ClientDndEffect::DropOn { target: t }, ClientDndEffect::Dropped],
        ),
        Option::None => {
            let cancels = match pre.payload {
                Option::Some(src) => seq![ClientDndEffect::CancelSource { source: src.id }],
                Option::None => Seq::empty(),
            };
            (ClientDndGrab { phase: GrabPhase::Dropped, ..pre }, cancels + seq![
                ClientDndEffect::Dropped,
            ])
        },
    }
}

/// Transition for destruction while active: the current target receives a
/// leave, the payload is cancelled, the grab is cancelled.
pub open spec fn spec_client_destroy(pre: ClientDndGrab) -> (ClientDndGrab, Seq<ClientDndEffect>) {
    let leaves = match pre.current_target {
        Option::Some(t) => seq![ClientDndEffect::Leave { target: t }],
        Option::None => Seq::empty(),
    };
    let cancels = match pre.payload {
        Option::Some(src) => seq![ClientDndEffect::CancelSource { source: src.id }],
        Option::None => Seq::empty(),
    };
    (
        ClientDndGrab { phase: GrabPhase::Cancelled, current_target: Option::None, ..pre },
        leaves + cancels,
    )
}

/// One transition of the client drag grab. Events outside the `Active`
/// phase are ignored: the state is unchanged and nothing is emitted.
pub open spec fn spec_client_step(pre: ClientDndGrab, ev: ClientDndEvent) -> (ClientDndGrab, Seq<
    ClientDndEffect,
>) {
    if !(pre.phase is Active) {
        (pre, Seq::empty())
    } else {
        match ev {
            ClientDndEvent::Motion { hit } => spec_client_motion(pre, hit),
            ClientDndEvent::TargetAction { preferred } => spec_client_target_action(pre, preferred),
            ClientDndEvent::Accept { mime_type } => spec_client_accept(pre, mime_type),
            ClientDndEvent::Release => spec_client_release(pre),
            ClientDndEvent::Destroy => spec_client_destroy(pre),
        }
    }
}

fn option_target_eq(a: &Option<Target>, b: &Option<Target>) -> (r: bool)
    ensures
        r == (*a == *b),
{
    match (a, b) {
        (Option::Some(x), Option::Some(y)) => x == y,
        (Option::None, Option::None) => true,
        _ => false,
    }
}

impl ClientDndGrab {
    /// A fresh grab for a drag started by `origin_client`, with an optional
    /// payload and an optional icon surface.
    pub fn new(origin_client: u64, payload: Option<DataSource>, icon: Option<u64>) -> (r:
        ClientDndGrab)
        ensures
            r == (ClientDndGrab {
                origin_client,
                payload,
                icon,
                current_target: Option::None,
                target_preferred: empty_action(),
                negotiated_action: empty_action(),
                accepted_mime: Option::None,
                phase: GrabPhase::Active,
            }),
    {
        ClientDndGrab {
            origin_client,
            payload,
            icon,
            current_target: Option::None,
            target_preferred: DndAction { copy: false, move_: false, ask: false },
            negotiated_action: DndAction { copy: false, move_: false, ask: false },
            accepted_mime: Option::None,
            phase: GrabPhase::Active,
        }
    }

    fn available(&self) -> (r: DndAction)
        ensures
            r == spec_client_available(*self),
    {
        match &self.payload {
            Option::Some(src) => src.metadata.dnd_action,
            Option::None => DndAction { copy: false, move_: false, ask: false },
        }
    }

    fn has_payload(&self) -> (r: bool)
        ensures
            r == (self.payload is Some),
    {
        match &self.payload {
            Option::Some(_) => true,
            Option::None => false,
        }
    }

    fn payload_id(&self) -> (r: Option<u64>)
        ensures
            r == match self.payload {
                Option::Some(src) => Option::Some(src.id),
                Option::None => Option::<u64>::None,
            },
    {
        match &self.payload {
            Option::Some(src) => Option::Some(src.id),
            Option::None => Option::None,
        }
    }

    /// Feed one event to the grab; the state moves and the effects to
    /// perform come back, exactly as `spec_client_step` says.
    pub fn handle(&mut self, ev: ClientDndEvent) -> (out: Vec<ClientDndEffect>)
        ensures
            *final(self) == spec_client_step(*old(self), ev).0,
            out@ == spec_client_step(*old(self), ev).1,
    {
        let mut out: Vec<ClientDndEffect> = Vec::new();
        if !matches!(self.phase, GrabPhase::Active) {
            return out;
        }
        match ev {
            ClientDndEvent::Motion { hit } => {
                let eff_hit: Option<Target> = match hit {
                    Option::Some(t) => {
                        if !self.has_payload() && t.client != self.origin_client {
                            Option::None
                        } else {
                            Option::Some(t)
                        }
                    },
                    Option::None => Option::None,
                };
                if !option_target_eq(&eff_hit, &self.current_target) {
                    if let Option::Some(t) = self.current_target {
                        out.push(ClientDndEffect::Leave { target: t });
                    }
                    match eff_hit {
                        Option::Some(nt) => {
                            let a = crate::action::default_action_chooser(
                                self.available(),
                                DndAction { copy: false, move_: false, ask: false },
                            );
                            out.push(ClientDndEffect::Enter { target: nt });
                            if self.has_payload() {
                                out.push(ClientDndEffect::OfferAction { target: nt, action: a });
                            }
                            self.current_target = Option::Some(nt);
                            self.target_preferred = DndAction {
                                copy: false,
                                move_: false,
                                ask: false,
                            };
                            self.negotiated_action = a;
                        },
                        Option::None => {
                            self.current_target = Option::None;
                            self.target_preferred = DndAction {
                                copy: false,
                                move_: false,
                                ask: false,
                            };
                            self.negotiated_action = DndAction {
                                copy: false,
                                move_: false,
                                ask: false,
                            };
                        },
                    }
                    proof {
                        assert(out@ =~= spec_client_step(*old(self), ev).1);
                    }
                }
            },
            ClientDndEvent::TargetAction { preferred } => {
                if let Option::Some(t) = self.current_target {
                    if self.has_payload() {
                        let a = crate::action::default_action_chooser(self.available(), preferred);
                        if a != self.negotiated_action {
                            out.push(ClientDndEffect::OfferAction { target: t, action: a });
                        }
                        self.target_preferred = preferred;
                        self.negotiated_action = a;
                        proof {
                            assert(out@ =~= spec_client_step(*old(self), ev).1);
                        }
                    }
                }
            },
            ClientDndEvent::Accept { mime_type } => {
                if matches!(self.current_target, Option::Some(_)) && self.has_payload() {
                    self.accepted_mime = mime_type;
                }
            },
            ClientDndEvent::Release => {
                match self.current_target {
                    Option::Some(t) => {
                        out.push(ClientDndEffect::DropOn { target: t });
                        out.push(ClientDndEffect::Dropped);
                    },
                    Option::None => {
                        if let Option::Some(id) = self.payload_id() {
                            out.push(ClientDndEffect::CancelSource { source: id });
                        }
                        out.push(ClientDndEffect::Dropped);
                    },
                }
                self.phase = GrabPhase::Dropped;
                proof {
                    assert(out@ =~= spec_client_step(*old(self), ev).1);
                }
            },
            ClientDndEvent::Destroy => {
                if let Option::Some(t) = self.current_target {
                    out.push(ClientDndEffect::Leave { target: t });
                }
                if let Option::Some(id) = self.payload_id() {
                    out.push(ClientDndEffect::CancelSource { source: id });
                }
                self.current_target = Option::None;
                self.phase = GrabPhase::Cancelled;
                proof {
                    assert(out@ =~= spec_client_step(*old(self), ev).1);
                }
            },
        }
        out
    }
}

/// Run the grab over a whole event sequence, collecting every effect.
pub open spec fn client_run(g: ClientDndGrab, evs: Seq<ClientDndEvent>) -> (ClientDndGrab, Seq<
    ClientDndEffect,
>)
    decreases evs.len(),
{
    if evs.len() == 0 {
        (g, Seq::empty())
    } else {
        let first = spec_client_step(g, evs[0]);
        let rest = client_run(first.0, evs.drop_first());
        (rest.0, first.1 + rest.1)
    }
}

/// Number of seat-scoped `Dropped` notifications in `effects`.
pub open spec fn count_client_dropped(effects: Seq<ClientDndEffect>) -> nat
    decreases effects.len(),
{
    if effects.len() == 0 {
        0
    } else {
        count_client_dropped(effects.drop_last()) + if effects.last() is Dropped {
            1nat
        } else {
            0nat
        }
    }
}

/// Dropped-notification counts add up over concatenated effect lists.
pub proof fn lemma_count_client_dropped_concat(x: Seq<ClientDndEffect>, y: Seq<ClientDndEffect>)
    ensures
        count_client_dropped(x + y) == count_client_dropped(x) + count_client_dropped(y),
    decreases y.len(),
{
    if y.len() == 0 {
        assert(x + y =~= x);
    } else {
        lemma_count_client_dropped_concat(x, y.drop_last());
        assert((x + y).drop_last() =~= x + y.drop_last());
        assert((x + y).last() == y.last());
    }
}

/// One step fires the `dropped` notification exactly when it is the drop
/// trigger of an active grab, and then exactly once; the phase leaves
/// `Active` at that step and an ignored event changes nothing.
pub proof fn lemma_client_step_dropped(pre: ClientDndGrab, ev: ClientDndEvent)
    ensures
        count_client_dropped(spec_client_step(pre, ev).1) == if pre.phase is Active && ev is Release {
            1nat
        } else {
            0nat
        },
        !(pre.phase is Active) ==> spec_client_step(pre, ev).0 == pre,
        spec_client_step(pre, ev).0.phase is Active ==> pre.phase is Active && count_client_dropped(
            spec_client_step(pre, ev).1,
        ) == 0,
{
    let step = spec_client_step(pre, ev);
    assert(count_client_dropped(Seq::<ClientDndEffect>::empty()) == 0);
    if pre.phase is Active {
        match ev {
            ClientDndEvent::Motion { hit } => {
                lemma_count_client_dropped_no_drop_literals(step.1);
            },
            ClientDndEvent::TargetAction { preferred } => {
                lemma_count_client_dropped_no_drop_literals(step.1);
            },
            ClientDndEvent::Accept { mime_type } => {
            },
            ClientDndEvent::Release => {
                lemma_count_client_dropped_no_drop_literals(step.1.drop_last());
                assert(step.1.last() is Dropped);
                assert(count_client_dropped(step.1) == count_client_dropped(step.1.drop_last())
                    + 1);
            },
            ClientDndEvent::Destroy => {
                lemma_count_client_dropped_no_drop_literals(step.1);
            },
        }
    }
}

/// An effect list without a `Dropped` entry counts zero notifications.
pub proof fn lemma_count_client_dropped_no_drop_literals(effects: Seq<ClientDndEffect>)
    requires
        forall|i: int| 0 <= i < effects.len() ==> !(#[trigger] effects[i] is Dropped),
    ensures
        count_client_dropped(effects) == 0,
    decreases effects.len(),
{
    if effects.len() == 0 {
    } else {
        lemma_count_client_dropped_no_drop_literals(effects.drop_last());
    }
}

/// The seat-scoped `dropped` notification never double-fires: over any
/// event sequence an active grab fires it at most once, and a grab past its
/// active phase never fires it again.
pub proof fn lemma_client_dropped_at_most_once(g: ClientDndGrab, evs: Seq<ClientDndEvent>)
    ensures
        count_client_dropped(client_run(g, evs).1) <= if g.phase is Active {
            1nat
        } else {
            0nat
        },
    decreases evs.len(),
{
    if evs.len() == 0 {
    } else {
        let first = spec_client_step(g, evs[0]);
        lemma_client_step_dropped(g, evs[0]);
        lemma_client_dropped_at_most_once(first.0, evs.drop_first());
        lemma_count_client_dropped_concat(first.1, client_run(first.0, evs.drop_first()).1);
    }
}

/// A grab past its active phase ignores everything: whatever else happens,
/// the state never moves again and no further effect is emitted.
pub proof fn lemma_client_inactive_silent(g: ClientDndGrab, evs: Seq<ClientDndEvent>)
    requires
        !(g.phase is Active),
    ensures
        client_run(g, evs).0 == g,
        client_run(g, evs).1 == Seq::<ClientDndEffect>::empty(),
    decreases evs.len(),
{
    if evs.len() == 0 {
    } else {
        lemma_client_inactive_silent(g, evs.drop_first());
        assert(client_run(g, evs).1 =~= Seq::<ClientDndEffect>::empty());
    }
}

/// Number of payload cancellations in `effects`.
pub open spec fn count_client_cancels(effects: Seq<ClientDndEffect>) -> nat
    decreases effects.len(),
{
    if effects.len() == 0 {
        0
    } else {
        count_client_cancels(effects.drop_last()) + if effects.last() is CancelSource {
            1nat
        } else {
            0nat
        }
    }
}

/// Payload-cancellation counts add up over concatenated effect lists.
pub proof fn lemma_count_client_cancels_concat(x: Seq<ClientDndEffect>, y: Seq<ClientDndEffect>)
    ensures
        count_client_cancels(x + y) == count_client_cancels(x) + count_client_cancels(y),
    decreases y.len(),
{
    if y.len() == 0 {
        assert(x + y =~= x);
    } else {
        lemma_count_client_cancels_concat(x, y.drop_last());
        assert((x + y).drop_last() =~= x + y.drop_last());
        assert((x + y).last() == y.last());
    }
}

/// An effect list without a `CancelSource` entry counts zero cancellations.
pub proof fn lemma_count_client_cancels_none(effects: Seq<ClientDndEffect>)
    requires
        forall|i: int| 0 <= i < effects.len() ==> !(#[trigger] effects[i] is CancelSource),
    ensures
        count_client_cancels(effects) == 0,
    decreases effects.len(),
{
    if effects.len() == 0 {
    } else {
        lemma_count_client_cancels_none(effects.drop_last());
    }
}

/// One step cancels the payload at most once, and only while leaving the
/// active phase.
pub proof fn lemma_client_step_cancels(pre: ClientDndGrab, ev: ClientDndEvent)
    ensures
        count_client_cancels(spec_client_step(pre, ev).1) <= 1,
        count_client_cancels(spec_client_step(pre, ev).1) == 1 ==> !(spec_client_step(
            pre,
            ev,
        ).0.phase is Active),
{
    let step = spec_client_step(pre, ev);
    assert(count_client_cancels(Seq::<ClientDndEffect>::empty()) == 0);
    if pre.phase is Active {
        match ev {
            ClientDndEvent::Motion { hit } => {
                lemma_count_client_cancels_none(step.1);
            },
            ClientDndEvent::TargetAction { preferred } => {
                lemma_count_client_cancels_none(step.1);
            },
            ClientDndEvent::Accept { mime_type } => {
            },
            ClientDndEvent::Release => {
                match pre.current_target {
                    Option::Some(t) => {
                        lemma_count_client_cancels_none(step.1);
                    },
                    Option::None => {
                        match pre.payload {
                            Option::Some(src) => {
                                let c = ClientDndEffect::CancelSource { source: src.id };
                                assert(step.1 =~= seq![c, ClientDndEffect::Dropped]);
                                assert(step.1.drop_last() =~= seq![c]);
                                assert(seq![c].drop_last() =~= Seq::<ClientDndEffect>::empty());
                                assert(count_client_cancels(Seq::<ClientDndEffect>::empty())
                                    == 0);
                                assert(count_client_cancels(seq![c]) == 1);
                                assert(count_client_cancels(step.1) == 1);
                            },
                            Option::None => {
                                lemma_count_client_cancels_none(step.1);
                            },
                        }
                    },
                }
            },
            ClientDndEvent::Destroy => {
                let leaves = match pre.current_target {
                    Option::Some(t) => seq![ClientDndEffect::Leave { target: t }],
                    Option::None => Seq::<ClientDndEffect>::empty(),
                };
                match pre.payload {
                    Option::Some(src) => {
                        let c = ClientDndEffect::CancelSource { source: src.id };
                        assert(step.1 =~= leaves.push(c));
                        assert(leaves.push(c).drop_last() =~= leaves);
                        lemma_count_client_cancels_none(leaves);
                        assert(count_client_cancels(step.1) == 1);
                    },
                    Option::None => {
                        assert(step.1 =~= leaves);
                        lemma_count_client_cancels_none(leaves);
                    },
                }
            },
        }
    }
}

/// A carried payload is released at most once: over any event sequence the
/// grab emits at most one `CancelSource`, however the drag ends.
pub proof fn lemma_client_cancels_at_most_once(g: ClientDndGrab, evs: Seq<ClientDndEvent>)
    ensures
        count_client_cancels(client_run(g, evs).1) <= 1,
    decreases evs.len(),
{
    if evs.len() == 0 {
    } else {
        let first = spec_client_step(g, evs[0]);
        lemma_client_step_cancels(g, evs[0]);
        lemma_count_client_cancels_concat(first.1, client_run(first.0, evs.drop_first()).1);
        if count_client_cancels(first.1) == 1 {
            lemma_client_inactive_silent(first.0, evs.drop_first());
        } else {
            lemma_client_cancels_at_most_once(first.0, evs.drop_first());
        }
    }
}

/// Releasing an active grab that never found a target still fires the
/// `dropped` notification, exactly once, and cancels a carried payload.
pub proof fn lemma_client_release_without_target(pre: ClientDndGrab)
    requires
        pre.phase is Active,
        pre.current_target is None,
    ensures
        count_client_dropped(spec_client_step(pre, ClientDndEvent::Release).1) == 1,
        spec_client_step(pre, ClientDndEvent::Release).0.phase is Dropped,
{
    lemma_client_step_dropped(pre, ClientDndEvent::Release);
}

} // verus!
