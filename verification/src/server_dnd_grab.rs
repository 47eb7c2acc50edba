//! The compositor-initiated drag-and-drop grab: a pointer-grab state
//! machine entered when the compositor originates a drag from synthetic
//! source metadata, with no backing client resource.
//!
//! Hit-testing and enter/leave/negotiation behave as in the client grab,
//! but every client reaction is surfaced to the compositor as a callback
//! effect: `Action`, `Dropped`, `Cancelled`, `Send` and `Finished`, with
//! the lifecycle rules proved below (a destroyed grab is cancelled exactly
//! once, a finished or cancelled grab stays silent forever).

use vstd::prelude::*;

use crate::action::{empty_action, spec_choose_action, DndAction};
use crate::dnd_grab::{GrabPhase, Target};
use crate::source::SourceMetadata;

verus! {

/// State of a compositor-initiated drag grab.
#[derive(Debug)]
pub struct ServerDndGrab {
    /// Serial of the user input that triggered the drag.
    pub start_serial: u32,
    /// The synthetic payload description the compositor offers.
    pub metadata: SourceMetadata,
    /// The surface currently under the pointer that the drag may drop on.
    pub current_target: Option<Target>,
    /// The action the current target most recently declared preferred.
    pub target_preferred: DndAction,
    /// The effective action of the last negotiation.
    pub negotiated_action: DndAction,
    /// Lifecycle phase of the grab.
    pub phase: GrabPhase,
}

/// An input the grab reacts to.
#[derive(Debug)]
pub enum ServerDndEvent {
    /// The pointer moved; `hit` is the surface found under the cursor.
    Motion { hit: Option<Target> },
    /// The current target declared its preferred action.
    TargetAction { preferred: DndAction },
    /// The pointer button was released: the drop trigger.
    Release,
    /// The grab is destroyed.
    Destroy,
    /// The receiving client requested the payload for one MIME type, handing
    /// a descriptor to write into.
    SendRequest { mime_type: String, fd: i32 },
    /// The receiving client signalled completion of the transfer.
    Finish,
}

/// An effect the compositor must perform after a grab transition. The
/// `Action`, `Dropped`, `Cancelled`, `Send` and `Finished` entries are the
/// compositor-facing callbacks; the others are protocol messages to the
/// target client.
#[derive(Debug, PartialEq, Eq)]
pub enum ServerDndEffect {
    /// Send the target an enter event carrying the offered MIME types.
    Enter { target: Target },
    /// Send the target a leave event.
    Leave { target: Target },
    /// Send the target the newly negotiated action.
    OfferAction { target: Target, action: DndAction },
    /// Send the target a drop event; it may then request the transfer.
    DropOn { target: Target },
    /// Callback: negotiation changed the effective action.
    Action { action: DndAction },
    /// Callback: the user dropped over a target; data requests may follow.
    Dropped,
    /// Callback: the drag ended without a completed transfer; terminal.
    Cancelled,
    /// Callback: write the payload as `mime_type` into `fd`, then close it.
    Send { mime_type: String, fd: i32 },
    /// Callback: the receiving client completed the transfer; terminal.
    Finished,
}

/// Transition for a pointer motion while the grab is active.
pub open spec fn spec_server_motion(pre: ServerDndGrab, hit: Option<Target>) -> (ServerDndGrab, Seq<
    ServerDndEffect,
>) {
    if hit == pre.current_target {
        (pre, Seq::empty())
    } else {
        let leaves = match pre.current_target {
            Option::Some(t) => seq![ServerDndEffect::Leave { target: t }],
            Option::None => Seq::empty(),
        };
        match hit {
            Option::Some(nt) => {
                let a = spec_choose_action(pre.metadata.dnd_action, empty_action());
                let enters = seq![
                    ServerDndEffect::Enter { target: nt },
                    ServerDndEffect::OfferAction { target: nt, action: a },
                ];
                let acts = if a != pre.negotiated_action {
                    seq![ServerDndEffect::Action { action: a }]
                } else {
                    Seq::empty()
                };
                (
                    ServerDndGrab {
                        current_target: Option::Some(nt),
                        target_preferred: empty_action(),
                        negotiated_action: a,
                        ..pre
                    },
                    leaves + enters + acts,
                )
            },
            Option::None => (
                ServerDndGrab {
                    current_target: Option::None,
                    target_preferred: empty_action(),
                    negotiated_action: empty_action(),
                    ..pre
                },
                leaves,
            ),
        }
    }
}

/// Transition for an action declaration by the current target.
pub open spec fn spec_server_target_action(pre: ServerDndGrab, preferred: DndAction) -> (
    ServerDndGrab,
    Seq<ServerDndEffect>,
) {
    match pre.current_target {
        Option::Some(t) => {
            let a = spec_choose_action(pre.metadata.dnd_action, preferred);
            let effs = if a != pre.negotiated_action {
                seq![
                    ServerDndEffect::OfferAction { target: t, action: a },
                    ServerDndEffect::Action { action: a },
                ]
            } else {
                Seq::empty()
            };
            (ServerDndGrab { target_preferred: preferred, negotiated_action: a, ..pre }, effs)
        },
        Option::None => (pre, Seq::empty()),
    }
}

/// Transition for the drop trigger: with a target the grab drops and data
/// requests may follow; without one it is cancelled.
pub open spec fn spec_server_release(pre: ServerDndGrab) -> (ServerDndGrab, Seq<ServerDndEffect>) {
    match pre.current_target {
        Option::Some(t) => (
            ServerDndGrab { phase: GrabPhase::Dropped, ..pre },
            seq![ServerDndEffect::DropOn { target: t }, ServerDndEffect::Dropped],
        ),
        Option::None => (
            ServerDndGrab { phase: GrabPhase::Cancelled, ..pre },
            seq![ServerDndEffect::Cancelled],
        ),
    }
}

/// One transition of the compositor drag grab.
///
/// While `Active`: motion, action declarations, the drop trigger and
/// destruction act as above. While `Dropped`: data requests are forwarded,
/// completion finishes the grab, destruction cancels it. Everything else,
/// and every event in a terminal phase, is ignored without an effect.
pub open spec fn spec_server_step(pre: ServerDndGrab, ev: ServerDndEvent) -> (ServerDndGrab, Seq<
    ServerDndEffect,
>) {
    if pre.phase is Active {
        match ev {
            ServerDndEvent::Motion { hit } => spec_server_motion(pre, hit),
            ServerDndEvent::TargetAction { preferred } => spec_server_target_action(pre, preferred),
            ServerDndEvent::Release => spec_server_release(pre),
            ServerDndEvent::Destroy => {
                let leaves = match pre.current_target {
                    Option::Some(t) => seq![ServerDndEffect::Leave { target: t }],
                    Option::None => Seq::empty(),
                };
                (
                    ServerDndGrab {
                        phase: GrabPhase::Cancelled,
                        current_target: Option::None,
                        ..pre
                    },
                    leaves + seq![ServerDndEffect::Cancelled],
                )
            },
            _ => (pre, Seq::empty()),
        }
    } else if pre.phase is Dropped {
        match ev {
            ServerDndEvent::SendRequest { mime_type, fd } => (
                pre,
                seq![ServerDndEffect::Send { mime_type, fd }],
            ),
            ServerDndEvent::Finish => (
                ServerDndGrab { phase: GrabPhase::Finished, ..pre },
                seq![ServerDndEffect::Finished],
            ),
            ServerDndEvent::Destroy => (
                ServerDndGrab { phase: GrabPhase::Cancelled, ..pre },
                seq![ServerDndEffect::Cancelled],
            ),
            _ => (pre, Seq::empty()),
        }
    } else {
        (pre, Seq::empty())
    }
}

fn option_target_eq(a: &Option<Target>, b: &Option<Target>) -> (r: bool)
    ensures
        r == (*a == *b),
{
    match (a, b) {
        (Option::Some(x), Option::Some(y)) => x == y,
        (Option::None, Option::None) => true,
        _ => false,
    }
}

impl ServerDndGrab {
    /// A fresh grab for a compositor drag triggered by the input event
    /// `start_serial`, offering the payload described by `metadata`.
    pub fn new(start_serial: u32, metadata: SourceMetadata) -> (r: ServerDndGrab)
        ensures
            r.start_serial == start_serial,
            r.metadata == metadata,
            r.current_target is None,
            r.target_preferred == empty_action(),
            r.negotiated_action == empty_action(),
            r.phase is Active,
    {
        ServerDndGrab {
            start_serial,
            metadata,
            current_target: Option::None,
            target_preferred: DndAction { copy: false, move_: false, ask: false },
            negotiated_action: DndAction { copy: false, move_: false, ask: false },
            phase: GrabPhase::Active,
        }
    }

    /// Feed one event to the grab; the state moves and the effects to
    /// perform come back, exactly as `spec_server_step` says.
    pub fn handle(&mut self, ev: ServerDndEvent) -> (out: Vec<ServerDndEffect>)
        ensures
            *final(self) == spec_server_step(*old(self), ev).0,
            out@ == spec_server_step(*old(self), ev).1,
    {
        let mut out: Vec<ServerDndEffect> = Vec::new();
        if matches!(self.phase, GrabPhase::Active) {
            match ev {
                ServerDndEvent::Motion { hit } => {
                    if !option_target_eq(&hit, &self.current_target) {
                        if let Option::Some(t) = self.current_target {
                            out.push(ServerDndEffect::Leave { target: t });
                        }
                        match hit {
                            Option::Some(nt) => {
                                let a = crate::action::default_action_chooser(
                                    self.metadata.dnd_action,
                                    DndAction { copy: false, move_: false, ask: false },
                                );
                                out.push(ServerDndEffect::Enter { target: nt });
                                out.push(ServerDndEffect::OfferAction { target: nt, action: a });
                                if a != self.negotiated_action {
                                    out.push(ServerDndEffect::Action { action: a });
                                }
                                self.current_target = Option::Some(nt);
                                self.target_preferred = DndAction {
                                    copy: false,
                                    move_: false,
                                    ask: false,
                                };
                                self.negotiated_action = a;
                            },
                            Option::None => {
                                self.current_target = Option::None;
                                self.target_preferred = DndAction {
                                    copy: false,
                                    move_: false,
                                    ask: false,
                                };
                                self.negotiated_action = DndAction {
                                    copy: false,
                                    move_: false,
                                    ask: false,
                                };
                            },
                        }
                        proof {
                            assert(out@ =~= spec_server_step(*old(self), ev).1);
                        }
                    }
                },
                ServerDndEvent::TargetAction { preferred } => {
                    if let Option::Some(t) = self.current_target {
                        let a = crate::action::default_action_chooser(
                            self.metadata.dnd_action,
                            preferred,
                        );
                        if a != self.negotiated_action {
                            out.push(ServerDndEffect::OfferAction { target: t, action: a });
                            out.push(ServerDndEffect::Action { action: a });
                        }
                        self.target_preferred = preferred;
                        self.negotiated_action = a;
                        proof {
                            assert(out@ =~= spec_server_step(*old(self), ev).1);
                        }
                    }
                },
                ServerDndEvent::Release => {
                    match self.current_target {
                        Option::Some(t) => {
                            out.push(ServerDndEffect::DropOn { target: t });
                            out.push(ServerDndEffect::Dropped);
                            self.phase = GrabPhase::Dropped;
                        },
                        Option::None => {
                            out.push(ServerDndEffect::Cancelled);
                            self.phase = GrabPhase::Cancelled;
                        },
                    }
                    proof {
                        assert(out@ =~= spec_server_step(*old(self), ev).1);
                    }
                },
                ServerDndEvent::Destroy => {
                    if let Option::Some(t) = self.current_target {
                        out.push(ServerDndEffect::Leave { target: t });
                    }
                    out.push(ServerDndEffect::Cancelled);
                    self.current_target = Option::None;
                    self.phase = GrabPhase::Cancelled;
                    proof {
                        assert(out@ =~= spec_server_step(*old(self), ev).1);
                    }
                },
                _ => {},
            }
        } else if matches!(self.phase, GrabPhase::Dropped) {
            match ev {
                ServerDndEvent::SendRequest { mime_type, fd } => {
                    out.push(ServerDndEffect::Send { mime_type, fd });
                    proof {
                        assert(out@ =~= spec_server_step(*old(self), ev).1);
                    }
                },
                ServerDndEvent::Finish => {
                    out.push(ServerDndEffect::Finished);
                    self.phase = GrabPhase::Finished;
                    proof {
                        assert(out@ =~= spec_server_step(*old(self), ev).1);
                    }
                },
                ServerDndEvent::Destroy => {
                    out.push(ServerDndEffect::Cancelled);
                    self.phase = GrabPhase::Cancelled;
                    proof {
                        assert(out@ =~= spec_server_step(*old(self), ev).1);
                    }
                },
                _ => {},
            }
        }
        out
    }
}

/// Run the grab over a whole event sequence, collecting every effect.
pub open spec fn server_run(g: ServerDndGrab, evs: Seq<ServerDndEvent>) -> (ServerDndGrab, Seq<
    ServerDndEffect,
>)
    decreases evs.len(),
{
    if evs.len() == 0 {
        (g, Seq::empty())
    } else {
        let first = spec_server_step(g, evs[0]);
        let rest = server_run(first.0, evs.drop_first());
        (rest.0, first.1 + rest.1)
    }
}

/// Number of `Cancelled` callbacks in `effects`.
pub open spec fn count_server_cancelled(effects: Seq<ServerDndEffect>) -> nat
    decreases effects.len(),
{
    if effects.len() == 0 {
        0
    } else {
        count_server_cancelled(effects.drop_last()) + if effects.last() is Cancelled {
            1nat
        } else {
            0nat
        }
    }
}

/// Number of `Dropped` callbacks in `effects`.
pub open spec fn count_server_dropped(effects: Seq<ServerDndEffect>) -> nat
    decreases effects.len(),
{
    if effects.len() == 0 {
        0
    } else {
        count_server_dropped(effects.drop_last()) + if effects.last() is Dropped {
            1nat
        } else {
            0nat
        }
    }
}

/// Number of `Finished` callbacks in `effects`.
pub open spec fn count_server_finished(effects: Seq<ServerDndEffect>) -> nat
    decreases effects.len(),
{
    if effects.len() == 0 {
        0
    } else {
        count_server_finished(effects.drop_last()) + if effects.last() is Finished {
            1nat
        } else {
            0nat
        }
    }
}

/// Cancelled-callback counts add up over concatenated effect lists.
pub proof fn lemma_count_server_cancelled_concat(x: Seq<ServerDndEffect>, y: Seq<ServerDndEffect>)
    ensures
        count_server_cancelled(x + y) == count_server_cancelled(x) + count_server_cancelled(y),
    decreases y.len(),
{
    if y.len() == 0 {
        assert(x + y =~= x);
    } else {
        lemma_count_server_cancelled_concat(x, y.drop_last());
        assert((x + y).drop_last() =~= x + y.drop_last());
        assert((x + y).last() == y.last());
    }
}

/// An effect list without a `Cancelled` entry counts zero cancellations.
pub proof fn lemma_no_cancelled_literals(effects: Seq<ServerDndEffect>)
    requires
        forall|i: int| 0 <= i < effects.len() ==> !(#[trigger] effects[i] is Cancelled),
    ensures
        count_server_cancelled(effects) == 0,
    decreases effects.len(),
{
    if effects.len() == 0 {
    } else {
        lemma_no_cancelled_literals(effects.drop_last());
    }
}

/// An effect list without a `Dropped` entry counts zero drops.
pub proof fn lemma_no_dropped_literals(effects: Seq<ServerDndEffect>)
    requires
        forall|i: int| 0 <= i < effects.len() ==> !(#[trigger] effects[i] is Dropped),
    ensures
        count_server_dropped(effects) == 0,
    decreases effects.len(),
{
    if effects.len() == 0 {
    } else {
        lemma_no_dropped_literals(effects.drop_last());
    }
}

/// An effect list without a `Finished` entry counts zero completions.
pub proof fn lemma_no_finished_literals(effects: Seq<ServerDndEffect>)
    requires
        forall|i: int| 0 <= i < effects.len() ==> !(#[trigger] effects[i] is Finished),
    ensures
        count_server_finished(effects) == 0,
    decreases effects.len(),
{
    if effects.len() == 0 {
    } else {
        lemma_no_finished_literals(effects.drop_last());
    }
}

/// A finished or cancelled grab is terminal: whatever else happens, the
/// state never moves again and no further effect — no callback among them —
/// is ever emitted.
pub proof fn lemma_server_terminal_silent(g: ServerDndGrab, evs: Seq<ServerDndEvent>)
    requires
        g.phase is Finished || g.phase is Cancelled,
    ensures
        server_run(g, evs).0 == g,
        server_run(g, evs).1 == Seq::<ServerDndEffect>::empty(),
    decreases evs.len(),
{
    if evs.len() == 0 {
    } else {
        lemma_server_terminal_silent(g, evs.drop_first());
        assert(server_run(g, evs).1 =~= Seq::<ServerDndEffect>::empty());
    }
}

/// One step fires `Cancelled` at most once, and only while moving to the
/// `Cancelled` phase.
pub proof fn lemma_server_step_cancelled(pre: ServerDndGrab, ev: ServerDndEvent)
    ensures
        count_server_cancelled(spec_server_step(pre, ev).1) <= 1,
        count_server_cancelled(spec_server_step(pre, ev).1) == 1 ==> spec_server_step(
            pre,
            ev,
        ).0.phase is Cancelled,
{
    let step = spec_server_step(pre, ev);
    assert(count_server_cancelled(Seq::<ServerDndEffect>::empty()) == 0);
    if pre.phase is Active {
        match ev {
            ServerDndEvent::Motion { hit } => {
                lemma_no_cancelled_literals(step.1);
            },
            ServerDndEvent::TargetAction { preferred } => {
                lemma_no_cancelled_literals(step.1);
            },
            ServerDndEvent::Release => {
                match pre.current_target {
                    Option::Some(t) => {
                        lemma_no_cancelled_literals(step.1);
                    },
                    Option::None => {
                        lemma_no_cancelled_literals(step.1.drop_last());
                    },
                }
            },
            ServerDndEvent::Destroy => {
                lemma_no_cancelled_literals(step.1.drop_last());
            },
            _ => {},
        }
    } else if pre.phase is Dropped {
        match ev {
            ServerDndEvent::SendRequest { mime_type, fd } => {
                lemma_no_cancelled_literals(step.1);
            },
            ServerDndEvent::Finish => {
                lemma_no_cancelled_literals(step.1);
            },
            ServerDndEvent::Destroy => {
                lemma_no_cancelled_literals(step.1.drop_last());
            },
            _ => {},
        }
    }
}

/// The `Cancelled` callback never double-fires: over any event sequence a
/// grab fires it at most once.
pub proof fn lemma_server_cancelled_at_most_once(g: ServerDndGrab, evs: Seq<ServerDndEvent>)
    ensures
        count_server_cancelled(server_run(g, evs).1) <= 1,
    decreases evs.len(),
{
    if evs.len() == 0 {
    } else {
        let first = spec_server_step(g, evs[0]);
        lemma_server_step_cancelled(g, evs[0]);
        lemma_count_server_cancelled_concat(first.1, server_run(first.0, evs.drop_first()).1);
        if count_server_cancelled(first.1) == 1 {
            lemma_server_terminal_silent(first.0, evs.drop_first());
        } else {
            lemma_server_cancelled_at_most_once(first.0, evs.drop_first());
        }
    }
}

/// Destroying a grab before any drop fires exactly one `Cancelled` and no
/// `Dropped` or `Finished`; the grab is terminal afterwards, so nothing can
/// follow.
pub proof fn lemma_server_destroy_before_drop(pre: ServerDndGrab)
    requires
        pre.phase is Active,
    ensures
        count_server_cancelled(spec_server_step(pre, ServerDndEvent::Destroy).1) == 1,
        count_server_dropped(spec_server_step(pre, ServerDndEvent::Destroy).1) == 0,
        count_server_finished(spec_server_step(pre, ServerDndEvent::Destroy).1) == 0,
        spec_server_step(pre, ServerDndEvent::Destroy).0.phase is Cancelled,
{
    let step = spec_server_step(pre, ServerDndEvent::Destroy);
    lemma_no_cancelled_literals(step.1.drop_last());
    assert(count_server_cancelled(step.1) == 1);
    lemma_no_dropped_literals(step.1);
    lemma_no_finished_literals(step.1);
}

} // verus!
