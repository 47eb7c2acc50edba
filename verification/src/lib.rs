//! Seat-scoped clipboard (selection) and drag-and-drop logic for a
//! display-server compositor.
//!
//! The crate models the data-device subsystem as pure state: per-seat
//! selection and focus routing, the two drag-grab state machines (client- and
//! compositor-initiated), and the action negotiator. Every mutating operation
//! returns the list of effects (protocol offers to send, sources to cancel,
//! compositor callbacks to fire) that the caller must perform; wire-level
//! message transport stays outside. Seats, clients, surfaces and device
//! endpoints are carried as their stable protocol identities, descriptors as
//! raw integers.

use vstd::prelude::*;

pub mod action;
pub mod device;
pub mod dnd_grab;
pub mod seat_data;
pub mod server_dnd_grab;
pub mod source;

pub use action::{default_action_chooser, DndAction};
pub use device::RequestError;
pub use dnd_grab::{ClientDndEffect, ClientDndEvent, ClientDndGrab, GrabPhase, Target};
pub use seat_data::{DeviceEntry, SeatData, Selection, SelectionEffect};
pub use server_dnd_grab::{ServerDndEffect, ServerDndEvent, ServerDndGrab};
pub use source::{DataSource, SourceMetadata};

use crate::seat_data::{spec_device_offer, spec_set_focus, spec_set_selection};

verus! {

/// Callbacks the compositor implements to observe the data device.
#[allow(unused_variables)]
pub trait DataDeviceHandler: ClientDndGrabHandler + ServerDndGrabHandler {
    /// Chooses the effective drag action; the default applies
    /// [`default_action_chooser`].
    fn action_choice(&mut self, available: DndAction, preferred: DndAction) -> DndAction {
        default_action_chooser(available, preferred)
    }

    /// A client set the selection; `source` is the id of its source, if any.
    fn new_selection(&mut self, source: Option<u64>) {
    }

    /// A client asked to read the compositor-owned selection as `mime_type`;
    /// the payload must be written into `fd` and the descriptor closed.
    fn send_selection(&mut self, mime_type: String, fd: i32) {
    }
}

/// Callbacks fired during a client-initiated drag.
#[allow(unused_variables)]
pub trait ClientDndGrabHandler {
    /// A client started a drag: its source id (`None` restricts the drag to
    /// that client), its icon surface, and the seat.
    fn started(&mut self, source: Option<u64>, icon: Option<u64>, seat: u64) {
    }

    /// The user released the buttons; any drag icon should be removed.
    fn dropped(&mut self, seat: u64) {
    }
}

/// Callbacks fired during a compositor-initiated drag.
#[allow(unused_variables)]
pub trait ServerDndGrabHandler {
    /// The receiving client chose an action.
    fn action(&mut self, action: DndAction) {
    }

    /// The drag payload was dropped; data requests may still follow.
    fn dropped(&mut self) {
    }

    /// The drag was cancelled; the client can no longer interact.
    fn cancelled(&mut self) {
    }

    /// The client requested the payload as `mime_type`; it must be written
    /// into `fd` and the descriptor closed.
    fn send(&mut self, mime_type: String, fd: i32) {
    }

    /// The client finished interacting; only possible after the drop.
    fn finished(&mut self) {
    }
}

/// Forward one compositor-facing effect of a compositor drag to the
/// handler; protocol messages addressed to clients are left to the
/// transport and forwarded to nobody.
pub fn dispatch_server_effect<H: ServerDndGrabHandler>(handler: &mut H, effect: ServerDndEffect) {
    match effect {
        ServerDndEffect::Action { action } => handler.action(action),
        ServerDndEffect::Dropped => handler.dropped(),
        ServerDndEffect::Cancelled => handler.cancelled(),
        ServerDndEffect::Send { mime_type, fd } => handler.send(mime_type, fd),
        ServerDndEffect::Finished => handler.finished(),
        _ => {},
    }
}

/// Forward one compositor-facing effect of a client drag on `seat` to the
/// handler; protocol messages addressed to clients, and source
/// cancellations, are left to the transport.
pub fn dispatch_client_effect<H: ClientDndGrabHandler>(
    handler: &mut H,
    seat: u64,
    effect: ClientDndEffect,
) {
    match effect {
        ClientDndEffect::Dropped => handler.dropped(seat),
        _ => {},
    }
}

/// One managed seat and its data-device state.
#[derive(Debug)]
pub struct SeatEntry {
    /// Stable identity of the seat.
    pub seat: u64,
    /// The seat's data-device state.
    pub data: SeatData,
}

/// The process-wide data-device state: the table of managed seats, keyed by
/// seat identity, with per-seat state attached lazily on first use.
#[derive(Debug)]
pub struct DataDeviceState {
    /// The managed seats, in order of first use.
    pub seats: Vec<SeatEntry>,
}

/// True when the table holds an entry for `seat`.
pub open spec fn spec_has_seat(seats: Seq<SeatEntry>, seat: u64) -> bool {
    exists|i: int| 0 <= i < seats.len() && seats[i].seat == seat
}

/// The position of the first entry for `seat`.
pub open spec fn spec_first_seat_index(seats: Seq<SeatEntry>, seat: u64) -> int {
    choose|i: int|
        0 <= i < seats.len() && seats[i].seat == seat && (forall|j: int|
            0 <= j < i ==> seats[j].seat != seat)
}

/// A seat state as it is first attached: nothing selected, nothing focused,
/// no registered endpoint.
pub open spec fn spec_fresh_seat_data(d: SeatData) -> bool {
    &&& d.selection is Empty
    &&& d.focus is None
    &&& d.devices@ == Seq::<DeviceEntry>::empty()
    &&& d.selection_serial is None
}

/// The first position holding `seat` satisfies the first-match property,
/// and any two first matches agree.
proof fn lemma_first_seat_index(seats: Seq<SeatEntry>, seat: u64, i: int)
    requires
        0 <= i < seats.len(),
        seats[i].seat == seat,
        forall|j: int| 0 <= j < i ==> seats[j].seat != seat,
    ensures
        spec_first_seat_index(seats, seat) == i,
{
    let c = spec_first_seat_index(seats, seat);
    assert(0 <= c < seats.len() && seats[c].seat == seat && (forall|j: int|
        0 <= j < c ==> seats[j].seat != seat)) by {
        assert(0 <= i < seats.len() && seats[i].seat == seat && (forall|j: int|
            0 <= j < i ==> seats[j].seat != seat));
    }
    if c < i {
        assert(seats[c].seat != seat);
    }
    if i < c {
        assert(seats[i].seat != seat);
    }
}

impl DataDeviceState {
    /// A manager with no seat attached yet.
    pub fn new() -> (r: DataDeviceState)
        ensures
            r.seats@ == Seq::<SeatEntry>::empty(),
    {
        DataDeviceState { seats: Vec::new() }
    }

    /// The position of the first entry for `seat`, if one exists.
    fn find_seat(&self, seat: u64) -> (r: Option<usize>)
        ensures
            match r {
                Option::Some(i) => i < self.seats@.len() && self.seats@[i as int].seat == seat
                    && spec_first_seat_index(self.seats@, seat) == i,
                Option::None => !spec_has_seat(self.seats@, seat),
            },
    {
        let mut i: usize = 0;
        while i < self.seats.len()
            invariant
                i <= self.seats@.len(),
                forall|j: int| 0 <= j < i ==> self.seats@[j].seat != seat,
            decreases self.seats@.len() - i,
        {
            if self.seats[i].seat == seat {
                proof {
                    lemma_first_seat_index(self.seats@, seat, i as int);
                }
                return Option::Some(i);
            }
            i = i + 1;
        }
        Option::None
    }

    /// Attach a fresh state for `seat` unless one is already attached.
    fn ensure_seat(&mut self, seat: u64) -> (i: usize)
        ensures
            i < final(self).seats@.len(),
            final(self).seats@[i as int].seat == seat,
            spec_first_seat_index(final(self).seats@, seat) == i,
            spec_has_seat(old(self).seats@, seat) ==> *final(self) == *old(self) && i
                == spec_first_seat_index(old(self).seats@, seat),
            !spec_has_seat(old(self).seats@, seat) ==> final(self).seats@.drop_last()
                == old(self).seats@ && final(self).seats@.last().seat == seat
                && spec_fresh_seat_data(final(self).seats@.last().data) && i == old(
                self,
            ).seats@.len(),
    {
        match self.find_seat(seat) {
            Option::Some(i) => i,
            Option::None => {
                let i = self.seats.len();
                self.seats.push(SeatEntry { seat, data: SeatData::new() });
                proof {
                    assert(self.seats@.drop_last() =~= old(self).seats@);
                    lemma_first_seat_index(self.seats@, seat, i as int);
                }
                i
            },
        }
    }

    /// A client asked for a device endpoint on `seat`; `seat` is `None`
    /// when the referenced object is not a seat the compositor manages.
    ///
    /// An unmanaged seat refuses the request without a state change; the
    /// caller logs it and drops it, with no client-visible error. On a
    /// managed seat the endpoint is registered (the seat state is attached
    /// first if this is the seat's first use), and when the endpoint's
    /// client already holds the focus over a set selection, the endpoint
    /// immediately receives exactly one offer.
    pub fn get_data_device(&mut self, seat: Option<u64>, device: DeviceEntry) -> (r: Result<
        Vec<SelectionEffect>,
        RequestError,
    >)
        ensures
            match r {
                Result::Ok(out) => ({
                    let pre = *old(self);
                    let post = *final(self);
                    match seat {
                        Option::Some(s) => {
                            if spec_has_seat(pre.seats@, s) {
                                let i = spec_first_seat_index(pre.seats@, s);
                                &&& post.seats@ == pre.seats@.update(i, post.seats@[i])
                                &&& post.seats@[i].seat == s
                                &&& spec_added_device(
                                    pre.seats@[i].data,
                                    post.seats@[i].data,
                                    device,
                                )
                                &&& out@ == spec_device_offer(pre.seats@[i].data, device)
                            } else {
                                &&& post.seats@.drop_last() == pre.seats@
                                &&& post.seats@.last().seat == s
                                &&& post.seats@.last().data.selection is Empty
                                &&& post.seats@.last().data.focus is None
                                &&& post.seats@.last().data.devices@ == seq![device]
                                &&& post.seats@.last().data.selection_serial is None
                                &&& out@ == Seq::<SelectionEffect>::empty()
                            }
                        },
                        Option::None => false,
                    }
                }),
                Result::Err(e) => e is UnmanagedSeat && seat is None && *final(self) == *old(self),
            },
    {
        let s = match seat {
            Option::Some(s) => s,
            Option::None => {
                return Result::Err(RequestError::UnmanagedSeat);
            },
        };
        let i = self.ensure_seat(s);
        let ghost mid = self.seats@;
        let mut entry = self.seats.remove(i);
        let out = entry.data.add_device(device);
        self.seats.insert(i, entry);
        proof {
            assert(self.seats@ =~= mid.update(i as int, self.seats@[i as int]));
            if spec_has_seat(old(self).seats@, s) {
            } else {
                assert(self.seats@.drop_last() =~= old(self).seats@);
                assert(self.seats@.last().data.devices@ =~= seq![device]);
            }
        }
        Result::Ok(out)
    }
}

/// The endpoint table of `d1` is that of `d0` with `device` registered at
/// the end; everything else is unchanged.
pub open spec fn spec_added_device(d0: SeatData, d1: SeatData, device: DeviceEntry) -> bool {
    &&& d1.devices@ == d0.devices@.push(device)
    &&& d1.selection == d0.selection
    &&& d1.focus == d0.focus
    &&& d1.selection_serial == d0.selection_serial
}

/// Set the data-device focus of `seat` to `client`, attaching the seat
/// state on first use.
///
/// A no-op when the focus is unchanged; otherwise, while a selection is
/// set, every device endpoint of the newly focused client receives one
/// offer and the previous focus receives nothing, exactly as
/// [`SeatData::set_focus`] says.
#[verifier::rlimit(100)]
pub fn set_data_device_focus(state: &mut DataDeviceState, seat: u64, client: Option<u64>) -> (out:
    Vec<SelectionEffect>)
    ensures
        ({
            let pre = *old(state);
            let post = *final(state);
            if spec_has_seat(pre.seats@, seat) {
                let i = spec_first_seat_index(pre.seats@, seat);
                let step = spec_set_focus(pre.seats@[i].data, client);
                &&& post.seats@ == pre.seats@.update(i, SeatEntry { seat, data: step.0 })
                &&& out@ == step.1
            } else {
                &&& post.seats@.drop_last() == pre.seats@
                &&& post.seats@.last().seat == seat
                &&& post.seats@.last().data.selection is Empty
                &&& post.seats@.last().data.focus == client
                &&& post.seats@.last().data.devices@ == Seq::<DeviceEntry>::empty()
                &&& post.seats@.last().data.selection_serial is None
                &&& out@ == Seq::<SelectionEffect>::empty()
            }
        }),
{
    let i = state.ensure_seat(seat);
    let ghost mid = state.seats@;
    let mut entry = state.seats.remove(i);
    let out = entry.data.set_focus(client);
    state.seats.insert(i, entry);
    proof {
        assert(state.seats@ =~= mid.update(i as int, state.seats@[i as int]));
        if spec_has_seat(old(state).seats@, seat) {
            let i0 = spec_first_seat_index(old(state).seats@, seat);
            let step = spec_set_focus(old(state).seats@[i0].data, client);
            assert(state.seats@ =~= old(state).seats@.update(
                i0,
                SeatEntry { seat, data: step.0 },
            ));
        } else {
            assert(state.seats@.drop_last() =~= old(state).seats@);
        }
    }
    out
}

/// Set a compositor-owned selection for `seat`, advertising `mime_types`,
/// attaching the seat state on first use.
///
/// The replaced client-owned source, if any, is cancelled, and the new
/// selection is broadcast to the current focus, exactly as
/// [`SeatData::set_selection`] says. Requests to read this selection reach
/// the compositor through [`DataDeviceHandler::send_selection`].
#[verifier::rlimit(100)]
pub fn set_data_device_selection(
    state: &mut DataDeviceState,
    seat: u64,
    mime_types: Vec<String>,
) -> (out: Vec<SelectionEffect>)
    ensures
        ({
            let pre = *old(state);
            let post = *final(state);
            let sel = Selection::Compositor(
                SourceMetadata { mime_types, dnd_action: action::empty_action() },
            );
            if spec_has_seat(pre.seats@, seat) {
                let i = spec_first_seat_index(pre.seats@, seat);
                let step = spec_set_selection(pre.seats@[i].data, sel);
                &&& post.seats@ == pre.seats@.update(i, SeatEntry { seat, data: step.0 })
                &&& out@ == step.1
            } else {
                &&& post.seats@.drop_last() == pre.seats@
                &&& post.seats@.last().seat == seat
                &&& post.seats@.last().data.selection == sel
                &&& post.seats@.last().data.focus is None
                &&& post.seats@.last().data.devices@ == Seq::<DeviceEntry>::empty()
                &&& post.seats@.last().data.selection_serial is None
                &&& out@ == Seq::<SelectionEffect>::empty()
            }
        }),
{
    let i = state.ensure_seat(seat);
    let ghost mid = state.seats@;
    let mut entry = state.seats.remove(i);
    let sel = Selection::Compositor(
        SourceMetadata {
            mime_types,
            dnd_action: DndAction { copy: false, move_: false, ask: false },
        },
    );
    let out = entry.data.set_selection(sel);
    state.seats.insert(i, entry);
    proof {
        assert(state.seats@ =~= mid.update(i as int, state.seats@[i as int]));
        if spec_has_seat(old(state).seats@, seat) {
            let i0 = spec_first_seat_index(old(state).seats@, seat);
            let step = spec_set_selection(
                old(state).seats@[i0].data,
                Selection::Compositor(
                    SourceMetadata { mime_types, dnd_action: action::empty_action() },
                ),
            );
            assert(state.seats@ =~= old(state).seats@.update(
                i0,
                SeatEntry { seat, data: step.0 },
            ));
        } else {
            assert(state.seats@.drop_last() =~= old(state).seats@);
        }
    }
    out
}

/// A client request to set the selection of `seat`, carrying the
/// triggering `serial`; the seat state is attached on first use.
///
/// Behaves as [`device::client_set_selection`] on that seat's state: a
/// stale serial is refused without a state change, a fresh one replaces the
/// selection and owes the `new_selection` callback once.
#[verifier::spinoff_prover]
#[verifier::rlimit(100)]
pub fn device_set_selection(
    state: &mut DataDeviceState,
    seat: u64,
    source: Option<DataSource>,
    serial: u32,
) -> (r: Result<Vec<SelectionEffect>, RequestError>)
    ensures
        ({
            let pre = *old(state);
            let post = *final(state);
            if spec_has_seat(pre.seats@, seat) {
                let i = spec_first_seat_index(pre.seats@, seat);
                let d0 = pre.seats@[i].data;
                match r {
                    Result::Ok(out) => {
                        let sel = match source {
                            Option::Some(src) => Selection::Client(device::spec_published(src)),
                            Option::None => Selection::Empty,
                        };
                        let step = spec_set_selection(d0, sel);
                        &&& device::spec_serial_fresh(d0.selection_serial, serial)
                        &&& post.seats@ == pre.seats@.update(
                            i,
                            SeatEntry {
                                seat,
                                data: SeatData {
                                    selection_serial: Option::Some(serial),
                                    ..step.0
                                },
                            },
                        )
                        &&& out@ == step.1
                    },
                    Result::Err(e) => {
                        &&& e is StaleSerial
                        &&& !device::spec_serial_fresh(d0.selection_serial, serial)
                        &&& post == pre
                    },
                }
            } else {
                match r {
                    Result::Ok(out) => {
                        let sel = match source {
                            Option::Some(src) => Selection::Client(device::spec_published(src)),
                            Option::None => Selection::Empty,
                        };
                        &&& post.seats@.drop_last() == pre.seats@
                        &&& post.seats@.last().seat == seat
                        &&& post.seats@.last().data.selection == sel
                        &&& post.seats@.last().data.focus is None
                        &&& post.seats@.last().data.devices@ == Seq::<DeviceEntry>::empty()
                        &&& post.seats@.last().data.selection_serial == Option::Some(serial)
                        &&& out@ == Seq::<SelectionEffect>::empty()
                    },
                    Result::Err(_) => false,
                }
            }
        }),
{
    let i = state.ensure_seat(seat);
    let fresh = match state.seats[i].data.selection_serial {
        Option::Some(prev) => serial > prev,
        Option::None => true,
    };
    if !fresh {
        return Result::Err(RequestError::StaleSerial);
    }
    let ghost mid = state.seats@;
    let ghost gsource = source;
    let mut entry = state.seats.remove(i);
    let r = device::client_set_selection(&mut entry.data, source, serial);
    state.seats.insert(i, entry);
    proof {
        assert(state.seats@ =~= mid.update(i as int, state.seats@[i as int]));
        let sel = match gsource {
            Option::Some(src) => Selection::Client(device::spec_published(src)),
            Option::None => Selection::Empty,
        };
        if spec_has_seat(old(state).seats@, seat) {
            let i0 = spec_first_seat_index(old(state).seats@, seat);
            let step = spec_set_selection(old(state).seats@[i0].data, sel);
            assert(state.seats@ =~= old(state).seats@.update(
                i0,
                SeatEntry {
                    seat,
                    data: SeatData { selection_serial: Option::Some(serial), ..step.0 },
                },
            ));
        } else {
            assert(state.seats@.drop_last() =~= old(state).seats@);
        }
    }
    r
}

/// Start a compositor-originated drag on `seat`, triggered by the input
/// event `serial`, offering the payload described by `metadata`; the seat
/// state is attached on first use. `has_pointer` says whether the seat has
/// a pointer to grab: without one no grab is entered.
///
/// The returned grab starts in its active phase with no target; the caller
/// installs it as the seat's pointer grab and feeds it events.
pub fn start_dnd(
    state: &mut DataDeviceState,
    seat: u64,
    serial: u32,
    metadata: SourceMetadata,
    has_pointer: bool,
) -> (r: Option<ServerDndGrab>)
    ensures
        spec_has_seat(old(state).seats@, seat) ==> *final(state) == *old(state),
        !spec_has_seat(old(state).seats@, seat) ==> final(state).seats@.drop_last() == old(
            state,
        ).seats@ && final(state).seats@.last().seat == seat && spec_fresh_seat_data(
            final(state).seats@.last().data,
        ),
        match r {
            Option::Some(g) => {
                &&& has_pointer
                &&& g.start_serial == serial
                &&& g.metadata == metadata
                &&& g.current_target is None
                &&& g.target_preferred == action::empty_action()
                &&& g.negotiated_action == action::empty_action()
                &&& g.phase is Active
            },
            Option::None => !has_pointer,
        },
{
    state.ensure_seat(seat);
    if has_pointer {
        Option::Some(ServerDndGrab::new(serial, metadata))
    } else {
        Option::None
    }
}

} // verus!
