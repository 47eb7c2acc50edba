//! Per-client device requests: starting a drag and setting the selection.
//!
//! Both requests are validated against serials before they touch any state:
//! a drag must be triggered by the pointer button that is currently pressed,
//! and a selection request older than the last accepted one is stale. An
//! invalid request is refused without a state change; the caller logs it and
//! drops it, raising no client-visible error.

use vstd::prelude::*;

use crate::action::empty_action;
use crate::dnd_grab::{ClientDndGrab, GrabPhase};
use crate::seat_data::{spec_set_selection, SeatData, Selection, SelectionEffect};
use crate::source::DataSource;

verus! {

/// Why a request was refused.
#[derive(Clone, Copy, Debug, PartialEq, Eq, Structural)]
pub enum RequestError {
    /// A device was requested for a seat the compositor does not manage.
    UnmanagedSeat,
    /// The request's serial does not correspond to a currently valid
    /// triggering event.
    StaleSerial,
}

/// True when a selection request carrying `serial` may replace the one the
/// seat last accepted: the first request always may, a later one only with
/// a newer serial, so a stale request cannot clobber a newer one.
pub open spec fn spec_serial_fresh(last: Option<u32>, serial: u32) -> bool {
    match last {
        Option::Some(prev) => serial > prev,
        Option::None => true,
    }
}

/// The source as it is published: its metadata frozen from here on.
pub open spec fn spec_published(src: DataSource) -> DataSource {
    DataSource { published: true, ..src }
}

/// A client request to start a drag, triggered by the input event `serial`;
/// `pressed_serial` is the serial of the pointer button currently pressed
/// on the seat, if any.
///
/// The request is valid exactly when `serial` matches the pressed button;
/// then the grab is entered with the published source as payload and the
/// `started` callback is owed. Otherwise the request is refused as stale
/// and nothing changes.
pub fn start_drag(
    origin_client: u64,
    source: Option<DataSource>,
    icon: Option<u64>,
    serial: u32,
    pressed_serial: Option<u32>,
) -> (r: Result<ClientDndGrab, RequestError>)
    ensures
        match r {
            Result::Ok(g) => pressed_serial == Option::Some(serial) && g == (ClientDndGrab {
                origin_client,
                payload: match source {
                    Option::Some(src) => Option::Some(spec_published(src)),
                    Option::None => Option::None,
                },
                icon,
                current_target: Option::None,
                target_preferred: empty_action(),
                negotiated_action: empty_action(),
                accepted_mime: Option::None,
                phase: GrabPhase::Active,
            }),
            Result::Err(e) => e is StaleSerial && pressed_serial != Option::Some(serial),
        },
{
    let valid = match pressed_serial {
        Option::Some(p) => p == serial,
        Option::None => false,
    };
    if !valid {
        return Result::Err(RequestError::StaleSerial);
    }
    let payload = match source {
        Option::Some(mut src) => {
            src.publish();
            Option::Some(src)
        },
        Option::None => Option::None,
    };
    Result::Ok(ClientDndGrab::new(origin_client, payload, icon))
}

/// A client request to set the seat's selection, carrying the triggering
/// `serial`.
///
/// A request at least as old as the last accepted one is refused as stale,
/// without a state change. A fresh request publishes the source, stores it
/// (or clears the selection), cancels the replaced client-owned source and
/// broadcasts to the current focus exactly as [`SeatData::set_selection`]
/// does, and records the serial. On success the `new_selection` callback is
/// owed, once.
pub fn client_set_selection(
    seat: &mut SeatData,
    source: Option<DataSource>,
    serial: u32,
) -> (r: Result<Vec<SelectionEffect>, RequestError>)
    ensures
        match r {
            Result::Ok(out) => {
                &&& spec_serial_fresh(old(seat).selection_serial, serial)
                &&& ({
                    let sel = match source {
                        Option::Some(src) => Selection::Client(spec_published(src)),
                        Option::None => Selection::Empty,
                    };
                    let step = spec_set_selection(*old(seat), sel);
                    *final(seat) == (SeatData {
                        selection_serial: Option::Some(serial),
                        ..step.0
                    }) && out@ == step.1
                })
            },
            Result::Err(e) => {
                &&& e is StaleSerial
                &&& !spec_serial_fresh(old(seat).selection_serial, serial)
                &&& *final(seat) == *old(seat)
            },
        },
{
    let fresh = match seat.selection_serial {
        Option::Some(prev) => serial > prev,
        Option::None => true,
    };
    if !fresh {
        return Result::Err(RequestError::StaleSerial);
    }
    let sel = match source {
        Option::Some(mut src) => {
            src.publish();
            Selection::Client(src)
        },
        Option::None => Selection::Empty,
    };
    let out = seat.set_selection(sel);
    seat.selection_serial = Option::Some(serial);
    Result::Ok(out)
}

} // verus!
