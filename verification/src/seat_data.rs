//! Per-seat data-device state: the current selection, the input focus, and
//! the registered per-client device endpoints.
//!
//! Mutating operations return the effects the compositor must perform:
//! protocol offers to send to device endpoints and sources to cancel. The
//! effect lists are exact, so counting arguments (a replaced source is
//! cancelled exactly once, a focus change offers once per endpoint of the
//! new focus) are proved against them.

use vstd::prelude::*;

use crate::source::{DataSource, SourceMetadata};

verus! {

/// A per-client device endpoint registered on a seat.
#[derive(Clone, Copy, Debug, PartialEq, Eq, Structural)]
pub struct DeviceEntry {
    /// Protocol identity of the device endpoint.
    pub device: u64,
    /// The client the endpoint belongs to.
    pub client: u64,
}

/// The current clipboard payload of a seat.
#[derive(Debug)]
pub enum Selection {
    /// No selection is set.
    Empty,
    /// A client-owned source is the selection.
    Client(DataSource),
    /// The compositor itself owns the selection, described by its metadata.
    Compositor(SourceMetadata),
}

/// An effect the compositor must perform after a seat-data operation.
#[derive(Clone, Copy, Debug, PartialEq, Eq, Structural)]
pub enum SelectionEffect {
    /// Send the current selection (a fresh offer listing its MIME types, or
    /// a cleared selection) to this device endpoint.
    Offer { device: u64 },
    /// Notify the owner of this source that it is no longer the selection.
    CancelSource { source: u64 },
}

/// The data-device state of one seat.
#[derive(Debug)]
pub struct SeatData {
    /// The current selection.
    pub selection: Selection,
    /// The client currently eligible to receive selection offers.
    pub focus: Option<u64>,
    /// The registered device endpoints, in registration order.
    pub devices: Vec<DeviceEntry>,
    /// Serial of the last accepted client selection request, used to refuse
    /// stale requests.
    pub selection_serial: Option<u32>,
}

/// True when `sel` is a client-owned selection backed by the source `id`.
pub open spec fn selection_refers_to(sel: Selection, id: u64) -> bool {
    match sel {
        Selection::Client(src) => src.id == id,
        _ => false,
    }
}

/// One offer per device endpoint of client `c`, in registration order.
pub open spec fn spec_offers_to_client(devices: Seq<DeviceEntry>, c: u64) -> Seq<SelectionEffect>
    decreases devices.len(),
{
    if devices.len() == 0 {
        Seq::empty()
    } else {
        let rest = spec_offers_to_client(devices.drop_last(), c);
        if devices.last().client == c {
            rest.push(SelectionEffect::Offer { device: devices.last().device })
        } else {
            rest
        }
    }
}

/// The offers a (re)set focus broadcasts: one per endpoint of the focused
/// client, none when no client is focused or no selection is set.
pub open spec fn spec_focus_offers(
    devices: Seq<DeviceEntry>,
    focus: Option<u64>,
    sel: Selection,
) -> Seq<SelectionEffect> {
    match focus {
        Option::Some(c) => if sel is Empty {
            Seq::empty()
        } else {
            spec_offers_to_client(devices, c)
        },
        Option::None => Seq::empty(),
    }
}

/// The cancellation a replaced selection causes: the previous client-owned
/// source is cancelled unless the new value is the same source.
pub open spec fn spec_cancel_effects(prev: Selection, new: Selection) -> Seq<SelectionEffect> {
    match prev {
        Selection::Client(src) => if selection_refers_to(new, src.id) {
            Seq::empty()
        } else {
            seq![SelectionEffect::CancelSource { source: src.id }]
        },
        _ => Seq::empty(),
    }
}

/// State and effects of `SeatData::set_focus`.
pub open spec fn spec_set_focus(pre: SeatData, focus: Option<u64>) -> (SeatData, Seq<
    SelectionEffect,
>) {
    if focus == pre.focus {
        (pre, Seq::empty())
    } else {
        (
            SeatData {
                selection: pre.selection,
                focus,
                devices: pre.devices,
                selection_serial: pre.selection_serial,
            },
            spec_focus_offers(pre.devices@, focus, pre.selection),
        )
    }
}

/// State and effects of `SeatData::set_selection`.
pub open spec fn spec_set_selection(pre: SeatData, sel: Selection) -> (SeatData, Seq<
    SelectionEffect,
>) {
    (
        SeatData {
            selection: sel,
            focus: pre.focus,
            devices: pre.devices,
            selection_serial: pre.selection_serial,
        },
        spec_cancel_effects(pre.selection, sel) + spec_focus_offers(
            pre.devices@,
            pre.focus,
            sel,
        ),
    )
}

/// The immediate offer a newly registered endpoint receives when its client
/// is already focused and a selection is already set.
pub open spec fn spec_device_offer(pre: SeatData, entry: DeviceEntry) -> Seq<SelectionEffect> {
    if pre.focus == Option::Some(entry.client) && !(pre.selection is Empty) {
        seq![SelectionEffect::Offer { device: entry.device }]
    } else {
        Seq::empty()
    }
}

/// The device entries that survive the removal of endpoint `device`.
pub open spec fn spec_retain_devices(devices: Seq<DeviceEntry>, device: u64) -> Seq<DeviceEntry>
    decreases devices.len(),
{
    if devices.len() == 0 {
        Seq::empty()
    } else {
        let rest = spec_retain_devices(devices.drop_last(), device);
        if devices.last().device == device {
            rest
        } else {
            rest.push(devices.last())
        }
    }
}

fn option_u64_eq(a: &Option<u64>, b: &Option<u64>) -> (r: bool)
    ensures
        r == (*a == *b),
{
    match (a, b) {
        (Option::Some(x), Option::Some(y)) => *x == *y,
        (Option::None, Option::None) => true,
        _ => false,
    }
}

fn push_offers(devices: &Vec<DeviceEntry>, c: u64, out: &mut Vec<SelectionEffect>)
    ensures
        final(out)@ == old(out)@ + spec_offers_to_client(devices@, c),
{
    let ghost base = out@;
    let mut i: usize = 0;
    while i < devices.len()
        invariant
            i <= devices.len(),
            out@ == base + spec_offers_to_client(devices@.take(i as int), c),
        decreases devices.len() - i,
    {
        let entry = devices[i];
        proof {
            assert(devices@.take(i as int + 1).drop_last() =~= devices@.take(i as int));
            assert(devices@.take(i as int + 1).last() == devices@[i as int]);
        }
        if entry.client == c {
            out.push(SelectionEffect::Offer { device: entry.device });
            proof {
                assert(out@ =~= base + spec_offers_to_client(devices@.take(i as int + 1), c));
            }
        } else {
            proof {
                assert(out@ =~= base + spec_offers_to_client(devices@.take(i as int + 1), c));
            }
        }
        i = i + 1;
    }
    proof {
        assert(devices@.take(devices@.len() as int) =~= devices@);
    }
}

impl SeatData {
    /// Fresh seat state: no selection, no focus, no registered endpoint.
    pub fn new() -> (r: SeatData)
        ensures
            r.selection is Empty,
            r.focus is None,
            r.devices@ == Seq::<DeviceEntry>::empty(),
            r.selection_serial is None,
    {
        SeatData {
            selection: Selection::Empty,
            focus: Option::None,
            devices: Vec::new(),
            selection_serial: Option::None,
        }
    }

    /// True when a selection is currently set.
    pub fn has_selection(&self) -> (r: bool)
        ensures
            r == !(self.selection is Empty),
    {
        match &self.selection {
            Selection::Empty => false,
            _ => true,
        }
    }

    /// Move the input focus to `focus`.
    ///
    /// A no-op when the focus is unchanged. Otherwise, when a selection is
    /// set and a client gains focus, every device endpoint of that client
    /// receives one offer; the previous focus receives nothing.
    pub fn set_focus(&mut self, focus: Option<u64>) -> (out: Vec<SelectionEffect>)
        ensures
            *final(self) == spec_set_focus(*old(self), focus).0,
            out@ == spec_set_focus(*old(self), focus).1,
    {
        let mut out: Vec<SelectionEffect> = Vec::new();
        if !option_u64_eq(&focus, &self.focus) {
            self.focus = focus;
            if let Option::Some(c) = focus {
                if self.has_selection() {
                    push_offers(&self.devices, c, &mut out);
                    proof {
                        assert(out@ =~= spec_set_focus(*old(self), focus).1);
                    }
                }
            }
        }
        out
    }

    /// Replace the selection with `sel`.
    ///
    /// The previous client-owned source, if any, is cancelled unless the new
    /// value is the same source; then the new selection is broadcast to the
    /// current focus exactly as a fresh focus change would broadcast it.
    pub fn set_selection(&mut self, sel: Selection) -> (out: Vec<SelectionEffect>)
        ensures
            *final(self) == spec_set_selection(*old(self), sel).0,
            out@ == spec_set_selection(*old(self), sel).1,
    {
        let mut out: Vec<SelectionEffect> = Vec::new();
        let prev_id: Option<u64> = match &self.selection {
            Selection::Client(src) => Option::Some(src.id),
            _ => Option::None,
        };
        let new_id: Option<u64> = match &sel {
            Selection::Client(src) => Option::Some(src.id),
            _ => Option::None,
        };
        if let Option::Some(pid) = prev_id {
            let same = match new_id {
                Option::Some(nid) => nid == pid,
                Option::None => false,
            };
            if !same {
                out.push(SelectionEffect::CancelSource { source: pid });
            }
        }
        proof {
            assert(out@ =~= spec_cancel_effects(old(self).selection, sel));
        }
        self.selection = sel;
        if let Option::Some(c) = self.focus {
            if self.has_selection() {
                push_offers(&self.devices, c, &mut out);
            }
        }
        proof {
            assert(out@ =~= spec_set_selection(*old(self), sel).1);
        }
        out
    }

    /// Register a device endpoint for a client on this seat.
    ///
    /// When the endpoint's client already holds the focus and a selection is
    /// already set, the endpoint immediately receives exactly one offer.
    pub fn add_device(&mut self, entry: DeviceEntry) -> (out: Vec<SelectionEffect>)
        ensures
            final(self).devices@ == old(self).devices@.push(entry),
            final(self).selection == old(self).selection,
            final(self).focus == old(self).focus,
            final(self).selection_serial == old(self).selection_serial,
            out@ == spec_device_offer(*old(self), entry),
    {
        let mut out: Vec<SelectionEffect> = Vec::new();
        let focused = match self.focus {
            Option::Some(c) => c == entry.client,
            Option::None => false,
        };
        if focused && self.has_selection() {
            out.push(SelectionEffect::Offer { device: entry.device });
        }
        self.devices.push(entry);
        proof {
            assert(out@ =~= spec_device_offer(*old(self), entry));
        }
        out
    }

    /// Drop every entry of the destroyed device endpoint `device`; the
    /// endpoint table holds no ownership, so a destroyed endpoint is simply
    /// forgotten.
    pub fn remove_device(&mut self, device: u64)
        ensures
            final(self).devices@ == spec_retain_devices(old(self).devices@, device),
            final(self).selection == old(self).selection,
            final(self).focus == old(self).focus,
            final(self).selection_serial == old(self).selection_serial,
    {
        let mut kept: Vec<DeviceEntry> = Vec::new();
        let mut i: usize = 0;
        while i < self.devices.len()
            invariant
                i <= self.devices.len(),
                self.devices == old(self).devices,
                kept@ == spec_retain_devices(self.devices@.take(i as int), device),
            decreases self.devices.len() - i,
        {
            let entry = self.devices[i];
            proof {
                assert(self.devices@.take(i as int + 1).drop_last() =~= self.devices@.take(
                    i as int,
                ));
                assert(self.devices@.take(i as int + 1).last() == self.devices@[i as int]);
            }
            if entry.device != device {
                kept.push(entry);
            }
            i = i + 1;
        }
        proof {
            assert(self.devices@.take(self.devices@.len() as int) =~= self.devices@);
        }
        self.devices = kept;
    }
}

/// Number of `CancelSource { source }` effects in `effects`.
pub open spec fn count_cancels(effects: Seq<SelectionEffect>, source: u64) -> nat
    decreases effects.len(),
{
    if effects.len() == 0 {
        0
    } else {
        count_cancels(effects.drop_last(), source) + match effects.last() {
            SelectionEffect::CancelSource { source: s } => if s == source {
                1nat
            } else {
                0nat
            },
            _ => 0nat,
        }
    }
}

/// Number of `Offer { device }` effects in `effects`.
pub open spec fn count_offers_for(effects: Seq<SelectionEffect>, device: u64) -> nat
    decreases effects.len(),
{
    if effects.len() == 0 {
        0
    } else {
        count_offers_for(effects.drop_last(), device) + match effects.last() {
            SelectionEffect::Offer { device: d } => if d == device {
                1nat
            } else {
                0nat
            },
            _ => 0nat,
        }
    }
}

/// Number of entries registering endpoint `device` for client `client`.
pub open spec fn count_device_entries(devices: Seq<DeviceEntry>, device: u64, client: u64) -> nat
    decreases devices.len(),
{
    if devices.len() == 0 {
        0
    } else {
        count_device_entries(devices.drop_last(), device, client) + if devices.last()
            == (DeviceEntry { device, client }) {
            1nat
        } else {
            0nat
        }
    }
}

/// Cancellation count of a one-effect list.
pub proof fn lemma_count_cancels_singleton(e: SelectionEffect, source: u64)
    ensures
        count_cancels(seq![e], source) == match e {
            SelectionEffect::CancelSource { source: s } => if s == source {
                1nat
            } else {
                0nat
            },
            _ => 0nat,
        },
{
    assert(seq![e].drop_last() =~= Seq::<SelectionEffect>::empty());
    assert(seq![e].last() == e);
    assert(count_cancels(Seq::<SelectionEffect>::empty(), source) == 0);
}

/// Cancellation counts add up over concatenated effect lists.
pub proof fn lemma_count_cancels_concat(x: Seq<SelectionEffect>, y: Seq<SelectionEffect>, source: u64)
    ensures
        count_cancels(x + y, source) == count_cancels(x, source) + count_cancels(y, source),
    decreases y.len(),
{
    if y.len() == 0 {
        assert(x + y =~= x);
    } else {
        lemma_count_cancels_concat(x, y.drop_last(), source);
        assert((x + y).drop_last() =~= x + y.drop_last());
        assert((x + y).last() == y.last());
    }
}

/// A focus broadcast consists of offers only: it cancels no source.
pub proof fn lemma_offers_cancel_nothing(devices: Seq<DeviceEntry>, c: u64, source: u64)
    ensures
        count_cancels(spec_offers_to_client(devices, c), source) == 0,
    decreases devices.len(),
{
    if devices.len() == 0 {
    } else {
        lemma_offers_cancel_nothing(devices.drop_last(), c, source);
        let rest = spec_offers_to_client(devices.drop_last(), c);
        if devices.last().client == c {
            let o = SelectionEffect::Offer { device: devices.last().device };
            assert(rest.push(o).drop_last() =~= rest);
            assert(rest.push(o).last() == o);
        }
    }
}

/// A focus broadcast offers to a device exactly as often as that device is
/// registered for the focused client: endpoints of the new focus receive
/// exactly one offer per registration, endpoints registered only for other
/// clients (the previous focus among them) receive none.
pub proof fn lemma_offer_count_matches_entries(devices: Seq<DeviceEntry>, c: u64, d: u64)
    ensures
        count_offers_for(spec_offers_to_client(devices, c), d) == count_device_entries(
            devices,
            d,
            c,
        ),
    decreases devices.len(),
{
    if devices.len() == 0 {
    } else {
        lemma_offer_count_matches_entries(devices.drop_last(), c, d);
        let rest = spec_offers_to_client(devices.drop_last(), c);
        if devices.last().client == c {
            let o = SelectionEffect::Offer { device: devices.last().device };
            assert(rest.push(o).drop_last() =~= rest);
            assert(rest.push(o).last() == o);
        }
    }
}

/// Changing the focus while a selection is active sends exactly one offer
/// per device endpoint of the new focus and none to any endpoint that is
/// registered only for other clients.
pub proof fn lemma_focus_change_offer_counts(pre: SeatData, c: u64, d: u64)
    requires
        pre.focus != Option::Some(c),
        !(pre.selection is Empty),
    ensures
        spec_set_focus(pre, Option::Some(c)).1 == spec_offers_to_client(pre.devices@, c),
        count_offers_for(spec_set_focus(pre, Option::Some(c)).1, d) == count_device_entries(
            pre.devices@,
            d,
            c,
        ),
{
    lemma_offer_count_matches_entries(pre.devices@, c, d);
}

/// Setting a selection twice in a row cancels the first source exactly
/// once: a source that was not the selection before, becomes it, and is then
/// replaced by anything that does not refer to it, sees exactly one
/// cancellation over the two calls — never zero and never two.
pub proof fn lemma_replaced_selection_cancelled_once(s0: SeatData, a: DataSource, next: Selection)
    requires
        !selection_refers_to(s0.selection, a.id),
        !selection_refers_to(next, a.id),
    ensures
        ({
            let first = spec_set_selection(s0, Selection::Client(a));
            let second = spec_set_selection(first.0, next);
            count_cancels(first.1 + second.1, a.id) == 1
        }),
{
    let aid = a.id;
    let first = spec_set_selection(s0, Selection::Client(a));
    let second = spec_set_selection(first.0, next);
    let cancel1 = spec_cancel_effects(s0.selection, Selection::Client(a));
    let offers1 = spec_focus_offers(s0.devices@, s0.focus, Selection::Client(a));
    let cancel2 = spec_cancel_effects(first.0.selection, next);
    let offers2 = spec_focus_offers(first.0.devices@, first.0.focus, next);
    lemma_count_cancels_concat(first.1, second.1, aid);
    lemma_count_cancels_concat(cancel1, offers1, aid);
    lemma_count_cancels_concat(cancel2, offers2, aid);
    match s0.selection {
        Selection::Client(src) => {
            let e = SelectionEffect::CancelSource { source: src.id };
            assert(cancel1 =~= seq![e]);
            lemma_count_cancels_singleton(e, aid);
            assert(count_cancels(cancel1, aid) == 0);
        },
        _ => {
            assert(count_cancels(cancel1, aid) == 0);
        },
    }
    match s0.focus {
        Option::Some(c) => {
            lemma_offers_cancel_nothing(s0.devices@, c, aid);
        },
        Option::None => {},
    }
    let e2 = SelectionEffect::CancelSource { source: aid };
    assert(cancel2 =~= seq![e2]);
    lemma_count_cancels_singleton(e2, aid);
    assert(count_cancels(cancel2, aid) == 1);
    match first.0.focus {
        Option::Some(c) => {
            lemma_offers_cancel_nothing(first.0.devices@, c, aid);
        },
        Option::None => {},
    }
}

} // verus!
