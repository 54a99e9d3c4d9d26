//! The connection state a session tracks and how adapter events move it.

use vstd::prelude::*;
use crate::adapter::{AdapterEvent, AdapterEventKind};
use crate::text::opt_string_view;

verus! {

broadcast use vstd::string::group_string_axioms;

/// State of the connection to the vehicle.
#[derive(Debug, Clone, PartialEq, Eq)]
pub enum ConnectionState {
    AdapterPresent,
    AdapterInitialized,
    ProtocolNegotiating,
    Connected,
    IgnitionOff,
    UnsupportedProtocol,
    Disconnected,
    Error(String),
}

/// Whether an event reports a bus or data error.
pub open spec fn is_error_event(k: AdapterEventKind) -> bool {
    k is BusBusy || k is BusError || k is CanError || k is DataError || k is RxError || k is Stopped
}

/// Whether an event moves the connection state.
pub open spec fn changes_state(k: AdapterEventKind) -> bool {
    is_error_event(k) || k is Err94 || k is LowVoltageReset || k is UnsupportedProtocol || k is ProtocolSelected
}

/// The `{:?}` text of an error event's kind.
pub open spec fn error_kind_name(k: AdapterEventKind) -> Seq<char> {
    match k {
        AdapterEventKind::BusBusy => "BusBusy"@,
        AdapterEventKind::BusError => "BusError"@,
        AdapterEventKind::CanError => "CanError"@,
        AdapterEventKind::DataError => "DataError"@,
        AdapterEventKind::RxError => "RxError"@,
        _ => "Stopped"@,
    }
}

/// Whether `s` is the state an event leaves: an error (with the event's
/// detail, or its kind's name) for bus and data errors, disconnected after
/// a fatal adapter fault, unsupported protocol, or connected once a
/// protocol is selected.
pub open spec fn state_after(e: AdapterEvent, s: ConnectionState) -> bool {
    if is_error_event(e.kind) {
        s matches ConnectionState::Error(m) && m@ == match opt_string_view(e.detail) {
            Some(d) => d,
            None => error_kind_name(e.kind),
        }
    } else if e.kind is Err94 || e.kind is LowVoltageReset {
        s is Disconnected
    } else if e.kind is UnsupportedProtocol {
        s is UnsupportedProtocol
    } else {
        s is Connected
    }
}

/// The index of the last event that moves the connection state.
pub open spec fn last_state_event(events: Seq<AdapterEvent>) -> Option<int>
    decreases events.len(),
{
    if events.len() == 0 {
        None
    } else if changes_state(events.last().kind) {
        Some(events.len() - 1)
    } else {
        last_state_event(events.drop_last())
    }
}

fn error_name(k: &AdapterEventKind) -> (s: String)
    requires
        is_error_event(*k),
    ensures
        s@ == error_kind_name(*k),
{
    match k {
        AdapterEventKind::BusBusy => String::from_str("BusBusy"),
        AdapterEventKind::BusError => String::from_str("BusError"),
        AdapterEventKind::CanError => String::from_str("CanError"),
        AdapterEventKind::DataError => String::from_str("DataError"),
        AdapterEventKind::RxError => String::from_str("RxError"),
        _ => String::from_str("Stopped"),
    }
}

/// Apply one adapter event to the connection state.
pub fn apply_adapter_event(state: &mut ConnectionState, event: &AdapterEvent)
    ensures
        changes_state(event.kind) ==> state_after(*event, *final(state)),
        !changes_state(event.kind) ==> *final(state) == *old(state),
{
    match &event.kind {
        AdapterEventKind::BusBusy | AdapterEventKind::BusError | AdapterEventKind::CanError
        | AdapterEventKind::DataError | AdapterEventKind::RxError | AdapterEventKind::Stopped => {
            let m = match &event.detail {
                Some(d) => d.clone(),
                None => error_name(&event.kind),
            };
            *state = ConnectionState::Error(m);
        },
        AdapterEventKind::Err94 | AdapterEventKind::LowVoltageReset => {
            *state = ConnectionState::Disconnected;
        },
        AdapterEventKind::UnsupportedProtocol => {
            *state = ConnectionState::UnsupportedProtocol;
        },
        AdapterEventKind::ProtocolSelected(_) => {
            *state = ConnectionState::Connected;
        },
        _ => {},
    }
}

/// Apply adapter events in order: the state is the one the last
/// state-moving event leaves, or unchanged when no event moves it.
pub fn apply_adapter_events(state: &mut ConnectionState, events: &[AdapterEvent])
    ensures
        match last_state_event(events@) {
            None => *final(state) == *old(state),
            Some(i) => state_after(events@[i], *final(state)),
        },
{
    let mut i: usize = 0;
    while i < events.len()
        invariant
            i <= events.len(),
            match last_state_event(events@.take(i as int)) {
                None => *state == *old(state),
                Some(j) => 0 <= j < i && state_after(events@[j], *state),
            },
        decreases events.len() - i,
    {
        proof {
            assert(events@.take(i + 1).drop_last() =~= events@.take(i as int));
            assert(events@.take(i + 1).last() == events@[i as int]);
        }
        apply_adapter_event(state, &events[i]);
        i = i + 1;
    }
    proof {
        assert(events@.take(events.len() as int) =~= events@);
    }
}

} // verus!
