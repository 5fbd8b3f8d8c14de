//! What the server asks its surroundings to do.

use crate::channel::PendingResponse;
use crate::protocol::ChannelRequest;
use crate::protocol::CompletionStatus;
use crate::protocol::GpadlId;
use crate::protocol::GpadlRequest;
use crate::protocol::GuestEventTarget;
use crate::protocol::MonitorId;
use crate::protocol::OfferId;
use crate::protocol::Vtl;
use vstd::prelude::*;

verus! {

/// One thing to be done outside the server. A list of effects is carried out in its order.
#[derive(Debug, PartialEq, Eq)]
pub enum Effect {
    /// Let the channel bitmap signal the channel's host event by `event_flag`.
    RegisterChannel { offer_id: OfferId, event_flag: u16 },
    /// Take the event flag out of the channel bitmap.
    UnregisterChannel { event_flag: u16 },
    /// Signal the channel's host event by guest events on a connection.
    AddEventPort { offer_id: OfferId, connection_id: u32, vtl: Vtl },
    /// Direct the channel's guest event port.
    SetGuestEventPort { offer_id: OfferId, target: GuestEventTarget },
    /// Stop the channel's guest event port.
    ClearGuestEventPort { offer_id: OfferId },
    /// Create the channel's interrupt to the guest from its guest event port, by way of the
    /// channel bitmap if `use_bitmap`.
    CreateInterrupt { offer_id: OfferId, event_flag: u16, use_bitmap: bool },
    /// Signal a connection by a slot of the monitor page.
    RegisterMonitor { offer_id: OfferId, monitor_id: MonitorId, connection_id: u32 },
    /// Drop the event port, the monitor registration and the interrupt of a channel that is no
    /// longer open.
    ReleaseOpen { offer_id: OfferId },
    /// Drop everything that belongs to a channel that is no longer offered.
    ReleaseChannel { offer_id: OfferId },
    /// Make a GPADL available to the channel. Its page ranges have to be well formed.
    AddGpadl { offer_id: OfferId, gpadl: GpadlRequest },
    /// Take a GPADL from the channel.
    RemoveGpadl { offer_id: OfferId, gpadl_id: GpadlId },
    /// Send a request to the device behind the channel and wait for its answer.
    SendRequest { request: ChannelRequest, pending: PendingResponse },
    /// Call the channel state machine.
    Server(ServerCall),
    /// Unmap the monitor page.
    ResetMonitorPage,
    /// Tell whoever requested the reset that it is complete.
    SignalResetDone,
}

impl Effect {
    /// Whether the effect makes a GPADL available to a channel.
    pub open spec fn adds_gpadl(self, offer_id: OfferId, gpadl: GpadlRequest) -> bool {
        &&& self matches Effect::AddGpadl { offer_id: id, gpadl: added }
        &&& id == offer_id
        &&& added.same(gpadl)
    }
}

/// A call of the channel state machine.
#[derive(Clone, Copy, Debug, PartialEq, Eq, Structural)]
pub enum ServerCall {
    RevokeChannel(OfferId),
    OpenComplete(OfferId, CompletionStatus),
    CloseComplete(OfferId),
    GpadlCreateComplete(OfferId, GpadlId, CompletionStatus),
    GpadlTeardownComplete(OfferId, GpadlId),
    ModifyChannelComplete(OfferId, i32),
    Reset,
}

} // verus!
