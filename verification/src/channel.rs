//! Offered channels and the answers of the devices behind them.

use crate::protocol::GpadlId;
use crate::protocol::OfferId;
use crate::protocol::OfferKey;
use crate::protocol::OpenParams;
use vstd::prelude::*;

verus! {

/// An offered channel.
#[derive(Clone, Copy, Debug, PartialEq, Eq)]
pub struct Channel {
    pub key: OfferKey,
    /// Tells this offer from earlier and later ones under the same [`OfferId`].
    pub seq: u64,
    pub state: ChannelState,
    /// Whether the channel uses the memory set apart for confidential channels.
    pub confidential: bool,
}

/// Whether a channel is open.
#[derive(Clone, Copy, Debug, PartialEq, Eq)]
pub enum ChannelState {
    Closed,
    Open {
        open_params: OpenParams,
        /// Whether the channel is registered with the monitor page.
        monitor: bool,
    },
}

impl Channel {
    /// Whether the channel is open and signalled through the monitor page.
    pub open spec fn spec_uses_monitor(&self) -> bool {
        self.state matches ChannelState::Open { monitor: true, .. }
    }

    /// Returns whether the channel is open and signalled through the monitor page.
    #[verifier::when_used_as_spec(spec_uses_monitor)]
    pub fn uses_monitor(&self) -> (r: bool)
        ensures
            r == self.spec_uses_monitor(),
    {
        match self.state {
            ChannelState::Open { monitor, .. } => monitor,
            ChannelState::Closed => false,
        }
    }
}

/// The answer of a device to a request, with what the server needs to know to act on it.
#[derive(Clone, Copy, Debug, PartialEq, Eq, Structural)]
pub enum ChannelResponse {
    Open(bool),
    Close,
    Gpadl(GpadlId, bool),
    TeardownGpadl(GpadlId),
    Modify(i32),
}

/// The device went away without an answer.
#[derive(Clone, Copy, Debug, PartialEq, Eq, Structural)]
pub struct RecvError;

/// What a device answers to a request, by the kind of the request.
#[derive(Clone, Copy, Debug, PartialEq, Eq, Structural)]
pub enum DeviceReply {
    Opened(bool),
    Closed,
    GpadlCreated(bool),
    GpadlTornDown,
    Modified(i32),
}

/// The kind of a request that a device has not answered yet.
#[derive(Clone, Copy, Debug, PartialEq, Eq, Structural)]
pub enum PendingKind {
    Open,
    Close,
    Gpadl(GpadlId),
    TeardownGpadl(GpadlId),
    Modify,
}

/// A request that a device has not answered yet.
#[derive(Clone, Copy, Debug, PartialEq, Eq, Structural)]
pub struct PendingResponse {
    pub offer_id: OfferId,
    /// The [`Channel::seq`] of the channel that the request was sent to.
    pub seq: u64,
    pub kind: PendingKind,
}

impl PendingResponse {
    /// Whether a reply is of the kind that the request asks for.
    pub open spec fn expects(self, reply: DeviceReply) -> bool {
        match self.kind {
            PendingKind::Open => reply is Opened,
            PendingKind::Close => reply is Closed,
            PendingKind::Gpadl(_) => reply is GpadlCreated,
            PendingKind::TeardownGpadl(_) => reply is GpadlTornDown,
            PendingKind::Modify => reply is Modified,
        }
    }

    /// The response that a reply amounts to.
    pub open spec fn response(self, reply: DeviceReply) -> ChannelResponse {
        match reply {
            DeviceReply::Opened(ok) => ChannelResponse::Open(ok),
            DeviceReply::Closed => ChannelResponse::Close,
            DeviceReply::GpadlCreated(ok) => ChannelResponse::Gpadl(self.kind->Gpadl_0, ok),
            DeviceReply::GpadlTornDown => ChannelResponse::TeardownGpadl(
                self.kind->TeardownGpadl_0,
            ),
            DeviceReply::Modified(status) => ChannelResponse::Modify(status),
        }
    }

    /// Turns what came of the request into a response for the channel it was sent to.
    pub fn complete(self, reply: Result<DeviceReply, RecvError>) -> (r: (
        OfferId,
        u64,
        Result<ChannelResponse, RecvError>,
    ))
        requires
            reply matches Ok(reply) ==> self.expects(reply),
        ensures
            r.0 == self.offer_id,
            r.1 == self.seq,
            r.2 == (match reply {
                Ok(reply) => Ok::<ChannelResponse, RecvError>(self.response(reply)),
                Err(error) => Err(error),
            }),
    {
        let response = match reply {
            Ok(DeviceReply::Opened(ok)) => Ok(ChannelResponse::Open(ok)),
            Ok(DeviceReply::Closed) => Ok(ChannelResponse::Close),
            Ok(DeviceReply::GpadlCreated(ok)) => match self.kind {
                PendingKind::Gpadl(gpadl_id) => Ok(ChannelResponse::Gpadl(gpadl_id, ok)),
                _ => Err(RecvError),
            },
            Ok(DeviceReply::GpadlTornDown) => match self.kind {
                PendingKind::TeardownGpadl(gpadl_id) => Ok(ChannelResponse::TeardownGpadl(gpadl_id)),
                _ => Err(RecvError),
            },
            Ok(DeviceReply::Modified(status)) => Ok(ChannelResponse::Modify(status)),
            Err(error) => Err(error),
        };
        (self.offer_id, self.seq, response)
    }
}

} // verus!
