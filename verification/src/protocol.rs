//! Plain values of the vmbus protocol and of the bus interface, as far as the server reads or
//! hands them on.

use vstd::prelude::*;

verus! {

/// The synthetic interrupt source used for messages and events that are not redirected.
pub const SINT: u8 = 2;

/// The synthetic interrupt source used when the control plane is redirected.
pub const REDIRECT_SINT: u8 = 7;

/// The trust level that a redirected control plane runs in.
pub const REDIRECT_VTL: Vtl = Vtl::Vtl2;

/// The connection ID of the event port that pre-Win8 guests share between all channels.
pub const SHARED_EVENT_CONNECTION_ID: u32 = 2;

/// The number of unanswered hvsocket requests at which no further guest message is taken.
pub const MAX_CONCURRENT_HVSOCK_REQUESTS: usize = 16;

/// The standard connection ID for messages from the guest.
pub const MESSAGE_CONNECTION_ID: u32 = 1;

/// The connection ID for messages from guests with several vmbus clients.
pub const MULTICLIENT_MESSAGE_CONNECTION_ID: u32 = 4;

/// The first channel ID handed out by a server that must not collide with another one.
pub const CHANNEL_ID_OFFSET: u16 = 1024;

/// The number of guest messages that can be queued.
pub const MESSAGE_QUEUE_LEN: usize = 64;

/// The message type of everything the server posts to the guest.
pub const MESSAGE_TYPE: u32 = 1;

/// The size of a guest page in bytes.
pub const PAGE_SIZE: u64 = 4096;

/// The number of bytes of a channel's open data that the server carries without reading them.
pub const OPEN_DATA_OTHER_LEN: usize = 128;

/// A virtual trust level.
#[derive(Clone, Copy, Debug, PartialEq, Eq, Structural)]
pub enum Vtl {
    Vtl0,
    Vtl1,
    Vtl2,
}

impl Vtl {
    /// The level as a number.
    pub open spec fn spec_number(self) -> u32 {
        match self {
            Vtl::Vtl0 => 0,
            Vtl::Vtl1 => 1,
            Vtl::Vtl2 => 2,
        }
    }

    /// Returns the level as a number.
    #[verifier::when_used_as_spec(spec_number)]
    pub fn number(self) -> (n: u32)
        ensures
            n == self.spec_number(),
    {
        match self {
            Vtl::Vtl0 => 0,
            Vtl::Vtl1 => 1,
            Vtl::Vtl2 => 2,
        }
    }
}

/// The GUID type used for vmbus channel identifiers.
#[derive(Clone, Copy, Debug, PartialEq, Eq)]
pub struct Guid {
    pub data1: u32,
    pub data2: u16,
    pub data3: u16,
    pub data4: [u8; 8],
}

/// Identifies an offered channel for as long as the offer lasts.
#[derive(Clone, Copy, Debug, PartialEq, Eq, Structural)]
pub struct OfferId(pub usize);

/// Identifies a GPADL, a list of guest pages that a channel may access.
#[derive(Clone, Copy, Debug, PartialEq, Eq, Structural)]
pub struct GpadlId(pub u32);

/// Identifies a slot of the monitor page.
#[derive(Clone, Copy, Debug, PartialEq, Eq, Structural)]
pub struct MonitorId(pub u8);

/// The processor and interrupt source that messages to the guest go to.
#[derive(Clone, Copy, Debug, PartialEq, Eq, Structural)]
pub struct ConnectionTarget {
    pub vp: u32,
    pub sint: u8,
}

/// A change to an optional setting.
#[derive(Clone, Copy, Debug, PartialEq, Eq)]
pub enum Update<T> {
    Unchanged,
    Reset,
    SetTo(T),
}

/// The guest addresses of the two monitor pages.
#[derive(Clone, Copy, Debug, PartialEq, Eq, Structural)]
pub struct MonitorPageGpas {
    pub parent_to_child: u64,
    pub child_to_parent: u64,
}

/// What a channel offer is known by.
#[derive(Clone, Copy, Debug, PartialEq, Eq)]
pub struct OfferKey {
    pub interface_id: Guid,
    pub instance_id: Guid,
    pub subchannel_index: u16,
}

/// The flags of a channel offer.
#[derive(Clone, Copy, Debug, PartialEq, Eq, Structural)]
pub struct OfferFlags {
    pub enumerate_device_interface: bool,
    pub confidential_channel: bool,
    /// The remaining flag bits, which the server carries without reading them.
    pub other: u16,
}

/// The flags that a guest opens a channel with.
#[derive(Clone, Copy, Debug, PartialEq, Eq, Structural)]
pub struct OpenChannelFlags {
    pub redirect_interrupt: bool,
}

/// What the device is told when its channel is opened.
#[derive(Clone, Copy, Debug, PartialEq, Eq)]
pub struct OpenData {
    pub target_vp: u32,
    pub ring_gpadl_id: GpadlId,
    /// The page of the ring GPADL at which the second ring starts.
    pub ring_offset: u32,
    /// The rest of the data, which the server carries without reading it.
    pub other: [u8; OPEN_DATA_OTHER_LEN],
}

/// The parameters of an open channel.
#[derive(Clone, Copy, Debug, PartialEq, Eq)]
pub struct OpenParams {
    pub open_data: OpenData,
    pub connection_id: u32,
    pub event_flag: u16,
    pub monitor_id: Option<MonitorId>,
    pub flags: OpenChannelFlags,
}

/// Where a channel's interrupts to the guest go.
#[derive(Clone, Copy, Debug, PartialEq, Eq, Structural)]
pub struct GuestEventTarget {
    pub vtl: Vtl,
    pub vp: u32,
    pub sint: u8,
    pub event_flag: u16,
}

/// A GPADL: `count` page ranges, packed into `buf`.
#[derive(Debug, PartialEq, Eq)]
pub struct GpadlRequest {
    pub id: GpadlId,
    pub count: u16,
    pub buf: Vec<u64>,
}

impl GpadlRequest {
    /// Whether two requests describe the same GPADL.
    pub open spec fn same(self, other: GpadlRequest) -> bool {
        self.id == other.id && self.count == other.count && self.buf@ == other.buf@
    }

    /// Returns a copy of the request.
    pub fn duplicate(&self) -> (copy: GpadlRequest)
        ensures
            copy.same(*self),
    {
        let buf = self.buf.clone();
        assert(buf@ =~= self.buf@);
        GpadlRequest { id: self.id, count: self.count, buf }
    }
}

/// Something that the channel state machine asks of a channel.
#[derive(Debug, PartialEq, Eq)]
pub enum Action {
    Open(OpenParams),
    Close,
    Gpadl(GpadlId, u16, Vec<u64>),
    TeardownGpadl { gpadl_id: GpadlId, post_restore: bool },
    Modify { target_vp: u32 },
}

/// A request to the device behind a channel.
#[derive(Debug, PartialEq, Eq)]
pub enum ChannelRequest {
    /// Open the channel; the interrupt created for it goes along.
    Open(OpenData),
    Close,
    Gpadl(GpadlRequest),
    TeardownGpadl(GpadlId),
    Modify(ModifyRequest),
}

/// A change to an open channel.
#[derive(Clone, Copy, Debug, PartialEq, Eq, Structural)]
pub enum ModifyRequest {
    TargetVp { target_vp: u32 },
}

/// The outcome of an open or of a GPADL creation, as the guest is told it.
#[derive(Clone, Copy, Debug, PartialEq, Eq, Structural)]
pub enum CompletionStatus {
    Success,
    Unsuccessful,
}

/// A change to the guest's connection, requested by the channel state machine.
#[derive(Clone, Copy, Debug, PartialEq, Eq)]
pub struct ModifyConnectionRequest {
    pub version: Option<u32>,
    pub monitor_page: Update<MonitorPageGpas>,
    pub interrupt_page: Update<u64>,
    pub target_message_vp: Option<u32>,
    /// Change the monitor pages even while open channels use them.
    pub force: bool,
    pub notify_relay: bool,
}

} // verus!
