//! The part of the server that the channel state machine calls back into.

use crate::channel::Channel;
use crate::channel::ChannelState;
use crate::channel::PendingKind;
use crate::channel::PendingResponse;
use crate::connection::InterruptPageError;
use crate::connection::InterruptPageStep;
use crate::connection::ModifyConnectionError;
use crate::connection::ModifyStep;
use crate::connection::MonitorPageError;
use crate::connection::MonitorPageStep;
use crate::effect::Effect;
use crate::host::Host;
use crate::offer::choose_memory;
use crate::offer::MemoryChoice;
use crate::protocol::Action;
use crate::protocol::ChannelRequest;
use crate::protocol::ConnectionTarget;
use crate::protocol::GpadlId;
use crate::protocol::GpadlRequest;
use crate::protocol::GuestEventTarget;
use crate::protocol::ModifyConnectionRequest;
use crate::protocol::ModifyRequest;
use crate::protocol::MonitorPageGpas;
use crate::protocol::OfferId;
use crate::protocol::OpenChannelFlags;
use crate::protocol::OpenParams;
use crate::protocol::Update;
use crate::protocol::Vtl;
use crate::protocol::MESSAGE_TYPE;
use crate::protocol::PAGE_SIZE;
use crate::protocol::SHARED_EVENT_CONNECTION_ID;
use crate::protocol::SINT;
use crate::relay::ModifyRelayRequest;
use crate::rings::Unstick;
use std::collections::HashMap;
use vstd::prelude::*;
use vstd::std_specs::iter::IteratorSpec;

verus! {

broadcast use vstd::std_specs::hash::group_hash_axioms;

/// The offered channels and the state of the guest's connection.
pub struct ServerTaskInner {
    vtl: Vtl,
    redirect_vtl: Vtl,
    message_target: ConnectionTarget,
    hvsock_requests: usize,
    channels: HashMap<usize, Channel>,
    external_server: bool,
    channel_bitmap: bool,
    shared_event_port: bool,
    reset_done: bool,
    enable_mnf: bool,
    trusted_memory: bool,
}

/// The contents of a [`ServerTaskInner`].
#[verifier::ext_equal]
pub struct InnerView {
    /// The trust level served.
    pub vtl: Vtl,
    /// The trust level that the control plane's messages go to.
    pub redirect_vtl: Vtl,
    /// The default target of messages to the guest.
    pub message_target: ConnectionTarget,
    /// The number of hvsocket requests without an answer.
    pub hvsock_requests: usize,
    /// The offered channels.
    pub channels: Map<usize, Channel>,
    /// Whether there is another server to forward requests to.
    pub external_server: bool,
    /// Whether the guest's interrupt page is mapped.
    pub channel_bitmap: bool,
    /// Whether the event port shared by all channels exists.
    pub shared_event_port: bool,
    /// Whether a reset has been requested and is not complete.
    pub reset_done: bool,
    /// Whether this server handles the monitor pages.
    pub enable_mnf: bool,
    /// Whether there is separate memory for confidential channels.
    pub trusted_memory: bool,
}

impl View for ServerTaskInner {
    type V = InnerView;

    closed spec fn view(&self) -> InnerView {
        InnerView {
            vtl: self.vtl,
            redirect_vtl: self.redirect_vtl,
            message_target: self.message_target,
            hvsock_requests: self.hvsock_requests,
            channels: self.channels@,
            external_server: self.external_server,
            channel_bitmap: self.channel_bitmap,
            shared_event_port: self.shared_event_port,
            reset_done: self.reset_done,
            enable_mnf: self.enable_mnf,
            trusted_memory: self.trusted_memory,
        }
    }
}

/// A message addressed to the guest.
#[derive(Debug, PartialEq, Eq)]
pub struct PostedMessage {
    pub vtl: Vtl,
    pub target: ConnectionTarget,
    pub message_type: u32,
    pub payload: Vec<u8>,
}

/// A connect request that is not for this server.
#[derive(Debug, PartialEq, Eq)]
pub enum Forwarded<R> {
    /// The request goes to another server.
    External(R),
    /// There is no other server.
    Nowhere(R),
}

/// Where the rings of an open channel are.
#[derive(Clone, Copy, Debug, PartialEq, Eq, Structural)]
pub struct RingLocation {
    pub memory: MemoryChoice,
    pub gpadl_id: GpadlId,
    /// The page of the GPADL at which the second ring starts.
    pub offset: u32,
}

/// Whether a list of attempts has one attempt, in its initial state, for each channel.
pub open spec fn covers_channels(
    attempts: Seq<(OfferId, Unstick)>,
    channels: Map<usize, Channel>,
    force: bool,
    trusted_memory: bool,
) -> bool {
    &&& forall|i: int, j: int|
        0 <= i < j < attempts.len() ==> (#[trigger] attempts[i]).0 != (#[trigger] attempts[j]).0
    &&& forall|i: int|
        0 <= i < attempts.len() ==> channels.contains_key((#[trigger] attempts[i]).0.0)
            && attempts[i].1 == Unstick::started(
            channels[attempts[i].0.0],
            force,
            trusted_memory,
        )
    &&& forall|id: usize| #[trigger]
        channels.contains_key(id) ==> exists|i: int|
            0 <= i < attempts.len() && (#[trigger] attempts[i]).0 == OfferId(id)
}

impl InnerView {
    /// The shared event port serves the interrupt page, so it does not exist without one.
    pub open spec fn wf(self) -> bool {
        self.shared_event_port ==> self.channel_bitmap
    }

    /// Whether a channel is offered.
    pub open spec fn has(self, offer_id: OfferId) -> bool {
        self.channels.contains_key(offer_id.0)
    }

    /// An offered channel.
    pub open spec fn channel(self, offer_id: OfferId) -> Channel {
        self.channels[offer_id.0]
    }

    /// Where the rings of a channel are, if it is open.
    pub open spec fn rings(self, offer_id: OfferId) -> Option<RingLocation> {
        match self.channel(offer_id).state {
            ChannelState::Closed => None,
            ChannelState::Open { open_params, .. } => Some(
                RingLocation {
                    memory: crate::offer::memory_of(
                        self.channel(offer_id).confidential,
                        self.trusted_memory,
                    ),
                    gpadl_id: open_params.open_data.ring_gpadl_id,
                    offset: open_params.open_data.ring_offset,
                },
            ),
        }
    }

    /// The state with one channel opened or closed.
    pub open spec fn with_channel_state(self, offer_id: OfferId, state: ChannelState) -> InnerView {
        InnerView {
            channels: self.channels.insert(
                offer_id.0,
                Channel { state, ..self.channel(offer_id) },
            ),
            ..self
        }
    }

    /// The trust level and interrupt source of a channel's interrupts.
    pub open spec fn interrupt_target(self, flags: OpenChannelFlags) -> (Vtl, u8) {
        if flags.redirect_interrupt {
            (self.redirect_vtl, self.message_target.sint)
        } else {
            (self.vtl, SINT)
        }
    }

    /// Where the interrupts of a newly opened channel go. A guest with an interrupt page takes
    /// them all on the first processor, and finds the channel in the bitmap.
    pub open spec fn open_target(self, p: OpenParams) -> GuestEventTarget {
        GuestEventTarget {
            vtl: self.interrupt_target(p.flags).0,
            vp: if self.channel_bitmap { 0 } else { p.open_data.target_vp },
            sint: self.interrupt_target(p.flags).1,
            event_flag: if self.channel_bitmap { 0 } else { p.event_flag },
        }
    }

    /// The state of a newly opened channel.
    pub open spec fn opened(self, p: OpenParams, monitor_supported: bool) -> ChannelState {
        ChannelState::Open { open_params: p, monitor: p.monitor_id is Some && monitor_supported }
    }

    /// What it takes to open a channel.
    pub open spec fn open_effects(
        self,
        offer_id: OfferId,
        p: OpenParams,
        monitor_supported: bool,
    ) -> Seq<Effect> {
        let register = if self.channel_bitmap {
            seq![Effect::RegisterChannel { offer_id, event_flag: p.event_flag }]
        } else {
            seq![]
        };
        let monitor = if p.monitor_id is Some && monitor_supported {
            seq![
                Effect::RegisterMonitor {
                    offer_id,
                    monitor_id: p.monitor_id->0,
                    connection_id: p.connection_id,
                },
            ]
        } else {
            seq![]
        };
        register + seq![
            Effect::AddEventPort { offer_id, connection_id: p.connection_id, vtl: self.vtl },
            Effect::SetGuestEventPort { offer_id, target: self.open_target(p) },
            Effect::CreateInterrupt {
                offer_id,
                event_flag: p.event_flag,
                use_bitmap: self.channel_bitmap,
            },
        ] + monitor
    }

    /// A request to the device behind a channel.
    pub open spec fn send_request(
        self,
        offer_id: OfferId,
        request: ChannelRequest,
        kind: PendingKind,
    ) -> Effect {
        Effect::SendRequest {
            request,
            pending: PendingResponse { offer_id, seq: self.channel(offer_id).seq, kind },
        }
    }

    /// What it takes to close a channel.
    pub open spec fn close_effects(self, offer_id: OfferId) -> Seq<Effect> {
        let unregister = match self.channel(offer_id).state {
            ChannelState::Open { open_params, .. } if self.channel_bitmap => seq![
                Effect::UnregisterChannel { event_flag: open_params.event_flag },
            ],
            _ => seq![],
        };
        unregister + seq![
            Effect::ClearGuestEventPort { offer_id },
            self.send_request(offer_id, ChannelRequest::Close, PendingKind::Close),
        ]
    }

    /// What it takes to move the interrupts of an open channel to another processor.
    pub open spec fn modify_effects(self, offer_id: OfferId, target_vp: u32) -> Seq<Effect> {
        let p = self.channel(offer_id).state->open_params;
        seq![
            Effect::SetGuestEventPort {
                offer_id,
                target: GuestEventTarget {
                    vtl: self.interrupt_target(p.flags).0,
                    vp: target_vp,
                    sint: self.interrupt_target(p.flags).1,
                    event_flag: p.event_flag,
                },
            },
            self.send_request(
                offer_id,
                ChannelRequest::Modify(ModifyRequest::TargetVp { target_vp }),
                PendingKind::Modify,
            ),
        ]
    }

    /// The state after an action on a channel.
    pub open spec fn notified(
        self,
        offer_id: OfferId,
        action: Action,
        monitor_supported: bool,
    ) -> InnerView {
        match action {
            Action::Open(p) => self.with_channel_state(offer_id, self.opened(p, monitor_supported)),
            _ => self,
        }
    }

    /// Whether a list of effects carries out an action on a channel.
    pub open spec fn carries_out(
        self,
        offer_id: OfferId,
        action: Action,
        monitor_supported: bool,
        effects: Seq<Effect>,
    ) -> bool {
        match action {
            Action::Open(p) => effects =~= self.open_effects(offer_id, p, monitor_supported).push(
                self.send_request(offer_id, ChannelRequest::Open(p.open_data), PendingKind::Open),
            ),
            Action::Close => effects =~= self.close_effects(offer_id),
            Action::Gpadl(id, count, buf) => {
                let gpadl = GpadlRequest { id, count, buf };
                &&& effects.len() == 2
                &&& effects[0].adds_gpadl(offer_id, gpadl)
                &&& effects[1] == self.send_request(
                    offer_id,
                    ChannelRequest::Gpadl(gpadl),
                    PendingKind::Gpadl(id),
                )
            },
            Action::TeardownGpadl { gpadl_id, post_restore } => {
                let remove = if post_restore {
                    seq![]
                } else {
                    seq![Effect::RemoveGpadl { offer_id, gpadl_id }]
                };
                effects =~= remove.push(
                    self.send_request(
                        offer_id,
                        ChannelRequest::TeardownGpadl(gpadl_id),
                        PendingKind::TeardownGpadl(gpadl_id),
                    ),
                )
            },
            Action::Modify { target_vp } => effects =~= self.modify_effects(offer_id, target_vp),
        }
    }
}

impl ServerTaskInner {
    /// Creates the state of a server without channels, whose guest is not connected.
    pub fn new(
        vtl: Vtl,
        redirect_vtl: Vtl,
        message_target: ConnectionTarget,
        external_server: bool,
        enable_mnf: bool,
        trusted_memory: bool,
    ) -> (inner: Self)
        ensures
            inner@ == (InnerView {
                vtl,
                redirect_vtl,
                message_target,
                hvsock_requests: 0,
                channels: Map::empty(),
                external_server,
                channel_bitmap: false,
                shared_event_port: false,
                reset_done: false,
                enable_mnf,
                trusted_memory,
            }),
    {
        ServerTaskInner {
            vtl,
            redirect_vtl,
            message_target,
            hvsock_requests: 0,
            channels: HashMap::new(),
            external_server,
            channel_bitmap: false,
            shared_event_port: false,
            reset_done: false,
            enable_mnf,
            trusted_memory,
        }
    }

    /// Returns an offered channel.
    pub fn channel(&self, offer_id: OfferId) -> (channel: Option<Channel>)
        ensures
            channel == (if self@.has(offer_id) {
                Some(self@.channel(offer_id))
            } else {
                None::<Channel>
            }),
    {
        match self.channels.get(&offer_id.0) {
            Some(channel) => Some(*channel),
            None => None,
        }
    }

    /// Returns the processor that messages to the guest go to by default.
    pub fn message_vp(&self) -> (vp: u32)
        ensures
            vp == self@.message_target.vp,
    {
        self.message_target.vp
    }

    /// Returns the number of hvsocket requests without an answer.
    pub fn hvsock_requests(&self) -> (n: usize)
        ensures
            n == self@.hvsock_requests,
    {
        self.hvsock_requests
    }

    /// Returns whether a reset has been requested and is not complete.
    pub fn resetting(&self) -> (resetting: bool)
        ensures
            resetting == self@.reset_done,
    {
        self.reset_done
    }

    /// Returns whether this server handles the monitor pages.
    pub(crate) fn allows_mnf(&self, monitor_supported: bool) -> (allowed: bool)
        ensures
            allowed == (self@.enable_mnf && monitor_supported),
    {
        self.enable_mnf && monitor_supported
    }

    /// Adds a channel, in place of an earlier one under the same ID.
    pub(crate) fn add_channel(&mut self, offer_id: OfferId, channel: Channel)
        ensures
            final(self)@ == (InnerView {
                channels: old(self)@.channels.insert(offer_id.0, channel),
                ..old(self)@
            }),
    {
        self.channels.insert(offer_id.0, channel);
    }

    /// Removes a channel, and returns whether there was one.
    pub(crate) fn remove_channel(&mut self, offer_id: OfferId) -> (removed: bool)
        ensures
            removed == old(self)@.has(offer_id),
            final(self)@ == (InnerView {
                channels: old(self)@.channels.remove(offer_id.0),
                ..old(self)@
            }),
    {
        self.channels.remove(&offer_id.0).is_some()
    }

    /// Closes a channel.
    pub(crate) fn close_channel(&mut self, offer_id: OfferId)
        requires
            old(self)@.has(offer_id),
        ensures
            final(self)@ == old(self)@.with_channel_state(offer_id, ChannelState::Closed),
    {
        self.set_channel_state(offer_id, ChannelState::Closed);
    }

    /// Notes that a reset has been requested.
    pub(crate) fn start_reset(&mut self)
        requires
            !old(self)@.reset_done,
        ensures
            final(self)@ == (InnerView { reset_done: true, ..old(self)@ }),
    {
        self.reset_done = true;
    }

    /// Notes that an hvsocket request has been answered.
    pub(crate) fn hvsock_answered(&mut self)
        requires
            old(self)@.hvsock_requests != 0,
        ensures
            final(self)@ == (InnerView {
                hvsock_requests: (old(self)@.hvsock_requests - 1) as usize,
                ..old(self)@
            }),
    {
        self.hvsock_requests = self.hvsock_requests - 1;
    }

    /// Returns the initial state of an attempt to wake both ends of each open channel, in no
    /// particular order.
    pub(crate) fn unstick_channels(&self, force: bool) -> (attempts: Vec<(OfferId, Unstick)>)
        ensures
            covers_channels(attempts@, self@.channels, force, self@.trusted_memory),
    {
        let mut attempts: Vec<(OfferId, Unstick)> = Vec::new();
        let ghost entries = vstd::std_specs::hash::spec_hash_map_iter(&self.channels).remaining();
        for entry in it: self.channels.iter()
            invariant
                it.seq() == entries,
                entries == vstd::std_specs::hash::spec_hash_map_iter(&self.channels).remaining(),
                entries.no_duplicates(),
                attempts@.len() == it.index(),
                forall|i: int|
                    0 <= i < it.index() ==> #[trigger] attempts@[i] == (
                        OfferId(*entries[i].0),
                        Unstick::started(*entries[i].1, force, self.trusted_memory),
                    ),
        {
            attempts.push(
                (
                    OfferId(*entry.0),
                    Unstick::unstick_channel(entry.1, force, self.trusted_memory),
                ),
            );
        }
        proof {
            assert forall|i: int, j: int| 0 <= i < j < attempts@.len() implies attempts@[i].0
                != attempts@[j].0 by {
                if *entries[i].0 == *entries[j].0 {
                    assert(self.channels@[*entries[i].0] == *entries[i].1);
                    assert(self.channels@[*entries[j].0] == *entries[j].1);
                    assert(entries[i] == entries[j]);
                }
            }
            assert forall|i: int| 0 <= i < attempts@.len() implies self.channels@.contains_key(
                (#[trigger] attempts@[i]).0.0,
            ) && attempts@[i].1 == Unstick::started(
                self.channels@[attempts@[i].0.0],
                force,
                self.trusted_memory,
            ) by {
                assert(self.channels@.contains_key(*entries[i].0));
                assert(self.channels@[*entries[i].0] == *entries[i].1);
            }
            assert forall|id: usize| #[trigger] self.channels@.contains_key(id) implies exists|
                i: int,
            |
                0 <= i < attempts@.len() && (#[trigger] attempts@[i]).0 == OfferId(id) by {
                let entry = (&id, &self.channels@[id]);
                assert(entries.contains(entry));
                let i = choose|i: int| 0 <= i < entries.len() && entries[i] == entry;
                assert(attempts@[i].0 == OfferId(id));
            }
        }
        attempts
    }

    /// Forwards a connect request that is not for this server.
    pub fn forward_unhandled<R>(&self, request: R) -> (forwarded: Forwarded<R>)
        ensures
            forwarded == (if self@.external_server {
                Forwarded::External(request)
            } else {
                Forwarded::Nowhere(request)
            }),
    {
        if self.external_server {
            Forwarded::External(request)
        } else {
            Forwarded::Nowhere(request)
        }
    }

    /// Returns what to look at to inspect the rings of a channel, if it is open.
    pub fn inspect(&self, offer_id: OfferId) -> (rings: Option<RingLocation>)
        requires
            self@.has(offer_id),
        ensures
            rings == self@.rings(offer_id),
    {
        let channel = *self.channels.get(&offer_id.0).unwrap();
        match channel.state {
            ChannelState::Closed => None,
            ChannelState::Open { open_params, .. } => Some(
                RingLocation {
                    memory: choose_memory(channel.confidential, self.trusted_memory),
                    gpadl_id: open_params.open_data.ring_gpadl_id,
                    offset: open_params.open_data.ring_offset,
                },
            ),
        }
    }

    /// Addresses a message to the guest.
    pub fn send_message(&self, message: Vec<u8>, target: Option<ConnectionTarget>) -> (posted:
        PostedMessage)
        ensures
            posted == (PostedMessage {
                vtl: self@.redirect_vtl,
                target: match target {
                    Some(target) => target,
                    None => self@.message_target,
                },
                message_type: MESSAGE_TYPE,
                payload: message,
            }),
    {
        PostedMessage {
            vtl: self.redirect_vtl,
            target: target.unwrap_or(self.message_target),
            message_type: MESSAGE_TYPE,
            payload: message,
        }
    }

    /// Takes on an hvsocket request, and returns what goes to the hvsocket notifier.
    pub fn notify_hvsock<R: Copy>(&mut self, request: &R) -> (sent: R)
        requires
            old(self)@.hvsock_requests < usize::MAX,
        ensures
            sent == *request,
            final(self)@ == (InnerView {
                hvsock_requests: (old(self)@.hvsock_requests + 1) as usize,
                ..old(self)@
            }),
    {
        self.hvsock_requests = self.hvsock_requests + 1;
        *request
    }

    /// Completes a reset.
    pub fn reset_complete(&mut self, monitor_supported: bool) -> (effects: Vec<Effect>)
        requires
            old(self)@.reset_done,
        ensures
            final(self)@ == (InnerView { reset_done: false, ..old(self)@ }),
            effects@ == (if monitor_supported {
                seq![Effect::ResetMonitorPage, Effect::SignalResetDone]
            } else {
                seq![Effect::SignalResetDone]
            }),
    {
        let mut effects: Vec<Effect> = Vec::new();
        if monitor_supported {
            effects.push(Effect::ResetMonitorPage);
        }
        self.reset_done = false;
        effects.push(Effect::SignalResetDone);
        effects
    }

    /// Opens a channel: it takes interrupts and events from here on.
    pub fn open_channel(
        &mut self,
        offer_id: OfferId,
        open_params: &OpenParams,
        monitor_supported: bool,
    ) -> (effects: Vec<Effect>)
        requires
            old(self)@.has(offer_id),
        ensures
            final(self)@ == old(self)@.with_channel_state(
                offer_id,
                old(self)@.opened(*open_params, monitor_supported),
            ),
            effects@ == old(self)@.open_effects(offer_id, *open_params, monitor_supported),
    {
        let mut effects: Vec<Effect> = Vec::new();

        // Always register with the channel bitmap; if Win7, this may be unnecessary.
        if self.channel_bitmap {
            effects.push(Effect::RegisterChannel { offer_id, event_flag: open_params.event_flag });
        }

        // Always set up an event port; if V1, this will be unused.
        effects.push(
            Effect::AddEventPort {
                offer_id,
                connection_id: open_params.connection_id,
                vtl: self.vtl,
            },
        );

        // For pre-Win8 guests, the host-to-guest event always targets vp 0 and the channel
        // bitmap is used instead of the event flag.
        let (vp, event_flag): (u32, u16) = if self.channel_bitmap {
            (0, 0)
        } else {
            (open_params.open_data.target_vp, open_params.event_flag)
        };
        let (vtl, sint) = self.interrupt_target(open_params);
        effects.push(
            Effect::SetGuestEventPort {
                offer_id,
                target: GuestEventTarget { vtl, vp, sint, event_flag },
            },
        );
        effects.push(
            Effect::CreateInterrupt {
                offer_id,
                event_flag: open_params.event_flag,
                use_bitmap: self.channel_bitmap,
            },
        );

        let mut monitor = false;
        if let Some(monitor_id) = open_params.monitor_id {
            if monitor_supported {
                effects.push(
                    Effect::RegisterMonitor {
                        offer_id,
                        monitor_id,
                        connection_id: open_params.connection_id,
                    },
                );
                monitor = true;
            }
        }
        self.set_channel_state(
            offer_id,
            ChannelState::Open { open_params: *open_params, monitor },
        );
        effects
    }

    /// Returns the trust level and interrupt source of a channel's interrupts.
    fn interrupt_target(&self, open_params: &OpenParams) -> (r: (Vtl, u8))
        ensures
            r == self@.interrupt_target(open_params.flags),
    {
        if open_params.flags.redirect_interrupt {
            (self.redirect_vtl, self.message_target.sint)
        } else {
            (self.vtl, SINT)
        }
    }

    /// Opens or closes a channel.
    fn set_channel_state(&mut self, offer_id: OfferId, state: ChannelState)
        requires
            old(self)@.has(offer_id),
        ensures
            final(self)@ == old(self)@.with_channel_state(offer_id, state),
    {
        if let Some(channel) = self.channels.remove(&offer_id.0) {
            self.channels.insert(offer_id.0, Channel { state, ..channel });
        }
    }

    /// Carries out an action that the channel state machine asks of a channel.
    ///
    /// `monitor_supported` says whether the synic can map monitor pages. The page ranges of a
    /// GPADL have been found well formed by the channel state machine.
    pub fn notify(
        &mut self,
        offer_id: OfferId,
        action: Action,
        monitor_supported: bool,
    ) -> (effects: Vec<Effect>)
        requires
            old(self)@.has(offer_id),
            action is Modify ==> old(self)@.channel(offer_id).state is Open,
        ensures
            final(self)@ == old(self)@.notified(offer_id, action, monitor_supported),
            old(self)@.carries_out(offer_id, action, monitor_supported, effects@),
    {
        let channel = *self.channels.get(&offer_id.0).unwrap();
        let mut effects: Vec<Effect> = Vec::new();
        let (request, kind) = match action {
            Action::Open(open_params) => {
                effects = self.open_channel(offer_id, &open_params, monitor_supported);
                (ChannelRequest::Open(open_params.open_data), PendingKind::Open)
            },
            Action::Close => {
                if self.channel_bitmap {
                    if let ChannelState::Open { open_params, .. } = channel.state {
                        effects.push(
                            Effect::UnregisterChannel { event_flag: open_params.event_flag },
                        );
                    }
                }
                effects.push(Effect::ClearGuestEventPort { offer_id });
                (ChannelRequest::Close, PendingKind::Close)
            },
            Action::Gpadl(id, count, buf) => {
                let gpadl = GpadlRequest { id, count, buf };
                effects.push(Effect::AddGpadl { offer_id, gpadl: gpadl.duplicate() });
                (ChannelRequest::Gpadl(gpadl), PendingKind::Gpadl(id))
            },
            Action::TeardownGpadl { gpadl_id, post_restore } => {
                if !post_restore {
                    effects.push(Effect::RemoveGpadl { offer_id, gpadl_id });
                }
                (ChannelRequest::TeardownGpadl(gpadl_id), PendingKind::TeardownGpadl(gpadl_id))
            },
            Action::Modify { target_vp } => {
                if let ChannelState::Open { open_params, .. } = channel.state {
                    let (vtl, sint) = self.interrupt_target(&open_params);
                    effects.push(
                        Effect::SetGuestEventPort {
                            offer_id,
                            target: GuestEventTarget {
                                vtl,
                                vp: target_vp,
                                sint,
                                event_flag: open_params.event_flag,
                            },
                        },
                    );
                }
                (ChannelRequest::Modify(ModifyRequest::TargetVp { target_vp }), PendingKind::Modify)
            },
        };
        effects.push(
            Effect::SendRequest {
                request,
                pending: PendingResponse { offer_id, seq: channel.seq, kind },
            },
        );
        effects
    }

    /// Returns whether an open channel is signalled through the monitor page.
    fn uses_monitor(&self) -> (r: bool)
        ensures
            r == self@.uses_monitor(),
    {
        for entry in it: self.channels.iter()
            invariant
                it.seq() == vstd::std_specs::hash::spec_hash_map_iter(&self.channels).remaining(),
                forall|i: int|
                    0 <= i < it.index() ==> !(#[trigger] it.seq()[i]).1.spec_uses_monitor(),
        {
            if entry.1.uses_monitor() {
                assert(self@.channels.contains_key(*entry.0));
                assert(self@.channels[*entry.0] == *entry.1);
                return true;
            }
        }
        false
    }

    /// If the client specified an interrupt page, starts to map it into host memory.
    pub fn map_interrupt_page<H: Host>(&mut self, interrupt_page: Update<u64>) -> (r: Result<
        InterruptPageStep,
        InterruptPageError<H>,
    >)
        requires
            interrupt_page matches Update::SetTo(address) ==> address != 0,
        ensures
            final(self)@ == (if interrupt_page is Reset {
                old(self)@.without_interrupt_page()
            } else {
                old(self)@
            }),
            r == (match interrupt_page {
                Update::Unchanged => Ok::<InterruptPageStep, InterruptPageError<H>>(
                    InterruptPageStep::Done,
                ),
                Update::Reset => Ok(InterruptPageStep::Release),
                Update::SetTo(address) => if address % PAGE_SIZE != 0 {
                    Err(InterruptPageError::NotPageAligned(address))
                } else {
                    Ok(InterruptPageStep::Lock { gpn: address / PAGE_SIZE })
                },
            }),
    {
        match interrupt_page {
            Update::Unchanged => Ok(InterruptPageStep::Done),
            Update::Reset => {
                self.channel_bitmap = false;
                self.shared_event_port = false;
                Ok(InterruptPageStep::Release)
            },
            Update::SetTo(address) => {
                if address % PAGE_SIZE != 0 {
                    Err(InterruptPageError::NotPageAligned(address))
                } else {
                    Ok(InterruptPageStep::Lock { gpn: address / PAGE_SIZE })
                }
            },
        }
    }

    /// Starts to change the monitor pages. Only the page that the guest writes is monitored.
    ///
    /// Force is used by restore because there may be restored channels in the open state.
    pub fn set_monitor_page<H: Host>(
        &self,
        monitor_page: Update<MonitorPageGpas>,
        force: bool,
        monitor_supported: bool,
    ) -> (r: Result<MonitorPageStep, MonitorPageError<H>>)
        ensures
            r == (if self@.monitor_change_refused(monitor_page, force) {
                Err::<MonitorPageStep, MonitorPageError<H>>(MonitorPageError::OpenChannelsUsingMnf)
            } else if self@.sets_monitor_page(monitor_page, monitor_supported) {
                Ok(MonitorPageStep::Page(crate::connection::monitored_page(monitor_page)))
            } else {
                Ok(MonitorPageStep::Done)
            }),
    {
        let page: Option<u64> = match monitor_page {
            Update::Unchanged => return Ok(MonitorPageStep::Done),
            Update::Reset => None,
            Update::SetTo(pages) => Some(pages.child_to_parent),
        };
        if !force && self.uses_monitor() {
            return Err(MonitorPageError::OpenChannelsUsingMnf);
        }
        if self.allows_mnf(monitor_supported) {
            Ok(MonitorPageStep::Page(page))
        } else {
            Ok(MonitorPageStep::Done)
        }
    }

    /// Starts to modify the guest's connection.
    pub fn modify_connection<H: Host>(
        &mut self,
        request: &ModifyConnectionRequest,
        monitor_supported: bool,
    ) -> (step: ModifyStep<H>)
        requires
            request.interrupt_page matches Update::SetTo(address) ==> address != 0,
        ensures
            (final(self)@, step) == old(self)@.modify_started::<H>(*request, monitor_supported),
    {
        match self.map_interrupt_page(request.interrupt_page) {
            Ok(InterruptPageStep::Done) => self.interrupt_page_done(request, monitor_supported),
            Ok(InterruptPageStep::Release) => ModifyStep::ReleaseInterruptPage,
            Ok(InterruptPageStep::Lock { gpn }) => ModifyStep::LockInterruptPage { gpn },
            Err(error) => ModifyStep::Finished(Err(ModifyConnectionError::InterruptPage(error))),
        }
    }

    /// Goes on with a change once the interrupt page is dealt with: when there was nothing to do,
    /// or when the page was released as asked.
    pub fn interrupt_page_done<H: Host>(
        &mut self,
        request: &ModifyConnectionRequest,
        monitor_supported: bool,
    ) -> (step: ModifyStep<H>)
        ensures
            (final(self)@, step) == old(self)@.interrupt_page_done::<H>(
                *request,
                monitor_supported,
            ),
    {
        match self.set_monitor_page(request.monitor_page, request.force, monitor_supported) {
            Ok(MonitorPageStep::Done) => self.succeed(request, monitor_supported),
            Ok(MonitorPageStep::Page(page)) => ModifyStep::SetMonitorPage { page },
            Err(error) => ModifyStep::Finished(Err(ModifyConnectionError::MonitorPage(error))),
        }
    }

    /// Goes on with a change once it is known whether the interrupt page could be locked. A
    /// locked page replaces the one in use at once.
    pub fn interrupt_page_locked<H: Host>(
        &mut self,
        result: Result<(), H::MemoryError>,
    ) -> (step: ModifyStep<H>)
        ensures
            (final(self)@, step) == old(self)@.interrupt_page_locked::<H>(result),
    {
        match result {
            Ok(()) => {
                self.channel_bitmap = true;
                // Create the shared event port for pre-Win8 guests.
                ModifyStep::AddSharedEventPort {
                    connection_id: SHARED_EVENT_CONNECTION_ID,
                    vtl: self.vtl,
                }
            },
            Err(error) => ModifyStep::Finished(
                Err(ModifyConnectionError::InterruptPage(InterruptPageError::Memory(error))),
            ),
        }
    }

    /// Goes on with a change once it is known whether the shared event port could be added.
    pub fn shared_event_port_added<H: Host>(
        &mut self,
        request: &ModifyConnectionRequest,
        monitor_supported: bool,
        result: Result<(), H::SynicError>,
    ) -> (step: ModifyStep<H>)
        requires
            old(self)@.channel_bitmap,
        ensures
            (final(self)@, step) == old(self)@.shared_event_port_added::<H>(
                *request,
                monitor_supported,
                result,
            ),
    {
        match result {
            Ok(()) => {
                self.shared_event_port = true;
                self.interrupt_page_done(request, monitor_supported)
            },
            Err(error) => ModifyStep::Finished(
                Err(ModifyConnectionError::InterruptPage(InterruptPageError::Synic(error))),
            ),
        }
    }

    /// Goes on with a change once it is known whether the monitor page could be set, which is
    /// only tried if the synic supports it.
    pub fn monitor_page_set<H: Host>(
        &mut self,
        request: &ModifyConnectionRequest,
        result: Result<(), H::MonitorError>,
    ) -> (step: ModifyStep<H>)
        ensures
            (final(self)@, step) == old(self)@.monitor_page_set::<H>(*request, result),
    {
        match result {
            Ok(()) => self.succeed(request, true),
            Err(error) => {
                let monitor_page = match request.monitor_page {
                    Update::SetTo(pages) => Some(pages),
                    _ => None,
                };
                ModifyStep::Finished(
                    Err(
                        ModifyConnectionError::MonitorPage(
                            MonitorPageError::SetFailed { error, monitor_page },
                        ),
                    ),
                )
            },
        }
    }

    /// Ends a change that nothing stopped.
    fn succeed<H: Host>(
        &mut self,
        request: &ModifyConnectionRequest,
        monitor_supported: bool,
    ) -> (step: ModifyStep<H>)
        ensures
            (final(self)@, step) == old(self)@.succeeded::<H>(*request, monitor_supported),
    {
        if let Some(vp) = request.target_message_vp {
            self.message_target = ConnectionTarget { vp, sint: self.message_target.sint };
        }
        if !request.notify_relay {
            return ModifyStep::Finished(Ok(None));
        }

        // If this server is handling MNF, the monitor pages should not be relayed.
        // N.B. Since the relay is being asked not to update the monitor pages, rather than
        //      reset them, this is only safe because neither the value of enable_mnf nor what the
        //      synic supports will change after the server has been created.
        let relayed = if self.allows_mnf(monitor_supported) {
            ModifyConnectionRequest { monitor_page: Update::Unchanged, ..*request }
        } else {
            *request
        };
        ModifyStep::Finished(Ok(Some(ModifyRelayRequest::from(relayed))))
    }
}

} // verus!
