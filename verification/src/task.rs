//! The server's task: what it does with each event, and which events it waits for.

use crate::channel::Channel;
use crate::channel::ChannelResponse;
use crate::channel::ChannelState;
use crate::channel::RecvError;
use crate::effect::Effect;
use crate::effect::ServerCall;
use crate::host::Host;
use crate::inner::InnerView;
use crate::inner::ServerTaskInner;
use crate::offer::OfferInfo;
use crate::offer::OfferParamsInternal;
use crate::offer::OfferRequest;
use crate::protocol::CompletionStatus;
use crate::protocol::GpadlId;
use crate::protocol::GpadlRequest;
use crate::protocol::OfferId;
use crate::protocol::OfferKey;
use crate::protocol::OpenData;
use crate::protocol::OpenParams;
use crate::protocol::MAX_CONCURRENT_HVSOCK_REQUESTS;
use crate::relay::ModifyConnectionResponse;
use crate::rings::Unstick;
use crate::server::SynicMessage;
use vstd::prelude::*;

verus! {

/// A request to the running server.
#[derive(Clone, Copy, Debug, PartialEq, Eq, Structural)]
pub enum VmbusRequest {
    Reset,
    Inspect,
    Save,
    Restore,
    PostRestore,
    Start,
    Stop,
}

/// What a request takes.
#[derive(Clone, Copy, Debug, PartialEq, Eq, Structural)]
pub enum RequestStep {
    /// Call the channel state machine.
    Server(ServerCall),
    /// Report the state of the server.
    Report(InspectReport),
    /// Have the channel state machine save its state.
    Save,
    /// Have the channel state machine restore its state.
    Restore,
    /// Have the channel state machine complete a restore.
    PostRestore,
    /// Nothing more.
    Done,
}

/// The state of the server, as far as it is reported.
#[derive(Clone, Copy, Debug, PartialEq, Eq, Structural)]
pub struct InspectReport {
    pub message_target_vp: u32,
    pub running: bool,
    pub hvsock_requests: usize,
}

/// How to wake up channels, as set through inspection.
#[derive(Clone, Copy, Debug, PartialEq, Eq, Structural)]
pub enum UnstickSetting {
    /// Wake both ends of each open channel.
    Force,
    /// Wake the ends of open channels where a notification is expected, or no one.
    Enabled(bool),
}

/// The setting is not false, true, or force.
#[derive(Clone, Copy, Debug, PartialEq, Eq, Structural)]
pub struct UnstickSettingError;

/// The setting that a text stands for. Without a text, no one is woken.
pub open spec fn unstick_setting(text: Option<Seq<char>>) -> Option<UnstickSetting> {
    match text {
        None => Some(UnstickSetting::Enabled(false)),
        Some(text) => if text == "force"@ {
            Some(UnstickSetting::Force)
        } else if text == "true"@ {
            Some(UnstickSetting::Enabled(true))
        } else if text == "false"@ {
            Some(UnstickSetting::Enabled(false))
        } else {
            None
        },
    }
}

/// A request of the device behind a channel.
#[derive(Clone, Copy, Debug, PartialEq, Eq, Structural)]
pub enum ChannelServerRequest {
    Restore { open: bool },
    Revoke,
}

/// An offer that is ready for the channel state machine.
pub struct Offering<H: Host> {
    pub info: OfferInfo<H>,
    pub key: OfferKey,
    pub confidential: bool,
}

/// A newly offered channel, with the device's ends of the connections to it.
///
/// From here on the channel has a new guest event port and no GPADLs, its host event is the
/// device's, requests to the device go to its sender, and the device's requests are waited for
/// under the channel's ID.
pub struct AddedChannel<H: Host> {
    pub offer_id: OfferId,
    pub event: H::Interrupt,
    pub request_send: H::RequestSender,
    pub server_request_recv: H::ServerRequestReceiver,
}

/// What comes of an offer.
pub struct OfferOutcome<H: Host, Error> {
    /// The new channel, if the offer was accepted.
    pub added: Option<AddedChannel<H>>,
    /// Where to report the answer.
    pub reply: H::OfferReply,
    pub answer: Result<(), Error>,
}

impl<H: Host> Offering<H> {
    /// What comes of the offer, given what the channel state machine made of it.
    pub open spec fn outcome<Error>(
        self,
        reply: H::OfferReply,
        result: Result<OfferId, Error>,
    ) -> OfferOutcome<H, Error> {
        match result {
            Ok(offer_id) => OfferOutcome {
                added: Some(self.added(offer_id)),
                reply,
                answer: Ok(()),
            },
            Err(error) => OfferOutcome { added: None, reply, answer: Err(error) },
        }
    }

    /// The channel that an accepted offer adds.
    pub open spec fn added(self, offer_id: OfferId) -> AddedChannel<H> {
        AddedChannel {
            offer_id,
            event: self.info.event,
            request_send: self.info.request_send,
            server_request_recv: self.info.server_request_recv,
        }
    }
}

/// A GPADL of a channel that is being restored.
#[derive(Debug, PartialEq, Eq)]
pub struct RestoredGpadl {
    pub request: GpadlRequest,
    /// Whether the request's page ranges are well formed.
    pub valid: bool,
}

/// What it takes to restore a channel.
#[derive(Debug, PartialEq, Eq)]
pub struct RestorePlan {
    pub effects: Vec<Effect>,
    /// The GPADLs that the device is told of, well formed or not.
    pub gpadls: Vec<RestoredGpadl>,
    /// What the device is told if its channel is open.
    pub open_request: Option<OpenData>,
}

/// The events that a server waits for only at times.
#[derive(Clone, Copy, Debug, PartialEq, Eq, Structural)]
pub struct Ready {
    pub external_requests: bool,
    pub messages: bool,
    pub channel_responses: bool,
    pub hvsock_results: bool,
}

/// Something that happens to the server.
pub enum Event<H: Host> {
    /// A request, or `None` once no more can come.
    Request(Option<VmbusRequest>),
    /// A channel is offered.
    Offer(OfferRequest<H>),
    /// A device asks something of its channel, or went away.
    ServerRequest(OfferId, Option<ChannelServerRequest>),
    /// A device answers a request, or went away.
    ChannelResponse(OfferId, u64, Result<ChannelResponse, RecvError>),
    /// The relay answers.
    RelayResponse(ModifyConnectionResponse),
    /// The hvsocket notifier answers.
    HvsockResult(H::HvsockResult),
    /// The guest sends a message.
    Message(SynicMessage),
    /// Another server forwards a request.
    ExternalRequest(H::ContactRequest),
    /// No more event can come.
    Complete,
}

/// What an event takes.
pub enum LoopStep<H: Host> {
    /// Leave the loop.
    Break,
    /// Handle a request.
    Request(RequestStep),
    /// Offer a channel by the channel state machine; its answer goes to
    /// [`ServerTask::offered`].
    Offer(Offering<H>, H::OfferReply),
    /// Restore a channel by the channel state machine; its answer goes to
    /// [`ServerTask::handle_restore_channel`].
    RestoreChannel { offer_id: OfferId, open: bool },
    /// Carry out effects.
    Effects(Vec<Effect>),
    /// Have the channel state machine complete a change of the connection.
    CompleteModifyConnection(ModifyConnectionResponse),
    /// Have the channel state machine report the outcome of an hvsocket request.
    SendTlConnectResult(H::HvsockResult),
    /// Have the channel state machine handle a message from the guest.
    HandleSynicMessage(SynicMessage),
    /// Have the channel state machine connect the guest.
    InitiateContact(H::ContactRequest),
}

/// The server's task.
pub struct ServerTask {
    running: bool,
    /// Next value for [`Channel::seq`].
    next_seq: u64,
    external_requests: bool,
    inner: ServerTaskInner,
}

/// The contents of a [`ServerTask`].
#[verifier::ext_equal]
pub struct TaskView {
    /// Whether the guest is being served.
    pub running: bool,
    /// The sequence number of the next offer.
    pub next_seq: u64,
    /// Whether another server forwards requests to this one.
    pub external_requests: bool,
    /// What the channel state machine calls back into.
    pub inner: InnerView,
}

impl View for ServerTask {
    type V = TaskView;

    closed spec fn view(&self) -> TaskView {
        TaskView {
            running: self.running,
            next_seq: self.next_seq,
            external_requests: self.external_requests,
            inner: self.inner@,
        }
    }
}

/// The GPADLs whose page ranges are well formed.
pub open spec fn valid_gpadls(gpadls: Seq<RestoredGpadl>) -> Seq<RestoredGpadl> {
    gpadls.filter(|g: RestoredGpadl| g.valid)
}

/// Whether a list of effects makes the well-formed GPADLs of a restored channel available to it.
pub open spec fn restores_gpadls(
    offer_id: OfferId,
    gpadls: Seq<RestoredGpadl>,
    effects: Seq<Effect>,
) -> bool {
    &&& effects.len() == valid_gpadls(gpadls).len()
    &&& forall|i: int|
        0 <= i < effects.len() ==> (#[trigger] effects[i]).adds_gpadl(
            offer_id,
            valid_gpadls(gpadls)[i].request,
        )
}

impl TaskView {
    /// Every offer has a sequence number of its own, lower than that of any later one.
    pub open spec fn wf(self) -> bool {
        &&& self.inner.wf()
        &&& forall|id: usize| #[trigger]
            self.inner.channels.contains_key(id) ==> self.inner.channels[id].seq < self.next_seq
        &&& forall|a: usize, b: usize|
            #![trigger self.inner.channels[a], self.inner.channels[b]]
            self.inner.channels.contains_key(a) && self.inner.channels.contains_key(b) && a != b
                ==> self.inner.channels[a].seq != self.inner.channels[b].seq
    }

    /// The events that the server waits for at present.
    pub open spec fn ready(self) -> Ready {
        Ready {
            external_requests: self.running && self.external_requests,
            messages: self.running && self.inner.hvsock_requests < MAX_CONCURRENT_HVSOCK_REQUESTS,
            channel_responses: self.running || self.inner.reset_done,
            hvsock_results: self.running,
        }
    }

    /// Whether the server waits for an event at present.
    pub open spec fn waits_for<H: Host>(self, event: Event<H>) -> bool {
        match event {
            Event::ExternalRequest(_) => self.ready().external_requests,
            Event::Message(_) => self.ready().messages,
            Event::ChannelResponse(..) => self.ready().channel_responses,
            Event::HvsockResult(_) => self.ready().hvsock_results,
            _ => true,
        }
    }

    /// Whether a channel may be signalled through the monitor page.
    pub open spec fn grants_mnf(self, params: OfferParamsInternal, monitor_supported: bool) -> bool {
        params.use_mnf && self.inner.enable_mnf && monitor_supported
    }

    /// An offer made ready for the channel state machine.
    pub open spec fn offering<H: Host>(
        self,
        info: OfferInfo<H>,
        monitor_supported: bool,
    ) -> Offering<H> {
        Offering {
            key: info.params.spec_key(),
            confidential: info.params.flags.confidential_channel,
            info: OfferInfo {
                params: OfferParamsInternal {
                    use_mnf: self.grants_mnf(info.params, monitor_supported),
                    ..info.params
                },
                ..info
            },
        }
    }

    /// The state after an accepted offer.
    pub open spec fn offered(
        self,
        offer_id: OfferId,
        key: OfferKey,
        confidential: bool,
    ) -> TaskView {
        TaskView {
            next_seq: (self.next_seq + 1) as u64,
            inner: InnerView {
                channels: self.inner.channels.insert(
                    offer_id.0,
                    Channel {
                        key,
                        seq: self.next_seq,
                        state: ChannelState::Closed,
                        confidential,
                    },
                ),
                ..self.inner
            },
            ..self
        }
    }

    /// The state once a channel is no longer offered.
    pub open spec fn revoked(self, offer_id: OfferId) -> TaskView {
        TaskView {
            inner: InnerView {
                channels: self.inner.channels.remove(offer_id.0),
                ..self.inner
            },
            ..self
        }
    }

    /// What it takes to revoke a channel.
    pub open spec fn revoke_effects(self, offer_id: OfferId) -> Seq<Effect> {
        if self.inner.has(offer_id) {
            seq![
                Effect::ReleaseChannel { offer_id },
                Effect::Server(ServerCall::RevokeChannel(offer_id)),
            ]
        } else {
            seq![]
        }
    }

    /// Whether a sequence number is that of the channel offered at present.
    pub open spec fn is_current(self, offer_id: OfferId, seq: u64) -> bool {
        self.inner.has(offer_id) && self.inner.channel(offer_id).seq == seq
    }

    /// The state once a channel is closed.
    pub open spec fn closed(self, offer_id: OfferId) -> TaskView {
        TaskView {
            inner: self.inner.with_channel_state(offer_id, ChannelState::Closed),
            ..self
        }
    }

    /// The state once a channel is restored, given its parameters if it is open.
    pub open spec fn restored(
        self,
        offer_id: OfferId,
        params: Option<OpenParams>,
        monitor_supported: bool,
    ) -> TaskView {
        match params {
            Some(params) => TaskView {
                inner: self.inner.with_channel_state(
                    offer_id,
                    self.inner.opened(params, monitor_supported),
                ),
                ..self
            },
            None => self,
        }
    }

    /// The state after a device's answer: the channel is closed by a refused open and by a close.
    /// An answer of a channel that is no longer offered has no effect.
    pub open spec fn responded(
        self,
        offer_id: OfferId,
        seq: u64,
        response: Result<ChannelResponse, RecvError>,
    ) -> TaskView {
        let closes = match response {
            Ok(ChannelResponse::Open(ok)) => !ok,
            Ok(ChannelResponse::Close) => true,
            _ => false,
        };
        if self.is_current(offer_id, seq) && closes {
            self.closed(offer_id)
        } else {
            self
        }
    }

    /// What a device's answer takes.
    pub open spec fn response_effects(
        self,
        offer_id: OfferId,
        seq: u64,
        response: Result<ChannelResponse, RecvError>,
    ) -> Seq<Effect> {
        match response {
            Ok(response) if self.is_current(offer_id, seq) => completion_effects(
                offer_id,
                response,
            ),
            _ => seq![],
        }
    }

    /// The state after a request.
    pub open spec fn requested(self, request: VmbusRequest) -> TaskView {
        match request {
            VmbusRequest::Start => TaskView { running: true, ..self },
            VmbusRequest::Stop => TaskView { running: false, ..self },
            VmbusRequest::Reset => TaskView {
                inner: InnerView { reset_done: true, ..self.inner },
                ..self
            },
            _ => self,
        }
    }

    /// What a request takes.
    pub open spec fn request_step(self, request: VmbusRequest) -> RequestStep {
        match request {
            VmbusRequest::Reset => RequestStep::Server(ServerCall::Reset),
            VmbusRequest::Inspect => RequestStep::Report(
                InspectReport {
                    message_target_vp: self.inner.message_target.vp,
                    running: self.running,
                    hvsock_requests: self.inner.hvsock_requests,
                },
            ),
            VmbusRequest::Save => RequestStep::Save,
            VmbusRequest::Restore => RequestStep::Restore,
            VmbusRequest::PostRestore => RequestStep::PostRestore,
            VmbusRequest::Start | VmbusRequest::Stop => RequestStep::Done,
        }
    }

    /// The state after an event. An offer adds its channel later, when it is decided on.
    pub open spec fn after<H: Host>(self, event: Event<H>) -> TaskView {
        match event {
            Event::Request(Some(request)) => self.requested(request),
            Event::ServerRequest(offer_id, Some(ChannelServerRequest::Revoke)) => self.revoked(
                offer_id,
            ),
            Event::ServerRequest(offer_id, None) => self.revoked(offer_id),
            Event::ChannelResponse(offer_id, seq, response) => self.responded(
                offer_id,
                seq,
                response,
            ),
            Event::HvsockResult(_) => self.hvsock_answered(),
            _ => self,
        }
    }

    /// Whether a step is what an event takes.
    pub open spec fn handles<H: Host>(
        self,
        event: Event<H>,
        monitor_supported: bool,
        step: LoopStep<H>,
    ) -> bool {
        match event {
            Event::Request(None) => step is Break,
            Event::Request(Some(request)) => step == LoopStep::<H>::Request(
                self.request_step(request),
            ),
            Event::Offer(OfferRequest::Offer(info, reply)) => step == LoopStep::Offer(
                self.offering(info, monitor_supported),
                reply,
            ),
            Event::ServerRequest(offer_id, Some(ChannelServerRequest::Restore { open })) => step
                == LoopStep::<H>::RestoreChannel { offer_id, open },
            Event::ServerRequest(offer_id, Some(ChannelServerRequest::Revoke)) => step matches
                LoopStep::Effects(effects) && effects@ == self.revoke_effects(offer_id),
            Event::ServerRequest(offer_id, None) => step matches LoopStep::Effects(effects)
                && effects@ == self.revoke_effects(offer_id),
            Event::ChannelResponse(offer_id, seq, response) => step matches LoopStep::Effects(
                effects,
            ) && effects@ == self.response_effects(offer_id, seq, response),
            Event::RelayResponse(response) => step == LoopStep::<H>::CompleteModifyConnection(
                response,
            ),
            Event::HvsockResult(result) => step == LoopStep::<H>::SendTlConnectResult(result),
            Event::Message(message) => step == LoopStep::<H>::HandleSynicMessage(message),
            Event::ExternalRequest(request) => step == LoopStep::<H>::InitiateContact(request),
            Event::Complete => step is Break,
        }
    }

    /// The state once an hvsocket request is answered.
    pub open spec fn hvsock_answered(self) -> TaskView {
        TaskView {
            inner: InnerView {
                hvsock_requests: (self.inner.hvsock_requests - 1) as usize,
                ..self.inner
            },
            ..self
        }
    }
}

/// What an answer of an offered channel's device takes.
pub open spec fn completion_effects(offer_id: OfferId, response: ChannelResponse) -> Seq<Effect> {
    match response {
        ChannelResponse::Open(true) => seq![
            Effect::Server(ServerCall::OpenComplete(offer_id, CompletionStatus::Success)),
        ],
        ChannelResponse::Open(false) => seq![
            Effect::ReleaseOpen { offer_id },
            Effect::Server(ServerCall::OpenComplete(offer_id, CompletionStatus::Unsuccessful)),
        ],
        ChannelResponse::Close => seq![
            Effect::ReleaseOpen { offer_id },
            Effect::Server(ServerCall::CloseComplete(offer_id)),
        ],
        ChannelResponse::Gpadl(gpadl_id, ok) => seq![
            Effect::Server(
                ServerCall::GpadlCreateComplete(
                    offer_id,
                    gpadl_id,
                    if ok {
                        CompletionStatus::Success
                    } else {
                        CompletionStatus::Unsuccessful
                    },
                ),
            ),
        ],
        ChannelResponse::TeardownGpadl(gpadl_id) => seq![
            Effect::Server(ServerCall::GpadlTeardownComplete(offer_id, gpadl_id)),
        ],
        ChannelResponse::Modify(status) => seq![
            Effect::Server(ServerCall::ModifyChannelComplete(offer_id, status)),
        ],
    }
}

impl ServerTask {
    /// Creates a task that is not running yet.
    pub fn new(inner: ServerTaskInner, external_requests: bool) -> (task: Self)
        ensures
            task@ == (TaskView { running: false, next_seq: 0, external_requests, inner: inner@ }),
    {
        ServerTask { running: false, next_seq: 0, external_requests, inner }
    }

    /// Returns the offered channels and the state of the guest's connection.
    pub fn inner(&self) -> (inner: &ServerTaskInner)
        ensures
            inner@ == self@.inner,
    {
        &self.inner
    }

    /// Returns what the channel state machine calls back into.
    pub fn inner_mut(&mut self) -> (inner: &mut ServerTaskInner)
        ensures
            inner@ == old(self)@.inner,
            final(self)@ == (TaskView { inner: final(inner)@, ..old(self)@ }),
    {
        &mut self.inner
    }

    /// Returns the sequence number of the next offer.
    pub fn next_seq(&self) -> (seq: u64)
        ensures
            seq == self@.next_seq,
    {
        self.next_seq
    }

    /// Takes an offer, and makes it ready for the channel state machine.
    pub fn handle_offer<H: Host>(&self, info: OfferInfo<H>, monitor_supported: bool) -> (offering:
        Offering<H>)
        ensures
            offering == self@.offering(info, monitor_supported),
    {
        let key = info.params.key();
        let confidential = info.params.flags.confidential_channel;

        // Disable mnf if the synic doesn't support it or it's not enabled in this server.
        let use_mnf = info.params.use_mnf && self.inner.allows_mnf(monitor_supported);
        Offering {
            info: OfferInfo {
                params: OfferParamsInternal { use_mnf, ..info.params },
                event: info.event,
                request_send: info.request_send,
                server_request_recv: info.server_request_recv,
            },
            key,
            confidential,
        }
    }

    /// Goes on with an offer once the channel state machine has decided on it: adds the channel,
    /// if the offer was accepted, and returns what to answer.
    pub fn offered<H: Host, Error>(
        &mut self,
        offering: Offering<H>,
        reply: H::OfferReply,
        result: Result<OfferId, Error>,
    ) -> (outcome: OfferOutcome<H, Error>)
        requires
            result is Ok ==> old(self)@.next_seq < u64::MAX,
        ensures
            outcome == offering.outcome(reply, result),
            final(self)@ == (match result {
                Ok(offer_id) => old(self)@.offered(
                    offer_id,
                    offering.key,
                    offering.confidential,
                ),
                Err(_) => old(self)@,
            }),
            old(self)@.wf() ==> final(self)@.wf(),
    {
        match result {
            Ok(offer_id) => {
                let seq = self.next_seq;
                self.next_seq = self.next_seq + 1;
                self.inner.add_channel(
                    offer_id,
                    Channel {
                        key: offering.key,
                        state: ChannelState::Closed,
                        seq,
                        confidential: offering.confidential,
                    },
                );
                let added = AddedChannel {
                    offer_id,
                    event: offering.info.event,
                    request_send: offering.info.request_send,
                    server_request_recv: offering.info.server_request_recv,
                };
                OfferOutcome { added: Some(added), reply, answer: Ok(()) }
            },
            Err(error) => OfferOutcome { added: None, reply, answer: Err(error) },
        }
    }

    /// Revokes a channel.
    ///
    /// The channel may or may not exist depending on whether it's been explicitly revoked before
    /// being dropped.
    pub fn handle_revoke(&mut self, offer_id: OfferId) -> (effects: Vec<Effect>)
        ensures
            final(self)@ == old(self)@.revoked(offer_id),
            effects@ == old(self)@.revoke_effects(offer_id),
            old(self)@.wf() ==> final(self)@.wf(),
    {
        let mut effects: Vec<Effect> = Vec::new();
        if self.inner.remove_channel(offer_id) {
            effects.push(Effect::ReleaseChannel { offer_id });
            effects.push(Effect::Server(ServerCall::RevokeChannel(offer_id)));
        }
        effects
    }

    /// Handles the answer of a device. If there is none, the channel is in an inconsistent state
    /// until it is revoked.
    pub fn handle_response(
        &mut self,
        offer_id: OfferId,
        seq: u64,
        response: Result<ChannelResponse, RecvError>,
    ) -> (effects: Vec<Effect>)
        ensures
            final(self)@ == old(self)@.responded(offer_id, seq, response),
            effects@ == old(self)@.response_effects(offer_id, seq, response),
            old(self)@.wf() ==> final(self)@.wf(),
    {
        // Validate the sequence to ensure the response is not for a revoked channel.
        let current = match self.inner.channel(offer_id) {
            Some(channel) => channel.seq == seq,
            None => false,
        };
        if !current {
            return Vec::new();
        }
        match response {
            Ok(ChannelResponse::Open(ok)) => self.handle_open(offer_id, ok),
            Ok(ChannelResponse::Close) => self.handle_close(offer_id),
            Ok(ChannelResponse::Gpadl(gpadl_id, ok)) => Self::handle_gpadl_create(
                offer_id,
                gpadl_id,
                ok,
            ),
            Ok(ChannelResponse::TeardownGpadl(gpadl_id)) => Self::handle_gpadl_teardown(
                offer_id,
                gpadl_id,
            ),
            Ok(ChannelResponse::Modify(status)) => Self::handle_modify_channel(offer_id, status),
            Err(_) => Vec::new(),
        }
    }

    /// Completes an open. If the device refused it, the channel is closed again.
    pub fn handle_open(&mut self, offer_id: OfferId, ok: bool) -> (effects: Vec<Effect>)
        requires
            !ok ==> old(self)@.inner.has(offer_id),
        ensures
            final(self)@ == (if ok {
                old(self)@
            } else {
                old(self)@.closed(offer_id)
            }),
            effects@ == completion_effects(offer_id, ChannelResponse::Open(ok)),
            old(self)@.wf() ==> final(self)@.wf(),
    {
        let mut effects: Vec<Effect> = Vec::new();
        let status = if ok {
            CompletionStatus::Success
        } else {
            self.inner.close_channel(offer_id);
            effects.push(Effect::ReleaseOpen { offer_id });
            CompletionStatus::Unsuccessful
        };
        effects.push(Effect::Server(ServerCall::OpenComplete(offer_id, status)));
        effects
    }

    /// Completes a close.
    pub fn handle_close(&mut self, offer_id: OfferId) -> (effects: Vec<Effect>)
        requires
            old(self)@.inner.has(offer_id),
        ensures
            final(self)@ == old(self)@.closed(offer_id),
            effects@ == completion_effects(offer_id, ChannelResponse::Close),
            old(self)@.wf() ==> final(self)@.wf(),
    {
        self.inner.close_channel(offer_id);
        let mut effects: Vec<Effect> = Vec::new();
        effects.push(Effect::ReleaseOpen { offer_id });
        effects.push(Effect::Server(ServerCall::CloseComplete(offer_id)));
        effects
    }

    /// Completes the creation of a GPADL.
    pub fn handle_gpadl_create(offer_id: OfferId, gpadl_id: GpadlId, ok: bool) -> (effects: Vec<
        Effect,
    >)
        ensures
            effects@ == completion_effects(offer_id, ChannelResponse::Gpadl(gpadl_id, ok)),
    {
        let status = if ok {
            CompletionStatus::Success
        } else {
            CompletionStatus::Unsuccessful
        };
        let mut effects: Vec<Effect> = Vec::new();
        effects.push(Effect::Server(ServerCall::GpadlCreateComplete(offer_id, gpadl_id, status)));
        effects
    }

    /// Completes the teardown of a GPADL.
    pub fn handle_gpadl_teardown(offer_id: OfferId, gpadl_id: GpadlId) -> (effects: Vec<Effect>)
        ensures
            effects@ == completion_effects(offer_id, ChannelResponse::TeardownGpadl(gpadl_id)),
    {
        let mut effects: Vec<Effect> = Vec::new();
        effects.push(Effect::Server(ServerCall::GpadlTeardownComplete(offer_id, gpadl_id)));
        effects
    }

    /// Completes a change of a channel.
    pub fn handle_modify_channel(offer_id: OfferId, status: i32) -> (effects: Vec<Effect>)
        ensures
            effects@ == completion_effects(offer_id, ChannelResponse::Modify(status)),
    {
        let mut effects: Vec<Effect> = Vec::new();
        effects.push(Effect::Server(ServerCall::ModifyChannelComplete(offer_id, status)));
        effects
    }

    /// Restores a channel, given its GPADLs and what the channel state machine made of it: its
    /// parameters, if it is open. GPADLs whose ranges are malformed are left out.
    pub fn handle_restore_channel<Error>(
        &mut self,
        offer_id: OfferId,
        gpadls: Vec<RestoredGpadl>,
        restored: Result<Option<OpenParams>, Error>,
        monitor_supported: bool,
    ) -> (r: Result<RestorePlan, Error>)
        requires
            restored is Ok ==> old(self)@.inner.has(offer_id),
        ensures
            restored matches Err(error) ==> {
                &&& r == Err::<RestorePlan, Error>(error)
                &&& final(self)@ == old(self)@
            },
            restored matches Ok(None) ==> {
                &&& r matches Ok(plan)
                &&& plan.open_request is None
                &&& plan.gpadls == gpadls
                &&& restores_gpadls(offer_id, gpadls@, plan.effects@)
                &&& final(self)@ == old(self)@.restored(offer_id, None, monitor_supported)
            },
            restored matches Ok(Some(params)) ==> {
                &&& r matches Ok(plan)
                &&& plan.open_request == Some(params.open_data)
                &&& plan.gpadls == gpadls
                &&& ({
                    let n = valid_gpadls(gpadls@).len() as int;
                    let open_effects = old(self)@.inner.open_effects(
                        offer_id,
                        params,
                        monitor_supported,
                    );
                    &&& restores_gpadls(offer_id, gpadls@, plan.effects@.take(n))
                    &&& plan.effects@ == plan.effects@.take(n) + open_effects
                })
                &&& final(self)@ == old(self)@.restored(
                    offer_id,
                    Some(params),
                    monitor_supported,
                )
            },
            old(self)@.wf() ==> final(self)@.wf(),
    {
        let params = match restored {
            Ok(params) => params,
            Err(error) => return Err(error),
        };
        let mut effects: Vec<Effect> = Vec::new();
        for i in 0..gpadls.len()
            invariant
                restores_gpadls(offer_id, gpadls@.take(i as int), effects@),
        {
            proof {
                let seen = gpadls@.take(i + 1);
                assert(seen.drop_last() =~= gpadls@.take(i as int));
                assert(seen.last() == gpadls@[i as int]);
                reveal(Seq::filter);
            }
            let gpadl = &gpadls[i];
            if gpadl.valid {
                effects.push(Effect::AddGpadl { offer_id, gpadl: gpadl.request.duplicate() });
            }
        }
        assert(gpadls@.take(gpadls@.len() as int) =~= gpadls@);
        let ghost added = effects@;
        let open_request = match params {
            Some(params) => {
                let mut open_effects = self.inner.open_channel(
                    offer_id,
                    &params,
                    monitor_supported,
                );
                effects.append(&mut open_effects);
                assert(effects@.take(added.len() as int) =~= added);
                Some(params.open_data)
            },
            None => None,
        };
        Ok(RestorePlan { effects, gpadls, open_request })
    }

    /// Handles a request.
    pub fn handle_request(&mut self, request: VmbusRequest) -> (step: RequestStep)
        requires
            request is Reset ==> !old(self)@.inner.reset_done,
        ensures
            final(self)@ == old(self)@.requested(request),
            step == old(self)@.request_step(request),
            old(self)@.wf() ==> final(self)@.wf(),
    {
        match request {
            VmbusRequest::Reset => {
                self.inner.start_reset();
                RequestStep::Server(ServerCall::Reset)
            },
            VmbusRequest::Inspect => RequestStep::Report(
                InspectReport {
                    message_target_vp: self.inner.message_vp(),
                    running: self.running,
                    hvsock_requests: self.inner.hvsock_requests(),
                },
            ),
            VmbusRequest::Save => RequestStep::Save,
            VmbusRequest::Restore => RequestStep::Restore,
            VmbusRequest::PostRestore => RequestStep::PostRestore,
            VmbusRequest::Stop => {
                self.running = false;
                RequestStep::Done
            },
            VmbusRequest::Start => {
                self.running = true;
                RequestStep::Done
            },
        }
    }

    /// Takes a setting of how to wake up channels: returns what it is now reported as, and an
    /// attempt for each channel if there is anything to do.
    pub fn handle_unstick(&self, text: Option<String>) -> (r: Result<
        (UnstickSetting, Vec<(OfferId, Unstick)>),
        UnstickSettingError,
    >)
        ensures
            ({
                let text = match text {
                    Some(text) => Some(text@),
                    None => None,
                };
                match unstick_setting(text) {
                    None => r == Err::<
                        (UnstickSetting, Vec<(OfferId, Unstick)>),
                        UnstickSettingError,
                    >(UnstickSettingError),
                    Some(setting) => {
                        &&& r matches Ok((reported, attempts))
                        &&& reported == setting
                        &&& match setting {
                            UnstickSetting::Force => crate::inner::covers_channels(
                                attempts@,
                                self@.inner.channels,
                                true,
                                self@.inner.trusted_memory,
                            ),
                            UnstickSetting::Enabled(true) => crate::inner::covers_channels(
                                attempts@,
                                self@.inner.channels,
                                false,
                                self@.inner.trusted_memory,
                            ),
                            UnstickSetting::Enabled(false) => attempts@.len() == 0,
                        }
                    },
                }
            }),
    {
        let setting = match text {
            None => UnstickSetting::Enabled(false),
            Some(text) => {
                if text == "force".to_owned() {
                    UnstickSetting::Force
                } else if text == "true".to_owned() {
                    UnstickSetting::Enabled(true)
                } else if text == "false".to_owned() {
                    UnstickSetting::Enabled(false)
                } else {
                    return Err(UnstickSettingError);
                }
            },
        };
        let attempts = match setting {
            UnstickSetting::Force => self.unstick_channels(true),
            UnstickSetting::Enabled(true) => self.unstick_channels(false),
            UnstickSetting::Enabled(false) => Vec::new(),
        };
        Ok((setting, attempts))
    }

    /// Wakes the host and guest for every open channel. If `force`, always wakes both the host
    /// and guest. If `!force`, only wake for rings that are in the state where a notification is
    /// expected.
    ///
    /// Returns an attempt for each channel, in no particular order.
    pub fn unstick_channels(&self, force: bool) -> (attempts: Vec<(OfferId, Unstick)>)
        ensures
            crate::inner::covers_channels(
                attempts@,
                self@.inner.channels,
                force,
                self@.inner.trusted_memory,
            ),
    {
        self.inner.unstick_channels(force)
    }

    /// Handles the outcome of an hvsocket request, and returns what the channel state machine is
    /// told.
    pub fn handle_tl_connect_result<R>(&mut self, result: R) -> (sent: R)
        requires
            old(self)@.inner.hvsock_requests != 0,
        ensures
            sent == result,
            final(self)@ == old(self)@.hvsock_answered(),
            old(self)@.wf() ==> final(self)@.wf(),
    {
        self.inner.hvsock_answered();
        result
    }

    /// Returns the events that the server waits for only at times. The other ones it always waits
    /// for.
    pub fn ready(&self) -> (ready: Ready)
        ensures
            ready == self@.ready(),
    {
        Ready {
            // These should only be handled while the VM is running. In other cases, leave the
            // events in their respective queues.
            external_requests: self.running && self.external_requests,
            // Only handle new messages if there are not too many hvsock requests outstanding.
            // This puts a bound on the resources used by the guest.
            messages: self.running && self.inner.hvsock_requests()
                < MAX_CONCURRENT_HVSOCK_REQUESTS,
            // Accept channel responses until stopped or when resetting.
            channel_responses: self.running || self.inner.resetting(),
            // Accept hvsock connect responses while the VM is running.
            hvsock_results: self.running,
        }
    }

    /// Handles an event that the server waits for: one turn of its loop.
    pub fn run_once<H: Host>(&mut self, event: Event<H>, monitor_supported: bool) -> (step:
        LoopStep<H>)
        requires
            old(self)@.waits_for(event),
            event matches Event::Request(Some(VmbusRequest::Reset))
                ==> !old(self)@.inner.reset_done,
            event is HvsockResult ==> old(self)@.inner.hvsock_requests != 0,
        ensures
            final(self)@ == old(self)@.after(event),
            old(self)@.handles(event, monitor_supported, step),
            old(self)@.wf() ==> final(self)@.wf(),
    {
        match event {
            Event::Request(Some(request)) => LoopStep::Request(self.handle_request(request)),
            Event::Request(None) => LoopStep::Break,
            Event::Offer(OfferRequest::Offer(info, reply)) => {
                LoopStep::Offer(self.handle_offer(info, monitor_supported), reply)
            },
            Event::ServerRequest(offer_id, Some(ChannelServerRequest::Restore { open })) => {
                LoopStep::RestoreChannel { offer_id, open }
            },
            Event::ServerRequest(offer_id, Some(ChannelServerRequest::Revoke)) => {
                LoopStep::Effects(self.handle_revoke(offer_id))
            },
            Event::ServerRequest(offer_id, None) => LoopStep::Effects(self.handle_revoke(offer_id)),
            Event::ChannelResponse(offer_id, seq, response) => {
                LoopStep::Effects(self.handle_response(offer_id, seq, response))
            },
            Event::RelayResponse(response) => LoopStep::CompleteModifyConnection(response),
            Event::HvsockResult(result) => {
                LoopStep::SendTlConnectResult(self.handle_tl_connect_result(result))
            },
            Event::Message(message) => LoopStep::HandleSynicMessage(message),
            Event::ExternalRequest(request) => LoopStep::InitiateContact(request),
            Event::Complete => LoopStep::Break,
        }
    }
}

} // verus!
