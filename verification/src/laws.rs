//! What holds of the server as a whole.

use crate::builder::BuildPlan;
use crate::builder::VmbusServerBuilder;
use crate::channel::Channel;
use crate::channel::ChannelResponse;
use crate::channel::ChannelState;
use crate::channel::PendingKind;
use crate::channel::RecvError;
use crate::connection::InterruptPageError;
use crate::connection::ModifyConnectionError;
use crate::connection::ModifyStep;
use crate::connection::MonitorPageError;
use crate::effect::Effect;
use crate::host::Host;
use crate::inner::InnerView;
use crate::offer::MemoryChoice;
use crate::offer::OfferInfo;
use crate::offer::OfferParams;
use crate::offer::OfferRequest;
use crate::protocol::Action;
use crate::protocol::ChannelRequest;
use crate::protocol::GpadlId;
use crate::protocol::ModifyConnectionRequest;
use crate::protocol::OfferId;
use crate::protocol::OfferKey;
use crate::protocol::OpenParams;
use crate::protocol::Update;
use crate::protocol::Vtl;
use crate::protocol::MAX_CONCURRENT_HVSOCK_REQUESTS;
use crate::protocol::MESSAGE_CONNECTION_ID;
use crate::protocol::MULTICLIENT_MESSAGE_CONNECTION_ID;
use crate::protocol::PAGE_SIZE;
use crate::relay::Answerer;
use crate::relay::ConnectionState;
use crate::relay::FeatureFlags;
use crate::relay::HvsockVerdict;
use crate::relay::ModifyConnectionResponse;
use crate::relay::ModifyRelayRequest;
use crate::rings::Ring;
use crate::rings::RingEnd;
use crate::rings::Unstick;
use crate::rings::UnstickError;
use crate::rings::Wake;
use crate::task::AddedChannel;
use crate::task::ChannelServerRequest;
use crate::task::Event;
use crate::task::LoopStep;
use crate::task::Ready;
use crate::task::TaskView;
use crate::task::VmbusRequest;
use vstd::prelude::*;

pub mod building;
pub mod calls;
pub mod channels;
pub mod connection;
pub mod offers;
pub mod requests;
pub mod rings;

verus! {

/// A change of the server's state: an event of its loop, the end of an offer or of a restore, or
/// a call by the channel state machine.
pub enum Transition<H: Host> {
    /// [`crate::task::ServerTask::run_once`].
    Event(Event<H>),
    /// [`crate::task::ServerTask::offered`], with an accepted offer.
    Offered { offer_id: OfferId, key: OfferKey, confidential: bool },
    /// [`crate::task::ServerTask::handle_restore_channel`], with a restored channel.
    Restored { offer_id: OfferId, params: Option<OpenParams>, monitor_supported: bool },
    /// [`crate::inner::ServerTaskInner::notify`].
    Notified { offer_id: OfferId, action: Action, monitor_supported: bool },
    /// [`crate::inner::ServerTaskInner::notify_hvsock`].
    HvsockRequested,
    /// [`crate::inner::ServerTaskInner::reset_complete`].
    ResetComplete,
    /// [`crate::inner::ServerTaskInner::modify_connection`].
    ModifyStarted { request: ModifyConnectionRequest, monitor_supported: bool },
    /// [`crate::inner::ServerTaskInner::interrupt_page_done`].
    InterruptPageDone { request: ModifyConnectionRequest, monitor_supported: bool },
    /// [`crate::inner::ServerTaskInner::interrupt_page_locked`].
    InterruptPageLocked(Result<(), H::MemoryError>),
    /// [`crate::inner::ServerTaskInner::shared_event_port_added`].
    SharedEventPortAdded {
        request: ModifyConnectionRequest,
        monitor_supported: bool,
        result: Result<(), H::SynicError>,
    },
    /// [`crate::inner::ServerTaskInner::monitor_page_set`].
    MonitorPageSet { request: ModifyConnectionRequest, outcome: Result<(), H::MonitorError> },
}

impl TaskView {
    /// The state with another connection and other channels.
    pub open spec fn with_inner(self, inner: InnerView) -> TaskView {
        TaskView { inner, ..self }
    }

    /// Whether a transition can take place, by what the functions that make it require.
    pub open spec fn allows<H: Host>(self, t: Transition<H>) -> bool {
        match t {
            Transition::Event(event) => {
                &&& self.waits_for(event)
                &&& event matches Event::Request(Some(VmbusRequest::Reset))
                    ==> !self.inner.reset_done
                &&& event is HvsockResult ==> self.inner.hvsock_requests != 0
            },
            Transition::Offered { .. } => self.next_seq < u64::MAX,
            Transition::Restored { offer_id, .. } => self.inner.has(offer_id),
            Transition::Notified { offer_id, action, .. } => {
                &&& self.inner.has(offer_id)
                &&& action is Modify ==> self.inner.channel(offer_id).state is Open
            },
            Transition::HvsockRequested => self.inner.hvsock_requests < usize::MAX,
            Transition::ResetComplete => self.inner.reset_done,
            Transition::ModifyStarted { request, .. } => request.interrupt_page matches
                Update::SetTo(address) ==> address != 0,
            Transition::SharedEventPortAdded { .. } => self.inner.channel_bitmap,
            _ => true,
        }
    }

    /// The state after a transition.
    pub open spec fn apply<H: Host>(self, t: Transition<H>) -> TaskView {
        match t {
            Transition::Event(event) => self.after(event),
            Transition::Offered { offer_id, key, confidential } => self.offered(
                offer_id,
                key,
                confidential,
            ),
            Transition::Restored { offer_id, params, monitor_supported } => self.restored(
                offer_id,
                params,
                monitor_supported,
            ),
            Transition::Notified { offer_id, action, monitor_supported } => self.with_inner(
                self.inner.notified(offer_id, action, monitor_supported),
            ),
            Transition::HvsockRequested => self.with_inner(
                InnerView {
                    hvsock_requests: (self.inner.hvsock_requests + 1) as usize,
                    ..self.inner
                },
            ),
            Transition::ResetComplete => self.with_inner(
                InnerView { reset_done: false, ..self.inner },
            ),
            Transition::ModifyStarted { request, monitor_supported } => self.with_inner(
                self.inner.modify_started::<H>(request, monitor_supported).0,
            ),
            Transition::InterruptPageDone { request, monitor_supported } => self.with_inner(
                self.inner.interrupt_page_done::<H>(request, monitor_supported).0,
            ),
            Transition::InterruptPageLocked(result) => self.with_inner(
                self.inner.interrupt_page_locked::<H>(result).0,
            ),
            Transition::SharedEventPortAdded { request, monitor_supported, result } => {
                self.with_inner(
                    self.inner.shared_event_port_added::<H>(request, monitor_supported, result).0,
                )
            },
            Transition::MonitorPageSet { request, outcome } => self.with_inner(
                self.inner.monitor_page_set::<H>(request, outcome).0,
            ),
        }
    }

    /// Whether a series of transitions can take place one after the other.
    pub open spec fn allows_all<H: Host>(self, ts: Seq<Transition<H>>) -> bool
        decreases ts.len(),
    {
        ts.len() == 0 || (self.allows(ts[0]) && self.apply(ts[0]).allows_all(ts.drop_first()))
    }

    /// The state after a series of transitions.
    pub open spec fn apply_all<H: Host>(self, ts: Seq<Transition<H>>) -> TaskView
        decreases ts.len(),
    {
        if ts.len() == 0 {
            self
        } else {
            self.apply(ts[0]).apply_all(ts.drop_first())
        }
    }
}

/// Whether a transition offers or revokes a channel.
pub open spec fn replaces<H: Host>(t: Transition<H>, offer_id: OfferId) -> bool {
    match t {
        Transition::Event(Event::ServerRequest(id, request)) => id == offer_id && !(request matches
            Some(ChannelServerRequest::Restore { .. })),
        Transition::Offered { offer_id: id, .. } => id == offer_id,
        _ => false,
    }
}

/// Whatever the server does, sequence numbers stay apart, and the shared event port is kept to
/// guests with an interrupt page.
pub proof fn law_wf_kept<H: Host>(v: TaskView, ts: Seq<Transition<H>>)
    requires
        v.wf(),
        v.allows_all(ts),
    ensures
        v.apply_all(ts).wf(),
    decreases ts.len(),
{
    if ts.len() > 0 {
        lemma_wf_kept_once(v, ts[0]);
        law_wf_kept(v.apply(ts[0]), ts.drop_first());
    }
}

/// A single transition keeps the state well formed.
#[verifier::rlimit(50)]
proof fn lemma_wf_kept_once<H: Host>(v: TaskView, t: Transition<H>)
    requires
        v.wf(),
        v.allows(t),
    ensures
        v.apply(t).wf(),
{
}

impl TaskView {
    /// Whether a state has the same settings as another: the trust level served, where the server
    /// is reached, the other servers it knows, whether it handles the monitor pages, and whether
    /// it has memory for confidential channels.
    pub open spec fn same_settings(self, other: TaskView) -> bool {
        &&& self.external_requests == other.external_requests
        &&& self.inner.vtl == other.inner.vtl
        &&& self.inner.redirect_vtl == other.inner.redirect_vtl
        &&& self.inner.message_target.sint == other.inner.message_target.sint
        &&& self.inner.external_server == other.inner.external_server
        &&& self.inner.enable_mnf == other.inner.enable_mnf
        &&& self.inner.trusted_memory == other.inner.trusted_memory
    }
}

/// What the server was built with never changes. Of the target of messages, only the processor
/// can.
pub proof fn law_settings_kept<H: Host>(v: TaskView, ts: Seq<Transition<H>>)
    requires
        v.allows_all(ts),
    ensures
        v.apply_all(ts).same_settings(v),
    decreases ts.len(),
{
    if ts.len() > 0 {
        lemma_settings_kept_once(v, ts[0]);
        law_settings_kept(v.apply(ts[0]), ts.drop_first());
    }
}

/// A single transition keeps the settings.
#[verifier::rlimit(50)]
proof fn lemma_settings_kept_once<H: Host>(v: TaskView, t: Transition<H>)
    requires
        v.allows(t),
    ensures
        v.apply(t).same_settings(v),
{
}

/// Sequence numbers only grow.
pub proof fn law_next_seq_grows<H: Host>(v: TaskView, ts: Seq<Transition<H>>)
    requires
        v.allows_all(ts),
    ensures
        v.next_seq <= v.apply_all(ts).next_seq,
    decreases ts.len(),
{
    if ts.len() > 0 {
        lemma_next_seq_grows_once(v, ts[0]);
        law_next_seq_grows(v.apply(ts[0]), ts.drop_first());
    }
}

/// A single transition does not lower the sequence number of the next offer.
proof fn lemma_next_seq_grows_once<H: Host>(v: TaskView, t: Transition<H>)
    requires
        v.allows(t),
    ensures
        v.next_seq <= v.apply(t).next_seq,
{
}

/// A response to a channel that has been revoked is never taken for one to a later offer, even
/// under the same ID: it has no effect, whatever the server has done in the meantime.
pub proof fn law_stale_response_ignored<H: Host>(
    v: TaskView,
    ts: Seq<Transition<H>>,
    offer_id: OfferId,
    seq: u64,
    response: Result<ChannelResponse, RecvError>,
)
    requires
        v.wf(),
        v.is_current(offer_id, seq),
        v.revoked(offer_id).allows_all(ts),
    ensures
        ({
            let later = v.revoked(offer_id).apply_all(ts);
            &&& !later.is_current(offer_id, seq)
            &&& later.responded(offer_id, seq, response) == later
            &&& later.response_effects(offer_id, seq, response) == Seq::<Effect>::empty()
        }),
{
    lemma_stale_stays_stale(v.revoked(offer_id), ts, offer_id, seq);
}

/// A used sequence number that is not current never becomes current again.
proof fn lemma_stale_stays_stale<H: Host>(
    v: TaskView,
    ts: Seq<Transition<H>>,
    offer_id: OfferId,
    seq: u64,
)
    requires
        seq < v.next_seq,
        !v.is_current(offer_id, seq),
        v.allows_all(ts),
    ensures
        !v.apply_all(ts).is_current(offer_id, seq),
    decreases ts.len(),
{
    if ts.len() > 0 {
        let w = v.apply(ts[0]);
        lemma_next_seq_grows_once(v, ts[0]);
        assert(!w.is_current(offer_id, seq));
        lemma_stale_stays_stale(w, ts.drop_first(), offer_id, seq);
    }
}

/// What a channel is known by stays the same until the channel is revoked or offered anew: its
/// key, its sequence number, and whether it is confidential.
pub proof fn law_channel_identity_kept<H: Host>(
    v: TaskView,
    ts: Seq<Transition<H>>,
    offer_id: OfferId,
)
    requires
        v.inner.has(offer_id),
        v.allows_all(ts),
        forall|i: int| 0 <= i < ts.len() ==> !replaces(#[trigger] ts[i], offer_id),
    ensures
        ({
            let later = v.apply_all(ts).inner;
            &&& later.has(offer_id)
            &&& later.channel(offer_id) == (Channel {
                state: later.channel(offer_id).state,
                ..v.inner.channel(offer_id)
            })
        }),
    decreases ts.len(),
{
    if ts.len() > 0 {
        let w = v.apply(ts[0]);
        lemma_identity_kept_once(v, ts[0], offer_id);
        assert forall|i: int| 0 <= i < ts.drop_first().len() implies !replaces(
            #[trigger] ts.drop_first()[i],
            offer_id,
        ) by {
            assert(ts.drop_first()[i] == ts[i + 1]);
        }
        law_channel_identity_kept(w, ts.drop_first(), offer_id);
    }
}

/// A single transition keeps what a channel is known by.
proof fn lemma_identity_kept_once<H: Host>(v: TaskView, t: Transition<H>, offer_id: OfferId)
    requires
        v.inner.has(offer_id),
        v.allows(t),
        !replaces(t, offer_id),
    ensures
        v.apply(t).inner.has(offer_id),
        v.apply(t).inner.channel(offer_id) == (Channel {
            state: v.apply(t).inner.channel(offer_id).state,
            ..v.inner.channel(offer_id)
        }),
{
    let w = v.apply(t);
    match t {
        Transition::Event(event) => {
            match event {
                Event::ServerRequest(..) => {
                    assert(w.inner.channel(offer_id) == v.inner.channel(offer_id));
                },
                Event::ChannelResponse(id, seq, response) => {
                    assert(w == v || w == v.closed(id));
                },
                _ => {
                    assert(w.inner.channels == v.inner.channels);
                },
            }
        },
        Transition::Offered { .. } => {
            assert(w.inner.channel(offer_id) == v.inner.channel(offer_id));
        },
        Transition::Restored { offer_id: id, params, monitor_supported } => {
            match params {
                Some(p) => {
                    assert(w.inner == v.inner.with_channel_state(
                        id,
                        v.inner.opened(p, monitor_supported),
                    ));
                },
                None => {},
            }
        },
        Transition::Notified { offer_id: id, action, monitor_supported } => {
            match action {
                Action::Open(p) => {
                    assert(w.inner == v.inner.with_channel_state(
                        id,
                        v.inner.opened(p, monitor_supported),
                    ));
                },
                _ => {
                    assert(w.inner == v.inner);
                },
            }
        },
        _ => {
            assert(w.inner.channels == v.inner.channels);
        },
    }
}

/// Whether the monitor page is in use depends on the channels alone.
proof fn lemma_uses_monitor(a: InnerView, b: InnerView)
    requires
        a.channels == b.channels,
    ensures
        a.uses_monitor() == b.uses_monitor(),
{
}

/// A device's answer reaches the channel that the request was sent for, whatever the server has
/// done in the meantime, unless the channel was revoked or offered anew.
pub proof fn law_answer_reaches_its_channel<H: Host>(
    v: TaskView,
    offer_id: OfferId,
    action: Action,
    monitor_supported: bool,
    effects: Seq<Effect>,
    ts: Seq<Transition<H>>,
)
    requires
        v.inner.has(offer_id),
        v.inner.carries_out(offer_id, action, monitor_supported, effects),
        v.with_inner(v.inner.notified(offer_id, action, monitor_supported)).allows_all(ts),
        forall|i: int| 0 <= i < ts.len() ==> !replaces(#[trigger] ts[i], offer_id),
    ensures
        effects.len() > 0,
        effects.last() matches Effect::SendRequest { pending, .. } && {
            let later = v.with_inner(
                v.inner.notified(offer_id, action, monitor_supported),
            ).apply_all(ts);
            later.is_current(pending.offer_id, pending.seq)
        },
{
    let asked = v.with_inner(v.inner.notified(offer_id, action, monitor_supported));
    law_channel_identity_kept(asked, ts, offer_id);
    match action {
        Action::Open(p) => {
            let open = v.inner.open_effects(offer_id, p, monitor_supported);
            assert(effects.last() == effects[open.len() as int]);
        },
        Action::Close => {
            assert(effects.last() == v.inner.close_effects(offer_id).last());
        },
        _ => {},
    }
}

/// How many hvsocket requests a series of transitions makes.
pub open spec fn hvsock_requests_made<H: Host>(ts: Seq<Transition<H>>) -> nat
    decreases ts.len(),
{
    if ts.len() == 0 {
        0
    } else {
        hvsock_requests_made(ts.drop_first()) + (if ts[0] is HvsockRequested {
            1nat
        } else {
            0
        })
    }
}

/// How many answers to hvsocket requests a series of transitions handles.
pub open spec fn hvsock_answers_handled<H: Host>(ts: Seq<Transition<H>>) -> nat
    decreases ts.len(),
{
    if ts.len() == 0 {
        0
    } else {
        hvsock_answers_handled(ts.drop_first()) + (if ts[0] matches Transition::Event(event)
            && event is HvsockResult {
            1nat
        } else {
            0
        })
    }
}

/// The server knows how many hvsocket requests are without an answer: those made, less the
/// answers handled.
pub proof fn law_hvsock_requests_counted<H: Host>(v: TaskView, ts: Seq<Transition<H>>)
    requires
        v.allows_all(ts),
    ensures
        v.apply_all(ts).inner.hvsock_requests == v.inner.hvsock_requests + hvsock_requests_made(ts)
            - hvsock_answers_handled(ts),
    decreases ts.len(),
{
    if ts.len() > 0 {
        law_hvsock_requests_counted(v.apply(ts[0]), ts.drop_first());
    }
}

/// Whether each hvsocket request is made in handling a message of its own: after the message, with
/// no other event and no other request in between. `fresh` says whether there is such a message
/// at the beginning.
pub open spec fn request_per_message<H: Host>(ts: Seq<Transition<H>>, fresh: bool) -> bool
    decreases ts.len(),
{
    ts.len() == 0 || match ts[0] {
        Transition::HvsockRequested => fresh && request_per_message(ts.drop_first(), false),
        Transition::Event(event) => request_per_message(ts.drop_first(), event is Message),
        _ => request_per_message(ts.drop_first(), fresh),
    }
}

/// The resources used by the guest are bounded: if each hvsocket request is made in handling a
/// message of its own, then no more than [`MAX_CONCURRENT_HVSOCK_REQUESTS`] are without an answer
/// at any time.
pub proof fn law_hvsock_requests_bounded<H: Host>(v: TaskView, ts: Seq<Transition<H>>)
    requires
        v.inner.hvsock_requests <= MAX_CONCURRENT_HVSOCK_REQUESTS,
        v.allows_all(ts),
        request_per_message(ts, false),
    ensures
        v.apply_all(ts).inner.hvsock_requests <= MAX_CONCURRENT_HVSOCK_REQUESTS,
{
    lemma_hvsock_requests_bounded(v, ts, false);
}

/// A message that is being handled leaves room for a request.
proof fn lemma_hvsock_requests_bounded<H: Host>(v: TaskView, ts: Seq<Transition<H>>, fresh: bool)
    requires
        v.inner.hvsock_requests <= MAX_CONCURRENT_HVSOCK_REQUESTS,
        fresh ==> v.inner.hvsock_requests < MAX_CONCURRENT_HVSOCK_REQUESTS,
        v.allows_all(ts),
        request_per_message(ts, fresh),
    ensures
        v.apply_all(ts).inner.hvsock_requests <= MAX_CONCURRENT_HVSOCK_REQUESTS,
    decreases ts.len(),
{
    if ts.len() > 0 {
        let w = v.apply(ts[0]);
        match ts[0] {
            Transition::HvsockRequested => {
                lemma_hvsock_requests_bounded(w, ts.drop_first(), false);
            },
            Transition::Event(event) => {
                lemma_hvsock_requests_bounded(w, ts.drop_first(), event is Message);
            },
            _ => {
                lemma_hvsock_requests_bounded(w, ts.drop_first(), fresh);
            },
        }
    }
}

/// When a restore finds a GPADL that was being torn down, the device is asked once more to tear
/// it down, and the channel's GPADLs are left as they are.
pub proof fn law_teardown_repeated_after_restore(
    v: InnerView,
    offer_id: OfferId,
    gpadl_id: GpadlId,
    monitor_supported: bool,
    effects: Seq<Effect>,
)
    requires
        v.has(offer_id),
        v.carries_out(
            offer_id,
            Action::TeardownGpadl { gpadl_id, post_restore: true },
            monitor_supported,
            effects,
        ),
    ensures
        effects == seq![
            v.send_request(
                offer_id,
                ChannelRequest::TeardownGpadl(gpadl_id),
                PendingKind::TeardownGpadl(gpadl_id),
            ),
        ],
{
}

/// A stopped server leaves the guest's messages, the answers of hvsockets and the requests of
/// other servers in their queues. It takes the answers of devices only while it is being reset.
pub proof fn law_stopped_server_waits(v: TaskView)
    ensures
        v.requested(VmbusRequest::Stop).ready() == (Ready {
            external_requests: false,
            messages: false,
            channel_responses: v.inner.reset_done,
            hvsock_results: false,
        }),
{
}

/// Whether a transition starts the server.
pub open spec fn starts<H: Host>(t: Transition<H>) -> bool {
    t matches Transition::Event(Event::Request(Some(VmbusRequest::Start)))
}

/// Whether a transition handles a message of the guest, the answer of an hvsocket, or the request
/// of another server.
pub open spec fn serves_guest<H: Host>(t: Transition<H>) -> bool {
    t matches Transition::Event(event) && (event is Message || event is HvsockResult
        || event is ExternalRequest)
}

/// Until it is started, a server that is not running handles no message of the guest, no answer
/// of an hvsocket and no request of another server, whatever else happens.
pub proof fn law_nothing_served_before_start<H: Host>(v: TaskView, ts: Seq<Transition<H>>)
    requires
        !v.running,
        v.allows_all(ts),
        forall|i: int| 0 <= i < ts.len() ==> !starts(#[trigger] ts[i]),
    ensures
        !v.apply_all(ts).running,
        forall|i: int| 0 <= i < ts.len() ==> !serves_guest(#[trigger] ts[i]),
    decreases ts.len(),
{
    if ts.len() > 0 {
        let rest = ts.drop_first();
        assert(!starts(ts[0]));
        assert forall|i: int| 0 <= i < rest.len() implies !starts(#[trigger] rest[i]) by {
            assert(rest[i] == ts[i + 1]);
        }
        law_nothing_served_before_start(v.apply(ts[0]), rest);
        assert forall|i: int| 0 <= i < ts.len() implies !serves_guest(#[trigger] ts[i]) by {
            if i > 0 {
                assert(rest[i - 1] == ts[i]);
            }
        }
    }
}

/// Each offer is answered once, where its reply goes, running or not: with success exactly if the
/// channel state machine accepted it, and with the state machine's error otherwise.
pub proof fn law_offer_answered<H: Host, Error>(
    v: TaskView,
    info: OfferInfo<H>,
    reply: H::OfferReply,
    monitor_supported: bool,
    step: LoopStep<H>,
    result: Result<OfferId, Error>,
)
    requires
        v.handles(Event::Offer(OfferRequest::Offer(info, reply)), monitor_supported, step),
    ensures
        v.waits_for(Event::Offer(OfferRequest::Offer(info, reply))),
        step matches LoopStep::Offer(offering, handed_on) && {
            let outcome = offering.outcome(handed_on, result);
            &&& outcome.reply == reply
            &&& outcome.answer is Ok <==> result is Ok
            &&& result matches Err(error) ==> outcome.answer == Err::<(), Error>(error)
            &&& outcome.added == (match result {
                Ok(offer_id) => Some(
                    AddedChannel::<H> {
                        offer_id,
                        event: info.event,
                        request_send: info.request_send,
                        server_request_recv: info.server_request_recv,
                    },
                ),
                Err(_) => None,
            })
        },
{
}

/// A restore is handled, running or not, and is that of the device's own channel.
pub proof fn law_restore_handled<H: Host>(
    v: TaskView,
    offer_id: OfferId,
    open: bool,
    monitor_supported: bool,
    step: LoopStep<H>,
)
    ensures
        ({
            let event = Event::ServerRequest(offer_id, Some(ChannelServerRequest::Restore { open }));
            let restore: LoopStep<H> = LoopStep::RestoreChannel { offer_id, open };
            &&& v.waits_for(event)
            &&& v.handles(event, monitor_supported, step) <==> step == restore
        }),
{
}

/// A device that went away has its channel revoked, running or not, as if it had asked for that.
pub proof fn law_vanished_device_revoked<H: Host>(
    v: TaskView,
    offer_id: OfferId,
    monitor_supported: bool,
    step: LoopStep<H>,
)
    ensures
        ({
            let vanish = Event::ServerRequest(offer_id, None);
            let revoke = Event::ServerRequest(offer_id, Some(ChannelServerRequest::Revoke));
            &&& v.waits_for(vanish)
            &&& v.waits_for(revoke)
            &&& v.handles(vanish, monitor_supported, step) == v.handles(
                revoke,
                monitor_supported,
                step,
            )
            &&& v.after(vanish) == v.after(revoke)
            &&& !v.after(revoke).inner.has(offer_id)
        }),
{
}

/// A server without a relay gets one answer to each relay request, in the order of the requests:
/// success, with every feature. A server with a relay gets answers from the relay alone.
pub proof fn law_relay_requests_answered<'a, H: Host>(
    plan: BuildPlan<'a, H>,
    requests: Seq<ModifyRelayRequest>,
)
    ensures
        ({
            let answers = Answerer::of(plan.relay is Some).relay_answers(requests);
            &&& plan.relay is Some ==> answers.len() == 0
            &&& plan.relay is None ==> answers.len() == requests.len()
            &&& forall|i: int|
                0 <= i < answers.len() ==> #[trigger] answers[i]
                    == ModifyConnectionResponse::Supported(
                    ConnectionState::Successful,
                    FeatureFlags::All,
                )
        }),
    decreases requests.len(),
{
    if requests.len() > 0 {
        law_relay_requests_answered(plan, requests.drop_last());
    }
}

/// A server without an hvsocket notifier gets one verdict on each hvsocket request, in the order
/// of the requests: that very request is refused. A server with a notifier gets verdicts from the
/// notifier alone.
pub proof fn law_hvsock_requests_answered<'a, H: Host, Request>(
    plan: BuildPlan<'a, H>,
    requests: Seq<Request>,
)
    ensures
        ({
            let answers = Answerer::of(plan.hvsock is Some).hvsock_answers(requests);
            &&& plan.hvsock is Some ==> answers.len() == 0
            &&& plan.hvsock is None ==> answers.len() == requests.len()
            &&& forall|i: int|
                0 <= i < answers.len() ==> #[trigger] answers[i] == (HvsockVerdict {
                    request: requests[i],
                    success: false,
                })
        }),
    decreases requests.len(),
{
    if requests.len() > 0 {
        law_hvsock_requests_answered(plan, requests.drop_last());
    }
}

/// Starting undoes stopping, stopping undoes starting, and either twice is as good as once.
pub proof fn law_start_stop(v: TaskView)
    ensures
        v.requested(VmbusRequest::Start).running,
        !v.requested(VmbusRequest::Stop).running,
        v.running ==> v.requested(VmbusRequest::Start) == v,
        !v.running ==> v.requested(VmbusRequest::Stop) == v,
        v.running ==> v.requested(VmbusRequest::Stop).requested(VmbusRequest::Start) == v,
        !v.running ==> v.requested(VmbusRequest::Start).requested(VmbusRequest::Stop) == v,
{
}

/// A server that is being reset takes the answers of devices, running or not, until the reset is
/// complete.
pub proof fn law_reset_takes_answers<H: Host>(v: TaskView)
    requires
        !v.inner.reset_done,
    ensures
        v.requested(VmbusRequest::Reset).ready().channel_responses,
        v.requested(VmbusRequest::Reset).allows(Transition::<H>::ResetComplete),
        v.requested(VmbusRequest::Reset).apply(Transition::<H>::ResetComplete) == v,
{
}

/// Revoking a channel takes back its offer, but for the sequence number, which is not used again.
pub proof fn law_revoke_undoes_offer(
    v: TaskView,
    offer_id: OfferId,
    key: OfferKey,
    confidential: bool,
)
    requires
        !v.inner.has(offer_id),
        v.next_seq < u64::MAX,
    ensures
        v.offered(offer_id, key, confidential).revoked(offer_id) == (TaskView {
            next_seq: (v.next_seq + 1) as u64,
            ..v
        }),
{
    assert(v.offered(offer_id, key, confidential).revoked(offer_id).inner.channels
        =~= v.inner.channels);
}

/// A channel can be revoked twice, first explicitly and then because its device is gone: the
/// second time has no effect.
pub proof fn law_revoke_twice(v: TaskView, offer_id: OfferId)
    ensures
        v.revoked(offer_id).revoked(offer_id) == v.revoked(offer_id),
        v.revoked(offer_id).revoke_effects(offer_id) == Seq::<Effect>::empty(),
{
    assert(v.revoked(offer_id).revoked(offer_id).inner.channels
        =~= v.revoked(offer_id).inner.channels);
}

/// An open that the device refuses leaves no trace: the channel is closed again, and whatever
/// opening it took is dropped before the guest is told. A close does the same.
pub proof fn law_open_undone(
    v: TaskView,
    offer_id: OfferId,
    p: OpenParams,
    monitor_supported: bool,
)
    requires
        v.inner.has(offer_id),
        v.inner.channel(offer_id).state is Closed,
    ensures
        ({
            let seq = v.inner.channel(offer_id).seq;
            let open = v.with_inner(
                v.inner.notified(offer_id, Action::Open(p), monitor_supported),
            );
            &&& open.responded(offer_id, seq, Ok(ChannelResponse::Open(false))) == v
            &&& open.responded(offer_id, seq, Ok(ChannelResponse::Close)) == v
            &&& open.response_effects(offer_id, seq, Ok(ChannelResponse::Open(false)))[0]
                == Effect::ReleaseOpen { offer_id }
            &&& open.response_effects(offer_id, seq, Ok(ChannelResponse::Close))[0]
                == Effect::ReleaseOpen { offer_id }
        }),
{
    let seq = v.inner.channel(offer_id).seq;
    let open = v.with_inner(v.inner.notified(offer_id, Action::Open(p), monitor_supported));
    assert(open.closed(offer_id).inner.channels =~= v.inner.channels);
}

/// A channel is taken out of the channel bitmap by the flag that it was put in with.
pub proof fn law_close_unregisters_open(
    v: InnerView,
    offer_id: OfferId,
    p: OpenParams,
    monitor_supported: bool,
)
    requires
        v.has(offer_id),
    ensures
        ({
            let open = v.notified(offer_id, Action::Open(p), monitor_supported);
            let register = Effect::RegisterChannel { offer_id, event_flag: p.event_flag };
            let unregister = Effect::UnregisterChannel { event_flag: p.event_flag };
            &&& v.channel_bitmap ==> {
                &&& v.open_effects(offer_id, p, monitor_supported)[0] == register
                &&& open.close_effects(offer_id)[0] == unregister
            }
            &&& !v.channel_bitmap ==> {
                &&& !v.open_effects(offer_id, p, monitor_supported).contains(register)
                &&& !open.close_effects(offer_id).contains(unregister)
            }
        }),
{
}

/// Enabling MNF support has no effect if the synic does not support mapping monitor pages: offers,
/// and every step of a change of the connection that can come up then, are as without.
pub proof fn law_mnf_needs_support<H: Host>(
    v: TaskView,
    info: OfferInfo<H>,
    request: ModifyConnectionRequest,
    port: Result<(), H::SynicError>,
)
    ensures
        ({
            let without = InnerView { enable_mnf: false, ..v.inner };
            let (a, step) = v.inner.modify_started::<H>(request, false);
            let (b, step_without) = without.modify_started::<H>(request, false);
            let (c, next) = v.inner.interrupt_page_done::<H>(request, false);
            let (d, next_without) = without.interrupt_page_done::<H>(request, false);
            let (e, last) = v.inner.shared_event_port_added::<H>(request, false, port);
            let (f, last_without) = without.shared_event_port_added::<H>(request, false, port);
            &&& v.offering(info, false) == v.with_inner(without).offering(info, false)
            &&& step == step_without && InnerView { enable_mnf: false, ..a } == b
            &&& next == next_without && InnerView { enable_mnf: false, ..c } == d
            &&& last == last_without && InnerView { enable_mnf: false, ..e } == f
            &&& !(step is SetMonitorPage) && !(next is SetMonitorPage)
                && !(last is SetMonitorPage)
        }),
{
    let without = InnerView { enable_mnf: false, ..v.inner };
    lemma_uses_monitor(without, v.inner);
    lemma_uses_monitor(InnerView { shared_event_port: true, ..v.inner }, v.inner);
    lemma_uses_monitor(InnerView { shared_event_port: true, ..without }, v.inner);
}

/// A relay is never told of monitor pages that this server handles.
pub proof fn law_handled_monitor_pages_not_relayed(v: InnerView, request: ModifyConnectionRequest)
    requires
        v.enable_mnf,
    ensures
        v.relay_request(request, true) matches Some(relayed) ==> relayed.monitor_page is Unchanged,
{
}

/// What becomes of a change of the connection after a step, given what each kind of step comes
/// to.
pub open spec fn modify_next<H: Host>(
    v: InnerView,
    step: ModifyStep<H>,
    request: ModifyConnectionRequest,
    monitor_supported: bool,
    lock: Result<(), H::MemoryError>,
    port: Result<(), H::SynicError>,
    monitor: Result<(), H::MonitorError>,
) -> (InnerView, ModifyStep<H>) {
    match step {
        ModifyStep::ReleaseInterruptPage => v.interrupt_page_done(request, monitor_supported),
        ModifyStep::LockInterruptPage { .. } => v.interrupt_page_locked(lock),
        ModifyStep::AddSharedEventPort { .. } => v.shared_event_port_added(
            request,
            monitor_supported,
            port,
        ),
        ModifyStep::SetMonitorPage { .. } => v.monitor_page_set(request, monitor),
        ModifyStep::Finished(result) => (v, ModifyStep::Finished(result)),
    }
}

/// Why a change of the connection fails, if it does: because of the interrupt page, or else
/// because of the monitor pages.
pub open spec fn modify_error<H: Host>(
    v: InnerView,
    request: ModifyConnectionRequest,
    monitor_supported: bool,
    lock: Result<(), H::MemoryError>,
    port: Result<(), H::SynicError>,
    monitor: Result<(), H::MonitorError>,
) -> Option<ModifyConnectionError<H>> {
    let page_error = match request.interrupt_page {
        Update::SetTo(address) => if address % PAGE_SIZE != 0 {
            Some(InterruptPageError::<H>::NotPageAligned(address))
        } else if lock is Err {
            Some(InterruptPageError::Memory(lock->Err_0))
        } else if port is Err {
            Some(InterruptPageError::Synic(port->Err_0))
        } else {
            None
        },
        _ => None,
    };
    match page_error {
        Some(error) => Some(ModifyConnectionError::InterruptPage(error)),
        None => if v.monitor_change_refused(request.monitor_page, request.force) {
            Some(ModifyConnectionError::MonitorPage(MonitorPageError::OpenChannelsUsingMnf))
        } else if v.sets_monitor_page(request.monitor_page, monitor_supported) && monitor is Err {
            Some(
                ModifyConnectionError::MonitorPage(
                    MonitorPageError::SetFailed {
                        error: monitor->Err_0,
                        monitor_page: crate::connection::new_monitor_page(request.monitor_page),
                    },
                ),
            )
        } else {
            None
        },
    }
}

/// The interrupt page and shared event port after a change of the connection. A new interrupt
/// page stays in use even if what comes after it fails.
pub open spec fn modified_pages<H: Host>(
    v: InnerView,
    request: ModifyConnectionRequest,
    lock: Result<(), H::MemoryError>,
    port: Result<(), H::SynicError>,
) -> InnerView {
    match request.interrupt_page {
        Update::Unchanged => v,
        Update::Reset => v.without_interrupt_page(),
        Update::SetTo(address) => if address % PAGE_SIZE != 0 || lock is Err {
            v
        } else {
            InnerView {
                channel_bitmap: true,
                shared_event_port: v.shared_event_port || port is Ok,
                ..v
            }
        },
    }
}

/// A change of the connection takes at most three steps. Whatever these come to, it fails for the
/// first reason there is and then leaves the target of messages alone; if there is none, it moves
/// the target and tells the relay, where it is to be told.
#[verifier::rlimit(50)]
pub proof fn law_modify_connection<H: Host>(
    v: InnerView,
    request: ModifyConnectionRequest,
    monitor_supported: bool,
    lock: Result<(), H::MemoryError>,
    port: Result<(), H::SynicError>,
    monitor: Result<(), H::MonitorError>,
)
    ensures
        ({
            let next = |s: (InnerView, ModifyStep<H>)|
                modify_next(s.0, s.1, request, monitor_supported, lock, port, monitor);
            let pages = modified_pages::<H>(v, request, lock, port);
            let (end, step) = next(next(next(v.modify_started(request, monitor_supported))));
            match modify_error(v, request, monitor_supported, lock, port, monitor) {
                Some(error) => {
                    &&& step == ModifyStep::Finished(
                        Err::<Option<ModifyRelayRequest>, ModifyConnectionError<H>>(error),
                    )
                    &&& end == pages
                },
                None => {
                    &&& step == ModifyStep::<H>::Finished(
                        Ok(v.relay_request(request, monitor_supported)),
                    )
                    &&& end == pages.retargeted(request)
                },
            }
        }),
{
    let locked = InnerView { channel_bitmap: true, ..v };
    let ported = InnerView { shared_event_port: true, ..locked };
    let released = v.without_interrupt_page();
    lemma_uses_monitor(locked, v);
    lemma_uses_monitor(ported, v);
    lemma_uses_monitor(released, v);
}

/// Device channels are confidential: they use the trusted memory, if there is one, when they are
/// offered, when they are inspected, and when they are woken. A relay's offer is taken as it is.
pub proof fn law_device_channels_confidential<H: Host>(
    v: TaskView,
    params: OfferParams,
    info: OfferInfo<H>,
    offer_id: OfferId,
    p: OpenParams,
    monitor_supported: bool,
)
    requires
        v.next_seq < u64::MAX,
    ensures
        params.offered().flags.confidential_channel,
        ({
            let offering = v.offering(info, monitor_supported);
            let open = v.offered(offer_id, offering.key, offering.confidential).inner.notified(
                offer_id,
                Action::Open(p),
                monitor_supported,
            );
            let memory = crate::offer::memory_of(
                info.params.flags.confidential_channel,
                v.inner.trusted_memory,
            );
            &&& offering.info.params.flags == info.params.flags
            &&& open.channel(offer_id).confidential == info.params.flags.confidential_channel
            &&& open.rings(offer_id) matches Some(rings) && rings.memory == memory
            &&& Unstick::started(open.channel(offer_id), false, open.trusted_memory).memory()
                == Some(memory)
            &&& info.params == params.offered() && v.inner.trusted_memory ==> memory
                == MemoryChoice::Trusted
        }),
{
}

/// The parts of a child message connection ID do not overlap, for processors and interrupt
/// sources in their ranges.
pub proof fn law_child_connection_id_parts(vp_index: u32, sint_index: u8, vtl: Vtl)
    requires
        vp_index < 0x4000,
        sint_index < 16,
    ensures
        crate::server::child_message_connection_id(vp_index, sint_index, vtl) == 0x40_0000
            * vtl.spec_number() + 0x100 * vp_index + 0x10 * sint_index + 4,
{
    let n = vtl.spec_number();
    let s = sint_index as u32;
    assert(4u32 | n << 22 | vp_index << 8 | s << 4 == 0x40_0000 * n + 0x100 * vp_index + 0x10 * s
        + 4) by (bit_vector)
        requires
            n < 3,
            vp_index < 0x4000,
            s < 16,
    ;
}

/// Servers at different targets have different message connection IDs, and none of these is a
/// standard one.
pub proof fn law_child_connection_ids_distinct(a: (u32, u8, Vtl), b: (u32, u8, Vtl))
    requires
        a.0 < 0x4000,
        a.1 < 16,
        b.0 < 0x4000,
        b.1 < 16,
    ensures
        crate::server::child_message_connection_id(a.0, a.1, a.2)
            == crate::server::child_message_connection_id(b.0, b.1, b.2) ==> a == b,
        crate::server::child_message_connection_id(a.0, a.1, a.2) != MESSAGE_CONNECTION_ID,
        a.1 > 0 ==> crate::server::child_message_connection_id(a.0, a.1, a.2)
            != MULTICLIENT_MESSAGE_CONNECTION_ID,
{
    law_child_connection_id_parts(a.0, a.1, a.2);
    law_child_connection_id_parts(b.0, b.1, b.2);
}

/// The message ports of a server have different connection IDs, and servers that are reached at
/// different targets do not share one.
pub proof fn law_message_ports_distinct<'a, 'b, H: Host>(
    a: VmbusServerBuilder<'a, H>,
    b: VmbusServerBuilder<'b, H>,
)
    ensures
        a.message_connection_id() != MULTICLIENT_MESSAGE_CONNECTION_ID,
        a.redirect() != b.redirect() ==> a.message_connection_id() != b.message_connection_id(),
{
    law_child_connection_ids_distinct(
        (0, a.redirect().1, a.redirect().0),
        (0, b.redirect().1, b.redirect().0),
    );
    law_child_connection_ids_distinct(
        (0, b.redirect().1, b.redirect().0),
        (0, a.redirect().1, a.redirect().0),
    );
}

/// How many steps an attempt to wake both ends of a channel may still take.
pub open spec fn steps_left(step: Unstick) -> nat {
    match step {
        Unstick::FindGpadl { .. } => 13,
        Unstick::Align { .. } => 12,
        Unstick::Split { .. } => 11,
        Unstick::MapRing(Ring::Incoming, _) => 10,
        Unstick::Probe(Ring::Incoming, RingEnd::Reader, _) => 9,
        Unstick::Signal(Ring::Incoming, RingEnd::Reader, _) => 8,
        Unstick::Probe(Ring::Incoming, RingEnd::Writer, _) => 7,
        Unstick::Signal(Ring::Incoming, RingEnd::Writer, _) => 6,
        Unstick::MapRing(Ring::Outgoing, _) => 5,
        Unstick::Probe(Ring::Outgoing, RingEnd::Reader, _) => 4,
        Unstick::Signal(Ring::Outgoing, RingEnd::Reader, _) => 3,
        Unstick::Probe(Ring::Outgoing, RingEnd::Writer, _) => 2,
        Unstick::Signal(Ring::Outgoing, RingEnd::Writer, _) => 1,
        Unstick::Force(Wake::Host) => 2,
        Unstick::Force(Wake::Guest) => 1,
        Unstick::Done(_) => 0,
    }
}

/// Who is woken, and what is reported in the end, by an attempt from a step on, given what each
/// step comes to.
pub open spec fn unstick_run(step: Unstick, answers: spec_fn(Unstick) -> bool) -> (
    Seq<Wake>,
    Result<(), UnstickError>,
)
    decreases steps_left(step),
{
    match step {
        Unstick::Done(result) => (seq![], result),
        _ => {
            let (woken, result) = unstick_run(step.after(answers(step)), answers);
            (
                match step.wakes() {
                    Some(wake) => seq![wake] + woken,
                    None => woken,
                },
                result,
            )
        },
    }
}

/// Who waits at the ends of a ring in a memory, as far as that can be seen.
pub open spec fn waiting(
    ring: Ring,
    memory: MemoryChoice,
    answers: spec_fn(Unstick) -> bool,
) -> Seq<Wake> {
    let at = |end: RingEnd|
        if answers(Unstick::MapRing(ring, memory)) && answers(Unstick::Probe(ring, end, memory)) {
            seq![crate::rings::user_of(ring, end)]
        } else {
            seq![]
        };
    at(RingEnd::Reader) + at(RingEnd::Writer)
}

/// The step that an attempt is at after a series of steps, given which of them succeeded.
pub open spec fn unstick_steps(step: Unstick, oks: Seq<bool>) -> Unstick
    decreases oks.len(),
{
    if oks.len() == 0 {
        step
    } else {
        unstick_steps(step.after(oks[0]), oks.drop_first())
    }
}

/// An attempt looks at rings in no other memory than that which the channel uses, whatever comes
/// of its steps.
pub proof fn law_unstick_memory(
    channel: Channel,
    force: bool,
    trusted_memory: bool,
    oks: Seq<bool>,
)
    ensures
        unstick_steps(Unstick::started(channel, force, trusted_memory), oks).memory() matches Some(
            memory,
        ) ==> memory == crate::offer::memory_of(channel.confidential, trusted_memory),
{
    lemma_unstick_memory_kept(Unstick::started(channel, force, trusted_memory), oks);
}

/// No step turns to another memory.
proof fn lemma_unstick_memory_kept(step: Unstick, oks: Seq<bool>)
    ensures
        unstick_steps(step, oks).memory() is Some ==> unstick_steps(step, oks).memory()
            == step.memory(),
    decreases oks.len(),
{
    if oks.len() > 0 {
        lemma_unstick_memory_kept(step.after(oks[0]), oks.drop_first());
    }
}

/// A closed channel is left alone, and a forced attempt wakes both ends of an open one.
pub proof fn law_unstick_forced(
    channel: Channel,
    force: bool,
    trusted_memory: bool,
    answers: spec_fn(Unstick) -> bool,
)
    requires
        channel.state is Closed || force,
    ensures
        unstick_run(Unstick::started(channel, force, trusted_memory), answers) == (
            if channel.state is Closed {
                seq![]
            } else {
                seq![Wake::Host, Wake::Guest]
            },
            Ok::<(), UnstickError>(()),
        ),
{
    reveal_with_fuel(unstick_run, 3);
    if channel.state is Open {
        assert(seq![Wake::Host] + (seq![Wake::Guest] + Seq::<Wake>::empty()) =~= seq![
            Wake::Host,
            Wake::Guest,
        ]);
    }
}

/// An attempt without force wakes exactly those who wait at an end of a ring, and fails only if
/// the rings cannot be found. The rings are those in the memory that the channel uses.
pub proof fn law_unstick_waiting(
    channel: Channel,
    trusted_memory: bool,
    answers: spec_fn(Unstick) -> bool,
)
    requires
        channel.state is Open,
    ensures
        ({
            let gpadl_id = channel.state->open_params.open_data.ring_gpadl_id;
            let offset = channel.state->open_params.open_data.ring_offset;
            let memory = crate::offer::memory_of(channel.confidential, trusted_memory);
            let (woken, result) = unstick_run(
                Unstick::started(channel, false, trusted_memory),
                answers,
            );
            if !answers(Unstick::FindGpadl { gpadl_id, offset, memory }) {
                woken == Seq::<Wake>::empty() && result == Err::<(), UnstickError>(
                    UnstickError::RingGpadlNotFound,
                )
            } else if !answers(Unstick::Align { offset, memory }) {
                woken == Seq::<Wake>::empty() && result == Err::<(), UnstickError>(
                    UnstickError::RingNotAligned,
                )
            } else if !answers(Unstick::Split { offset, memory }) {
                woken == Seq::<Wake>::empty() && result == Err::<(), UnstickError>(
                    UnstickError::CannotSplitRing,
                )
            } else {
                woken == waiting(Ring::Incoming, memory, answers) + waiting(
                    Ring::Outgoing,
                    memory,
                    answers,
                ) && result is Ok
            }
        }),
{
    let memory = crate::offer::memory_of(channel.confidential, trusted_memory);
    lemma_unstick_ring(Ring::Incoming, memory, answers);
    lemma_unstick_ring(Ring::Outgoing, memory, answers);
    reveal_with_fuel(unstick_run, 4);
    assert(unstick_run(Unstick::Done(Ok(())), answers).0 =~= Seq::<Wake>::empty());
}

/// What an attempt does from a ring on.
proof fn lemma_unstick_ring(ring: Ring, memory: MemoryChoice, answers: spec_fn(Unstick) -> bool)
    ensures
        ({
            let rest = unstick_run(Unstick::after_end(ring, RingEnd::Writer, memory), answers);
            let run = unstick_run(Unstick::MapRing(ring, memory), answers);
            run.0 =~= waiting(ring, memory, answers) + rest.0 && run.1 == rest.1
        }),
{
    reveal_with_fuel(unstick_run, 6);
}

} // verus!
