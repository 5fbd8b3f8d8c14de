//! What calls of the running server come to, in terms of what goes in and comes out.

use crate::channel::Channel;
use crate::channel::ChannelResponse;
use crate::channel::ChannelState;
use crate::channel::DeviceReply;
use crate::channel::PendingKind;
use crate::channel::PendingResponse;
use crate::channel::RecvError;
use crate::connection::InterruptPageError;
use crate::connection::InterruptPageStep;
use crate::connection::ModifyConnectionError;
use crate::connection::ModifyStep;
use crate::connection::MonitorPageError;
use crate::connection::MonitorPageStep;
use crate::effect::Effect;
use crate::effect::ServerCall;
use crate::host::Host;
use crate::inner::Forwarded;
use crate::inner::InnerView;
use crate::inner::PostedMessage;
use crate::inner::RingLocation;
use crate::inner::ServerTaskInner;
use crate::laws::channels::asks;
use crate::laws::channels::opens;
use crate::laws::channels::prepares;
use crate::laws::channels::records_open;
use crate::laws::channels::same_but_open;
use crate::laws::channels::tells;
use crate::laws::connection::monitor_in_use;
use crate::laws::connection::moved_messages;
use crate::laws::connection::relay_gets;
use crate::laws::rings::begins;
use crate::offer::OfferInfo;
use crate::offer::OfferRequest;
use crate::protocol::Action;
use crate::protocol::ConnectionTarget;
use crate::protocol::GpadlId;
use crate::protocol::ModifyConnectionRequest;
use crate::protocol::MonitorPageGpas;
use crate::protocol::OfferId;
use crate::protocol::OpenParams;
use crate::protocol::Update;
use crate::rings::Unstick;
use crate::task::ChannelServerRequest;
use crate::task::Event;
use crate::task::LoopStep;
use crate::task::OfferOutcome;
use crate::task::Offering;
use crate::task::Ready;
use crate::task::RequestStep;
use crate::task::RestorePlan;
use crate::task::RestoredGpadl;
use crate::task::ServerTask;
use crate::task::TaskView;
use crate::task::UnstickSetting;
use crate::task::UnstickSettingError;
use crate::task::VmbusRequest;
use vstd::prelude::*;

verus! {

/// An action on a channel does just what it takes and then asks the device. Only an open changes
/// the server's state: it records what the channel was opened with.
pub proof fn law_call_notify(
    inner: &mut ServerTaskInner,
    offer_id: OfferId,
    action: Action,
    monitor_supported: bool,
    effects: Vec<Effect>,
)
    requires
        call_ensures(
            ServerTaskInner::notify,
            (inner, offer_id, action, monitor_supported),
            effects,
        ),
        old(inner)@.channels.contains_key(offer_id.0),
    ensures
        asks(old(inner)@, offer_id, action, effects@),
        prepares(old(inner)@, offer_id, action, monitor_supported, effects@),
        match action {
            Action::Open(p) => records_open(
                old(inner)@,
                final(inner)@,
                offer_id,
                p,
                monitor_supported,
            ),
            _ => final(inner)@ == old(inner)@,
        },
{
    crate::laws::channels::law_action_carried_out(
        old(inner)@,
        offer_id,
        action,
        monitor_supported,
        effects@,
    );
}

/// Opening a channel does what it takes and records what the channel was opened with.
pub proof fn law_call_open_channel(
    inner: &mut ServerTaskInner,
    offer_id: OfferId,
    p: OpenParams,
    monitor_supported: bool,
    effects: Vec<Effect>,
)
    requires
        call_ensures(
            ServerTaskInner::open_channel,
            (inner, offer_id, &p, monitor_supported),
            effects,
        ),
        old(inner)@.channels.contains_key(offer_id.0),
    ensures
        opens(old(inner)@, offer_id, p, monitor_supported, effects@),
        records_open(old(inner)@, final(inner)@, offer_id, p, monitor_supported),
{
}

/// The rings of a channel are looked for exactly if it is open, where the guest put them, in the
/// memory that the channel uses.
pub proof fn law_call_inspect(
    inner: &ServerTaskInner,
    offer_id: OfferId,
    rings: Option<RingLocation>,
)
    requires
        call_ensures(ServerTaskInner::inspect, (inner, offer_id), rings),
    ensures
        ({
            let channel = inner@.channels[offer_id.0];
            match rings {
                None => channel.state is Closed,
                Some(rings) => {
                    &&& channel.state matches ChannelState::Open { open_params, .. }
                    &&& rings.gpadl_id == open_params.open_data.ring_gpadl_id
                    &&& rings.offset == open_params.open_data.ring_offset
                    &&& rings.memory is Trusted <==> channel.confidential && inner@.trusted_memory
                },
            }
        }),
{
}

/// A channel is returned exactly if it is offered.
pub proof fn law_call_channel(
    inner: &ServerTaskInner,
    offer_id: OfferId,
    channel: Option<Channel>,
)
    requires
        call_ensures(ServerTaskInner::channel, (inner, offer_id), channel),
    ensures
        channel is Some <==> inner@.channels.contains_key(offer_id.0),
        channel is Some ==> channel->0 == inner@.channels[offer_id.0],
{
}

/// A message goes, as it is, to the target it is for, or else to the connection's, at the level
/// that the control plane is reached at.
pub proof fn law_call_send_message(
    inner: &ServerTaskInner,
    message: Vec<u8>,
    target: Option<ConnectionTarget>,
    posted: PostedMessage,
)
    requires
        call_ensures(ServerTaskInner::send_message, (inner, message, target), posted),
    ensures
        posted.payload == message,
        posted.message_type == 1,
        posted.vtl == inner@.redirect_vtl,
        target is Some ==> posted.target == target->0,
        target is None ==> posted.target == inner@.message_target,
{
}

/// A connect request that is not for this server goes on, as it is, exactly if there is another
/// server.
pub proof fn law_call_forward_unhandled<R>(
    inner: &ServerTaskInner,
    request: R,
    forwarded: Forwarded<R>,
)
    requires
        call_ensures(ServerTaskInner::forward_unhandled::<R>, (inner, request), forwarded),
    ensures
        match forwarded {
            Forwarded::External(r) => inner@.external_server && r == request,
            Forwarded::Nowhere(r) => !inner@.external_server && r == request,
        },
{
}

/// An hvsocket request goes on as it is, and is counted as one without an answer.
pub proof fn law_call_notify_hvsock<R: Copy>(inner: &mut ServerTaskInner, request: R, sent: R)
    requires
        call_ensures(ServerTaskInner::notify_hvsock::<R>, (inner, &request), sent),
        old(inner)@.hvsock_requests < usize::MAX,
    ensures
        sent == request,
        final(inner)@.hvsock_requests == old(inner)@.hvsock_requests + 1,
        final(inner)@ == (InnerView {
            hvsock_requests: final(inner)@.hvsock_requests,
            ..old(inner)@
        }),
{
}

/// When a reset is complete, the monitor page is unmapped if the synic has one, and then whoever
/// asked for the reset is told. The server is no longer being reset, and otherwise as it was.
pub proof fn law_call_reset_complete(
    inner: &mut ServerTaskInner,
    monitor_supported: bool,
    effects: Vec<Effect>,
)
    requires
        call_ensures(ServerTaskInner::reset_complete, (inner, monitor_supported), effects),
    ensures
        final(inner)@ == (InnerView { reset_done: false, ..old(inner)@ }),
        effects@.len() == (if monitor_supported { 2int } else { 1 }),
        effects@.last() is SignalResetDone,
        monitor_supported ==> effects@[0] is ResetMonitorPage,
{
}

/// A new server has no channels and no connection, and what it was made with.
pub proof fn law_call_new(
    vtl: crate::protocol::Vtl,
    redirect_vtl: crate::protocol::Vtl,
    message_target: ConnectionTarget,
    external_server: bool,
    enable_mnf: bool,
    trusted_memory: bool,
    inner: ServerTaskInner,
)
    requires
        call_ensures(
            ServerTaskInner::new,
            (vtl, redirect_vtl, message_target, external_server, enable_mnf, trusted_memory),
            inner,
        ),
    ensures
        inner@.vtl == vtl,
        inner@.redirect_vtl == redirect_vtl,
        inner@.message_target == message_target,
        inner@.external_server == external_server,
        inner@.enable_mnf == enable_mnf,
        inner@.trusted_memory == trusted_memory,
        inner@.hvsock_requests == 0,
        inner@.channels.dom() =~= Set::empty(),
        !inner@.channel_bitmap,
        !inner@.shared_event_port,
        !inner@.reset_done,
{
}

/// The interrupt page is left, given up, or locked as asked; its address has to be that of a whole
/// page. Only giving it up changes the server.
pub proof fn law_call_map_interrupt_page<H: Host>(
    inner: &mut ServerTaskInner,
    interrupt_page: Update<u64>,
    r: Result<InterruptPageStep, InterruptPageError<H>>,
)
    requires
        call_ensures(ServerTaskInner::map_interrupt_page::<H>, (inner, interrupt_page), r),
    ensures
        interrupt_page is Reset ==> final(inner)@ == (InnerView {
            channel_bitmap: false,
            shared_event_port: false,
            ..old(inner)@
        }),
        !(interrupt_page is Reset) ==> final(inner)@ == old(inner)@,
        match interrupt_page {
            Update::Unchanged => r is Ok && r->Ok_0 is Done,
            Update::Reset => r is Ok && r->Ok_0 is Release,
            Update::SetTo(address) => {
                &&& r is Ok <==> address as int % 4096 == 0
                &&& r matches Ok(step) ==> step is Lock && step->gpn * 4096 == address
                &&& r matches Err(error) ==> error is NotPageAligned && error->NotPageAligned_0
                    == address
            },
        },
{
}

/// A change of the monitor pages fails exactly if it would take them from an open channel and is
/// not forced. It reaches the synic if this server handles them and the synic supports that.
pub proof fn law_call_set_monitor_page<H: Host>(
    inner: &ServerTaskInner,
    monitor_page: Update<MonitorPageGpas>,
    force: bool,
    monitor_supported: bool,
    r: Result<MonitorPageStep, MonitorPageError<H>>,
)
    requires
        call_ensures(
            ServerTaskInner::set_monitor_page::<H>,
            (inner, monitor_page, force, monitor_supported),
            r,
        ),
    ensures
        r is Err <==> !(monitor_page is Unchanged) && !force && monitor_in_use(inner@),
        r matches Err(error) ==> error is OpenChannelsUsingMnf,
        r matches Ok(step) ==> {
            &&& step is Page <==> !(monitor_page is Unchanged) && inner@.enable_mnf
                && monitor_supported
            &&& step matches MonitorPageStep::Page(page) ==> match monitor_page {
                Update::SetTo(pages) => page == Some(pages.child_to_parent),
                _ => page is None,
            }
        },
{
    crate::laws::connection::law_monitor_pages_changed(
        inner@,
        monitor_page,
        force,
        monitor_supported,
    );
}

/// Whether a step is the right one once the interrupt page is dealt with, and the server is then
/// as it should be.
pub open spec fn goes_on<H: Host>(
    v: InnerView,
    w: InnerView,
    request: ModifyConnectionRequest,
    monitor_supported: bool,
    step: ModifyStep<H>,
) -> bool {
    let changes = !(request.monitor_page is Unchanged);
    let refused = changes && !request.force && monitor_in_use(v);
    let handled = changes && v.enable_mnf && monitor_supported;
    &&& refused ==> {
        &&& w == v
        &&& step == ModifyStep::<H>::Finished(
            Err(ModifyConnectionError::MonitorPage(MonitorPageError::OpenChannelsUsingMnf)),
        )
    }
    &&& !refused && handled ==> {
        &&& w == v
        &&& step matches ModifyStep::SetMonitorPage { page }
        &&& request.monitor_page is Reset ==> page is None
        &&& request.monitor_page matches Update::SetTo(pages) ==> page == Some(
            pages.child_to_parent,
        )
    }
    &&& !refused && !handled ==> {
        &&& moved_messages(v, w, request)
        &&& step matches ModifyStep::Finished(Ok(told))
        &&& relay_gets(v, request, monitor_supported, told)
    }
}

/// Once the interrupt page is dealt with, a change goes on to the monitor pages.
pub proof fn law_call_interrupt_page_done<H: Host>(
    inner: &mut ServerTaskInner,
    request: ModifyConnectionRequest,
    monitor_supported: bool,
    step: ModifyStep<H>,
)
    requires
        call_ensures(
            ServerTaskInner::interrupt_page_done::<H>,
            (inner, &request, monitor_supported),
            step,
        ),
    ensures
        goes_on(old(inner)@, final(inner)@, request, monitor_supported, step),
{
    lemma_goes_on::<H>(old(inner)@, request, monitor_supported);
}

/// A change goes on as it should.
proof fn lemma_goes_on<H: Host>(
    v: InnerView,
    request: ModifyConnectionRequest,
    monitor_supported: bool,
)
    ensures
        ({
            let (w, step) = v.interrupt_page_done::<H>(request, monitor_supported);
            goes_on(v, w, request, monitor_supported, step)
        }),
{
    crate::laws::connection::law_change_goes_on::<H>(v, request, monitor_supported);
}

/// A change of the connection begins with the interrupt page.
pub proof fn law_call_modify_connection<H: Host>(
    inner: &mut ServerTaskInner,
    request: ModifyConnectionRequest,
    monitor_supported: bool,
    step: ModifyStep<H>,
)
    requires
        call_ensures(
            ServerTaskInner::modify_connection::<H>,
            (inner, &request, monitor_supported),
            step,
        ),
    ensures
        match request.interrupt_page {
            Update::Unchanged => goes_on(
                old(inner)@,
                final(inner)@,
                request,
                monitor_supported,
                step,
            ),
            Update::Reset => step is ReleaseInterruptPage && final(inner)@ == (InnerView {
                channel_bitmap: false,
                shared_event_port: false,
                ..old(inner)@
            }),
            Update::SetTo(address) => {
                &&& final(inner)@ == old(inner)@
                &&& address as int % 4096 == 0 ==> step is LockInterruptPage && step->gpn * 4096
                    == address
                &&& address as int % 4096 != 0 ==> step == ModifyStep::<H>::Finished(
                    Err(
                        ModifyConnectionError::InterruptPage(
                            InterruptPageError::NotPageAligned(address),
                        ),
                    ),
                )
            },
        },
{
    lemma_goes_on::<H>(old(inner)@, request, monitor_supported);
    crate::laws::connection::law_change_begins::<H>(old(inner)@, request, monitor_supported);
}

/// A locked page is in use at once, and gets its shared event port; one that could not be locked
/// ends the change.
pub proof fn law_call_interrupt_page_locked<H: Host>(
    inner: &mut ServerTaskInner,
    result: Result<(), H::MemoryError>,
    step: ModifyStep<H>,
)
    requires
        call_ensures(ServerTaskInner::interrupt_page_locked::<H>, (inner, result), step),
    ensures
        match result {
            Ok(()) => {
                &&& final(inner)@ == (InnerView { channel_bitmap: true, ..old(inner)@ })
                &&& step == (ModifyStep::<H>::AddSharedEventPort {
                    connection_id: 2,
                    vtl: old(inner)@.vtl,
                })
            },
            Err(error) => {
                &&& final(inner)@ == old(inner)@
                &&& step == ModifyStep::<H>::Finished(
                    Err(ModifyConnectionError::InterruptPage(InterruptPageError::Memory(error))),
                )
            },
        },
{
}

/// With the shared event port a change goes on; without it the change ends.
pub proof fn law_call_shared_event_port_added<H: Host>(
    inner: &mut ServerTaskInner,
    request: ModifyConnectionRequest,
    monitor_supported: bool,
    result: Result<(), H::SynicError>,
    step: ModifyStep<H>,
)
    requires
        call_ensures(
            ServerTaskInner::shared_event_port_added::<H>,
            (inner, &request, monitor_supported, result),
            step,
        ),
    ensures
        match result {
            Ok(()) => goes_on(
                InnerView { shared_event_port: true, ..old(inner)@ },
                final(inner)@,
                request,
                monitor_supported,
                step,
            ),
            Err(error) => {
                &&& final(inner)@ == old(inner)@
                &&& step == ModifyStep::<H>::Finished(
                    Err(ModifyConnectionError::InterruptPage(InterruptPageError::Synic(error))),
                )
            },
        },
{
    lemma_goes_on::<H>(
        InnerView { shared_event_port: true, ..old(inner)@ },
        request,
        monitor_supported,
    );
}

/// Once the monitor page is set the change has succeeded; if it could not be set, it has failed.
pub proof fn law_call_monitor_page_set<H: Host>(
    inner: &mut ServerTaskInner,
    request: ModifyConnectionRequest,
    result: Result<(), H::MonitorError>,
    step: ModifyStep<H>,
)
    requires
        call_ensures(ServerTaskInner::monitor_page_set::<H>, (inner, &request, result), step),
    ensures
        match result {
            Ok(()) => {
                &&& moved_messages(old(inner)@, final(inner)@, request)
                &&& step matches ModifyStep::Finished(Ok(told))
                &&& relay_gets(old(inner)@, request, true, told)
            },
            Err(error) => {
                &&& final(inner)@ == old(inner)@
                &&& step == ModifyStep::<H>::Finished(
                    Err(
                        ModifyConnectionError::MonitorPage(
                            MonitorPageError::SetFailed {
                                error,
                                monitor_page: match request.monitor_page {
                                    Update::SetTo(pages) => Some(pages),
                                    _ => None,
                                },
                            },
                        ),
                    ),
                )
            },
        },
{
}

/// A device's answer is told to the channel state machine if it is for the channel offered at
/// present, and closes the channel if it refuses an open or completes a close.
pub proof fn law_call_handle_response(
    task: &mut ServerTask,
    offer_id: OfferId,
    seq: u64,
    response: Result<ChannelResponse, RecvError>,
    effects: Vec<Effect>,
)
    requires
        call_ensures(ServerTask::handle_response, (task, offer_id, seq, response), effects),
    ensures
        answered(old(task)@, final(task)@, offer_id, seq, response, effects@),
{
    crate::laws::channels::law_answer_told(old(task)@, offer_id, seq, response);
    crate::laws::channels::law_answer_closes(old(task)@, offer_id, seq, response);
}

/// Whether a device's answer has the effects and the consequences it should have.
pub open spec fn answered(
    v: TaskView,
    w: TaskView,
    offer_id: OfferId,
    seq: u64,
    response: Result<ChannelResponse, RecvError>,
    effects: Seq<Effect>,
) -> bool {
    let current = v.inner.channels.contains_key(offer_id.0) && v.inner.channels[offer_id.0].seq
        == seq;
    let closes = response == Ok::<ChannelResponse, RecvError>(ChannelResponse::Open(false))
        || response == Ok::<ChannelResponse, RecvError>(ChannelResponse::Close);
    &&& !current || response is Err ==> effects.len() == 0
    &&& current && response is Ok ==> tells(effects, offer_id, response->Ok_0)
    &&& !(current && closes) ==> w == v
    &&& current && closes ==> {
        &&& w == (TaskView { inner: w.inner, ..v })
        &&& same_but_open(v.inner, w.inner, offer_id)
        &&& w.inner.channels[offer_id.0].state is Closed
    }
}

/// An accepted open leaves the channel as it is; a refused one closes it.
pub proof fn law_call_handle_open(
    task: &mut ServerTask,
    offer_id: OfferId,
    ok: bool,
    effects: Vec<Effect>,
)
    requires
        call_ensures(ServerTask::handle_open, (task, offer_id, ok), effects),
        old(task)@.inner.channels.contains_key(offer_id.0),
    ensures
        tells(effects@, offer_id, ChannelResponse::Open(ok)),
        ok ==> final(task)@ == old(task)@,
        !ok ==> {
            &&& final(task)@ == (TaskView { inner: final(task)@.inner, ..old(task)@ })
            &&& same_but_open(old(task)@.inner, final(task)@.inner, offer_id)
            &&& final(task)@.inner.channels[offer_id.0].state is Closed
        },
{
    crate::laws::channels::law_completion_told(offer_id, ChannelResponse::Open(ok));
}

/// A completed close closes the channel.
pub proof fn law_call_handle_close(
    task: &mut ServerTask,
    offer_id: OfferId,
    effects: Vec<Effect>,
)
    requires
        call_ensures(ServerTask::handle_close, (task, offer_id), effects),
        old(task)@.inner.channels.contains_key(offer_id.0),
    ensures
        tells(effects@, offer_id, ChannelResponse::Close),
        final(task)@ == (TaskView { inner: final(task)@.inner, ..old(task)@ }),
        same_but_open(old(task)@.inner, final(task)@.inner, offer_id),
        final(task)@.inner.channels[offer_id.0].state is Closed,
{
    crate::laws::channels::law_completion_told(offer_id, ChannelResponse::Close);
}

/// The outcomes of GPADLs and moves are told as they are.
pub proof fn law_call_handle_completions(
    offer_id: OfferId,
    gpadl_id: GpadlId,
    ok: bool,
    status: i32,
    created: Vec<Effect>,
    torn_down: Vec<Effect>,
    modified: Vec<Effect>,
)
    requires
        call_ensures(ServerTask::handle_gpadl_create, (offer_id, gpadl_id, ok), created),
        call_ensures(ServerTask::handle_gpadl_teardown, (offer_id, gpadl_id), torn_down),
        call_ensures(ServerTask::handle_modify_channel, (offer_id, status), modified),
    ensures
        tells(created@, offer_id, ChannelResponse::Gpadl(gpadl_id, ok)),
        tells(torn_down@, offer_id, ChannelResponse::TeardownGpadl(gpadl_id)),
        tells(modified@, offer_id, ChannelResponse::Modify(status)),
{
    crate::laws::channels::law_completion_told(offer_id, ChannelResponse::Gpadl(gpadl_id, ok));
    crate::laws::channels::law_completion_told(offer_id, ChannelResponse::TeardownGpadl(gpadl_id));
    crate::laws::channels::law_completion_told(offer_id, ChannelResponse::Modify(status));
}

/// Whether a revoke has the effects and the consequences it should have: an offered channel, open
/// or not, is dropped and its revocation told; of another, nothing comes.
pub open spec fn revokes(
    v: TaskView,
    w: TaskView,
    offer_id: OfferId,
    effects: Seq<Effect>,
) -> bool {
    &&& w == (TaskView { inner: InnerView { channels: w.inner.channels, ..v.inner }, ..v })
    &&& w.inner.channels =~= v.inner.channels.remove(offer_id.0)
    &&& v.inner.channels.contains_key(offer_id.0) ==> {
        &&& effects.len() == 2
        &&& effects[0] == (Effect::ReleaseChannel { offer_id })
        &&& effects[1] == Effect::Server(ServerCall::RevokeChannel(offer_id))
    }
    &&& !v.inner.channels.contains_key(offer_id.0) ==> effects.len() == 0
}

/// A channel, open or not, is dropped by a revoke, and the channel state machine is told.
pub proof fn law_call_handle_revoke(
    task: &mut ServerTask,
    offer_id: OfferId,
    effects: Vec<Effect>,
)
    requires
        call_ensures(ServerTask::handle_revoke, (task, offer_id), effects),
    ensures
        revokes(old(task)@, final(task)@, offer_id, effects@),
{
}

/// The offer that goes to the channel state machine agrees with the device's in everything but the
/// use of the monitor page.
pub proof fn law_call_handle_offer<H: Host>(
    task: &ServerTask,
    info: OfferInfo<H>,
    monitor_supported: bool,
    offering: Offering<H>,
)
    requires
        call_ensures(ServerTask::handle_offer::<H>, (task, info, monitor_supported), offering),
    ensures
        puts(task@, info, monitor_supported, offering),
{
}

/// Whether an offer is put to the channel state machine as it should be: as it came, but that the
/// monitor page may only be used if this server handles it and the synic supports that. The
/// channel will be kept under the key of what is put, and as confidential if that says so.
pub open spec fn puts<H: Host>(
    v: TaskView,
    info: OfferInfo<H>,
    monitor_supported: bool,
    offering: Offering<H>,
) -> bool {
    let given = info.params;
    let put = offering.info.params;
    &&& put.interface_name == given.interface_name
    &&& put.interface_id == given.interface_id
    &&& put.instance_id == given.instance_id
    &&& put.subchannel_index == given.subchannel_index
    &&& put.mmio_megabytes == given.mmio_megabytes
    &&& put.mmio_megabytes_optional == given.mmio_megabytes_optional
    &&& put.offer_order == given.offer_order
    &&& put.flags == given.flags
    &&& put.user_defined == given.user_defined
    &&& put.use_mnf <==> given.use_mnf && v.inner.enable_mnf && monitor_supported
    &&& offering.info.event == info.event
    &&& offering.info.request_send == info.request_send
    &&& offering.info.server_request_recv == info.server_request_recv
    &&& offering.key.interface_id == put.interface_id
    &&& offering.key.instance_id == put.instance_id
    &&& offering.key.subchannel_index == put.subchannel_index
    &&& offering.confidential == put.flags.confidential_channel
}

/// An accepted offer adds its channel and is answered with success; a refused one adds nothing and
/// is answered with the reason.
pub proof fn law_call_offered<H: Host, Error>(
    task: &mut ServerTask,
    offering: Offering<H>,
    reply: H::OfferReply,
    result: Result<OfferId, Error>,
    outcome: OfferOutcome<H, Error>,
)
    requires
        call_ensures(ServerTask::offered::<H, Error>, (task, offering, reply, result), outcome),
        result is Ok ==> old(task)@.next_seq < u64::MAX,
    ensures
        outcome.reply == reply,
        match result {
            Ok(offer_id) => {
                let v = old(task)@;
                let w = final(task)@;
                &&& outcome.answer is Ok
                &&& outcome.added matches Some(added)
                &&& added.offer_id == offer_id
                &&& added.event == offering.info.event
                &&& added.request_send == offering.info.request_send
                &&& added.server_request_recv == offering.info.server_request_recv
                &&& w == (TaskView {
                    next_seq: w.next_seq,
                    inner: InnerView { channels: w.inner.channels, ..v.inner },
                    ..v
                })
                &&& w.next_seq == v.next_seq + 1
                &&& w.inner.channels.remove(offer_id.0) =~= v.inner.channels.remove(offer_id.0)
                &&& w.inner.channels.contains_key(offer_id.0)
                &&& w.inner.channels[offer_id.0] == (Channel {
                    key: offering.key,
                    seq: v.next_seq,
                    state: ChannelState::Closed,
                    confidential: offering.confidential,
                })
            },
            Err(error) => {
                &&& outcome.answer == Err::<(), Error>(error)
                &&& outcome.added is None
                &&& final(task)@ == old(task)@
            },
        },
{
}

/// A restored channel gets its well-formed GPADLs, and is opened if it is to be open; its device is
/// told of all GPADLs, and of the open. If it cannot be restored, nothing changes.
pub proof fn law_call_handle_restore_channel<Error>(
    task: &mut ServerTask,
    offer_id: OfferId,
    gpadls: Vec<RestoredGpadl>,
    restored: Result<Option<OpenParams>, Error>,
    monitor_supported: bool,
    r: Result<RestorePlan, Error>,
)
    requires
        call_ensures(
            ServerTask::handle_restore_channel::<Error>,
            (task, offer_id, gpadls, restored, monitor_supported),
            r,
        ),
        old(task)@.inner.channels.contains_key(offer_id.0),
    ensures
        r is Ok <==> restored is Ok,
        match restored {
            Err(error) => r->Err_0 == error && final(task)@ == old(task)@,
            Ok(None) => {
                let plan = r->Ok_0;
                &&& plan.gpadls == gpadls
                &&& plan.open_request is None
                &&& crate::task::restores_gpadls(offer_id, gpadls@, plan.effects@)
                &&& final(task)@ == old(task)@
            },
            Ok(Some(p)) => {
                let plan = r->Ok_0;
                let n = crate::task::valid_gpadls(gpadls@).len() as int;
                &&& plan.gpadls == gpadls
                &&& plan.open_request == Some(p.open_data)
                &&& n <= plan.effects@.len()
                &&& crate::task::restores_gpadls(offer_id, gpadls@, plan.effects@.take(n))
                &&& opens(
                    old(task)@.inner,
                    offer_id,
                    p,
                    monitor_supported,
                    plan.effects@.skip(n),
                )
                &&& final(task)@ == (TaskView { inner: final(task)@.inner, ..old(task)@ })
                &&& records_open(
                    old(task)@.inner,
                    final(task)@.inner,
                    offer_id,
                    p,
                    monitor_supported,
                )
            },
        },
{
    match restored {
        Ok(Some(p)) => {
            let plan = r->Ok_0;
            let n = crate::task::valid_gpadls(gpadls@).len() as int;
            let open = old(task)@.inner.open_effects(offer_id, p, monitor_supported);
            crate::laws::channels::law_open_steps(
                old(task)@.inner,
                offer_id,
                p,
                monitor_supported,
            );
            assert(plan.effects@.take(n).len() == n);
            assert(plan.effects@.skip(n) =~= open);
        },
        _ => {},
    }
}

/// A request changes whether the server is running or being reset, and calls the channel state
/// machine where it has to.
pub proof fn law_call_handle_request(
    task: &mut ServerTask,
    request: VmbusRequest,
    step: RequestStep,
)
    requires
        call_ensures(ServerTask::handle_request, (task, request), step),
    ensures
        obeys(old(task)@, final(task)@, request, step),
{
}

/// Whether a request is handled as it should be.
pub open spec fn obeys(
    v: TaskView,
    w: TaskView,
    request: VmbusRequest,
    step: RequestStep,
) -> bool {
    &&& w == (TaskView {
        running: w.running,
        inner: InnerView { reset_done: w.inner.reset_done, ..v.inner },
        ..v
    })
    &&& w.running <==> request is Start || (v.running && !(request is Stop))
    &&& w.inner.reset_done <==> request is Reset || v.inner.reset_done
    &&& request is Reset <==> step == RequestStep::Server(ServerCall::Reset)
    &&& request is Save <==> step is Save
    &&& request is Restore <==> step is Restore
    &&& request is PostRestore <==> step is PostRestore
    &&& request is Start || request is Stop <==> step is Done
    &&& request is Inspect <==> step is Report
    &&& step matches RequestStep::Report(report) ==> {
        &&& report.message_target_vp == v.inner.message_target.vp
        &&& report.running == v.running
        &&& report.hvsock_requests == v.inner.hvsock_requests
    }
}

/// The server waits for the guest, for hvsockets and for other servers only while it is running,
/// for the guest only while fewer than sixteen hvsocket requests are without an answer, and for
/// devices' answers also while it is being reset.
pub proof fn law_call_ready(task: &ServerTask, ready: Ready)
    requires
        call_ensures(ServerTask::ready, (task,), ready),
    ensures
        ready.external_requests <==> task@.running && task@.external_requests,
        ready.messages <==> task@.running && task@.inner.hvsock_requests < 16,
        ready.channel_responses <==> task@.running || task@.inner.reset_done,
        ready.hvsock_results <==> task@.running,
{
}

/// The outcome of an hvsocket request goes on as it is, and is counted as an answer.
pub proof fn law_call_handle_tl_connect_result<R>(task: &mut ServerTask, result: R, sent: R)
    requires
        call_ensures(ServerTask::handle_tl_connect_result::<R>, (task, result), sent),
        old(task)@.inner.hvsock_requests != 0,
    ensures
        sent == result,
        counts_answer(old(task)@, final(task)@),
{
}

/// Whether one hvsocket request fewer is without an answer, and nothing else has changed.
pub open spec fn counts_answer(v: TaskView, w: TaskView) -> bool {
    &&& w.inner.hvsock_requests == v.inner.hvsock_requests - 1
    &&& w == (TaskView {
        inner: InnerView { hvsock_requests: w.inner.hvsock_requests, ..v.inner },
        ..v
    })
}

/// One turn of the server's loop: each event is handled as it should be.
pub proof fn law_call_run_once<H: Host>(
    task: &mut ServerTask,
    event: Event<H>,
    monitor_supported: bool,
    step: LoopStep<H>,
)
    requires
        call_ensures(ServerTask::run_once::<H>, (task, event, monitor_supported), step),
        event is HvsockResult ==> old(task)@.inner.hvsock_requests != 0,
    ensures
        turns(old(task)@, final(task)@, event, monitor_supported, step),
{
    match event {
        Event::ChannelResponse(offer_id, seq, response) => {
            crate::laws::channels::law_answer_told(old(task)@, offer_id, seq, response);
            crate::laws::channels::law_answer_closes(old(task)@, offer_id, seq, response);
        },
        _ => {},
    }
}

/// Whether an event is handled as it should be.
pub open spec fn turns<H: Host>(
    v: TaskView,
    w: TaskView,
    event: Event<H>,
    monitor_supported: bool,
    step: LoopStep<H>,
) -> bool {
    match event {
        Event::Request(None) => step is Break && w == v,
        Event::Complete => step is Break && w == v,
        Event::Request(Some(request)) => step matches LoopStep::Request(taken) && obeys(
            v,
            w,
            request,
            taken,
        ),
        Event::Offer(OfferRequest::Offer(info, reply)) => {
            &&& w == v
            &&& step matches LoopStep::Offer(offering, to)
            &&& to == reply
            &&& puts(v, info, monitor_supported, offering)
        },
        Event::ServerRequest(offer_id, Some(ChannelServerRequest::Restore { open })) => {
            &&& w == v
            &&& step matches LoopStep::RestoreChannel { offer_id: id, open: o }
            &&& id == offer_id
            &&& o == open
        },
        Event::ServerRequest(offer_id, _) => step matches LoopStep::Effects(effects) && revokes(
            v,
            w,
            offer_id,
            effects@,
        ),
        Event::ChannelResponse(offer_id, seq, response) => step matches LoopStep::Effects(effects)
            && answered(v, w, offer_id, seq, response, effects@),
        Event::RelayResponse(response) => {
            &&& w == v
            &&& step matches LoopStep::CompleteModifyConnection(r)
            &&& r == response
        },
        Event::HvsockResult(result) => {
            &&& counts_answer(v, w)
            &&& step matches LoopStep::SendTlConnectResult(r)
            &&& r == result
        },
        Event::Message(message) => {
            &&& w == v
            &&& step matches LoopStep::HandleSynicMessage(m)
            &&& m == message
        },
        Event::ExternalRequest(request) => {
            &&& w == v
            &&& step matches LoopStep::InitiateContact(r)
            &&& r == request
        },
    }
}

/// Whether there is one attempt for each channel, and each begins as it should.
pub open spec fn attempts_all(
    attempts: Seq<(OfferId, Unstick)>,
    v: InnerView,
    force: bool,
) -> bool {
    &&& forall|i: int, j: int|
        0 <= i < j < attempts.len() ==> (#[trigger] attempts[i]).0.0 != (
        #[trigger] attempts[j]).0.0
    &&& forall|id: usize| #[trigger]
        v.channels.contains_key(id) ==> exists|i: int|
            0 <= i < attempts.len() && (#[trigger] attempts[i]).0.0 == id
    &&& forall|i: int|
        0 <= i < attempts.len() ==> v.channels.contains_key((#[trigger] attempts[i]).0.0)
            && begins(
            attempts[i].1,
            v.channels[attempts[i].0.0],
            force,
            v.trusted_memory,
        )
}

/// Waking up the channels starts one attempt for each of them.
pub proof fn law_call_unstick_channels(
    task: &ServerTask,
    force: bool,
    attempts: Vec<(OfferId, Unstick)>,
)
    requires
        call_ensures(ServerTask::unstick_channels, (task, force), attempts),
    ensures
        attempts_all(attempts@, task@.inner, force),
{
    crate::laws::requests::law_every_channel_attempted(attempts@, task@.inner, force);
}

/// Channels are woken by force on "force", as far as they wait on "true", and not at all on
/// "false" or without a setting. Any other setting is an error.
pub proof fn law_call_handle_unstick(
    task: &ServerTask,
    text: Option<String>,
    r: Result<(UnstickSetting, Vec<(OfferId, Unstick)>), UnstickSettingError>,
)
    requires
        call_ensures(ServerTask::handle_unstick, (task, text), r),
    ensures
        ({
            let forces = text is Some && text->0@ =~= seq!['f', 'o', 'r', 'c', 'e'];
            let enables = text is Some && text->0@ =~= seq!['t', 'r', 'u', 'e'];
            let disables = text is None || text->0@ =~= seq!['f', 'a', 'l', 's', 'e'];
            &&& r is Ok <==> forces || enables || disables
            &&& forces ==> r->Ok_0.0 is Force && attempts_all(r->Ok_0.1@, task@.inner, true)
            &&& enables ==> r->Ok_0.0 == UnstickSetting::Enabled(true) && attempts_all(
                r->Ok_0.1@,
                task@.inner,
                false,
            )
            &&& disables ==> r->Ok_0.0 == UnstickSetting::Enabled(false) && r->Ok_0.1@.len() == 0
        }),
{
    let shown = match text {
        Some(text) => Some(text@),
        None => None,
    };
    crate::laws::requests::law_unstick_setting(shown);
    if r is Ok {
        let attempts = r->Ok_0.1@;
        match r->Ok_0.0 {
            UnstickSetting::Force => {
                crate::laws::requests::law_every_channel_attempted(attempts, task@.inner, true);
            },
            UnstickSetting::Enabled(true) => {
                crate::laws::requests::law_every_channel_attempted(attempts, task@.inner, false);
            },
            UnstickSetting::Enabled(false) => {},
        }
    }
}

/// What a device answers becomes a response of the same kind and content, under the ID and the
/// sequence number that the request was sent with.
pub proof fn law_call_complete(
    pending: PendingResponse,
    reply: Result<DeviceReply, RecvError>,
    r: (OfferId, u64, Result<ChannelResponse, RecvError>),
)
    requires
        call_ensures(PendingResponse::complete, (pending, reply), r),
        reply matches Ok(reply) ==> pending.expects(reply),
    ensures
        r.0 == pending.offer_id,
        r.1 == pending.seq,
        r.2 is Ok <==> reply is Ok,
        reply matches Ok(reply) ==> match pending.kind {
            PendingKind::Open => reply is Opened && r.2->Ok_0 == ChannelResponse::Open(
                reply->Opened_0,
            ),
            PendingKind::Close => reply is Closed && r.2->Ok_0 == ChannelResponse::Close,
            PendingKind::Gpadl(id) => reply is GpadlCreated && r.2->Ok_0 == ChannelResponse::Gpadl(
                id,
                reply->GpadlCreated_0,
            ),
            PendingKind::TeardownGpadl(id) => reply is GpadlTornDown && r.2->Ok_0
                == ChannelResponse::TeardownGpadl(id),
            PendingKind::Modify => reply is Modified && r.2->Ok_0 == ChannelResponse::Modify(
                reply->Modified_0,
            ),
        },
{
}

/// What is asked of a server's state is what the state holds.
pub proof fn law_call_queries(
    task: &ServerTask,
    inner: &ServerTaskInner,
    of_task: &ServerTaskInner,
    seq: u64,
    vp: u32,
    requests: usize,
    resetting: bool,
)
    ensures
        call_ensures(ServerTask::inner, (task,), of_task) ==> of_task@ == task@.inner,
        call_ensures(ServerTask::next_seq, (task,), seq) ==> seq == task@.next_seq,
        call_ensures(ServerTaskInner::message_vp, (inner,), vp) ==> vp == inner@.message_target.vp,
        call_ensures(ServerTaskInner::hvsock_requests, (inner,), requests) ==> requests
            == inner@.hvsock_requests,
        call_ensures(ServerTaskInner::resetting, (inner,), resetting) ==> resetting
            == inner@.reset_done,
{
}

/// A new task is not running, has made no offer, and has the state it was made with.
pub proof fn law_call_new_task(inner: ServerTaskInner, external_requests: bool, task: ServerTask)
    requires
        call_ensures(ServerTask::new, (inner, external_requests), task),
    ensures
        !task@.running,
        task@.next_seq == 0,
        task@.external_requests == external_requests,
        task@.inner == inner@,
{
}

} // verus!
