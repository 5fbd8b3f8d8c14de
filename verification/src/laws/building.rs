//! What building a server, offering to it, and the values around it come to.

use crate::builder::BuildPlan;
use crate::builder::PortStep;
use crate::builder::VmbusServerBuilder;
use crate::channel::Channel;
use crate::host::Host;
use crate::laws::rings::begins;
use crate::offer::OfferInfo;
use crate::offer::OfferInput;
use crate::offer::OfferParamsInternal;
use crate::offer::OfferRequest;
use crate::offer::OfferResources;
use crate::offer::PendingOffer;
use crate::offer::VmbusServerControl;
use crate::protocol::GpadlRequest;
use crate::protocol::OfferKey;
use crate::protocol::Vtl;
use crate::relay::Answerer;
use crate::relay::ConnectionState;
use crate::relay::FeatureFlags;
use crate::relay::HvsockVerdict;
use crate::relay::ModifyConnectionResponse;
use crate::relay::ModifyRelayRequest;
use crate::relay::RelayChannel;
use crate::resolver::DeviceConfig;
use crate::resolver::PendingDevice;
use crate::resolver::ResolveEndpointParams;
use crate::resolver::VirtioNetHandle;
use crate::resolver::VirtioNetResolver;
use crate::resolver::VirtioResolveInput;
use crate::rings::Ring;
use crate::rings::RingEnd;
use crate::rings::Unstick;
use crate::rings::UnstickError;
use crate::rings::Wake;
use crate::server::MessageSender;
use crate::server::SavedState;
use crate::server::SynicMessage;
use crate::server::VmbusServer;
use crate::task::VmbusRequest;
use vstd::prelude::*;

verus! {

/// A server is built of what its builder was given. Its message port is where its control plane is
/// reached, and takes messages of several clients exactly if it is redirected. The server that is
/// reached at the standard connection ID, and no other, has a second port for several clients.
pub proof fn law_call_build<'a, H: Host>(b: VmbusServerBuilder<'a, H>, plan: BuildPlan<'a, H>)
    requires
        call_ensures(VmbusServerBuilder::<'a, H>::build, (b,), plan),
    ensures
        ({
            let standard = b.vtl is Vtl0 && !b.use_message_redirect;
            let port = plan.message_port;
            &&& b.use_message_redirect ==> port.connection_id == 0x80_0074 && port.vtl is Vtl2
            &&& !b.use_message_redirect ==> port.vtl == b.vtl && port.connection_id == (match b.vtl {
                Vtl::Vtl0 => 1u32,
                Vtl::Vtl1 => 0x40_0024,
                Vtl::Vtl2 => 0x80_0024,
            })
            &&& port.multiclient == b.use_message_redirect
            &&& plan.multiclient_message_port is Some <==> standard
            &&& plan.multiclient_message_port matches Some(second) ==> {
                &&& second.connection_id == 4
                &&& second.vtl is Vtl0
                &&& second.multiclient
            }
        }),
        ({
            &&& plan.spawner == b.spawner
            &&& plan.synic == b.synic
            &&& plan.gm == b.gm
            &&& plan.trusted_gm == b.trusted_gm
            &&& plan.relay == b.server_relay
            &&& plan.hvsock == b.hvsock_notify
            &&& plan.external_server == b.external_server
            &&& plan.external_requests == b.external_requests
            &&& plan.message_queue_len == 64
        }),
        ({
            &&& plan.server.vtl == b.vtl
            &&& plan.server.message_connection_id == plan.message_port.connection_id
            &&& plan.server.channel_id_offset == b.channel_id_offset
            &&& plan.server.version_limit is Some <==> b.max_version is Some
            &&& plan.server.version_limit matches Some(limit) ==> limit.version == b.max_version->0
                && limit.delay == b.delay_max_version
        }),
        ({
            let task = plan.task@;
            let inner = task.inner;
            &&& !task.running
            &&& task.next_seq == 0
            &&& task.external_requests == (b.external_requests is Some)
            &&& inner.vtl == b.vtl
            &&& inner.redirect_vtl == plan.message_port.vtl
            &&& inner.message_target.vp == 0
            &&& inner.message_target.sint == (if b.use_message_redirect { 7u8 } else { 2 })
            &&& inner.hvsock_requests == 0
            &&& inner.channels.dom() =~= Set::empty()
            &&& inner.external_server == (b.external_server is Some)
            &&& !inner.channel_bitmap
            &&& !inner.shared_event_port
            &&& !inner.reset_done
            &&& inner.enable_mnf == b.enable_mnf
            &&& inner.trusted_memory == (b.trusted_gm is Some)
        }),
{
    crate::laws::connection::law_control_plane_reached(b);
}

/// A new builder has the options that a plain server for level zero is built with.
pub proof fn law_call_builder<'a, H: Host>(
    spawner: &'a H::Spawner,
    synic: H::Synic,
    gm: H::GuestMemory,
    b: VmbusServerBuilder<'a, H>,
)
    requires
        call_ensures(VmbusServerBuilder::<'a, H>::new, (spawner, synic, gm), b)
            || call_ensures(VmbusServer::<H>::builder, (spawner, synic, gm), b),
    ensures
        ({
            &&& b.spawner == spawner
            &&& b.synic == synic
            &&& b.gm == gm
            &&& b.trusted_gm is None
            &&& b.vtl is Vtl0
            &&& b.hvsock_notify is None
            &&& b.server_relay is None
            &&& b.external_server is None
            &&& b.external_requests is None
            &&& !b.use_message_redirect
            &&& b.channel_id_offset == 0
            &&& b.max_version is None
            &&& !b.delay_max_version
            &&& !b.enable_mnf
        }),
{
}

/// Each option of a builder sets just what it is for.
pub proof fn law_call_options<'a, H: Host>(
    b: VmbusServerBuilder<'a, H>,
    gm: Option<H::GuestMemory>,
    vtl: Vtl,
    hvsock: Option<H::HvsockChannel>,
    relay: Option<H::RelayChannel>,
    requests: Option<H::ExternalReceiver>,
    server: Option<H::ExternalSender>,
    version: Option<u32>,
    on: bool,
    c: VmbusServerBuilder<'a, H>,
)
    ensures
        call_ensures(VmbusServerBuilder::<'a, H>::trusted_gm, (b, gm), c) ==> c
            == (VmbusServerBuilder { trusted_gm: gm, ..b }),
        call_ensures(VmbusServerBuilder::<'a, H>::vtl, (b, vtl), c) ==> c == (VmbusServerBuilder {
            vtl,
            ..b
        }),
        call_ensures(VmbusServerBuilder::<'a, H>::hvsock_notify, (b, hvsock), c) ==> c
            == (VmbusServerBuilder { hvsock_notify: hvsock, ..b }),
        call_ensures(VmbusServerBuilder::<'a, H>::server_relay, (b, relay), c) ==> c
            == (VmbusServerBuilder { server_relay: relay, ..b }),
        call_ensures(VmbusServerBuilder::<'a, H>::external_requests, (b, requests), c) ==> c
            == (VmbusServerBuilder { external_requests: requests, ..b }),
        call_ensures(VmbusServerBuilder::<'a, H>::external_server, (b, server), c) ==> c
            == (VmbusServerBuilder { external_server: server, ..b }),
        call_ensures(VmbusServerBuilder::<'a, H>::use_message_redirect, (b, on), c) ==> c
            == (VmbusServerBuilder { use_message_redirect: on, ..b }),
        call_ensures(VmbusServerBuilder::<'a, H>::enable_channel_id_offset, (b, on), c) ==> c
            == (VmbusServerBuilder {
            channel_id_offset: if on { 1024u16 } else { 0 },
            ..b
        }),
        call_ensures(VmbusServerBuilder::<'a, H>::max_version, (b, version), c) ==> c
            == (VmbusServerBuilder { max_version: version, ..b }),
        call_ensures(VmbusServerBuilder::<'a, H>::delay_max_version, (b, on), c) ==> c
            == (VmbusServerBuilder { delay_max_version: on, ..b }),
        call_ensures(VmbusServerBuilder::<'a, H>::enable_mnf, (b, on), c) ==> c
            == (VmbusServerBuilder { enable_mnf: on, ..b }),
{
}

/// The second message port is added after the first, if there is to be one; when both are added,
/// each is in its place. The first that cannot be added is the reason that there is no server.
pub proof fn law_call_ports<'a, H: Host>(
    plan: &BuildPlan<'a, H>,
    first: Result<H::MessagePort, H::SynicError>,
    then: PortStep<H>,
    port: H::MessagePort,
    second: Result<H::MessagePort, H::SynicError>,
    end: PortStep<H>,
)
    requires
        call_ensures(BuildPlan::<'a, H>::message_port_added, (plan, first), then),
        call_ensures(
            BuildPlan::<'a, H>::multiclient_message_port_added,
            (port, second),
            end,
        ),
    ensures
        match first {
            Err(error) => then is Failed && then->Failed_0 == error,
            Ok(added) => match plan.multiclient_message_port {
                Some(request) => then is AddMulticlient && then->AddMulticlient_0 == request
                    && then->AddMulticlient_1 == added,
                None => then is Added && then->Added_0.message_port == added
                    && then->Added_0.multiclient_message_port is None,
            },
        },
        match second {
            Err(error) => end is Failed && end->Failed_0 == error,
            Ok(added) => end is Added && end->Added_0.message_port == port
                && end->Added_0.multiclient_message_port == Some(added),
        },
{
}

/// Without a relay, a relay request succeeds with every feature; without a notifier, an hvsocket
/// request is refused. With one, the answer is up to it.
pub proof fn law_call_answers<'a, H: Host, Request>(
    plan: &BuildPlan<'a, H>,
    relayed: ModifyRelayRequest,
    response: Option<ModifyConnectionResponse>,
    request: Request,
    verdict: Option<HvsockVerdict<Request>>,
)
    requires
        call_ensures(BuildPlan::<'a, H>::relay_answer, (plan, &relayed), response),
        call_ensures(BuildPlan::<'a, H>::hvsock_answer::<Request>, (plan, request), verdict),
    ensures
        plan.relay is Some <==> response is None,
        response matches Some(response) ==> response == ModifyConnectionResponse::Supported(
            ConnectionState::Successful,
            FeatureFlags::All,
        ),
        plan.hvsock is Some <==> verdict is None,
        verdict matches Some(verdict) ==> verdict.request == request && !verdict.success,
{
}

/// The answers that stand in place of a relay and of a notifier.
pub proof fn law_call_default_answers<Request>(
    relayed: ModifyRelayRequest,
    response: ModifyConnectionResponse,
    request: Request,
    verdict: HvsockVerdict<Request>,
)
    requires
        call_ensures(crate::relay::default_relay_response, (&relayed,), response),
        call_ensures(crate::relay::default_hvsock_response::<Request>, (request,), verdict),
    ensures
        response == ModifyConnectionResponse::Supported(
            ConnectionState::Successful,
            FeatureFlags::All,
        ),
        verdict.request == request,
        !verdict.success,
{
}

/// A relay channel crosses its two channels over: what one side sends on, the other receives from.
pub proof fn law_call_relay_channel<A, B, C, D>(
    requests: (A, B),
    responses: (C, D),
    channel: RelayChannel<A, B, C, D>,
)
    requires
        call_ensures(RelayChannel::<A, B, C, D>::new, (requests, responses), channel),
    ensures
        channel.server_half.request_send == requests.0,
        channel.relay_half.request_receive == requests.1,
        channel.relay_half.response_send == responses.0,
        channel.server_half.response_receive == responses.1,
{
}

/// Each call of a running server is the request of its name.
pub proof fn law_call_requests<H: Host>(
    server: &VmbusServer<H>,
    state: SavedState<H>,
    request: VmbusRequest,
    restored: (VmbusRequest, H::ServerState),
)
    ensures
        call_ensures(VmbusServer::<H>::save, (server,), request) ==> request is Save,
        call_ensures(VmbusServer::<H>::post_restore, (server,), request) ==> request is PostRestore,
        call_ensures(VmbusServer::<H>::stop, (server,), request) ==> request is Stop,
        call_ensures(VmbusServer::<H>::start, (server,), request) ==> request is Start,
        call_ensures(VmbusServer::<H>::reset, (server,), request) ==> request is Reset,
        call_ensures(VmbusServer::<H>::restore, (server, state), restored) ==> restored.0 is Restore
            && restored.1 == state.server(),
{
}

/// What is saved can be restored as it was.
pub proof fn law_call_saved<H: Host>(
    saved: H::ServerState,
    state: SavedState<H>,
    server: &VmbusServer<H>,
    restored: (VmbusRequest, H::ServerState),
    unwrapped: H::ServerState,
)
    requires
        call_ensures(SavedState::<H>::new, (saved,), state),
        call_ensures(VmbusServer::<H>::restore, (server, state), restored),
        call_ensures(SavedState::<H>::into_server, (state,), unwrapped),
    ensures
        restored.1 == saved,
        unwrapped == saved,
{
}

/// The task that a shutdown waits for, and the control point, are the server's own.
pub proof fn law_call_server_parts<H: Host>(
    server: VmbusServer<H>,
    task: H::Task,
    control: &VmbusServerControl<H>,
)
    requires
        call_ensures(VmbusServer::<H>::shutdown, (server,), task),
        call_ensures(VmbusServer::<H>::control, (&server,), control),
    ensures
        task == server.task,
        *control == server.control,
{
}

/// A child message connection ID has bit two set, the interrupt source from bit four on, the
/// processor from bit eight on, and the level from bit twenty-two on, and no other bit.
pub proof fn law_call_child_connection_id<H: Host>(
    vp_index: u32,
    sint_index: u8,
    vtl: Vtl,
    id: u32,
)
    requires
        call_ensures(
            VmbusServer::<H>::get_child_message_connection_id,
            (vp_index, sint_index, vtl),
            id,
        ),
    ensures
        ({
            let level: u32 = if vtl is Vtl0 {
                0
            } else if vtl is Vtl1 {
                1
            } else {
                2
            };
            let sint = sint_index as u32;
            id == (4u32 | (level << 22) | (vp_index << 8) | (sint << 4))
        }),
{
}

/// A message of the guest is queued as it is, with where it came in and whether it is trusted.
pub proof fn law_call_handle_message<Queue>(
    sender: &MessageSender<Queue>,
    data: &[u8],
    trusted: bool,
    message: SynicMessage,
)
    requires
        call_ensures(MessageSender::<Queue>::handle_message, (sender, data, trusted), message),
    ensures
        message.data@ == data@,
        message.multiclient == sender.multiclient,
        message.trusted == trusted,
{
}

/// A device's offer is made as the device made it, except that it is confidential.
pub proof fn law_call_offer<H: Host>(
    control: &VmbusServerControl<H>,
    request: OfferInput<H>,
    info: OfferInfo<H>,
)
    requires
        call_ensures(VmbusServerControl::<H>::offer, (control, request), info),
    ensures
        ({
            let given = request.params;
            let made = info.params;
            &&& made.interface_name == given.interface_name
            &&& made.instance_id == given.instance_id
            &&& made.interface_id == given.interface_id
            &&& made.mmio_megabytes == given.mmio_megabytes
            &&& made.mmio_megabytes_optional == given.mmio_megabytes_optional
            &&& made.subchannel_index == given.subchannel_index
            &&& made.use_mnf == given.use_mnf
            &&& made.offer_order == given.offer_order
            &&& made.user_defined == given.user_defined
            &&& made.flags.confidential_channel
            &&& made.flags.enumerate_device_interface
                == given.type_flags.enumerate_device_interface
            &&& made.flags.other == given.type_flags.other
            &&& info.event == request.event
            &&& info.request_send == request.request_send
            &&& info.server_request_recv == request.server_request_recv
        }),
{
}

/// An offer goes to the server as it is. If the server accepts it, the device gets the trusted
/// memory exactly if the offer was confidential and there is one, and else the shared one; if not,
/// it gets the server's error.
pub proof fn law_call_offer_core<H: Host, Error>(
    control: &VmbusServerControl<H>,
    info: OfferInfo<H>,
    reply: H::OfferReply,
    sent: (OfferRequest<H>, PendingOffer),
    answer: Result<(), Error>,
    r: Result<OfferResources<&H::GuestMemory>, Error>,
)
    requires
        call_ensures(VmbusServerControl::<H>::offer_core, (control, info, reply), sent),
        call_ensures(VmbusServerControl::<H>::offered::<Error>, (control, sent.1, answer), r),
    ensures
        sent.0 == OfferRequest::<H>::Offer(info, reply),
        r is Ok <==> answer is Ok,
        answer is Err ==> r->Err_0 == answer->Err_0,
        answer is Ok ==> *r->Ok_0.guest_mem == (if info.params.flags.confidential_channel
            && control.trusted_mem is Some {
            control.trusted_mem->0
        } else {
            control.mem
        }),
{
}

/// The key of an offer is made of its interface, its instance and its subchannel.
pub proof fn law_call_key(params: &OfferParamsInternal, key: OfferKey)
    requires
        call_ensures(OfferParamsInternal::key, (params,), key),
    ensures
        key.interface_id == params.interface_id,
        key.instance_id == params.instance_id,
        key.subchannel_index == params.subchannel_index,
{
}

/// A network device is resolved on its backend, which is told the device's address. The device has
/// that address, the limit on queues of its description, and the driver source and guest memory
/// it was given. If the backend cannot be resolved, neither can the device.
pub proof fn law_call_resolve<Endpoint, Backend, Driver, Memory, Error>(
    resolver: &VirtioNetResolver,
    resource: VirtioNetHandle<Endpoint>,
    input: VirtioResolveInput<Driver, Memory>,
    started: (Endpoint, ResolveEndpointParams, PendingDevice<Driver, Memory>),
    endpoint: Result<Backend, Error>,
    device: Result<DeviceConfig<Backend, Driver, Memory>, Error>,
)
    requires
        call_ensures(
            VirtioNetResolver::resolve::<Endpoint, Driver, Memory>,
            (resolver, resource, input),
            started,
        ),
        call_ensures(
            VirtioNetResolver::resolved::<Backend, Driver, Memory, Error>,
            (resolver, started.2, endpoint),
            device,
        ),
    ensures
        started.0 == resource.endpoint,
        started.1.mac_address == resource.mac_address,
        device is Ok <==> endpoint is Ok,
        endpoint is Err ==> device->Err_0 == endpoint->Err_0,
        endpoint is Ok ==> {
            let built = device->Ok_0;
            &&& built.endpoint == endpoint->Ok_0
            &&& built.mac_address == resource.mac_address
            &&& built.max_queues == resource.max_queues
            &&& built.input.driver_source == input.driver_source
            &&& built.input.guest_memory == input.guest_memory
        },
{
}

/// An attempt to wake both ends of a channel begins by what the channel is.
pub proof fn law_call_unstick_channel(
    channel: &Channel,
    force: bool,
    trusted_memory: bool,
    first: Unstick,
)
    requires
        call_ensures(Unstick::unstick_channel, (channel, force, trusted_memory), first),
    ensures
        begins(first, *channel, force, trusted_memory),
{
    crate::laws::rings::law_attempt_begins(*channel, force, trusted_memory);
}

/// The host is woken where it reads the incoming ring or writes the outgoing one, and the guest at
/// the other ends.
pub proof fn law_call_wake(step: Unstick, wake: Option<Wake>)
    requires
        call_ensures(Unstick::wake, (step,), wake),
    ensures
        wake == (match step {
            Unstick::Force(end) => Some(end),
            Unstick::Signal(Ring::Incoming, RingEnd::Reader, _) => Some(Wake::Host),
            Unstick::Signal(Ring::Incoming, RingEnd::Writer, _) => Some(Wake::Guest),
            Unstick::Signal(Ring::Outgoing, RingEnd::Reader, _) => Some(Wake::Guest),
            Unstick::Signal(Ring::Outgoing, RingEnd::Writer, _) => Some(Wake::Host),
            _ => None,
        }),
{
}

/// Both rings are looked at, the incoming one first; at each the reader is probed and then the
/// writer, and who waits is woken. A ring that cannot be mapped does not keep the other from being
/// looked at; rings that cannot be found end the attempt with the reason.
pub proof fn law_call_next(step: Unstick, ok: bool, next: Unstick)
    requires
        call_ensures(Unstick::next, (step, ok), next),
    ensures
        match step {
            Unstick::FindGpadl { offset, memory, .. } => if ok {
                next == (Unstick::Align { offset, memory })
            } else {
                next == Unstick::Done(Err(UnstickError::RingGpadlNotFound))
            },
            Unstick::Align { offset, memory } => if ok {
                next == (Unstick::Split { offset, memory })
            } else {
                next == Unstick::Done(Err(UnstickError::RingNotAligned))
            },
            Unstick::Split { memory, .. } => if ok {
                next == Unstick::MapRing(Ring::Incoming, memory)
            } else {
                next == Unstick::Done(Err(UnstickError::CannotSplitRing))
            },
            Unstick::MapRing(ring, memory) => if ok {
                next == Unstick::Probe(ring, RingEnd::Reader, memory)
            } else if ring is Incoming {
                next == Unstick::MapRing(Ring::Outgoing, memory)
            } else {
                next == Unstick::Done(Ok(()))
            },
            Unstick::Probe(ring, end, memory) => if ok {
                next == Unstick::Signal(ring, end, memory)
            } else if end is Reader {
                next == Unstick::Probe(ring, RingEnd::Writer, memory)
            } else if ring is Incoming {
                next == Unstick::MapRing(Ring::Outgoing, memory)
            } else {
                next == Unstick::Done(Ok(()))
            },
            Unstick::Signal(ring, end, memory) => if end is Reader {
                next == Unstick::Probe(ring, RingEnd::Writer, memory)
            } else if ring is Incoming {
                next == Unstick::MapRing(Ring::Outgoing, memory)
            } else {
                next == Unstick::Done(Ok(()))
            },
            Unstick::Force(end) => if end is Host {
                next == Unstick::Force(Wake::Guest)
            } else {
                next == Unstick::Done(Ok(()))
            },
            Unstick::Done(result) => next == Unstick::Done(result),
        },
{
}

/// Of the rings that were found, those are reported that could be mapped, the incoming one first.
pub proof fn law_call_inspect_rings(mapped: Option<(bool, bool)>, rings: Option<Vec<Ring>>)
    requires
        call_ensures(crate::rings::inspect_rings, (mapped,), rings),
    ensures
        rings is Some <==> mapped is Some,
        mapped matches Some((incoming, outgoing)) ==> {
            let reported = rings->0@;
            &&& reported.contains(Ring::Incoming) <==> incoming
            &&& reported.contains(Ring::Outgoing) <==> outgoing
            &&& reported.no_duplicates()
            &&& incoming ==> reported[0] == Ring::Incoming
        },
{
    crate::laws::rings::law_rings_reported(mapped);
}

/// Whatever a server does from when it is built, no two channels it offers have the same sequence
/// number, and none has one that is still to be given.
pub proof fn law_sequence_numbers_apart<'a, H: Host>(
    b: VmbusServerBuilder<'a, H>,
    plan: BuildPlan<'a, H>,
    ts: Seq<crate::laws::Transition<H>>,
)
    requires
        call_ensures(VmbusServerBuilder::<'a, H>::build, (b,), plan),
        plan.task@.allows_all(ts),
    ensures
        ({
            let later = plan.task@.apply_all(ts);
            let channels = later.inner.channels;
            &&& forall|x: usize, y: usize|
                #![trigger channels[x], channels[y]]
                channels.contains_key(x) && channels.contains_key(y) && channels[x].seq
                    == channels[y].seq ==> x == y
            &&& forall|x: usize| #[trigger]
                channels.contains_key(x) ==> channels[x].seq < later.next_seq
        }),
{
    crate::laws::law_wf_kept(plan.task@, ts);
}

/// The control point has copies of the server's memories, and what it was given.
pub proof fn law_call_control<'a, H: Host>(
    plan: &BuildPlan<'a, H>,
    send: H::OfferSender,
    use_event: bool,
    control: VmbusServerControl<H>,
    uses: bool,
) where H::GuestMemory: Clone
    requires
        call_ensures(BuildPlan::<'a, H>::control, (plan, send, use_event), control),
        call_ensures(VmbusServerControl::<H>::use_event, (&control,), uses),
    ensures
        cloned(plan.gm, control.mem),
        control.trusted_mem is Some <==> plan.trusted_gm is Some,
        plan.trusted_gm is Some ==> cloned(plan.trusted_gm->0, control.trusted_mem->0),
        control.send == send,
        control.use_event == use_event,
        uses == use_event,
{
}

/// Requests are answered by default exactly where there is no one else to answer them.
pub proof fn law_call_answerers<'a, H: Host>(
    plan: &BuildPlan<'a, H>,
    relay: Answerer,
    hvsock: Answerer,
)
    requires
        call_ensures(BuildPlan::<'a, H>::relay_answerer, (plan,), relay),
        call_ensures(BuildPlan::<'a, H>::hvsock_answerer, (plan,), hvsock),
    ensures
        relay is Default <==> plan.relay is None,
        hvsock is Default <==> plan.hvsock is None,
{
}

/// The default answers are given exactly where they are wanted.
pub proof fn law_call_answerer<Request>(
    answerer: Answerer,
    relayed: ModifyRelayRequest,
    response: Option<ModifyConnectionResponse>,
    request: Request,
    verdict: Option<HvsockVerdict<Request>>,
)
    requires
        call_ensures(Answerer::relay_answer, (answerer, &relayed), response),
        call_ensures(Answerer::hvsock_answer::<Request>, (answerer, request), verdict),
    ensures
        response is Some <==> answerer is Default,
        response matches Some(response) ==> response == ModifyConnectionResponse::Supported(
            ConnectionState::Successful,
            FeatureFlags::All,
        ),
        verdict is Some <==> answerer is Default,
        verdict matches Some(verdict) ==> verdict.request == request && !verdict.success,
{
}

/// Trust levels are numbered from zero, and a copy of a GPADL describes the same pages.
pub proof fn law_call_plain_values(vtl: Vtl, n: u32, gpadl: GpadlRequest, copy: GpadlRequest)
    requires
        call_ensures(Vtl::number, (vtl,), n),
        call_ensures(GpadlRequest::duplicate, (&gpadl,), copy),
    ensures
        n == (match vtl {
            Vtl::Vtl0 => 0u32,
            Vtl::Vtl1 => 1,
            Vtl::Vtl2 => 2,
        }),
        copy.id == gpadl.id,
        copy.count == gpadl.count,
        copy.buf@ == gpadl.buf@,
{
}

} // verus!
