//! Building a server, offering channels to it, and running it.

use vmbus_server::builder::BuildPlan;
use vmbus_server::builder::MessagePortRequest;
use vmbus_server::builder::PortStep;
use vmbus_server::builder::ServerParams;
use vmbus_server::builder::VersionLimit;
use vmbus_server::builder::VmbusServerBuilder;
use vmbus_server::channel::ChannelResponse;
use vmbus_server::channel::ChannelState;
use vmbus_server::effect::Effect;
use vmbus_server::effect::ServerCall;
use vmbus_server::host::Host;
use vmbus_server::inner::Forwarded;
use vmbus_server::offer::MemoryChoice;
use vmbus_server::offer::OfferInfo;
use vmbus_server::offer::OfferInput;
use vmbus_server::offer::OfferParams;
use vmbus_server::offer::OfferParamsInternal;
use vmbus_server::offer::OfferRequest;
use vmbus_server::offer::PendingOffer;
use vmbus_server::offer::VmbusServerControl;
use vmbus_server::protocol::Action;
use vmbus_server::protocol::ConnectionTarget;
use vmbus_server::protocol::GpadlId;
use vmbus_server::protocol::Guid;
use vmbus_server::protocol::ModifyConnectionRequest;
use vmbus_server::protocol::OfferFlags;
use vmbus_server::protocol::OfferId;
use vmbus_server::protocol::OpenChannelFlags;
use vmbus_server::protocol::OpenData;
use vmbus_server::protocol::OpenParams;
use vmbus_server::protocol::Update;
use vmbus_server::protocol::Vtl;
use vmbus_server::protocol::OPEN_DATA_OTHER_LEN;
use vmbus_server::relay::Answerer;
use vmbus_server::relay::ConnectionState;
use vmbus_server::relay::FeatureFlags;
use vmbus_server::relay::HvsockVerdict;
use vmbus_server::relay::ModifyConnectionResponse;
use vmbus_server::relay::ModifyRelayRequest;
use vmbus_server::rings::Unstick;
use vmbus_server::rings::Wake;
use vmbus_server::server::MessageSender;
use vmbus_server::server::SavedState;
use vmbus_server::server::SynicMessage;
use vmbus_server::server::VmbusServer;
use vmbus_server::task::ChannelServerRequest;
use vmbus_server::task::Event;
use vmbus_server::task::InspectReport;
use vmbus_server::task::LoopStep;
use vmbus_server::task::Ready;
use vmbus_server::task::RequestStep;
use vmbus_server::task::ServerTask;
use vmbus_server::task::UnstickSetting;
use vmbus_server::task::UnstickSettingError;
use vmbus_server::task::VmbusRequest;

struct Vm;

impl Host for Vm {
    type Spawner = &'static str;
    type Synic = u8;
    type GuestMemory = u16;
    type HvsockChannel = char;
    type RelayChannel = bool;
    type ExternalSender = u32;
    type ExternalReceiver = u64;
    type MessagePort = u8;
    type TaskSender = ();
    type Task = &'static str;
    type OfferSender = ();
    type Interrupt = i8;
    type RequestSender = i16;
    type ServerRequestReceiver = i32;
    type OfferReply = i64;
    type ServerState = Vec<u8>;
    type ContactRequest = &'static str;
    type HvsockResult = &'static str;
    type MemoryError = ();
    type SynicError = &'static str;
    type MonitorError = ();
}

fn builder() -> VmbusServerBuilder<'static, Vm> {
    VmbusServer::<Vm>::builder(&"spawner", 5, 100)
}

fn id(data1: u32) -> Guid {
    Guid { data1, data2: 0, data3: 0, data4: [0; 8] }
}

fn flags() -> OfferFlags {
    OfferFlags { enumerate_device_interface: true, confidential_channel: false, other: 0x20 }
}

fn params(use_mnf: bool) -> OfferParamsInternal {
    OfferParamsInternal {
        interface_name: "test".to_string(),
        instance_id: id(1),
        interface_id: id(2),
        mmio_megabytes: 3,
        mmio_megabytes_optional: 4,
        subchannel_index: 5,
        use_mnf,
        offer_order: Some(6),
        flags: flags(),
        user_defined: vec![7],
    }
}

fn info(use_mnf: bool) -> OfferInfo<Vm> {
    OfferInfo { params: params(use_mnf), event: 1, request_send: 2, server_request_recv: 3 }
}

fn control(trusted_mem: Option<u16>) -> VmbusServerControl<Vm> {
    VmbusServerControl { mem: 100, trusted_mem, send: (), use_event: true }
}

fn server() -> VmbusServer<Vm> {
    VmbusServer {
        task_send: (),
        control: control(None),
        message_port: 10,
        multiclient_message_port: None,
        task: "task",
    }
}

fn running_task() -> ServerTask {
    let mut task = builder().external_requests(Some(9)).build().task;
    task.handle_request(VmbusRequest::Start);
    task
}

fn offer(task: &mut ServerTask, id: usize) {
    let offering = task.handle_offer(info(false), false);
    let result: Result<_, ()> = Ok(OfferId(id));
    let added = task.offered(offering, 0, result).added.unwrap();
    assert_eq!(added.offer_id, OfferId(id));
    assert_eq!((added.event, added.request_send, added.server_request_recv), (1, 2, 3));
}

fn open(task: &mut ServerTask, id: usize) {
    let params = OpenParams {
        open_data: OpenData {
            target_vp: 0,
            ring_gpadl_id: GpadlId(1),
            ring_offset: 2,
            other: [9; OPEN_DATA_OTHER_LEN],
        },
        connection_id: 1,
        event_flag: 1,
        monitor_id: None,
        flags: OpenChannelFlags { redirect_interrupt: false },
    };
    task.inner_mut().notify(OfferId(id), Action::Open(params), false);
}

#[test]
fn child_connection_ids() {
    let child = VmbusServer::<Vm>::get_child_message_connection_id;
    assert_eq!(child(0, 7, Vtl::Vtl2), 0x80_0074);
    assert_eq!(child(0, 2, Vtl::Vtl1), 0x40_0024);
    assert_eq!(child(3, 2, Vtl::Vtl0), 0x324);
    // Processors out of range run into the level.
    assert_eq!(child(0x4000, 2, Vtl::Vtl0), child(0, 2, Vtl::Vtl1));
}

#[test]
fn default_build() {
    let plan: BuildPlan<'_, Vm> = builder().build();
    assert_eq!(*plan.spawner, "spawner");
    assert_eq!(plan.synic, 5);
    assert_eq!(plan.gm, 100);
    assert_eq!(plan.trusted_gm, None);
    assert_eq!(
        plan.message_port,
        MessagePortRequest { connection_id: 1, vtl: Vtl::Vtl0, multiclient: false }
    );
    assert_eq!(
        plan.multiclient_message_port,
        Some(MessagePortRequest { connection_id: 4, vtl: Vtl::Vtl0, multiclient: true })
    );
    assert_eq!(
        plan.server,
        ServerParams {
            vtl: Vtl::Vtl0,
            message_connection_id: 1,
            channel_id_offset: 0,
            version_limit: None,
        }
    );
    assert_eq!(plan.relay, None);
    assert_eq!(plan.hvsock, None);
    assert_eq!(plan.external_server, None);
    assert_eq!(plan.external_requests, None);
    let posted = plan.task.inner().send_message(vec![], None);
    assert_eq!(posted.vtl, Vtl::Vtl0);
    assert_eq!(posted.target, ConnectionTarget { vp: 0, sint: 2 });
    assert_eq!(
        plan.task.ready(),
        Ready {
            external_requests: false,
            messages: false,
            channel_responses: false,
            hvsock_results: false,
        }
    );
}

#[test]
fn redirected_build() {
    let plan = builder().use_message_redirect(true).build();
    assert_eq!(
        plan.message_port,
        MessagePortRequest { connection_id: 0x80_0074, vtl: Vtl::Vtl2, multiclient: true }
    );
    assert_eq!(plan.multiclient_message_port, None);
    assert_eq!(plan.server.message_connection_id, 0x80_0074);
    assert_eq!(plan.server.vtl, Vtl::Vtl0);
    let posted = plan.task.inner().send_message(vec![], None);
    assert_eq!(posted.vtl, Vtl::Vtl2);
    assert_eq!(posted.target, ConnectionTarget { vp: 0, sint: 7 });
}

#[test]
fn build_for_another_level() {
    let plan = builder().vtl(Vtl::Vtl2).build();
    assert_eq!(
        plan.message_port,
        MessagePortRequest { connection_id: 0x80_0024, vtl: Vtl::Vtl2, multiclient: false }
    );
    assert_eq!(plan.multiclient_message_port, None);
}

#[test]
fn build_options() {
    let plan = builder()
        .trusted_gm(Some(200))
        .hvsock_notify(Some('h'))
        .server_relay(Some(true))
        .external_requests(Some(8))
        .external_server(Some(7))
        .enable_channel_id_offset(true)
        .max_version(Some(0x40000))
        .delay_max_version(true)
        .enable_mnf(true)
        .build();
    assert_eq!(plan.trusted_gm, Some(200));
    assert_eq!(plan.hvsock, Some('h'));
    assert_eq!(plan.relay, Some(true));
    assert_eq!(plan.external_requests, Some(8));
    assert_eq!(plan.external_server, Some(7));
    assert_eq!(plan.server.channel_id_offset, 1024);
    assert_eq!(
        plan.server.version_limit,
        Some(VersionLimit { version: 0x40000, delay: true })
    );
    assert_eq!(plan.task.inner().forward_unhandled(1), Forwarded::External(1));
    assert!(plan.task.handle_offer(info(true), true).info.params.use_mnf);

    let plan = builder().enable_channel_id_offset(true).enable_channel_id_offset(false).build();
    assert_eq!(plan.server.channel_id_offset, 0);
}

#[test]
fn message_queue_holds_sixty_four() {
    assert_eq!(builder().build().message_queue_len, 64);
}

#[test]
fn message_ports_are_added_one_after_the_other() {
    let plan = builder().build();
    match plan.message_port_added(Ok(10)) {
        PortStep::AddMulticlient(request, 10) => {
            assert_eq!(Some(request), plan.multiclient_message_port)
        }
        _ => panic!("no second port"),
    }
    match BuildPlan::<Vm>::multiclient_message_port_added(10, Ok(11)) {
        PortStep::Added(ports) => {
            assert_eq!((ports.message_port, ports.multiclient_message_port), (10, Some(11)))
        }
        _ => panic!("no ports"),
    }

    let plan = builder().use_message_redirect(true).build();
    match plan.message_port_added(Ok(12)) {
        PortStep::Added(ports) => {
            assert_eq!((ports.message_port, ports.multiclient_message_port), (12, None))
        }
        _ => panic!("no ports"),
    }
}

#[test]
fn without_its_message_ports_there_is_no_server() {
    let plan = builder().build();
    assert!(matches!(plan.message_port_added(Err("in use")), PortStep::Failed("in use")));
    assert!(matches!(
        BuildPlan::<Vm>::multiclient_message_port_added(10, Err("in use")),
        PortStep::Failed("in use")
    ));
}

#[test]
fn requests_get_one_default_answer_each() {
    let request = |version| ModifyRelayRequest {
        version,
        monitor_page: Update::Unchanged,
        use_interrupt_page: None,
    };
    let plan = builder().build();
    for version in [None, Some(1), Some(2)] {
        assert_eq!(
            plan.relay_answer(&request(version)),
            Some(ModifyConnectionResponse::Supported(
                ConnectionState::Successful,
                FeatureFlags::All
            ))
        );
    }
    for socket in ["a", "b"] {
        assert_eq!(
            plan.hvsock_answer(socket),
            Some(HvsockVerdict { request: socket, success: false })
        );
    }
    assert_eq!(plan.relay_answerer(), Answerer::Default);
    assert_eq!(plan.hvsock_answerer(), Answerer::Default);

    let plan = builder().server_relay(Some(true)).build();
    assert_eq!(plan.relay_answerer(), Answerer::Peer);
    assert_eq!(plan.relay_answer(&request(None)), None);
    assert!(plan.hvsock_answer("a").is_some());

    let plan = builder().hvsock_notify(Some('h')).build();
    assert_eq!(plan.hvsock_answerer(), Answerer::Peer);
    assert_eq!(plan.hvsock_answer("a"), None);
    assert!(plan.relay_answer(&request(None)).is_some());
}

#[test]
fn devices_are_served_by_a_stopped_server() {
    let mut task = builder().build().task;
    let event = Event::Offer(OfferRequest::Offer(info(false), 13));
    match task.run_once::<Vm>(event, false) {
        LoopStep::Offer(offering, 13) => {
            let result: Result<_, ()> = Ok(OfferId(1));
            task.offered(offering, 13, result);
        }
        _ => panic!("no offer"),
    }
    let restore = Some(ChannelServerRequest::Restore { open: false });
    assert!(matches!(
        task.run_once::<Vm>(Event::ServerRequest(OfferId(1), restore), false),
        LoopStep::RestoreChannel { offer_id: OfferId(1), open: false }
    ));
    match task.run_once::<Vm>(Event::ServerRequest(OfferId(1), None), false) {
        LoopStep::Effects(effects) => assert_eq!(
            effects,
            vec![
                Effect::ReleaseChannel { offer_id: OfferId(1) },
                Effect::Server(ServerCall::RevokeChannel(OfferId(1))),
            ]
        ),
        _ => panic!("no effects"),
    }
    assert_eq!(task.inner().channel(OfferId(1)), None);
    assert!(!task.ready().messages);
}

#[test]
fn control_point_has_the_memories_of_its_server() {
    let control = builder().build().control((), true);
    assert_eq!((control.mem, control.trusted_mem, control.use_event), (100, None, true));
    let control = builder().trusted_gm(Some(200)).build().control((), false);
    assert_eq!((control.mem, control.trusted_mem, control.use_event), (100, Some(200), false));
}

#[test]
fn api_calls_become_requests() {
    let server = server();
    assert_eq!(server.save(), VmbusRequest::Save);
    assert_eq!(server.post_restore(), VmbusRequest::PostRestore);
    assert_eq!(server.stop(), VmbusRequest::Stop);
    assert_eq!(server.start(), VmbusRequest::Start);
    assert_eq!(server.reset(), VmbusRequest::Reset);
    assert_eq!(server.control().mem, 100);
    assert_eq!(server.shutdown(), "task");
}

#[test]
fn restore_gets_what_save_wrapped() {
    let saved = SavedState::<Vm>::new(vec![1, 2, 3]);
    let (request, state) = server().restore(saved);
    assert_eq!(request, VmbusRequest::Restore);
    assert_eq!(state, vec![1, 2, 3]);
}

#[test]
fn messages_are_queued_with_their_origin() {
    assert_eq!(
        SynicMessage::default(),
        SynicMessage { data: vec![], multiclient: false, trusted: false }
    );
    let port = MessageSender { send: (), multiclient: true };
    assert_eq!(
        port.handle_message(&[1, 2], false),
        SynicMessage { data: vec![1, 2], multiclient: true, trusted: false }
    );
    let port = MessageSender { send: (), multiclient: false };
    assert_eq!(
        port.handle_message(&[3], true),
        SynicMessage { data: vec![3], multiclient: false, trusted: true }
    );
}

#[test]
fn device_offers_are_confidential() {
    let input = OfferInput::<Vm> {
        params: OfferParams {
            interface_name: "test".to_string(),
            instance_id: id(1),
            interface_id: id(2),
            mmio_megabytes: 3,
            mmio_megabytes_optional: 4,
            subchannel_index: 5,
            use_mnf: true,
            offer_order: Some(6),
            type_flags: flags(),
            user_defined: vec![7],
        },
        event: 1,
        request_send: 2,
        server_request_recv: 3,
    };
    let control = control(Some(200));
    let offered = control.offer(input);
    assert_eq!(offered.params.flags, OfferFlags { confidential_channel: true, ..flags() });
    assert_eq!(offered.params.interface_name, "test");
    assert_eq!(offered.params.instance_id, id(1));
    assert_eq!(offered.params.interface_id, id(2));
    assert_eq!(offered.params.mmio_megabytes, 3);
    assert_eq!(offered.params.mmio_megabytes_optional, 4);
    assert_eq!(offered.params.subchannel_index, 5);
    assert!(offered.params.use_mnf);
    assert_eq!(offered.params.offer_order, Some(6));
    assert_eq!(offered.params.user_defined, vec![7]);
    assert_eq!((offered.event, offered.request_send, offered.server_request_recv), (1, 2, 3));
    let key = offered.params.key();
    assert_eq!((key.interface_id, key.instance_id, key.subchannel_index), (id(2), id(1), 5));

    let (OfferRequest::Offer(sent, reply), pending) = control.offer_core(offered, 11);
    assert_eq!(reply, 11);
    assert!(sent.params.flags.confidential_channel);
    let answer: Result<(), ()> = Ok(());
    assert_eq!(*control.offered(pending, answer).unwrap().guest_mem, 200);
}

#[test]
fn relay_offers_keep_their_flags() {
    let control = control(Some(200));
    let (OfferRequest::Offer(sent, _), pending) = control.offer_core(info(false), 0);
    assert_eq!(sent.params.flags, flags());
    assert_eq!(pending, PendingOffer { confidential: false });
    let answer: Result<(), ()> = Ok(());
    assert_eq!(*control.offered(pending, answer).unwrap().guest_mem, 100);
    let refused = control.offered(pending, Err("duplicate"));
    assert!(matches!(refused, Err("duplicate")));
}

#[test]
fn confidential_channels_need_trusted_memory() {
    let confidential = PendingOffer { confidential: true };
    let answer: Result<(), ()> = Ok(());
    let control = control(None);
    assert_eq!(*control.offered(confidential, answer).unwrap().guest_mem, 100);
    assert!(control.use_event());
}

#[test]
fn control_point_can_be_cloned() {
    for trusted_mem in [None, Some(200)] {
        let copy = control(trusted_mem).clone();
        assert_eq!((copy.mem, copy.trusted_mem, copy.use_event), (100, trusted_mem, true));
    }
}

#[test]
fn confidential_channels_are_woken_in_their_own_memory() {
    let first = |trusted_gm, confidential| {
        let mut task = builder().trusted_gm(trusted_gm).build().task;
        let mut info = info(false);
        info.params.flags.confidential_channel = confidential;
        let offering = task.handle_offer(info, false);
        let result: Result<_, ()> = Ok(OfferId(1));
        task.offered(offering, 0, result).answer.unwrap();
        open(&mut task, 1);
        let inspected = task.inner().inspect(OfferId(1)).unwrap().memory;
        match task.unstick_channels(false)[..] {
            [(OfferId(1), Unstick::FindGpadl { memory, .. })] => {
                assert_eq!(memory, inspected);
                memory
            }
            _ => panic!("no attempt"),
        }
    };
    assert_eq!(first(Some(200), true), MemoryChoice::Trusted);
    assert_eq!(first(Some(200), false), MemoryChoice::Shared);
    assert_eq!(first(None, true), MemoryChoice::Shared);
}

#[test]
fn mnf_needs_enabling_and_support() {
    let granted = |enable, wanted, supported| {
        let task = builder().enable_mnf(enable).build().task;
        let offering = task.handle_offer(info(wanted), supported);
        assert_eq!(offering.info.params.interface_name, "test");
        assert_eq!(offering.key, params(wanted).key());
        assert!(!offering.confidential);
        offering.info.params.use_mnf
    };
    assert!(granted(true, true, true));
    assert!(!granted(true, true, false));
    assert!(!granted(false, true, true));
    assert!(!granted(true, false, true));
}

#[test]
fn start_and_stop() {
    let mut task = builder().external_requests(Some(9)).build().task;
    assert_eq!(task.handle_request(VmbusRequest::Start), RequestStep::Done);
    let started = Ready {
        external_requests: true,
        messages: true,
        channel_responses: true,
        hvsock_results: true,
    };
    assert_eq!(task.ready(), started);
    task.handle_request(VmbusRequest::Start);
    assert_eq!(task.ready(), started);
    assert_eq!(task.handle_request(VmbusRequest::Stop), RequestStep::Done);
    let stopped = Ready {
        external_requests: false,
        messages: false,
        channel_responses: false,
        hvsock_results: false,
    };
    assert_eq!(task.ready(), stopped);
    assert_eq!(
        task.handle_request(VmbusRequest::Reset),
        RequestStep::Server(ServerCall::Reset)
    );
    assert_eq!(task.ready(), Ready { channel_responses: true, ..stopped });
    task.inner_mut().reset_complete(false);
    assert_eq!(task.ready(), stopped);
}

#[test]
fn settings_survive_events() {
    let mut task = builder()
        .use_message_redirect(true)
        .external_server(Some(7))
        .external_requests(Some(8))
        .enable_mnf(true)
        .build()
        .task;
    let request = ModifyConnectionRequest {
        version: None,
        monitor_page: Update::Unchanged,
        interrupt_page: Update::Reset,
        target_message_vp: Some(3),
        force: false,
        notify_relay: false,
    };
    task.inner_mut().modify_connection::<Vm>(&request, true);
    task.inner_mut().interrupt_page_done::<Vm>(&request, true);
    offer(&mut task, 1);
    open(&mut task, 1);
    task.handle_request(VmbusRequest::Stop);
    task.handle_request(VmbusRequest::Start);

    let posted = task.inner().send_message(vec![], None);
    assert_eq!(posted.vtl, Vtl::Vtl2);
    assert_eq!(posted.target, ConnectionTarget { vp: 3, sint: 7 });
    assert_eq!(task.inner().forward_unhandled(1), Forwarded::External(1));
    assert!(task.ready().external_requests);
    assert!(task.handle_offer(info(true), true).info.params.use_mnf);
}

#[test]
fn messages_wait_for_hvsock_answers() {
    let mut task = running_task();
    for _ in 0..16 {
        assert!(task.ready().messages);
        task.inner_mut().notify_hvsock(&());
    }
    assert!(!task.ready().messages);
    assert!(task.ready().hvsock_results);
    assert!(matches!(
        task.run_once::<Vm>(Event::HvsockResult("connected"), false),
        LoopStep::SendTlConnectResult("connected")
    ));
    assert!(task.ready().messages);
}

#[test]
fn save_restore_requests() {
    let mut task = running_task();
    assert_eq!(task.handle_request(VmbusRequest::Save), RequestStep::Save);
    assert_eq!(task.handle_request(VmbusRequest::Restore), RequestStep::Restore);
    assert_eq!(task.handle_request(VmbusRequest::PostRestore), RequestStep::PostRestore);
    task.inner_mut().notify_hvsock(&());
    assert_eq!(
        task.handle_request(VmbusRequest::Inspect),
        RequestStep::Report(InspectReport {
            message_target_vp: 0,
            running: true,
            hvsock_requests: 1,
        })
    );
}

#[test]
fn loop_ends_when_no_request_can_come() {
    let mut task = running_task();
    assert!(matches!(task.run_once::<Vm>(Event::Request(None), false), LoopStep::Break));
    assert!(matches!(task.run_once::<Vm>(Event::Complete, false), LoopStep::Break));
    assert!(matches!(
        task.run_once::<Vm>(Event::Request(Some(VmbusRequest::Save)), false),
        LoopStep::Request(RequestStep::Save)
    ));
}

#[test]
fn loop_offers_and_revokes() {
    let mut task = running_task();
    let event = Event::Offer(OfferRequest::Offer(info(true), 12));
    match task.run_once::<Vm>(event, true) {
        LoopStep::Offer(offering, 12) => {
            assert!(!offering.info.params.use_mnf);
            let result: Result<_, ()> = Ok(OfferId(1));
            let outcome = task.offered(offering, 12, result);
            assert_eq!((outcome.reply, outcome.answer), (12, Ok(())));
            assert_eq!(outcome.added.unwrap().offer_id, OfferId(1));
        }
        _ => panic!("no offer"),
    }
    assert_eq!(task.inner().channel(OfferId(1)).unwrap().state, ChannelState::Closed);

    let restore = Some(ChannelServerRequest::Restore { open: true });
    assert!(matches!(
        task.run_once::<Vm>(Event::ServerRequest(OfferId(1), restore), false),
        LoopStep::RestoreChannel { offer_id: OfferId(1), open: true }
    ));

    let revoke = Some(ChannelServerRequest::Revoke);
    match task.run_once::<Vm>(Event::ServerRequest(OfferId(1), revoke), false) {
        LoopStep::Effects(effects) => assert_eq!(effects.len(), 2),
        _ => panic!("no effects"),
    }
    // The device is gone after its channel.
    match task.run_once::<Vm>(Event::ServerRequest(OfferId(1), None), false) {
        LoopStep::Effects(effects) => assert_eq!(effects, vec![]),
        _ => panic!("no effects"),
    }
}

#[test]
fn loop_hands_on_what_comes_in() {
    let mut task = running_task();
    offer(&mut task, 1);
    let response = Ok(ChannelResponse::Modify(3));
    match task.run_once::<Vm>(Event::ChannelResponse(OfferId(1), 0, response), false) {
        LoopStep::Effects(effects) => assert_eq!(
            effects,
            vec![Effect::Server(ServerCall::ModifyChannelComplete(OfferId(1), 3))]
        ),
        _ => panic!("no effects"),
    }
    let supported =
        ModifyConnectionResponse::Supported(ConnectionState::Successful, FeatureFlags::Bits(1));
    match task.run_once::<Vm>(Event::RelayResponse(supported), false) {
        LoopStep::CompleteModifyConnection(response) => assert_eq!(response, supported),
        _ => panic!("no response"),
    }
    let message = SynicMessage { data: vec![1], multiclient: true, trusted: true };
    match task.run_once::<Vm>(Event::Message(message), false) {
        LoopStep::HandleSynicMessage(message) => assert_eq!(message.data, vec![1]),
        _ => panic!("no message"),
    }
    assert!(matches!(
        task.run_once::<Vm>(Event::ExternalRequest("contact"), false),
        LoopStep::InitiateContact("contact")
    ));
}

#[test]
fn unstick_settings() {
    let mut task = running_task();
    offer(&mut task, 1);
    offer(&mut task, 2);
    open(&mut task, 2);
    let set = |text: &str| task.handle_unstick(Some(text.to_string()));

    let (setting, attempts) = task.handle_unstick(None).unwrap();
    assert_eq!(setting, UnstickSetting::Enabled(false));
    assert_eq!(attempts, vec![]);

    let (setting, attempts) = set("false").unwrap();
    assert_eq!(setting, UnstickSetting::Enabled(false));
    assert_eq!(attempts, vec![]);

    let (setting, mut attempts) = set("true").unwrap();
    attempts.sort_by_key(|attempt| attempt.0 .0);
    assert_eq!(setting, UnstickSetting::Enabled(true));
    assert_eq!(
        attempts,
        vec![
            (OfferId(1), Unstick::Done(Ok(()))),
            (
                OfferId(2),
                Unstick::FindGpadl {
                    gpadl_id: GpadlId(1),
                    offset: 2,
                    memory: MemoryChoice::Shared,
                },
            ),
        ]
    );

    let (setting, mut attempts) = set("force").unwrap();
    attempts.sort_by_key(|attempt| attempt.0 .0);
    assert_eq!(setting, UnstickSetting::Force);
    assert_eq!(
        attempts,
        vec![
            (OfferId(1), Unstick::Done(Ok(()))),
            (OfferId(2), Unstick::Force(Wake::Host)),
        ]
    );

    assert_eq!(set("True"), Err(UnstickSettingError));
    assert_eq!(set(""), Err(UnstickSettingError));
}
