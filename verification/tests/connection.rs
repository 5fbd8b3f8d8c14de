//! Changes to the guest's connection, messages, and hvsockets.

use vmbus_server::connection::InterruptPageError;
use vmbus_server::connection::ModifyConnectionError;
use vmbus_server::connection::ModifyStep;
use vmbus_server::connection::MonitorPageError;
use vmbus_server::effect::Effect;
use vmbus_server::host::Host;
use vmbus_server::inner::Forwarded;
use vmbus_server::inner::ServerTaskInner;
use vmbus_server::offer::OfferInfo;
use vmbus_server::offer::OfferParamsInternal;
use vmbus_server::protocol::Action;
use vmbus_server::protocol::ConnectionTarget;
use vmbus_server::protocol::GpadlId;
use vmbus_server::protocol::Guid;
use vmbus_server::protocol::ModifyConnectionRequest;
use vmbus_server::protocol::MonitorId;
use vmbus_server::protocol::MonitorPageGpas;
use vmbus_server::protocol::OfferFlags;
use vmbus_server::protocol::OfferId;
use vmbus_server::protocol::OfferKey;
use vmbus_server::protocol::OpenChannelFlags;
use vmbus_server::protocol::OpenData;
use vmbus_server::protocol::OpenParams;
use vmbus_server::protocol::Update;
use vmbus_server::protocol::Vtl;
use vmbus_server::protocol::OPEN_DATA_OTHER_LEN;
use vmbus_server::relay::ModifyRelayRequest;
use vmbus_server::task::Offering;
use vmbus_server::task::ServerTask;
use vmbus_server::task::VmbusRequest;

struct Vm;

impl Host for Vm {
    type Spawner = ();
    type Synic = ();
    type GuestMemory = ();
    type HvsockChannel = ();
    type RelayChannel = ();
    type ExternalSender = ();
    type ExternalReceiver = ();
    type MessagePort = ();
    type TaskSender = ();
    type Task = ();
    type OfferSender = ();
    type Interrupt = ();
    type RequestSender = ();
    type ServerRequestReceiver = ();
    type OfferReply = ();
    type ServerState = ();
    type ContactRequest = ();
    type HvsockResult = ();
    type MemoryError = &'static str;
    type SynicError = &'static str;
    type MonitorError = u32;
}

const PAGES: MonitorPageGpas = MonitorPageGpas { parent_to_child: 0x5000, child_to_parent: 0x6000 };

fn inner(enable_mnf: bool) -> ServerTaskInner {
    let target = ConnectionTarget { vp: 1, sint: 7 };
    ServerTaskInner::new(Vtl::Vtl0, Vtl::Vtl2, target, false, enable_mnf, false)
}

fn request() -> ModifyConnectionRequest {
    ModifyConnectionRequest {
        version: Some(0x50000),
        monitor_page: Update::Unchanged,
        interrupt_page: Update::Unchanged,
        target_message_vp: Some(5),
        force: false,
        notify_relay: true,
    }
}

fn key() -> OfferKey {
    let id = Guid { data1: 0, data2: 0, data3: 0, data4: [0; 8] };
    OfferKey { interface_id: id, instance_id: id, subchannel_index: 0 }
}

fn offering(confidential: bool) -> Offering<Vm> {
    let key = key();
    Offering {
        info: OfferInfo {
            params: OfferParamsInternal {
                interface_name: "test".to_string(),
                instance_id: key.instance_id,
                interface_id: key.interface_id,
                mmio_megabytes: 0,
                mmio_megabytes_optional: 0,
                subchannel_index: key.subchannel_index,
                use_mnf: false,
                offer_order: None,
                flags: OfferFlags {
                    enumerate_device_interface: false,
                    confidential_channel: confidential,
                    other: 0,
                },
                user_defined: vec![],
            },
            event: (),
            request_send: (),
            server_request_recv: (),
        },
        key,
        confidential,
    }
}

fn monitored_channel(inner: ServerTaskInner) -> ServerTaskInner {
    let mut task = ServerTask::new(inner, false);
    let result: Result<_, ()> = Ok(OfferId(1));
    task.offered(offering(false), (), result).answer.unwrap();
    let params = OpenParams {
        open_data: OpenData {
            target_vp: 0,
            ring_gpadl_id: GpadlId(1),
            ring_offset: 1,
            other: [9; OPEN_DATA_OTHER_LEN],
        },
        connection_id: 1,
        event_flag: 1,
        monitor_id: Some(MonitorId(0)),
        flags: OpenChannelFlags { redirect_interrupt: false },
    };
    task.inner_mut().notify(OfferId(1), Action::Open(params), true);
    std::mem::replace(task.inner_mut(), self::inner(true))
}

fn relayed(step: ModifyStep<Vm>) -> Option<ModifyRelayRequest> {
    match step {
        ModifyStep::Finished(Ok(relayed)) => relayed,
        _ => panic!("unfinished or failed"),
    }
}

fn error(step: ModifyStep<Vm>) -> ModifyConnectionError<Vm> {
    match step {
        ModifyStep::Finished(Err(error)) => error,
        _ => panic!("unfinished or succeeded"),
    }
}

fn uses_bitmap(inner: &mut ServerTaskInner) -> bool {
    let state = std::mem::replace(inner, self::inner(true));
    let mut task = ServerTask::new(state, false);
    let result: Result<_, ()> = Ok(OfferId(9));
    task.offered(offering(false), (), result).answer.unwrap();
    let params = OpenParams {
        open_data: OpenData {
            target_vp: 0,
            ring_gpadl_id: GpadlId(1),
            ring_offset: 1,
            other: [9; OPEN_DATA_OTHER_LEN],
        },
        connection_id: 1,
        event_flag: 1,
        monitor_id: None,
        flags: OpenChannelFlags { redirect_interrupt: false },
    };
    let effects = task.inner_mut().notify(OfferId(9), Action::Open(params), false);
    *inner = std::mem::replace(task.inner_mut(), self::inner(true));
    matches!(effects[0], Effect::RegisterChannel { .. })
}

#[test]
fn unchanged_pages_finish_at_once() {
    let mut inner = inner(false);
    let step = inner.modify_connection::<Vm>(&request(), true);
    assert_eq!(
        relayed(step),
        Some(ModifyRelayRequest {
            version: Some(0x50000),
            monitor_page: Update::Unchanged,
            use_interrupt_page: None,
        })
    );
    assert_eq!(inner.message_vp(), 5);
}

#[test]
fn relay_is_only_told_on_request() {
    let mut inner = inner(false);
    let quiet = ModifyConnectionRequest { notify_relay: false, ..request() };
    assert_eq!(relayed(inner.modify_connection::<Vm>(&quiet, true)), None);
    let still = ModifyConnectionRequest { target_message_vp: None, ..request() };
    inner.modify_connection::<Vm>(&still, true);
    assert_eq!(inner.message_vp(), 5);
}

#[test]
fn relay_request_says_whether_there_is_an_interrupt_page() {
    let with = |interrupt_page| {
        let request = ModifyConnectionRequest { interrupt_page, ..request() };
        ModifyRelayRequest::from(request).use_interrupt_page
    };
    assert_eq!(with(Update::Unchanged), None);
    assert_eq!(with(Update::Reset), Some(false));
    assert_eq!(with(Update::SetTo(0x1000)), Some(true));
}

#[test]
fn interrupt_page_is_locked_and_gets_its_port() {
    let mut inner = inner(false);
    let request = ModifyConnectionRequest { interrupt_page: Update::SetTo(0x3000), ..request() };
    let step = inner.modify_connection::<Vm>(&request, false);
    assert!(matches!(step, ModifyStep::LockInterruptPage { gpn: 3 }));
    assert!(!uses_bitmap(&mut inner));

    let step = inner.interrupt_page_locked::<Vm>(Ok(()));
    assert!(matches!(
        step,
        ModifyStep::AddSharedEventPort { connection_id: 2, vtl: Vtl::Vtl0 }
    ));
    assert!(uses_bitmap(&mut inner));
    assert_eq!(inner.message_vp(), 1);

    let step = inner.shared_event_port_added::<Vm>(&request, false, Ok(()));
    assert_eq!(relayed(step).unwrap().use_interrupt_page, Some(true));
    assert_eq!(inner.message_vp(), 5);

    // Taking the page away again ends the use of the bitmap at once.
    let reset = ModifyConnectionRequest { interrupt_page: Update::Reset, ..request };
    let step = inner.modify_connection::<Vm>(&reset, false);
    assert!(matches!(step, ModifyStep::ReleaseInterruptPage));
    assert!(!uses_bitmap(&mut inner));
    let step = inner.interrupt_page_done::<Vm>(&reset, false);
    assert_eq!(relayed(step).unwrap().use_interrupt_page, Some(false));
}

#[test]
fn unaligned_interrupt_page_is_refused() {
    let mut inner = inner(false);
    let request = ModifyConnectionRequest { interrupt_page: Update::SetTo(0x3004), ..request() };
    let step = inner.modify_connection::<Vm>(&request, false);
    assert!(matches!(
        error(step),
        ModifyConnectionError::InterruptPage(InterruptPageError::NotPageAligned(0x3004))
    ));
    assert_eq!(inner.message_vp(), 1);
}

#[test]
fn unlockable_interrupt_page_is_not_used() {
    let mut inner = inner(false);
    let step = inner.interrupt_page_locked::<Vm>(Err("out of range"));
    assert!(matches!(
        error(step),
        ModifyConnectionError::InterruptPage(InterruptPageError::Memory("out of range"))
    ));
    assert!(!uses_bitmap(&mut inner));
}

#[test]
fn interrupt_page_stays_without_its_port() {
    let mut inner = inner(false);
    inner.interrupt_page_locked::<Vm>(Ok(()));
    let step = inner.shared_event_port_added::<Vm>(&request(), false, Err("in use"));
    assert!(matches!(
        error(step),
        ModifyConnectionError::InterruptPage(InterruptPageError::Synic("in use"))
    ));
    assert!(uses_bitmap(&mut inner));
    assert_eq!(inner.message_vp(), 1);
}

#[test]
fn monitor_page_is_set_and_not_relayed() {
    let mut inner = inner(true);
    let request = ModifyConnectionRequest { monitor_page: Update::SetTo(PAGES), ..request() };
    let step = inner.modify_connection::<Vm>(&request, true);
    assert!(matches!(step, ModifyStep::SetMonitorPage { page: Some(0x6000) }));
    assert_eq!(inner.message_vp(), 1);
    let step = inner.monitor_page_set::<Vm>(&request, Ok(()));
    assert_eq!(relayed(step).unwrap().monitor_page, Update::Unchanged);
    assert_eq!(inner.message_vp(), 5);

    let reset = ModifyConnectionRequest { monitor_page: Update::Reset, ..request };
    let step = inner.modify_connection::<Vm>(&reset, true);
    assert!(matches!(step, ModifyStep::SetMonitorPage { page: None }));
}

#[test]
fn monitor_page_failure_is_reported() {
    let mut inner = inner(true);
    let request = ModifyConnectionRequest { monitor_page: Update::SetTo(PAGES), ..request() };
    let step = inner.monitor_page_set::<Vm>(&request, Err(87));
    match error(step) {
        ModifyConnectionError::MonitorPage(MonitorPageError::SetFailed { error, monitor_page }) => {
            assert_eq!(error, 87);
            assert_eq!(monitor_page, Some(PAGES));
        }
        _ => panic!("wrong error"),
    }
    assert_eq!(inner.message_vp(), 1);
}

#[test]
fn monitor_pages_are_relayed_if_not_handled() {
    let request = ModifyConnectionRequest { monitor_page: Update::SetTo(PAGES), ..request() };

    // Not enabled.
    let step = inner(false).modify_connection::<Vm>(&request, true);
    assert_eq!(relayed(step).unwrap().monitor_page, Update::SetTo(PAGES));

    // Enabled, to no effect, since the synic does not support it.
    let step = inner(true).modify_connection::<Vm>(&request, false);
    assert_eq!(relayed(step).unwrap().monitor_page, Update::SetTo(PAGES));
}

#[test]
fn monitor_page_cannot_change_under_open_channels() {
    let mut inner = monitored_channel(inner(true));
    let request = ModifyConnectionRequest { monitor_page: Update::SetTo(PAGES), ..request() };
    let step = inner.modify_connection::<Vm>(&request, true);
    assert!(matches!(
        error(step),
        ModifyConnectionError::MonitorPage(MonitorPageError::OpenChannelsUsingMnf)
    ));
    assert_eq!(inner.message_vp(), 1);

    let forced = ModifyConnectionRequest { force: true, ..request };
    let step = inner.modify_connection::<Vm>(&forced, true);
    assert!(matches!(step, ModifyStep::SetMonitorPage { page: Some(0x6000) }));

    let unchanged = ModifyConnectionRequest { monitor_page: Update::Unchanged, ..request };
    assert!(relayed(inner.modify_connection::<Vm>(&unchanged, true)).is_some());
}

#[test]
fn messages_go_to_their_target() {
    let inner = inner(false);
    let posted = inner.send_message(vec![1, 2, 3], None);
    assert_eq!(posted.vtl, Vtl::Vtl2);
    assert_eq!(posted.target, ConnectionTarget { vp: 1, sint: 7 });
    assert_eq!(posted.message_type, 1);
    assert_eq!(posted.payload, vec![1, 2, 3]);

    let elsewhere = ConnectionTarget { vp: 8, sint: 2 };
    assert_eq!(inner.send_message(vec![], Some(elsewhere)).target, elsewhere);
}

#[test]
fn unhandled_requests_are_forwarded_if_possible() {
    assert_eq!(inner(false).forward_unhandled("contact"), Forwarded::Nowhere("contact"));
    let target = ConnectionTarget { vp: 0, sint: 2 };
    let inner = ServerTaskInner::new(Vtl::Vtl0, Vtl::Vtl0, target, true, false, false);
    assert_eq!(inner.forward_unhandled("contact"), Forwarded::External("contact"));
}

#[test]
fn hvsock_requests_are_counted() {
    let mut task = ServerTask::new(inner(false), false);
    assert_eq!(task.inner_mut().notify_hvsock(&42), 42);
    assert_eq!(task.inner_mut().notify_hvsock(&43), 43);
    assert_eq!(task.inner().hvsock_requests(), 2);
    assert_eq!(task.handle_tl_connect_result("connected"), "connected");
    assert_eq!(task.inner().hvsock_requests(), 1);
    assert_eq!(task.inner_mut().notify_hvsock(&44), 44);
    assert_eq!(task.handle_tl_connect_result("refused"), "refused");
    assert_eq!(task.handle_tl_connect_result("refused"), "refused");
    assert_eq!(task.inner().hvsock_requests(), 0);
}

#[test]
fn reset_completes_once() {
    let mut task = ServerTask::new(inner(false), false);
    task.handle_request(VmbusRequest::Reset);
    assert!(task.inner().resetting());
    assert_eq!(
        task.inner_mut().reset_complete(true),
        vec![Effect::ResetMonitorPage, Effect::SignalResetDone]
    );
    assert!(!task.inner().resetting());

    task.handle_request(VmbusRequest::Reset);
    assert_eq!(task.inner_mut().reset_complete(false), vec![Effect::SignalResetDone]);
}
