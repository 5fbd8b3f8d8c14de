//! Channels: offers, opens and closes, GPADLs, and the answers of devices.

use vmbus_server::channel::ChannelResponse;
use vmbus_server::channel::ChannelState;
use vmbus_server::channel::DeviceReply;
use vmbus_server::channel::PendingKind;
use vmbus_server::channel::PendingResponse;
use vmbus_server::channel::RecvError;
use vmbus_server::effect::Effect;
use vmbus_server::effect::ServerCall;
use vmbus_server::inner::RingLocation;
use vmbus_server::inner::ServerTaskInner;
use vmbus_server::offer::MemoryChoice;
use vmbus_server::offer::OfferInfo;
use vmbus_server::offer::OfferParamsInternal;
use vmbus_server::protocol::Action;
use vmbus_server::protocol::ChannelRequest;
use vmbus_server::protocol::CompletionStatus;
use vmbus_server::protocol::ConnectionTarget;
use vmbus_server::protocol::GpadlId;
use vmbus_server::protocol::GpadlRequest;
use vmbus_server::protocol::GuestEventTarget;
use vmbus_server::protocol::Guid;
use vmbus_server::protocol::ModifyRequest;
use vmbus_server::protocol::MonitorId;
use vmbus_server::protocol::OfferFlags;
use vmbus_server::protocol::OfferId;
use vmbus_server::protocol::OfferKey;
use vmbus_server::protocol::OpenChannelFlags;
use vmbus_server::protocol::OpenData;
use vmbus_server::protocol::OpenParams;
use vmbus_server::protocol::Vtl;
use vmbus_server::protocol::OPEN_DATA_OTHER_LEN;
use vmbus_server::task::Offering;
use vmbus_server::task::RestoredGpadl;
use vmbus_server::task::ServerTask;

const ID: OfferId = OfferId(1);

fn key() -> OfferKey {
    let id = Guid { data1: 1, data2: 2, data3: 3, data4: [4; 8] };
    OfferKey { interface_id: id, instance_id: id, subchannel_index: 0 }
}

fn task_with(redirect_vtl: Vtl, sint: u8, trusted_memory: bool) -> ServerTask {
    let target = ConnectionTarget { vp: 0, sint };
    let inner = ServerTaskInner::new(Vtl::Vtl0, redirect_vtl, target, false, true, trusted_memory);
    ServerTask::new(inner, false)
}

fn offering(confidential: bool) -> Offering<Nothing> {
    let key = key();
    Offering {
        info: OfferInfo {
            params: OfferParamsInternal {
                interface_name: "test".to_string(),
                instance_id: key.instance_id,
                interface_id: key.interface_id,
                mmio_megabytes: 0,
                mmio_megabytes_optional: 0,
                subchannel_index: key.subchannel_index,
                use_mnf: false,
                offer_order: None,
                flags: OfferFlags {
                    enumerate_device_interface: false,
                    confidential_channel: confidential,
                    other: 0,
                },
                user_defined: vec![],
            },
            event: 'e',
            request_send: 's',
            server_request_recv: 'r',
        },
        key,
        confidential,
    }
}

fn offer(task: &mut ServerTask, offer_id: OfferId, confidential: bool) {
    let result: Result<OfferId, ()> = Ok(offer_id);
    let outcome = task.offered(offering(confidential), 'a', result);
    assert_eq!((outcome.reply, outcome.answer), ('a', Ok(())));
    let added = outcome.added.unwrap();
    assert_eq!(added.offer_id, offer_id);
    assert_eq!((added.event, added.request_send, added.server_request_recv), ('e', 's', 'r'));
}

fn task() -> ServerTask {
    let mut task = task_with(Vtl::Vtl0, 2, false);
    offer(&mut task, ID, false);
    task
}

fn open_params() -> OpenParams {
    OpenParams {
        open_data: OpenData {
            target_vp: 3,
            ring_gpadl_id: GpadlId(10),
            ring_offset: 4,
            other: [9; OPEN_DATA_OTHER_LEN],
        },
        connection_id: 77,
        event_flag: 9,
        monitor_id: None,
        flags: OpenChannelFlags { redirect_interrupt: false },
    }
}

fn open(task: &mut ServerTask, params: OpenParams) -> Vec<Effect> {
    task.inner_mut().notify(ID, Action::Open(params), true)
}

fn state(task: &ServerTask) -> ChannelState {
    task.inner().channel(ID).unwrap().state
}

fn pending(seq: u64, kind: PendingKind) -> PendingResponse {
    PendingResponse { offer_id: ID, seq, kind }
}

fn map_interrupt_page(task: &mut ServerTask) {
    // A locked page is in use from then on, whatever comes of the shared event port.
    let _ = task.inner_mut().interrupt_page_locked::<Nothing>(Ok(()));
}

struct Nothing;

impl vmbus_server::host::Host for Nothing {
    type Spawner = ();
    type Synic = ();
    type GuestMemory = ();
    type HvsockChannel = ();
    type RelayChannel = ();
    type ExternalSender = ();
    type ExternalReceiver = ();
    type MessagePort = ();
    type TaskSender = ();
    type Task = ();
    type OfferSender = ();
    type Interrupt = char;
    type RequestSender = char;
    type ServerRequestReceiver = char;
    type OfferReply = char;
    type ServerState = ();
    type ContactRequest = ();
    type HvsockResult = ();
    type MemoryError = ();
    type SynicError = ();
    type MonitorError = ();
}

#[test]
fn offered_channels_start_closed_with_growing_seqs() {
    let mut task = task();
    offer(&mut task, OfferId(2), true);
    let first = task.inner().channel(ID).unwrap();
    let second = task.inner().channel(OfferId(2)).unwrap();
    assert_eq!(first.seq, 0);
    assert_eq!(second.seq, 1);
    assert_eq!(first.state, ChannelState::Closed);
    assert_eq!(first.key, key());
    assert!(!first.confidential);
    assert!(second.confidential);
    assert_eq!(task.next_seq(), 2);
    assert_eq!(task.inner().channel(OfferId(3)), None);
}

#[test]
fn refused_offer_adds_nothing() {
    let mut task = task_with(Vtl::Vtl0, 2, false);
    let outcome = task.offered(offering(false), 'a', Err("duplicate"));
    assert_eq!((outcome.reply, outcome.answer), ('a', Err("duplicate")));
    assert!(outcome.added.is_none());
    assert_eq!(task.next_seq(), 0);
    assert_eq!(task.inner().channel(ID), None);
}

#[test]
fn open_without_interrupt_page() {
    let mut task = task();
    let effects = open(&mut task, open_params());
    assert_eq!(
        effects,
        vec![
            Effect::AddEventPort { offer_id: ID, connection_id: 77, vtl: Vtl::Vtl0 },
            Effect::SetGuestEventPort {
                offer_id: ID,
                target: GuestEventTarget { vtl: Vtl::Vtl0, vp: 3, sint: 2, event_flag: 9 },
            },
            Effect::CreateInterrupt { offer_id: ID, event_flag: 9, use_bitmap: false },
            Effect::SendRequest {
                request: ChannelRequest::Open(open_params().open_data),
                pending: pending(0, PendingKind::Open),
            },
        ]
    );
    assert_eq!(
        state(&task),
        ChannelState::Open { open_params: open_params(), monitor: false }
    );
}

#[test]
fn open_with_interrupt_page_targets_first_processor() {
    let mut task = task();
    map_interrupt_page(&mut task);
    let effects = open(&mut task, open_params());
    assert_eq!(effects[0], Effect::RegisterChannel { offer_id: ID, event_flag: 9 });
    assert_eq!(
        effects[2],
        Effect::SetGuestEventPort {
            offer_id: ID,
            target: GuestEventTarget { vtl: Vtl::Vtl0, vp: 0, sint: 2, event_flag: 0 },
        }
    );
    assert_eq!(
        effects[3],
        Effect::CreateInterrupt { offer_id: ID, event_flag: 9, use_bitmap: true }
    );
    assert_eq!(effects.len(), 5);

    let effects = task.inner_mut().notify(ID, Action::Close, true);
    assert_eq!(effects[0], Effect::UnregisterChannel { event_flag: 9 });
    assert_eq!(effects[1], Effect::ClearGuestEventPort { offer_id: ID });
}

#[test]
fn open_redirects_interrupts() {
    let mut task = task_with(Vtl::Vtl2, 7, false);
    offer(&mut task, ID, false);
    let params = OpenParams {
        flags: OpenChannelFlags { redirect_interrupt: true },
        ..open_params()
    };
    let effects = open(&mut task, params);
    assert_eq!(
        effects[1],
        Effect::SetGuestEventPort {
            offer_id: ID,
            target: GuestEventTarget { vtl: Vtl::Vtl2, vp: 3, sint: 7, event_flag: 9 },
        }
    );
    // The event port is still at the level that is served.
    assert_eq!(
        effects[0],
        Effect::AddEventPort { offer_id: ID, connection_id: 77, vtl: Vtl::Vtl0 }
    );
}

#[test]
fn open_registers_monitor_if_supported() {
    let params = OpenParams { monitor_id: Some(MonitorId(5)), ..open_params() };

    let mut task = task();
    let effects = task.inner_mut().open_channel(ID, &params, true);
    assert_eq!(
        effects[3],
        Effect::RegisterMonitor { offer_id: ID, monitor_id: MonitorId(5), connection_id: 77 }
    );
    assert!(task.inner().channel(ID).unwrap().uses_monitor());

    let mut task = self::task();
    let effects = task.inner_mut().open_channel(ID, &params, false);
    assert_eq!(effects.len(), 3);
    assert!(!task.inner().channel(ID).unwrap().uses_monitor());
}

#[test]
fn close_of_closed_channel_unregisters_nothing() {
    let mut task = task();
    map_interrupt_page(&mut task);
    let effects = task.inner_mut().notify(ID, Action::Close, true);
    assert_eq!(
        effects,
        vec![
            Effect::ClearGuestEventPort { offer_id: ID },
            Effect::SendRequest {
                request: ChannelRequest::Close,
                pending: pending(0, PendingKind::Close),
            },
        ]
    );
}

#[test]
fn gpadl_is_added_and_sent() {
    let mut task = task();
    let gpadl = || GpadlRequest { id: GpadlId(10), count: 1, buf: vec![1, 0] };
    let effects = task.inner_mut().notify(ID, Action::Gpadl(GpadlId(10), 1, vec![1, 0]), true);
    assert_eq!(
        effects,
        vec![
            Effect::AddGpadl { offer_id: ID, gpadl: gpadl() },
            Effect::SendRequest {
                request: ChannelRequest::Gpadl(gpadl()),
                pending: pending(0, PendingKind::Gpadl(GpadlId(10))),
            },
        ]
    );
}

#[test]
fn teardown_is_repeated_after_restore_without_removal() {
    let mut task = task();
    let gpadl_id = GpadlId(10);
    let send = || Effect::SendRequest {
        request: ChannelRequest::TeardownGpadl(gpadl_id),
        pending: pending(0, PendingKind::TeardownGpadl(gpadl_id)),
    };
    let teardown = |post_restore| Action::TeardownGpadl { gpadl_id, post_restore };
    assert_eq!(
        task.inner_mut().notify(ID, teardown(false), true),
        vec![Effect::RemoveGpadl { offer_id: ID, gpadl_id }, send()]
    );
    assert_eq!(task.inner_mut().notify(ID, teardown(true), true), vec![send()]);
}

#[test]
fn modify_moves_the_interrupt() {
    let mut task = task();
    map_interrupt_page(&mut task);
    open(&mut task, open_params());
    let effects = task.inner_mut().notify(ID, Action::Modify { target_vp: 6 }, true);
    assert_eq!(
        effects,
        vec![
            Effect::SetGuestEventPort {
                offer_id: ID,
                target: GuestEventTarget { vtl: Vtl::Vtl0, vp: 6, sint: 2, event_flag: 9 },
            },
            Effect::SendRequest {
                request: ChannelRequest::Modify(ModifyRequest::TargetVp { target_vp: 6 }),
                pending: pending(0, PendingKind::Modify),
            },
        ]
    );
}

#[test]
fn replies_become_responses() {
    let ok = |kind, reply| pending(4, kind).complete(Ok(reply));
    let id = GpadlId(10);
    assert_eq!(
        ok(PendingKind::Open, DeviceReply::Opened(true)),
        (ID, 4, Ok(ChannelResponse::Open(true)))
    );
    assert_eq!(
        ok(PendingKind::Close, DeviceReply::Closed),
        (ID, 4, Ok(ChannelResponse::Close))
    );
    assert_eq!(
        ok(PendingKind::Gpadl(id), DeviceReply::GpadlCreated(false)),
        (ID, 4, Ok(ChannelResponse::Gpadl(id, false)))
    );
    assert_eq!(
        ok(PendingKind::TeardownGpadl(id), DeviceReply::GpadlTornDown),
        (ID, 4, Ok(ChannelResponse::TeardownGpadl(id)))
    );
    assert_eq!(
        ok(PendingKind::Modify, DeviceReply::Modified(-1)),
        (ID, 4, Ok(ChannelResponse::Modify(-1)))
    );
    assert_eq!(
        pending(4, PendingKind::Open).complete(Err(RecvError)),
        (ID, 4, Err(RecvError))
    );
}

#[test]
fn responses_complete_at_the_state_machine() {
    let mut task = task();
    let id = GpadlId(10);
    let mut complete = |response| task.handle_response(ID, 0, Ok(response));
    let server = |call| vec![Effect::Server(call)];
    assert_eq!(
        complete(ChannelResponse::Open(true)),
        server(ServerCall::OpenComplete(ID, CompletionStatus::Success))
    );
    assert_eq!(
        complete(ChannelResponse::Gpadl(id, true)),
        server(ServerCall::GpadlCreateComplete(ID, id, CompletionStatus::Success))
    );
    assert_eq!(
        complete(ChannelResponse::Gpadl(id, false)),
        server(ServerCall::GpadlCreateComplete(ID, id, CompletionStatus::Unsuccessful))
    );
    assert_eq!(
        complete(ChannelResponse::TeardownGpadl(id)),
        server(ServerCall::GpadlTeardownComplete(ID, id))
    );
    assert_eq!(
        complete(ChannelResponse::Modify(7)),
        server(ServerCall::ModifyChannelComplete(ID, 7))
    );
}

#[test]
fn refused_open_closes_the_channel() {
    let mut task = task();
    open(&mut task, open_params());
    assert_eq!(
        task.handle_response(ID, 0, Ok(ChannelResponse::Open(false))),
        vec![
            Effect::ReleaseOpen { offer_id: ID },
            Effect::Server(ServerCall::OpenComplete(ID, CompletionStatus::Unsuccessful)),
        ]
    );
    assert_eq!(state(&task), ChannelState::Closed);
}

#[test]
fn completed_close_closes_the_channel() {
    let mut task = task();
    open(&mut task, open_params());
    assert_eq!(
        task.handle_close(ID),
        vec![
            Effect::ReleaseOpen { offer_id: ID },
            Effect::Server(ServerCall::CloseComplete(ID)),
        ]
    );
    assert_eq!(state(&task), ChannelState::Closed);
}

#[test]
fn lost_device_changes_nothing() {
    let mut task = task();
    open(&mut task, open_params());
    assert_eq!(task.handle_response(ID, 0, Err(RecvError)), vec![]);
    assert!(matches!(state(&task), ChannelState::Open { .. }));
}

#[test]
fn stale_response_is_ignored() {
    let mut task = task();
    open(&mut task, open_params());
    task.handle_revoke(ID);
    assert_eq!(task.handle_response(ID, 0, Ok(ChannelResponse::Close)), vec![]);

    // The same ID is offered again, and opened.
    offer(&mut task, ID, false);
    open(&mut task, open_params());
    assert_eq!(task.handle_response(ID, 0, Ok(ChannelResponse::Close)), vec![]);
    assert!(matches!(state(&task), ChannelState::Open { .. }));
    assert_eq!(task.handle_response(ID, 1, Ok(ChannelResponse::Close)).len(), 2);
    assert_eq!(state(&task), ChannelState::Closed);
}

#[test]
fn revoke_takes_effect_once() {
    let mut task = task();
    assert_eq!(
        task.handle_revoke(ID),
        vec![
            Effect::ReleaseChannel { offer_id: ID },
            Effect::Server(ServerCall::RevokeChannel(ID)),
        ]
    );
    assert_eq!(task.inner().channel(ID), None);
    assert_eq!(task.handle_revoke(ID), vec![]);
}

#[test]
fn restore_adds_valid_gpadls_and_opens() {
    let mut task = task();
    let gpadl = |id, valid| RestoredGpadl {
        request: GpadlRequest { id: GpadlId(id), count: 1, buf: vec![u64::from(id), 0] },
        valid,
    };
    let gpadls = vec![gpadl(1, true), gpadl(2, false), gpadl(3, true)];
    let restored: Result<_, ()> = Ok(Some(open_params()));
    let plan = task.handle_restore_channel(ID, gpadls, restored, true).unwrap();
    assert_eq!(plan.open_request, Some(open_params().open_data));
    assert_eq!(plan.gpadls, vec![gpadl(1, true), gpadl(2, false), gpadl(3, true)]);
    assert_eq!(
        plan.effects[0],
        Effect::AddGpadl { offer_id: ID, gpadl: gpadl(1, true).request }
    );
    assert_eq!(
        plan.effects[1],
        Effect::AddGpadl { offer_id: ID, gpadl: gpadl(3, true).request }
    );
    assert_eq!(plan.effects.len(), 5);
    assert!(matches!(state(&task), ChannelState::Open { .. }));
}

#[test]
fn restore_of_closed_channel_and_failure() {
    let mut task = task();
    let closed: Result<_, ()> = Ok(None);
    let plan = task.handle_restore_channel(ID, vec![], closed, true).unwrap();
    assert_eq!(plan.effects, vec![]);
    assert_eq!(plan.open_request, None);
    assert_eq!(plan.gpadls, vec![]);

    let failed = task.handle_restore_channel(OfferId(8), vec![], Err("missing"), true);
    assert_eq!(failed, Err("missing"));
    assert_eq!(state(&task), ChannelState::Closed);
}

#[test]
fn inspection_finds_the_rings_of_open_channels() {
    let mut task = task_with(Vtl::Vtl0, 2, true);
    offer(&mut task, ID, true);
    assert_eq!(task.inner().inspect(ID), None);
    open(&mut task, open_params());
    let location = |memory| RingLocation { memory, gpadl_id: GpadlId(10), offset: 4 };
    assert_eq!(task.inner().inspect(ID), Some(location(MemoryChoice::Trusted)));

    let mut task = task_with(Vtl::Vtl0, 2, false);
    offer(&mut task, ID, true);
    open(&mut task, open_params());
    assert_eq!(task.inner().inspect(ID), Some(location(MemoryChoice::Shared)));

    let mut task = task_with(Vtl::Vtl0, 2, true);
    offer(&mut task, ID, false);
    open(&mut task, open_params());
    assert_eq!(task.inner().inspect(ID), Some(location(MemoryChoice::Shared)));
}
