//! Relays, and devices of the virtio kind.

use vmbus_server::protocol::Update;
use vmbus_server::relay::default_hvsock_response;
use vmbus_server::relay::default_relay_response;
use vmbus_server::relay::ConnectionState;
use vmbus_server::relay::FeatureFlags;
use vmbus_server::relay::ModifyConnectionResponse;
use vmbus_server::relay::ModifyRelayRequest;
use vmbus_server::relay::RelayChannel;
use vmbus_server::resolver::MacAddress;
use vmbus_server::resolver::ResolveEndpointParams;
use vmbus_server::resolver::VirtioNetHandle;
use vmbus_server::resolver::VirtioNetResolver;
use vmbus_server::resolver::VirtioResolveInput;

#[test]
fn relay_channel_connects_both_sides() {
    let (request_send, request_receive) = futures::channel::mpsc::unbounded::<u32>();
    let (response_send, response_receive) = futures::channel::mpsc::unbounded::<char>();
    let mut channel =
        RelayChannel::new((request_send, request_receive), (response_send, response_receive));
    channel.server_half.request_send.unbounded_send(7).unwrap();
    assert_eq!(channel.relay_half.request_receive.try_recv().unwrap(), 7);
    channel.relay_half.response_send.unbounded_send('r').unwrap();
    assert_eq!(channel.server_half.response_receive.try_recv().unwrap(), 'r');
}

#[test]
fn without_a_relay_everything_is_supported() {
    let request = ModifyRelayRequest {
        version: None,
        monitor_page: Update::Reset,
        use_interrupt_page: Some(true),
    };
    assert_eq!(
        default_relay_response(&request),
        ModifyConnectionResponse::Supported(ConnectionState::Successful, FeatureFlags::All)
    );
}

#[test]
fn without_a_notifier_hvsockets_are_refused() {
    let verdict = default_hvsock_response("request");
    assert_eq!(verdict.request, "request");
    assert!(!verdict.success);
}

fn input() -> VirtioResolveInput<&'static str, u32> {
    VirtioResolveInput { driver_source: "driver", guest_memory: 7 }
}

#[test]
fn net_device_and_backend_share_the_address() {
    let mac_address = MacAddress([2, 0, 0, 0, 0, 1]);
    let handle = VirtioNetHandle { max_queues: Some(4), mac_address, endpoint: "tap" };
    let resolver = VirtioNetResolver;
    let (endpoint, params, pending) = resolver.resolve(handle, input());
    assert_eq!(endpoint, "tap");
    assert_eq!(params, ResolveEndpointParams { mac_address });
    let resolved: Result<_, ()> = Ok("backend");
    let device = resolver.resolved(pending, resolved).unwrap();
    assert_eq!(device.endpoint, "backend");
    assert_eq!(device.mac_address, mac_address);
    assert_eq!(device.max_queues, Some(4));
    assert_eq!(device.input.driver_source, "driver");
    assert_eq!(device.input.guest_memory, 7);
}

#[test]
fn net_device_fails_with_its_backend() {
    let handle =
        VirtioNetHandle { max_queues: None, mac_address: MacAddress([0; 6]), endpoint: () };
    let (_, _, pending) = VirtioNetResolver.resolve(handle, input());
    assert_eq!(pending.max_queues, None);
    let resolved: Result<(), _> = Err("no such backend");
    assert!(matches!(VirtioNetResolver.resolved(pending, resolved), Err("no such backend")));
}
