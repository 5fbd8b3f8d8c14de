//! Resolution of virtio-net devices.

use vstd::prelude::*;

verus! {

/// A network hardware address.
#[derive(Clone, Copy, Debug, PartialEq, Eq)]
pub struct MacAddress(pub [u8; 6]);

/// The description of a virtio-net device: `Endpoint` names the network backend to attach it to.
pub struct VirtioNetHandle<Endpoint> {
    pub max_queues: Option<u16>,
    pub mac_address: MacAddress,
    pub endpoint: Endpoint,
}

/// What the network backend is told when it is resolved.
#[derive(Clone, Copy, Debug, PartialEq, Eq)]
pub struct ResolveEndpointParams {
    pub mac_address: MacAddress,
}

/// What any virtio device is built with.
#[derive(Debug, PartialEq, Eq)]
pub struct VirtioResolveInput<DriverSource, GuestMemory> {
    pub driver_source: DriverSource,
    pub guest_memory: GuestMemory,
}

/// A virtio-net device that waits for its backend.
pub struct PendingDevice<DriverSource, GuestMemory> {
    /// The limit on queue pairs, or `None` to keep the device's default.
    pub max_queues: Option<u16>,
    pub mac_address: MacAddress,
    pub input: VirtioResolveInput<DriverSource, GuestMemory>,
}

/// A virtio-net device that is ready to be built on its resolved backend.
pub struct DeviceConfig<Backend, DriverSource, GuestMemory> {
    /// The limit on queue pairs, or `None` to keep the device's default.
    pub max_queues: Option<u16>,
    pub mac_address: MacAddress,
    pub input: VirtioResolveInput<DriverSource, GuestMemory>,
    pub endpoint: Backend,
}

/// Resolver for virtio-net devices.
#[derive(Clone, Copy, Debug)]
pub struct VirtioNetResolver;

impl VirtioNetResolver {
    /// Starts to resolve a device: returns the backend to resolve, with its parameters, and the
    /// device to be completed by [`Self::resolved`].
    pub fn resolve<Endpoint, DriverSource, GuestMemory>(
        &self,
        resource: VirtioNetHandle<Endpoint>,
        input: VirtioResolveInput<DriverSource, GuestMemory>,
    ) -> (r: (Endpoint, ResolveEndpointParams, PendingDevice<DriverSource, GuestMemory>))
        ensures
            r.0 == resource.endpoint,
            r.1 == (ResolveEndpointParams { mac_address: resource.mac_address }),
            r.2 == (PendingDevice {
                max_queues: resource.max_queues,
                mac_address: resource.mac_address,
                input,
            }),
    {
        let device = PendingDevice {
            max_queues: resource.max_queues,
            mac_address: resource.mac_address,
            input,
        };
        (resource.endpoint, ResolveEndpointParams { mac_address: resource.mac_address }, device)
    }

    /// Finishes resolving a device: it is built on the backend if that was resolved, and fails
    /// as the backend did otherwise.
    pub fn resolved<Backend, DriverSource, GuestMemory, Error>(
        &self,
        pending: PendingDevice<DriverSource, GuestMemory>,
        endpoint: Result<Backend, Error>,
    ) -> (device: Result<DeviceConfig<Backend, DriverSource, GuestMemory>, Error>)
        ensures
            device == (match endpoint {
                Ok(endpoint) => Ok::<DeviceConfig<Backend, DriverSource, GuestMemory>, Error>(
                    DeviceConfig {
                        max_queues: pending.max_queues,
                        mac_address: pending.mac_address,
                        input: pending.input,
                        endpoint,
                    },
                ),
                Err(error) => Err(error),
            }),
    {
        match endpoint {
            Ok(endpoint) => Ok(
                DeviceConfig {
                    max_queues: pending.max_queues,
                    mac_address: pending.mac_address,
                    input: pending.input,
                    endpoint,
                },
            ),
            Err(error) => Err(error),
        }
    }
}

} // verus!
