//! Channel offers and the control point that they are made through.

use crate::host::Host;
use crate::protocol::Guid;
use crate::protocol::OfferFlags;
use crate::protocol::OfferKey;
use vstd::prelude::*;

verus! {

/// A channel offer as the bus takes it from a device.
pub struct OfferParams {
    pub interface_name: String,
    pub instance_id: Guid,
    pub interface_id: Guid,
    pub mmio_megabytes: u16,
    pub mmio_megabytes_optional: u16,
    pub subchannel_index: u16,
    pub use_mnf: bool,
    pub offer_order: Option<u32>,
    /// The flags that follow from the type of the channel.
    pub type_flags: OfferFlags,
    /// The data that follows from the type of the channel.
    pub user_defined: Vec<u8>,
}

/// A channel offer, with flags and user-defined data set.
pub struct OfferParamsInternal {
    pub interface_name: String,
    pub instance_id: Guid,
    pub interface_id: Guid,
    pub mmio_megabytes: u16,
    pub mmio_megabytes_optional: u16,
    pub subchannel_index: u16,
    pub use_mnf: bool,
    pub offer_order: Option<u32>,
    pub flags: OfferFlags,
    pub user_defined: Vec<u8>,
}

impl OfferParamsInternal {
    /// What the offer is known by.
    pub open spec fn spec_key(&self) -> OfferKey {
        OfferKey {
            interface_id: self.interface_id,
            instance_id: self.instance_id,
            subchannel_index: self.subchannel_index,
        }
    }

    /// Returns what the offer is known by.
    #[verifier::when_used_as_spec(spec_key)]
    pub fn key(&self) -> (key: OfferKey)
        ensures
            key == self.spec_key(),
    {
        OfferKey {
            interface_id: self.interface_id,
            instance_id: self.instance_id,
            subchannel_index: self.subchannel_index,
        }
    }
}

impl OfferParams {
    /// The offer that the server gets: it is confidential, and otherwise as the device made it.
    pub open spec fn offered(self) -> OfferParamsInternal {
        OfferParamsInternal {
            interface_name: self.interface_name,
            instance_id: self.instance_id,
            interface_id: self.interface_id,
            mmio_megabytes: self.mmio_megabytes,
            mmio_megabytes_optional: self.mmio_megabytes_optional,
            subchannel_index: self.subchannel_index,
            use_mnf: self.use_mnf,
            offer_order: self.offer_order,
            flags: OfferFlags { confidential_channel: true, ..self.type_flags },
            user_defined: self.user_defined,
        }
    }
}

impl From<OfferParams> for OfferParamsInternal {
    fn from(value: OfferParams) -> (params: Self) {
        OfferParamsInternal {
            interface_name: value.interface_name,
            instance_id: value.instance_id,
            interface_id: value.interface_id,
            mmio_megabytes: value.mmio_megabytes,
            mmio_megabytes_optional: value.mmio_megabytes_optional,
            subchannel_index: value.subchannel_index,
            use_mnf: value.use_mnf,
            offer_order: value.offer_order,
            flags: OfferFlags { confidential_channel: true, ..value.type_flags },
            user_defined: value.user_defined,
        }
    }
}

impl vstd::std_specs::convert::FromSpecImpl<OfferParams> for OfferParamsInternal {
    open spec fn obeys_from_spec() -> bool {
        true
    }

    open spec fn from_spec(value: OfferParams) -> Self {
        value.offered()
    }
}

/// A channel offered by a device, with the device's ends of the connections to it.
pub struct OfferInput<H: Host> {
    pub params: OfferParams,
    pub event: H::Interrupt,
    pub request_send: H::RequestSender,
    pub server_request_recv: H::ServerRequestReceiver,
}

/// A channel offered to the server, with the device's ends of the connections to it.
pub struct OfferInfo<H: Host> {
    pub params: OfferParamsInternal,
    pub event: H::Interrupt,
    pub request_send: H::RequestSender,
    pub server_request_recv: H::ServerRequestReceiver,
}

/// A request to the server's task, with where to report what came of it.
pub enum OfferRequest<H: Host> {
    Offer(OfferInfo<H>, H::OfferReply),
}

/// Which of the server's memories a channel uses.
#[derive(Clone, Copy, Debug, PartialEq, Eq, Structural)]
pub enum MemoryChoice {
    /// The guest's memory.
    Shared,
    /// The memory set apart for confidential channels.
    Trusted,
}

/// The memory of a channel: confidential channels use the trusted memory, if there is one.
pub open spec fn memory_of(confidential: bool, trusted_memory: bool) -> MemoryChoice {
    if confidential && trusted_memory {
        MemoryChoice::Trusted
    } else {
        MemoryChoice::Shared
    }
}

/// Returns the memory of a channel.
pub(crate) fn choose_memory(confidential: bool, trusted_memory: bool) -> (memory: MemoryChoice)
    ensures
        memory == memory_of(confidential, trusted_memory),
{
    if confidential && trusted_memory {
        MemoryChoice::Trusted
    } else {
        MemoryChoice::Shared
    }
}

/// An offer that the server has not decided on yet.
#[derive(Clone, Copy, Debug, PartialEq, Eq, Structural)]
pub struct PendingOffer {
    pub confidential: bool,
}

/// What a device gets for its offer.
pub struct OfferResources<GuestMemory> {
    pub guest_mem: GuestMemory,
}

/// Control point for the server, allowing callers to offer channels.
pub struct VmbusServerControl<H: Host> {
    pub mem: H::GuestMemory,
    pub trusted_mem: Option<H::GuestMemory>,
    pub send: H::OfferSender,
    pub use_event: bool,
}

impl<H: Host> Clone for VmbusServerControl<H> where H::GuestMemory: Clone, H::OfferSender: Clone {
    fn clone(&self) -> (control: Self)
        ensures
            cloned(self.mem, control.mem),
            match self.trusted_mem {
                Some(trusted_mem) => {
                    &&& control.trusted_mem is Some
                    &&& cloned(trusted_mem, control.trusted_mem->0)
                },
                None => control.trusted_mem is None,
            },
            cloned(self.send, control.send),
            control.use_event == self.use_event,
    {
        let trusted_mem = match &self.trusted_mem {
            Some(trusted_mem) => Some(trusted_mem.clone()),
            None => None,
        };
        VmbusServerControl {
            mem: self.mem.clone(),
            trusted_mem,
            send: self.send.clone(),
            use_event: self.use_event,
        }
    }
}

impl<H: Host> VmbusServerControl<H> {
    /// Offers a channel to the vmbus server, where the flags and user_defined data are already
    /// set. This is used by the relay to forward the host's parameters.
    ///
    /// Returns the request to send to the server, and the offer to be completed by
    /// [`Self::offered`] once the answer is there.
    pub fn offer_core(&self, offer_info: OfferInfo<H>, reply: H::OfferReply) -> (r: (
        OfferRequest<H>,
        PendingOffer,
    ))
        ensures
            r.0 == OfferRequest::<H>::Offer(offer_info, reply),
            r.1 == (PendingOffer { confidential: offer_info.params.flags.confidential_channel }),
    {
        let confidential = offer_info.params.flags.confidential_channel;
        (OfferRequest::Offer(offer_info, reply), PendingOffer { confidential })
    }

    /// Completes an offer by the server's answer: the device gets its memory if the server
    /// accepted the offer, and the server's error otherwise.
    pub fn offered<Error>(&self, offer: PendingOffer, answer: Result<(), Error>) -> (r: Result<
        OfferResources<&H::GuestMemory>,
        Error,
    >)
        ensures
            answer matches Err(error) ==> r == Err::<OfferResources<&H::GuestMemory>, Error>(error),
            answer is Ok ==> r == Ok::<OfferResources<&H::GuestMemory>, Error>(
                OfferResources {
                    guest_mem: match memory_of(offer.confidential, self.trusted_mem is Some) {
                        MemoryChoice::Shared => &self.mem,
                        MemoryChoice::Trusted => &self.trusted_mem->0,
                    },
                },
            ),
    {
        match answer {
            Err(error) => Err(error),
            Ok(()) => {
                let guest_mem = match &self.trusted_mem {
                    Some(trusted_mem) if offer.confidential => trusted_mem,
                    _ => &self.mem,
                };
                Ok(OfferResources { guest_mem })
            },
        }
    }

    /// Offers a channel of a device of this partition: turns it into the offer to be made by
    /// [`Self::offer_core`].
    pub fn offer(&self, request: OfferInput<H>) -> (offer_info: OfferInfo<H>)
        ensures
            offer_info.params == request.params.offered(),
            offer_info.event == request.event,
            offer_info.request_send == request.request_send,
            offer_info.server_request_recv == request.server_request_recv,
    {
        OfferInfo {
            params: OfferParamsInternal::from(request.params),
            event: request.event,
            request_send: request.request_send,
            server_request_recv: request.server_request_recv,
        }
    }

    /// Returns whether devices should use OS events for their interrupts.
    pub fn use_event(&self) -> (use_event: bool)
        ensures
            use_event == self.use_event,
    {
        self.use_event
    }
}

} // verus!
