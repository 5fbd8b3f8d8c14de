//! What becomes of an offer, from the device to the server and back.

use crate::channel::ChannelState;
use crate::host::Host;
use crate::inner::InnerView;
use crate::offer::OfferInfo;
use crate::offer::OfferParams;
use crate::offer::OfferParamsInternal;
use crate::protocol::OfferId;
use crate::protocol::OfferKey;
use crate::task::Offering;
use crate::task::TaskView;
use vstd::prelude::*;

verus! {

/// An offer is known by its interface, its instance and its subchannel: two offers have the same
/// key exactly if they agree in these three.
pub proof fn law_key(a: OfferParamsInternal, b: OfferParamsInternal)
    ensures
        a.spec_key().interface_id == a.interface_id,
        a.spec_key().instance_id == a.instance_id,
        a.spec_key().subchannel_index == a.subchannel_index,
        a.spec_key() == b.spec_key() <==> a.interface_id == b.interface_id && a.instance_id
            == b.instance_id && a.subchannel_index == b.subchannel_index,
{
}

/// The offer of a device reaches the server as the device made it, except that it is confidential.
pub proof fn law_device_offer_kept(params: OfferParams)
    ensures
        ({
            let offered = params.offered();
            &&& offered.interface_name == params.interface_name
            &&& offered.instance_id == params.instance_id
            &&& offered.interface_id == params.interface_id
            &&& offered.mmio_megabytes == params.mmio_megabytes
            &&& offered.mmio_megabytes_optional == params.mmio_megabytes_optional
            &&& offered.subchannel_index == params.subchannel_index
            &&& offered.use_mnf == params.use_mnf
            &&& offered.offer_order == params.offer_order
            &&& offered.user_defined == params.user_defined
            &&& offered.flags.confidential_channel
            &&& offered.flags.enumerate_device_interface
                == params.type_flags.enumerate_device_interface
            &&& offered.flags.other == params.type_flags.other
        }),
{
}

/// The offer that the channel state machine gets agrees with the one that the server got in
/// everything but the use of the monitor page, which is granted exactly if it was asked for, this
/// server handles the monitor pages, and the synic supports that. The device's ends go along
/// unchanged. The channel will be kept under the key of the parameters handed on, and as
/// confidential exactly if these say so.
pub proof fn law_offer_handed_on<H: Host>(
    v: TaskView,
    info: OfferInfo<H>,
    monitor_supported: bool,
)
    ensures
        ({
            let offering = v.offering(info, monitor_supported);
            let given = info.params;
            let handed_on = offering.info.params;
            &&& handed_on.interface_name == given.interface_name
            &&& handed_on.interface_id == given.interface_id
            &&& handed_on.instance_id == given.instance_id
            &&& handed_on.subchannel_index == given.subchannel_index
            &&& handed_on.mmio_megabytes == given.mmio_megabytes
            &&& handed_on.mmio_megabytes_optional == given.mmio_megabytes_optional
            &&& handed_on.offer_order == given.offer_order
            &&& handed_on.flags == given.flags
            &&& handed_on.user_defined == given.user_defined
            &&& handed_on.use_mnf <==> given.use_mnf && v.inner.enable_mnf && monitor_supported
            &&& offering.info.event == info.event
            &&& offering.info.request_send == info.request_send
            &&& offering.info.server_request_recv == info.server_request_recv
            &&& offering.key.interface_id == handed_on.interface_id
            &&& offering.key.instance_id == handed_on.instance_id
            &&& offering.key.subchannel_index == handed_on.subchannel_index
            &&& offering.key == handed_on.spec_key()
            &&& offering.confidential == handed_on.flags.confidential_channel
        }),
{
}

/// Offering a channel a second time, as it was handed on the first time, changes nothing.
pub proof fn law_offer_handed_on_twice<H: Host>(
    v: TaskView,
    info: OfferInfo<H>,
    monitor_supported: bool,
)
    ensures
        v.offering(v.offering(info, monitor_supported).info, monitor_supported) == v.offering(
            info,
            monitor_supported,
        ),
{
}

/// An accepted offer adds one channel, under the ID that it was given, closed, with the next
/// sequence number, and uses that number up. Other channels, and the rest of the server, stay as
/// they are.
pub proof fn law_offer_adds_channel(
    v: TaskView,
    offer_id: OfferId,
    key: OfferKey,
    confidential: bool,
)
    requires
        v.next_seq < u64::MAX,
    ensures
        ({
            let w = v.offered(offer_id, key, confidential);
            let channel = w.inner.channels[offer_id.0];
            &&& w == (TaskView {
                next_seq: w.next_seq,
                inner: InnerView { channels: w.inner.channels, ..v.inner },
                ..v
            })
            &&& w.next_seq == v.next_seq + 1
            &&& w.inner.channels.contains_key(offer_id.0)
            &&& channel.key == key
            &&& channel.seq == v.next_seq
            &&& channel.state == ChannelState::Closed
            &&& channel.confidential == confidential
            &&& w.inner.channels.remove(offer_id.0) =~= v.inner.channels.remove(offer_id.0)
        }),
{
}

/// What comes of an offer: if it was accepted, a channel under the ID that it was given, with the
/// device's ends, and success; if it was refused, no channel, and the error it was refused with.
/// Either way the answer goes where the offer's reply goes.
pub proof fn law_offer_outcome<H: Host, Error>(
    offering: Offering<H>,
    reply: H::OfferReply,
    result: Result<OfferId, Error>,
)
    ensures
        ({
            let outcome = offering.outcome(reply, result);
            &&& outcome.reply == reply
            &&& result is Ok <==> outcome.answer is Ok
            &&& result is Ok <==> outcome.added is Some
            &&& result is Err ==> outcome.answer->Err_0 == result->Err_0
            &&& result is Ok ==> {
                let added = outcome.added->0;
                &&& added.offer_id == result->Ok_0
                &&& added.event == offering.info.event
                &&& added.request_send == offering.info.request_send
                &&& added.server_request_recv == offering.info.server_request_recv
            }
        }),
{
}

/// A channel uses the trusted memory exactly if it is confidential and there is such a memory.
pub proof fn law_memory(confidential: bool, trusted_memory: bool)
    ensures
        crate::offer::memory_of(confidential, trusted_memory) is Trusted <==> confidential
            && trusted_memory,
        crate::offer::memory_of(confidential, trusted_memory) is Shared <==> !(confidential
            && trusted_memory),
{
}

} // verus!
