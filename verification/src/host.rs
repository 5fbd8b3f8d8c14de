//! The values that belong to the embedding virtual machine monitor.

use vstd::prelude::*;

verus! {

/// The types of the values that the server receives, keeps and hands on without looking inside.
pub trait Host {
    /// Runs the server's task.
    type Spawner;

    /// The synthetic interrupt controller.
    type Synic;

    /// Access to guest memory.
    type GuestMemory;

    /// The server's half of a connection that answers hvsocket requests.
    type HvsockChannel;

    /// The server's half of a connection to a relay.
    type RelayChannel;

    /// Forwards connect requests to another server.
    type ExternalSender;

    /// Receives connect requests from another server.
    type ExternalReceiver;

    /// A port for messages from the guest.
    type MessagePort;

    /// Carries requests to the server's task.
    type TaskSender;

    /// The server's running task.
    type Task;

    /// Carries channel offers to the server's task.
    type OfferSender;

    /// An interrupt to the device or to the guest.
    type Interrupt;

    /// Carries requests to the device behind a channel.
    type RequestSender;

    /// Receives the requests of the device behind a channel.
    type ServerRequestReceiver;

    /// Reports the outcome of an offer.
    type OfferReply;

    /// The saved state of the channel state machine.
    type ServerState;

    /// A request to connect to the vmbus, from the guest or from another server.
    type ContactRequest;

    /// The outcome of an hvsocket request.
    type HvsockResult;

    /// Why guest memory could not be locked.
    type MemoryError;

    /// Why a port could not be added.
    type SynicError;

    /// Why the monitor page could not be set.
    type MonitorError;
}

} // verus!
