//! A running server, and the values that go in and out of it.

use crate::builder::VmbusServerBuilder;
use crate::host::Host;
use crate::offer::VmbusServerControl;
use crate::protocol::GpadlId;
use crate::protocol::OpenData;
use crate::protocol::Vtl;
use crate::protocol::MULTICLIENT_MESSAGE_CONNECTION_ID;
use crate::task::VmbusRequest;
use vstd::prelude::*;

verus! {

/// A running server.
///
/// The requests that its methods return go to the server's task, which answers them.
pub struct VmbusServer<H: Host> {
    pub task_send: H::TaskSender,
    pub control: VmbusServerControl<H>,
    pub message_port: H::MessagePort,
    pub multiclient_message_port: Option<H::MessagePort>,
    pub task: H::Task,
}

/// The connection ID of the messages that a guest sends to a server at an interrupt source of a
/// processor and trust level.
pub open spec fn child_message_connection_id(vp_index: u32, sint_index: u8, vtl: Vtl) -> u32 {
    MULTICLIENT_MESSAGE_CONNECTION_ID | vtl.spec_number() << 22 | vp_index << 8
        | (sint_index as u32) << 4
}

impl<H: Host> VmbusServer<H> {
    /// Creates a new builder for a server with the default options.
    pub fn builder<'a>(
        spawner: &'a H::Spawner,
        synic: H::Synic,
        gm: H::GuestMemory,
    ) -> (builder: VmbusServerBuilder<'a, H>)
        ensures
            builder == (VmbusServerBuilder::<'a, H> {
                spawner,
                synic,
                gm,
                trusted_gm: None,
                vtl: Vtl::Vtl0,
                hvsock_notify: None,
                server_relay: None,
                external_server: None,
                external_requests: None,
                use_message_redirect: false,
                channel_id_offset: 0,
                max_version: None,
                delay_max_version: false,
                enable_mnf: false,
            }),
    {
        VmbusServerBuilder::new(spawner, synic, gm)
    }

    /// Saves the state of the server.
    pub fn save(&self) -> (request: VmbusRequest)
        ensures
            request == VmbusRequest::Save,
    {
        VmbusRequest::Save
    }

    /// Restores the state of the server, by the part of it that goes along with the request.
    pub fn restore(&self, state: SavedState<H>) -> (r: (VmbusRequest, H::ServerState))
        ensures
            r.0 == VmbusRequest::Restore,
            r.1 == state.server(),
    {
        (VmbusRequest::Restore, state.into_server())
    }

    /// Completes a restore, once the channels are restored.
    pub fn post_restore(&self) -> (request: VmbusRequest)
        ensures
            request == VmbusRequest::PostRestore,
    {
        VmbusRequest::PostRestore
    }

    /// Stop the control plane.
    pub fn stop(&self) -> (request: VmbusRequest)
        ensures
            request == VmbusRequest::Stop,
    {
        VmbusRequest::Stop
    }

    /// Starts the control plane.
    pub fn start(&self) -> (request: VmbusRequest)
        ensures
            request == VmbusRequest::Start,
    {
        VmbusRequest::Start
    }

    /// Resets the vmbus channel state.
    pub fn reset(&self) -> (request: VmbusRequest)
        ensures
            request == VmbusRequest::Reset,
    {
        VmbusRequest::Reset
    }

    /// Tears down the vmbus control plane: no more request can come, so the task ends. Returns
    /// the task to wait for.
    pub fn shutdown(self) -> (task: H::Task)
        ensures
            task == self.task,
    {
        self.task
    }

    /// Returns an object that can be used to offer channels.
    pub fn control(&self) -> (control: &VmbusServerControl<H>)
        ensures
            *control == self.control,
    {
        &self.control
    }

    /// Returns the message connection ID to use for a communication from the guest for servers
    /// that use a non-standard SINT or VTL.
    pub fn get_child_message_connection_id(vp_index: u32, sint_index: u8, vtl: Vtl) -> (id: u32)
        ensures
            id == child_message_connection_id(vp_index, sint_index, vtl),
    {
        MULTICLIENT_MESSAGE_CONNECTION_ID | vtl.number() << 22 | vp_index << 8
            | (sint_index as u32) << 4
    }
}

/// The state of a server that is not running.
pub struct SavedState<H: Host> {
    server: H::ServerState,
}

impl<H: Host> SavedState<H> {
    /// The state of the channel state machine.
    pub closed spec fn server(self) -> H::ServerState {
        self.server
    }

    /// Wraps the state that the channel state machine saved.
    pub fn new(server: H::ServerState) -> (state: Self)
        ensures
            state.server() == server,
    {
        SavedState { server }
    }

    /// Returns the state for the channel state machine to restore.
    pub fn into_server(self) -> (server: H::ServerState)
        ensures
            server == self.server(),
    {
        self.server
    }
}

/// What a channel is restored from.
pub struct RestoreInfo<H: Host> {
    pub open_data: Option<OpenData>,
    pub gpadls: Vec<(GpadlId, u16, Vec<u64>)>,
    pub interrupt: Option<H::Interrupt>,
}

/// A message from the guest.
#[derive(Debug, PartialEq, Eq)]
pub struct SynicMessage {
    pub data: Vec<u8>,
    /// Whether the message came in on a port for guests with several vmbus clients.
    pub multiclient: bool,
    /// Whether the message came from a trusted part of the guest.
    pub trusted: bool,
}

impl Default for SynicMessage {
    fn default() -> (message: Self)
        ensures
            message.data@ == Seq::<u8>::empty(),
            !message.multiclient,
            !message.trusted,
    {
        SynicMessage { data: Vec::new(), multiclient: false, trusted: false }
    }
}

/// A port for messages from the guest, with the queue that they go to.
pub struct MessageSender<Queue> {
    pub send: Queue,
    pub multiclient: bool,
}

impl<Queue> MessageSender<Queue> {
    /// Takes a message from the guest: returns what goes to the queue.
    pub fn handle_message(&self, data: &[u8], trusted: bool) -> (message: SynicMessage)
        ensures
            message.data@ == data@,
            message.multiclient == self.multiclient,
            message.trusted == trusted,
    {
        SynicMessage {
            data: vstd::slice::slice_to_vec(data),
            multiclient: self.multiclient,
            trusted,
        }
    }
}

} // verus!
