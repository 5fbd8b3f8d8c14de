//! Building a server.

use crate::host::Host;
use crate::inner::InnerView;
use crate::inner::ServerTaskInner;
use crate::offer::VmbusServerControl;
use crate::protocol::ConnectionTarget;
use crate::protocol::Vtl;
use crate::protocol::CHANNEL_ID_OFFSET;
use crate::protocol::MESSAGE_CONNECTION_ID;
use crate::protocol::MESSAGE_QUEUE_LEN;
use crate::protocol::MULTICLIENT_MESSAGE_CONNECTION_ID;
use crate::protocol::REDIRECT_SINT;
use crate::protocol::REDIRECT_VTL;
use crate::protocol::SINT;
use crate::relay::Answerer;
use crate::relay::ConnectionState;
use crate::relay::FeatureFlags;
use crate::relay::HvsockVerdict;
use crate::relay::ModifyConnectionResponse;
use crate::relay::ModifyRelayRequest;
use crate::server::VmbusServer;
use crate::task::ServerTask;
use crate::task::TaskView;
use vstd::prelude::*;

verus! {

/// A server about to be built.
pub struct VmbusServerBuilder<'a, H: Host> {
    pub spawner: &'a H::Spawner,
    pub synic: H::Synic,
    pub gm: H::GuestMemory,
    pub trusted_gm: Option<H::GuestMemory>,
    pub vtl: Vtl,
    pub hvsock_notify: Option<H::HvsockChannel>,
    pub server_relay: Option<H::RelayChannel>,
    pub external_server: Option<H::ExternalSender>,
    pub external_requests: Option<H::ExternalReceiver>,
    pub use_message_redirect: bool,
    pub channel_id_offset: u16,
    pub max_version: Option<u32>,
    pub delay_max_version: bool,
    pub enable_mnf: bool,
}

/// A port for messages from the guest.
#[derive(Clone, Copy, Debug, PartialEq, Eq, Structural)]
pub struct MessagePortRequest {
    pub connection_id: u32,
    /// The lowest trust level that may send on the port.
    pub vtl: Vtl,
    /// Whether the messages are from guests with several vmbus clients.
    pub multiclient: bool,
}

/// A limit on the protocol version offered to the guest.
#[derive(Clone, Copy, Debug, PartialEq, Eq, Structural)]
pub struct VersionLimit {
    pub version: u32,
    /// Whether the limit applies only after the first `Unload` message.
    pub delay: bool,
}

/// What the channel state machine is created with.
#[derive(Clone, Copy, Debug, PartialEq, Eq)]
pub struct ServerParams {
    pub vtl: Vtl,
    pub message_connection_id: u32,
    pub channel_id_offset: u16,
    pub version_limit: Option<VersionLimit>,
}

/// Everything that makes up a server.
///
/// The message port is added first, then the port for multiple clients if there is to be one; if
/// either cannot be added, there is no server.
pub struct BuildPlan<'a, H: Host> {
    pub spawner: &'a H::Spawner,
    pub synic: H::Synic,
    pub gm: H::GuestMemory,
    pub trusted_gm: Option<H::GuestMemory>,
    pub message_port: MessagePortRequest,
    pub multiclient_message_port: Option<MessagePortRequest>,
    pub server: ServerParams,
    /// Answers relay requests. Without it, [`Self::relay_answer`] does.
    pub relay: Option<H::RelayChannel>,
    /// Answers hvsocket requests. Without it, [`Self::hvsock_answer`] does.
    pub hvsock: Option<H::HvsockChannel>,
    pub external_server: Option<H::ExternalSender>,
    pub external_requests: Option<H::ExternalReceiver>,
    /// The number of guest messages that can be queued.
    pub message_queue_len: usize,
    pub task: ServerTask,
}

/// The message ports of a server.
pub struct MessagePorts<H: Host> {
    pub message_port: H::MessagePort,
    pub multiclient_message_port: Option<H::MessagePort>,
}

/// What is next after a message port is dealt with.
pub enum PortStep<H: Host> {
    /// Add the port for multiple clients; what comes of it goes to
    /// [`BuildPlan::multiclient_message_port_added`], along with the port added before.
    AddMulticlient(MessagePortRequest, H::MessagePort),
    /// All ports are added.
    Added(MessagePorts<H>),
    /// A port could not be added, so there is no server. Ports added before are dropped.
    Failed(H::SynicError),
}

impl<'a, H: Host> BuildPlan<'a, H> {
    /// Goes on once it is known whether the message port could be added.
    pub fn message_port_added(&self, result: Result<H::MessagePort, H::SynicError>) -> (step:
        PortStep<H>)
        ensures
            step == (match result {
                Err(error) => PortStep::<H>::Failed(error),
                Ok(message_port) => match self.multiclient_message_port {
                    Some(request) => PortStep::AddMulticlient(request, message_port),
                    None => PortStep::Added(
                        MessagePorts { message_port, multiclient_message_port: None },
                    ),
                },
            }),
    {
        match result {
            Err(error) => PortStep::Failed(error),
            Ok(message_port) => match self.multiclient_message_port {
                Some(request) => PortStep::AddMulticlient(request, message_port),
                None => PortStep::Added(
                    MessagePorts { message_port, multiclient_message_port: None },
                ),
            },
        }
    }

    /// Goes on once it is known whether the port for multiple clients could be added.
    pub fn multiclient_message_port_added(
        message_port: H::MessagePort,
        result: Result<H::MessagePort, H::SynicError>,
    ) -> (step: PortStep<H>)
        ensures
            step == (match result {
                Err(error) => PortStep::<H>::Failed(error),
                Ok(port) => PortStep::Added(
                    MessagePorts { message_port, multiclient_message_port: Some(port) },
                ),
            }),
    {
        match result {
            Err(error) => PortStep::Failed(error),
            Ok(port) => PortStep::Added(
                MessagePorts { message_port, multiclient_message_port: Some(port) },
            ),
        }
    }

    /// Returns who answers the server's relay requests.
    pub fn relay_answerer(&self) -> (answerer: Answerer)
        ensures
            answerer == Answerer::of(self.relay is Some),
    {
        match self.relay {
            Some(_) => Answerer::Peer,
            None => Answerer::Default,
        }
    }

    /// Returns who answers the server's hvsocket requests.
    pub fn hvsock_answerer(&self) -> (answerer: Answerer)
        ensures
            answerer == Answerer::of(self.hvsock is Some),
    {
        match self.hvsock {
            Some(_) => Answerer::Peer,
            None => Answerer::Default,
        }
    }

    /// Answers a relay request of a server without a relay: it succeeds with every feature. If
    /// there is a relay, only the relay answers.
    pub fn relay_answer(&self, request: &ModifyRelayRequest) -> (answer: Option<
        ModifyConnectionResponse,
    >)
        ensures
            answer == (if self.relay is Some {
                None
            } else {
                Some(
                    ModifyConnectionResponse::Supported(
                        ConnectionState::Successful,
                        FeatureFlags::All,
                    ),
                )
            }),
    {
        self.relay_answerer().relay_answer(request)
    }

    /// Answers an hvsocket request of a server without a notifier: it is refused. If there is a
    /// notifier, only the notifier answers.
    pub fn hvsock_answer<Request>(&self, request: Request) -> (answer: Option<
        HvsockVerdict<Request>,
    >)
        ensures
            answer == (if self.hvsock is Some {
                None
            } else {
                Some(HvsockVerdict { request, success: false })
            }),
    {
        self.hvsock_answerer().hvsock_answer(request)
    }

    /// Returns the server's control point. `use_event` says whether the synic prefers OS events.
    pub fn control(&self, send: H::OfferSender, use_event: bool) -> (control: VmbusServerControl<H>)
        where H::GuestMemory: Clone
        ensures
            cloned(self.gm, control.mem),
            match self.trusted_gm {
                Some(trusted_gm) => {
                    &&& control.trusted_mem is Some
                    &&& cloned(trusted_gm, control.trusted_mem->0)
                },
                None => control.trusted_mem is None,
            },
            control.send == send,
            control.use_event == use_event,
    {
        let trusted_mem = match &self.trusted_gm {
            Some(trusted_gm) => Some(trusted_gm.clone()),
            None => None,
        };
        VmbusServerControl { mem: self.gm.clone(), trusted_mem, send, use_event }
    }
}

impl<'a, H: Host> VmbusServerBuilder<'a, H> {
    /// The trust level and interrupt source that the control plane is reached at.
    pub open spec fn redirect(self) -> (Vtl, u8) {
        if self.use_message_redirect {
            (REDIRECT_VTL, REDIRECT_SINT)
        } else {
            (self.vtl, SINT)
        }
    }

    /// Whether the server is the one that guests reach at the standard connection IDs.
    pub open spec fn is_standard(self) -> bool {
        self.vtl == Vtl::Vtl0 && !self.use_message_redirect
    }

    /// The connection ID for messages from the guest. If this server is not for VTL0, use a
    /// server-specific connection ID rather than the standard one.
    pub open spec fn message_connection_id(self) -> u32 {
        if self.is_standard() {
            MESSAGE_CONNECTION_ID
        } else {
            crate::server::child_message_connection_id(0, self.redirect().1, self.redirect().0)
        }
    }

    /// Creates a new builder for a server with the default options.
    pub fn new(
        spawner: &'a H::Spawner,
        synic: H::Synic,
        gm: H::GuestMemory,
    ) -> (builder: Self)
        ensures
            builder == (VmbusServerBuilder::<'a, H> {
                spawner,
                synic,
                gm,
                trusted_gm: None,
                vtl: Vtl::Vtl0,
                hvsock_notify: None,
                server_relay: None,
                external_server: None,
                external_requests: None,
                use_message_redirect: false,
                channel_id_offset: 0,
                max_version: None,
                delay_max_version: false,
                enable_mnf: false,
            }),
    {
        VmbusServerBuilder {
            spawner,
            synic,
            gm,
            trusted_gm: None,
            vtl: Vtl::Vtl0,
            hvsock_notify: None,
            server_relay: None,
            external_server: None,
            external_requests: None,
            use_message_redirect: false,
            channel_id_offset: 0,
            max_version: None,
            delay_max_version: false,
            enable_mnf: false,
        }
    }

    /// Sets a separate guest memory instance to use for channels that are confidential (non-relay
    /// channels in Underhill on a hardware isolated VM). This is not relevant for a non-Underhill
    /// VmBus server.
    pub fn trusted_gm(self, trusted_gm: Option<H::GuestMemory>) -> (builder: Self)
        ensures
            builder == (VmbusServerBuilder::<'a, H> { trusted_gm, ..self }),
    {
        VmbusServerBuilder { trusted_gm, ..self }
    }

    /// Sets the VTL that this instance will serve.
    pub fn vtl(self, vtl: Vtl) -> (builder: Self)
        ensures
            builder == (VmbusServerBuilder::<'a, H> { vtl, ..self }),
    {
        VmbusServerBuilder { vtl, ..self }
    }

    /// Sets a send/receive pair used to handle hvsocket requests.
    pub fn hvsock_notify(self, hvsock_notify: Option<H::HvsockChannel>) -> (builder: Self)
        ensures
            builder == (VmbusServerBuilder::<'a, H> { hvsock_notify, ..self }),
    {
        VmbusServerBuilder { hvsock_notify, ..self }
    }

    /// Sets a send/receive pair that will be notified of server requests. This is used by the
    /// Underhill relay.
    pub fn server_relay(self, server_relay: Option<H::RelayChannel>) -> (builder: Self)
        ensures
            builder == (VmbusServerBuilder::<'a, H> { server_relay, ..self }),
    {
        VmbusServerBuilder { server_relay, ..self }
    }

    /// Sets a receiver that receives requests from another server.
    pub fn external_requests(self, external_requests: Option<H::ExternalReceiver>) -> (builder:
        Self)
        ensures
            builder == (VmbusServerBuilder::<'a, H> { external_requests, ..self }),
    {
        VmbusServerBuilder { external_requests, ..self }
    }

    /// Sets a sender used to forward unhandled connect requests (which used a different VTL)
    /// to another server.
    pub fn external_server(self, external_server: Option<H::ExternalSender>) -> (builder: Self)
        ensures
            builder == (VmbusServerBuilder::<'a, H> { external_server, ..self }),
    {
        VmbusServerBuilder { external_server, ..self }
    }

    /// Sets a value which indicates whether the vmbus control plane is redirected to Underhill.
    pub fn use_message_redirect(self, use_message_redirect: bool) -> (builder: Self)
        ensures
            builder == (VmbusServerBuilder::<'a, H> { use_message_redirect, ..self }),
    {
        VmbusServerBuilder { use_message_redirect, ..self }
    }

    /// Tells the server to use an offset when generating channel IDs to void collisions with
    /// another vmbus server.
    ///
    /// N.B. This should only be used by the Underhill vmbus server.
    pub fn enable_channel_id_offset(self, enable: bool) -> (builder: Self)
        ensures
            builder == (VmbusServerBuilder::<'a, H> {
                channel_id_offset: if enable {
                    CHANNEL_ID_OFFSET
                } else {
                    0
                },
                ..self
            }),
    {
        VmbusServerBuilder {
            channel_id_offset: if enable {
                CHANNEL_ID_OFFSET
            } else {
                0
            },
            ..self
        }
    }

    /// Tells the server to limit the protocol version offered to the guest.
    ///
    /// N.B. This is used for testing older protocols without requiring a specific guest OS.
    pub fn max_version(self, max_version: Option<u32>) -> (builder: Self)
        ensures
            builder == (VmbusServerBuilder::<'a, H> { max_version, ..self }),
    {
        VmbusServerBuilder { max_version, ..self }
    }

    /// Delay limiting the maximum version until after the first `Unload` message.
    ///
    /// N.B. This is used to enable the use of versions older than `Version::Win10` with Uefi boot,
    ///      since that's the oldest version the Uefi client supports.
    pub fn delay_max_version(self, delay: bool) -> (builder: Self)
        ensures
            builder == (VmbusServerBuilder::<'a, H> { delay_max_version: delay, ..self }),
    {
        VmbusServerBuilder { delay_max_version: delay, ..self }
    }

    /// Enable MNF support in the server.
    ///
    /// N.B. Enabling this has no effect if the synic does not support mapping monitor pages.
    pub fn enable_mnf(self, enable: bool) -> (builder: Self)
        ensures
            builder == (VmbusServerBuilder::<'a, H> { enable_mnf: enable, ..self }),
    {
        VmbusServerBuilder { enable_mnf: enable, ..self }
    }

    /// Creates a new instance of the server: returns everything that makes it up.
    pub fn build(self) -> (plan: BuildPlan<'a, H>)
        ensures
            plan.spawner == self.spawner,
            plan.synic == self.synic,
            plan.gm == self.gm,
            plan.trusted_gm == self.trusted_gm,
            plan.message_port == (MessagePortRequest {
                connection_id: self.message_connection_id(),
                vtl: self.redirect().0,
                multiclient: self.use_message_redirect,
            }),
            plan.multiclient_message_port == (if self.is_standard() {
                Some(
                    MessagePortRequest {
                        connection_id: MULTICLIENT_MESSAGE_CONNECTION_ID,
                        vtl: self.vtl,
                        multiclient: true,
                    },
                )
            } else {
                None
            }),
            plan.server == (ServerParams {
                vtl: self.vtl,
                message_connection_id: self.message_connection_id(),
                channel_id_offset: self.channel_id_offset,
                version_limit: match self.max_version {
                    Some(version) => Some(VersionLimit { version, delay: self.delay_max_version }),
                    None => None,
                },
            }),
            plan.relay == self.server_relay,
            plan.hvsock == self.hvsock_notify,
            plan.external_server == self.external_server,
            plan.external_requests == self.external_requests,
            plan.message_queue_len == MESSAGE_QUEUE_LEN,
            plan.task@ == (TaskView {
                running: false,
                next_seq: 0,
                external_requests: self.external_requests is Some,
                inner: InnerView {
                    vtl: self.vtl,
                    redirect_vtl: self.redirect().0,
                    message_target: ConnectionTarget { vp: 0, sint: self.redirect().1 },
                    hvsock_requests: 0,
                    channels: Map::empty(),
                    external_server: self.external_server is Some,
                    channel_bitmap: false,
                    shared_event_port: false,
                    reset_done: false,
                    enable_mnf: self.enable_mnf,
                    trusted_memory: self.trusted_gm is Some,
                },
            }),
            plan.task@.wf(),
    {
        let (redirect_vtl, redirect_sint) = if self.use_message_redirect {
            (REDIRECT_VTL, REDIRECT_SINT)
        } else {
            (self.vtl, SINT)
        };

        let standard = self.vtl == Vtl::Vtl0 && !self.use_message_redirect;
        let connection_id = if standard {
            MESSAGE_CONNECTION_ID
        } else {
            VmbusServer::<H>::get_child_message_connection_id(0, redirect_sint, redirect_vtl)
        };
        let message_port = MessagePortRequest {
            connection_id,
            vtl: redirect_vtl,
            multiclient: self.use_message_redirect,
        };

        // If this server is for VTL0, it is also responsible for the multiclient message port.
        // N.B. If control plane redirection is enabled, the redirected message port is used for
        //      multiclient and no separate multiclient port is created.
        let multiclient_message_port = if standard {
            Some(
                MessagePortRequest {
                    connection_id: MULTICLIENT_MESSAGE_CONNECTION_ID,
                    vtl: self.vtl,
                    multiclient: true,
                },
            )
        } else {
            None
        };

        // If requested for testing purposes, limit the maximum protocol version.
        let version_limit = match self.max_version {
            Some(version) => Some(VersionLimit { version, delay: self.delay_max_version }),
            None => None,
        };
        let server = ServerParams {
            vtl: self.vtl,
            message_connection_id: connection_id,
            channel_id_offset: self.channel_id_offset,
            version_limit,
        };
        let inner = ServerTaskInner::new(
            self.vtl,
            redirect_vtl,
            ConnectionTarget { vp: 0, sint: redirect_sint },
            self.external_server.is_some(),
            self.enable_mnf,
            self.trusted_gm.is_some(),
        );
        let task = ServerTask::new(inner, self.external_requests.is_some());
        BuildPlan {
            spawner: self.spawner,
            synic: self.synic,
            gm: self.gm,
            trusted_gm: self.trusted_gm,
            message_port,
            multiclient_message_port,
            server,
            relay: self.server_relay,
            hvsock: self.hvsock_notify,
            external_server: self.external_server,
            external_requests: self.external_requests,
            message_queue_len: MESSAGE_QUEUE_LEN,
            task,
        }
    }
}

} // verus!
