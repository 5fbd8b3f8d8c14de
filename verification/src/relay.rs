//! Connections between the server and a relay, and what the server does without one.

use crate::protocol::ModifyConnectionRequest;
use crate::protocol::MonitorPageGpas;
use crate::protocol::Update;
use vstd::prelude::*;

verus! {

/// The server side of the connection between a vmbus server and a relay: the sending end for
/// requests and the receiving end for responses.
pub struct ServerChannelHalf<RequestSend, ResponseReceive> {
    pub request_send: RequestSend,
    pub response_receive: ResponseReceive,
}

/// The relay side of a connection between a vmbus server and a relay.
pub struct RelayChannelHalf<RequestReceive, ResponseSend> {
    pub request_receive: RequestReceive,
    pub response_send: ResponseSend,
}

/// A connection between a vmbus server and a relay.
pub struct RelayChannel<RequestSend, RequestReceive, ResponseSend, ResponseReceive> {
    pub relay_half: RelayChannelHalf<RequestReceive, ResponseSend>,
    pub server_half: ServerChannelHalf<RequestSend, ResponseReceive>,
}

impl<RequestSend, RequestReceive, ResponseSend, ResponseReceive> RelayChannel<
    RequestSend,
    RequestReceive,
    ResponseSend,
    ResponseReceive,
> {
    /// Connects the vmbus server and a relay by the two ends of a request channel and the two
    /// ends of a response channel. The server sends requests and receives responses; the relay
    /// receives requests and sends responses.
    pub fn new(
        requests: (RequestSend, RequestReceive),
        responses: (ResponseSend, ResponseReceive),
    ) -> (channel: Self)
        ensures
            channel.server_half.request_send == requests.0,
            channel.relay_half.request_receive == requests.1,
            channel.relay_half.response_send == responses.0,
            channel.server_half.response_receive == responses.1,
    {
        let (request_send, request_receive) = requests;
        let (response_send, response_receive) = responses;
        RelayChannel {
            relay_half: RelayChannelHalf { request_receive, response_send },
            server_half: ServerChannelHalf { request_send, response_receive },
        }
    }
}

/// A request from the server to the relay to modify connection state.
///
/// The version and use_interrupt_page fields can only be present if this request was sent for an
/// InitiateContact message from the guest.
#[derive(Clone, Copy, Debug, PartialEq, Eq)]
pub struct ModifyRelayRequest {
    pub version: Option<u32>,
    pub monitor_page: Update<MonitorPageGpas>,
    pub use_interrupt_page: Option<bool>,
}

impl ModifyConnectionRequest {
    /// What the relay is told of the change. Of the interrupt page it learns only whether there
    /// is to be one.
    pub open spec fn relayed(self) -> ModifyRelayRequest {
        ModifyRelayRequest {
            version: self.version,
            monitor_page: self.monitor_page,
            use_interrupt_page: match self.interrupt_page {
                Update::Unchanged => None,
                Update::Reset => Some(false),
                Update::SetTo(_) => Some(true),
            },
        }
    }
}

impl From<ModifyConnectionRequest> for ModifyRelayRequest {
    fn from(value: ModifyConnectionRequest) -> (request: Self) {
        ModifyRelayRequest {
            version: value.version,
            monitor_page: value.monitor_page,
            use_interrupt_page: match value.interrupt_page {
                Update::Unchanged => None,
                Update::Reset => Some(false),
                Update::SetTo(_) => Some(true),
            },
        }
    }
}

impl vstd::std_specs::convert::FromSpecImpl<ModifyConnectionRequest> for ModifyRelayRequest {
    open spec fn obeys_from_spec() -> bool {
        true
    }

    open spec fn from_spec(value: ModifyConnectionRequest) -> Self {
        value.relayed()
    }
}

/// The state that a connection is reported in.
#[derive(Clone, Copy, Debug, PartialEq, Eq, Structural)]
pub enum ConnectionState {
    Successful,
    /// A failure, by its protocol number.
    Failed(u8),
}

/// The optional protocol features that a connection supports.
#[derive(Clone, Copy, Debug, PartialEq, Eq, Structural)]
pub enum FeatureFlags {
    /// Every feature that the protocol knows.
    All,
    /// The features whose protocol bits are set.
    Bits(u32),
}

/// The relay's response to a [`ModifyRelayRequest`].
#[derive(Clone, Copy, Debug, PartialEq, Eq, Structural)]
pub enum ModifyConnectionResponse {
    Supported(ConnectionState, FeatureFlags),
    Unsupported,
}

/// Answers a request in place of a relay: without one, every request succeeds with every
/// feature.
pub fn default_relay_response(_request: &ModifyRelayRequest) -> (response: ModifyConnectionResponse)
    ensures
        response == ModifyConnectionResponse::Supported(
            ConnectionState::Successful,
            FeatureFlags::All,
        ),
{
    ModifyConnectionResponse::Supported(ConnectionState::Successful, FeatureFlags::All)
}

/// The verdict on an hvsocket request.
#[derive(Debug, PartialEq, Eq)]
pub struct HvsockVerdict<Request> {
    pub request: Request,
    pub success: bool,
}

/// Answers a request in place of an hvsocket notifier: without one, every request is refused.
pub fn default_hvsock_response<Request>(request: Request) -> (verdict: HvsockVerdict<Request>)
    ensures
        verdict.request == request,
        !verdict.success,
{
    HvsockVerdict { request, success: false }
}

/// Who answers the requests that a server makes.
#[derive(Clone, Copy, Debug, PartialEq, Eq, Structural)]
pub enum Answerer {
    /// The other side of the connection that the server was given.
    Peer,
    /// No one, so each request gets the default answer.
    Default,
}

impl Answerer {
    /// Who answers, given whether the server has a connection.
    pub open spec fn of(connected: bool) -> Answerer {
        if connected {
            Answerer::Peer
        } else {
            Answerer::Default
        }
    }

    /// The answer that a relay request gets in place of a relay's.
    pub open spec fn spec_relay_answer(self, request: ModifyRelayRequest) -> Option<
        ModifyConnectionResponse,
    > {
        match self {
            Answerer::Peer => None,
            Answerer::Default => Some(
                ModifyConnectionResponse::Supported(
                    ConnectionState::Successful,
                    FeatureFlags::All,
                ),
            ),
        }
    }

    /// The verdict that an hvsocket request gets in place of a notifier's.
    pub open spec fn spec_hvsock_answer<Request>(self, request: Request) -> Option<
        HvsockVerdict<Request>,
    > {
        match self {
            Answerer::Peer => None,
            Answerer::Default => Some(HvsockVerdict { request, success: false }),
        }
    }

    /// The answers that a series of relay requests gets in place of a relay's, in their order.
    pub open spec fn relay_answers(self, requests: Seq<ModifyRelayRequest>) -> Seq<
        ModifyConnectionResponse,
    >
        decreases requests.len(),
    {
        if requests.len() == 0 {
            seq![]
        } else {
            let answers = self.relay_answers(requests.drop_last());
            match self.spec_relay_answer(requests.last()) {
                Some(answer) => answers.push(answer),
                None => answers,
            }
        }
    }

    /// The verdicts that a series of hvsocket requests gets in place of a notifier's, in their
    /// order.
    pub open spec fn hvsock_answers<Request>(self, requests: Seq<Request>) -> Seq<
        HvsockVerdict<Request>,
    >
        decreases requests.len(),
    {
        if requests.len() == 0 {
            seq![]
        } else {
            let answers = self.hvsock_answers(requests.drop_last());
            match self.spec_hvsock_answer(requests.last()) {
                Some(answer) => answers.push(answer),
                None => answers,
            }
        }
    }

    /// Answers a relay request, unless that is up to a relay.
    pub fn relay_answer(self, request: &ModifyRelayRequest) -> (answer: Option<
        ModifyConnectionResponse,
    >)
        ensures
            answer == self.spec_relay_answer(*request),
    {
        match self {
            Answerer::Peer => None,
            Answerer::Default => Some(default_relay_response(request)),
        }
    }

    /// Answers an hvsocket request, unless that is up to a notifier.
    pub fn hvsock_answer<Request>(self, request: Request) -> (answer: Option<
        HvsockVerdict<Request>,
    >)
        ensures
            answer == self.spec_hvsock_answer(request),
    {
        match self {
            Answerer::Peer => None,
            Answerer::Default => Some(default_hvsock_response(request)),
        }
    }
}

} // verus!
