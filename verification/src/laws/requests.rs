//! What the server does with each event, and which events it waits for.

use crate::channel::ChannelResponse;
use crate::channel::RecvError;
use crate::effect::ServerCall;
use crate::host::Host;
use crate::inner::InnerView;
use crate::laws::channels::tells;
use crate::protocol::OfferId;
use crate::relay::ModifyConnectionResponse;
use crate::rings::Unstick;
use crate::server::SynicMessage;
use crate::task::ChannelServerRequest;
use crate::task::Event;
use crate::task::LoopStep;
use crate::task::RequestStep;
use crate::task::TaskView;
use crate::task::UnstickSetting;
use crate::task::VmbusRequest;
use vstd::prelude::*;

verus! {

/// A request changes at most whether the server is running, by a start or a stop, and whether it
/// is being reset, by a reset.
pub proof fn law_requested(v: TaskView, request: VmbusRequest)
    ensures
        ({
            let w = v.requested(request);
            &&& w == (TaskView {
                running: w.running,
                inner: InnerView { reset_done: w.inner.reset_done, ..v.inner },
                ..v
            })
            &&& w.running <==> request is Start || (v.running && !(request is Stop))
            &&& w.inner.reset_done <==> request is Reset || v.inner.reset_done
        }),
{
}

/// A reset, a save and the two parts of a restore each call the channel state machine for just
/// that. Inspection reports the server as it is. A start and a stop take nothing more.
pub proof fn law_request_taken(v: TaskView, request: VmbusRequest)
    ensures
        ({
            let step = v.request_step(request);
            &&& request is Reset <==> step == RequestStep::Server(ServerCall::Reset)
            &&& request is Save <==> step is Save
            &&& request is Restore <==> step is Restore
            &&& request is PostRestore <==> step is PostRestore
            &&& request is Start || request is Stop <==> step is Done
            &&& request is Inspect <==> step is Report
            &&& step matches RequestStep::Report(report) ==> {
                &&& report.message_target_vp == v.inner.message_target.vp
                &&& report.running == v.running
                &&& report.hvsock_requests == v.inner.hvsock_requests
            }
        }),
{
}

/// A running server waits for everything that can come, but for messages of the guest while
/// sixteen hvsocket requests or more are without an answer. One that is not running waits for no
/// message, no hvsocket and no other server, and for devices' answers only while it is being
/// reset. Requests, offers, devices' requests and the relay are always waited for.
pub proof fn law_waits<H: Host>(v: TaskView, event: Event<H>)
    ensures
        ({
            let ready = v.ready();
            &&& ready.external_requests <==> v.running && v.external_requests
            &&& ready.messages <==> v.running && v.inner.hvsock_requests < 16
            &&& ready.channel_responses <==> v.running || v.inner.reset_done
            &&& ready.hvsock_results <==> v.running
        }),
        match event {
            Event::ExternalRequest(_) => v.waits_for(event) <==> v.running && v.external_requests,
            Event::Message(_) => v.waits_for(event) <==> v.running && v.inner.hvsock_requests < 16,
            Event::ChannelResponse(..) => v.waits_for(event) <==> v.running || v.inner.reset_done,
            Event::HvsockResult(_) => v.waits_for(event) <==> v.running,
            _ => v.waits_for(event),
        },
{
}

/// The server goes on after every event but the last: it ends exactly when no more request can
/// come, or nothing at all.
pub proof fn law_loop_ends<H: Host>(
    v: TaskView,
    event: Event<H>,
    monitor_supported: bool,
    step: LoopStep<H>,
)
    requires
        v.handles(event, monitor_supported, step),
    ensures
        step is Break <==> event is Complete || event == Event::<H>::Request(None),
{
}

/// What comes in from the relay, from hvsockets, from the guest and from other servers reaches the
/// channel state machine as it came, in the call that is for it.
pub proof fn law_handed_on<H: Host>(
    v: TaskView,
    response: ModifyConnectionResponse,
    result: H::HvsockResult,
    message: SynicMessage,
    request: H::ContactRequest,
    monitor_supported: bool,
    step: LoopStep<H>,
)
    ensures
        v.handles(Event::<H>::RelayResponse(response), monitor_supported, step) <==> (
        step matches LoopStep::CompleteModifyConnection(r) && r == response),
        v.handles(Event::<H>::HvsockResult(result), monitor_supported, step) <==> (
        step matches LoopStep::SendTlConnectResult(r) && r == result),
        v.handles(Event::<H>::Message(message), monitor_supported, step) <==> (
        step matches LoopStep::HandleSynicMessage(m) && m == message),
        v.handles(Event::<H>::ExternalRequest(request), monitor_supported, step) <==> (
        step matches LoopStep::InitiateContact(r) && r == request),
{
}

/// A request in the loop takes what [`law_request_taken`] says, with the consequences that
/// [`law_requested`] says.
pub proof fn law_loop_request<H: Host>(
    v: TaskView,
    request: VmbusRequest,
    monitor_supported: bool,
    step: LoopStep<H>,
)
    requires
        v.handles(Event::<H>::Request(Some(request)), monitor_supported, step),
    ensures
        step == LoopStep::<H>::Request(v.request_step(request)),
        v.after(Event::<H>::Request(Some(request))) == v.requested(request),
{
}

/// An answer of a device in the loop has the effects that it has outside it.
pub proof fn law_loop_answer<H: Host>(
    v: TaskView,
    offer_id: OfferId,
    seq: u64,
    response: Result<ChannelResponse, RecvError>,
    monitor_supported: bool,
    step: LoopStep<H>,
)
    requires
        v.handles(Event::<H>::ChannelResponse(offer_id, seq, response), monitor_supported, step),
    ensures
        ({
            let current = v.inner.channels.contains_key(offer_id.0)
                && v.inner.channels[offer_id.0].seq == seq;
            &&& step matches LoopStep::Effects(effects)
            &&& current && response is Ok ==> tells(effects@, offer_id, response->Ok_0)
            &&& !current || response is Err ==> effects@.len() == 0
        }),
        v.after(Event::<H>::ChannelResponse(offer_id, seq, response)) == v.responded(
            offer_id,
            seq,
            response,
        ),
{
    crate::laws::channels::law_answer_told(v, offer_id, seq, response);
}

/// A revoke in the loop has the effects that it has outside it.
pub proof fn law_loop_revoke<H: Host>(
    v: TaskView,
    offer_id: OfferId,
    monitor_supported: bool,
    step: LoopStep<H>,
)
    requires
        v.handles(
            Event::<H>::ServerRequest(offer_id, Some(ChannelServerRequest::Revoke)),
            monitor_supported,
            step,
        ) || v.handles(Event::<H>::ServerRequest(offer_id, None), monitor_supported, step),
    ensures
        step matches LoopStep::Effects(effects) && effects@ == v.revoke_effects(offer_id),
        v.after(Event::<H>::ServerRequest(offer_id, Some(ChannelServerRequest::Revoke)))
            == v.revoked(offer_id),
        v.after(Event::<H>::ServerRequest(offer_id, None)) == v.revoked(offer_id),
{
}

/// Of the other events, only the answer of an hvsocket changes the server's state: it lowers the
/// number of requests without an answer by one.
pub proof fn law_loop_changes<H: Host>(v: TaskView, event: Event<H>)
    ensures
        match event {
            Event::Request(Some(_)) => true,
            Event::ChannelResponse(..) => true,
            Event::ServerRequest(_, Some(ChannelServerRequest::Revoke)) => true,
            Event::ServerRequest(_, None) => true,
            Event::HvsockResult(_) => v.inner.hvsock_requests > 0 ==> {
                let w = v.after(event);
                &&& w.inner.hvsock_requests == v.inner.hvsock_requests - 1
                &&& w == (TaskView {
                    inner: InnerView { hvsock_requests: w.inner.hvsock_requests, ..v.inner },
                    ..v
                })
                &&& w == v.hvsock_answered()
            },
            _ => v.after(event) == v,
        },
{
}

/// Channels are woken by force if the setting is "force", as far as they wait if it is "true", and
/// not at all if it is "false" or there is none. No other setting is taken.
pub proof fn law_unstick_setting(text: Option<Seq<char>>)
    ensures
        ({
            let setting = crate::task::unstick_setting(text);
            &&& text is None ==> setting == Some(UnstickSetting::Enabled(false))
            &&& text matches Some(text) ==> {
                &&& text =~= seq!['f', 'o', 'r', 'c', 'e'] <==> setting == Some(
                    UnstickSetting::Force,
                )
                &&& text =~= seq!['t', 'r', 'u', 'e'] <==> setting == Some(
                    UnstickSetting::Enabled(true),
                )
                &&& text =~= seq!['f', 'a', 'l', 's', 'e'] <==> setting == Some(
                    UnstickSetting::Enabled(false),
                )
            }
        }),
{
    reveal_strlit("force");
    reveal_strlit("true");
    reveal_strlit("false");
    assert("force"@ =~= seq!['f', 'o', 'r', 'c', 'e']);
    assert("true"@ =~= seq!['t', 'r', 'u', 'e']);
    assert("false"@ =~= seq!['f', 'a', 'l', 's', 'e']);
    assert("force"@.len() != "true"@.len());
    assert("force"@[0] == 'f' && "false"@[0] == 'f');
    assert("force"@[1] != "false"@[1]);
}

/// Waking up the channels starts one attempt for each channel, open or not, and no other. A closed
/// channel is left alone. Of an open one, both ends are woken if that is forced, the host first;
/// else its rings are looked for, in the memory that it uses.
pub proof fn law_every_channel_attempted(
    attempts: Seq<(OfferId, Unstick)>,
    v: InnerView,
    force: bool,
)
    requires
        crate::inner::covers_channels(attempts, v.channels, force, v.trusted_memory),
    ensures
        forall|i: int, j: int|
            0 <= i < j < attempts.len() ==> (#[trigger] attempts[i]).0.0 != (
            #[trigger] attempts[j]).0.0,
        forall|id: usize| #[trigger]
            v.channels.contains_key(id) ==> exists|i: int|
                0 <= i < attempts.len() && (#[trigger] attempts[i]).0.0 == id,
        forall|i: int|
            0 <= i < attempts.len() ==> v.channels.contains_key((#[trigger] attempts[i]).0.0)
                && crate::laws::rings::begins(
                attempts[i].1,
                v.channels[attempts[i].0.0],
                force,
                v.trusted_memory,
            ),
{
    assert forall|id: usize| #[trigger] v.channels.contains_key(id) implies exists|i: int|
        0 <= i < attempts.len() && (#[trigger] attempts[i]).0.0 == id by {
        let i = choose|i: int|
            0 <= i < attempts.len() && (#[trigger] attempts[i]).0 == OfferId(id);
        assert(attempts[i].0.0 == id);
    }
    assert forall|i: int| 0 <= i < attempts.len() implies crate::laws::rings::begins(
        (#[trigger] attempts[i]).1,
        v.channels[attempts[i].0.0],
        force,
        v.trusted_memory,
    ) by {
        crate::laws::rings::law_attempt_begins(
            v.channels[attempts[i].0.0],
            force,
            v.trusted_memory,
        );
    }
}

} // verus!
