//! What becomes of a channel: opens, closes, GPADLs, moves, the answers of its device, restores.

use crate::channel::ChannelResponse;
use crate::channel::ChannelState;
use crate::channel::DeviceReply;
use crate::channel::PendingKind;
use crate::channel::PendingResponse;
use crate::channel::RecvError;
use crate::effect::Effect;
use crate::effect::ServerCall;
use crate::host::Host;
use crate::inner::InnerView;
use crate::laws::Transition;
use crate::protocol::Action;
use crate::protocol::ChannelRequest;
use crate::protocol::GuestEventTarget;
use crate::protocol::ModifyRequest;
use crate::protocol::OfferId;
use crate::protocol::OpenParams;
use crate::task::Event;
use crate::task::RestoredGpadl;
use crate::task::TaskView;
use vstd::prelude::*;

verus! {

/// Whether two states differ at most in whether one offered channel is open.
pub open spec fn same_but_open(v: InnerView, w: InnerView, offer_id: OfferId) -> bool {
    &&& w =~= (InnerView { channels: w.channels, ..v })
    &&& w.channels.dom() =~= v.channels.dom()
    &&& w.channels.remove(offer_id.0) =~= v.channels.remove(offer_id.0)
    &&& v.channels.contains_key(offer_id.0) ==> {
        let before = v.channels[offer_id.0];
        let after = w.channels[offer_id.0];
        &&& after.key == before.key
        &&& after.seq == before.seq
        &&& after.confidential == before.confidential
    }
}

/// Whether a state is another one with a channel opened: what the guest opened it with is recorded,
/// and that it is signalled through the monitor page exactly if it has a slot there and the synic
/// supports that. Nothing else differs, of this channel or another.
pub open spec fn records_open(
    v: InnerView,
    w: InnerView,
    offer_id: OfferId,
    p: OpenParams,
    monitor_supported: bool,
) -> bool {
    &&& same_but_open(v, w, offer_id)
    &&& w.channels[offer_id.0].state matches ChannelState::Open { open_params, monitor }
    &&& open_params == p
    &&& monitor == (p.monitor_id is Some && monitor_supported)
}

/// Opening a channel records that, and restoring an open channel does the same.
pub proof fn law_open_recorded(
    v: TaskView,
    offer_id: OfferId,
    p: OpenParams,
    monitor_supported: bool,
)
    requires
        v.inner.channels.contains_key(offer_id.0),
    ensures
        ({
            let w = v.inner.notified(offer_id, Action::Open(p), monitor_supported);
            let set = v.inner.with_channel_state(
                offer_id,
                v.inner.opened(p, monitor_supported),
            );
            let restored = v.restored(offer_id, Some(p), monitor_supported);
            &&& records_open(v.inner, w, offer_id, p, monitor_supported)
            &&& set == w
            &&& restored == (TaskView { inner: w, ..v })
        }),
{
}

/// Only opening a channel changes the server's state: to close it, to create or tear down a GPADL
/// and to move it are left to the device, and restoring a closed channel changes nothing.
pub proof fn law_other_actions_keep_state(
    v: TaskView,
    offer_id: OfferId,
    action: Action,
    monitor_supported: bool,
)
    ensures
        !(action is Open) ==> v.inner.notified(offer_id, action, monitor_supported) == v.inner,
        v.restored(offer_id, None, monitor_supported) == v,
{
}

/// Whether a list of effects opens a channel: it is first put into the channel bitmap if the guest
/// has an interrupt page; then it gets its event port on the connection it was opened with, its
/// guest event port is directed, and its interrupt is created; last, a slot of the monitor page is
/// registered for its connection if it has one and the synic supports that.
///
/// Its interrupts go to the processor and event flag that it was opened with, or to the first
/// processor and flag if the guest has an interrupt page.
pub open spec fn opens(
    v: InnerView,
    offer_id: OfferId,
    p: OpenParams,
    monitor_supported: bool,
    effects: Seq<Effect>,
) -> bool {
    let n: int = if v.channel_bitmap { 1 } else { 0 };
    let monitored = p.monitor_id is Some && monitor_supported;
    &&& effects.len() == n + (if monitored { 4int } else { 3 })
    &&& v.channel_bitmap ==> effects[0] == (Effect::RegisterChannel {
        offer_id,
        event_flag: p.event_flag,
    })
    &&& effects[n] == (Effect::AddEventPort {
        offer_id,
        connection_id: p.connection_id,
        vtl: v.vtl,
    })
    &&& effects[n + 1] matches Effect::SetGuestEventPort { offer_id: id, target }
    &&& id == offer_id
    &&& redirects(v, p, target)
    &&& v.channel_bitmap ==> target.vp == 0 && target.event_flag == 0
    &&& !v.channel_bitmap ==> target.vp == p.open_data.target_vp && target.event_flag
        == p.event_flag
    &&& effects[n + 2] == (Effect::CreateInterrupt {
        offer_id,
        event_flag: p.event_flag,
        use_bitmap: v.channel_bitmap,
    })
    &&& monitored ==> effects[n + 3] == (Effect::RegisterMonitor {
        offer_id,
        monitor_id: p.monitor_id->0,
        connection_id: p.connection_id,
    })
}

/// Whether a channel's interrupts go to the right level and interrupt source: to those of the
/// control plane if the guest asked for that, and else to the second source of the level served.
pub open spec fn redirects(v: InnerView, p: OpenParams, target: GuestEventTarget) -> bool {
    &&& p.flags.redirect_interrupt ==> target.vtl == v.redirect_vtl && target.sint
        == v.message_target.sint
    &&& !p.flags.redirect_interrupt ==> target.vtl == v.vtl && target.sint == 2
}

/// Whether a list of effects ends with the one request that an action takes, as the guest made it,
/// to be answered under the channel's ID and sequence number.
pub open spec fn asks(
    v: InnerView,
    offer_id: OfferId,
    action: Action,
    effects: Seq<Effect>,
) -> bool {
    &&& effects.len() > 0
    &&& forall|i: int| 0 <= i < effects.len() - 1 ==> !(#[trigger] effects[i] is SendRequest)
    &&& effects.last() matches Effect::SendRequest { request, pending }
    &&& pending.offer_id == offer_id
    &&& pending.seq == v.channels[offer_id.0].seq
    &&& match action {
        Action::Open(p) => pending.kind == PendingKind::Open && request == ChannelRequest::Open(
            p.open_data,
        ),
        Action::Close => pending.kind == PendingKind::Close && request == ChannelRequest::Close,
        Action::Gpadl(id, count, buf) => {
            &&& pending.kind == PendingKind::Gpadl(id)
            &&& request matches ChannelRequest::Gpadl(gpadl)
            &&& gpadl.id == id
            &&& gpadl.count == count
            &&& gpadl.buf@ == buf@
        },
        Action::TeardownGpadl { gpadl_id, .. } => pending.kind == PendingKind::TeardownGpadl(
            gpadl_id,
        ) && request == ChannelRequest::TeardownGpadl(gpadl_id),
        Action::Modify { target_vp } => pending.kind == PendingKind::Modify && request
            == ChannelRequest::Modify(ModifyRequest::TargetVp { target_vp }),
    }
}

/// Whether a list of effects does, before its last, just what an action takes before the device is
/// asked:
///
/// - An open opens the channel.
/// - A close takes it out of the channel bitmap by the flag it was opened with, if it is open and
///   the guest has an interrupt page, and stops its guest event port.
/// - A GPADL becomes available as the guest described it.
/// - A teardown takes the GPADL from the channel, unless it is repeated after a restore.
/// - A move sets the guest event port to the processor asked for, with the channel's own event
///   flag, with or without an interrupt page.
pub open spec fn prepares(
    v: InnerView,
    offer_id: OfferId,
    action: Action,
    monitor_supported: bool,
    effects: Seq<Effect>,
) -> bool {
    let state = v.channels[offer_id.0].state;
    match action {
        Action::Open(p) => opens(v, offer_id, p, monitor_supported, effects.drop_last()),
        Action::Close => {
            let n: int = if v.channel_bitmap && state is Open { 1 } else { 0 };
            &&& effects.len() == n + 2
            &&& n == 1 ==> effects[0] == (Effect::UnregisterChannel {
                event_flag: state->open_params.event_flag,
            })
            &&& effects[n] == (Effect::ClearGuestEventPort { offer_id })
        },
        Action::Gpadl(id, count, buf) => {
            &&& effects.len() == 2
            &&& effects[0] matches Effect::AddGpadl { offer_id: to, gpadl }
            &&& to == offer_id
            &&& gpadl.id == id
            &&& gpadl.count == count
            &&& gpadl.buf@ == buf@
        },
        Action::TeardownGpadl { gpadl_id, post_restore } => {
            &&& post_restore ==> effects.len() == 1
            &&& !post_restore ==> effects.len() == 2 && effects[0] == (Effect::RemoveGpadl {
                offer_id,
                gpadl_id,
            })
        },
        Action::Modify { target_vp } => {
            &&& effects.len() == 2
            &&& effects[0] matches Effect::SetGuestEventPort { offer_id: id, target }
            &&& id == offer_id
            &&& target.vp == target_vp
            &&& target.event_flag == state->open_params.event_flag
            &&& redirects(v, state->open_params, target)
        },
    }
}

/// What opening a channel takes, opens it.
pub proof fn law_open_steps(
    v: InnerView,
    offer_id: OfferId,
    p: OpenParams,
    monitor_supported: bool,
)
    ensures
        opens(
            v,
            offer_id,
            p,
            monitor_supported,
            v.open_effects(offer_id, p, monitor_supported),
        ),
{
}

/// Whatever is asked of a channel, just what it takes is done first, and then its device gets one
/// request.
pub proof fn law_action_carried_out(
    v: InnerView,
    offer_id: OfferId,
    action: Action,
    monitor_supported: bool,
    effects: Seq<Effect>,
)
    requires
        v.carries_out(offer_id, action, monitor_supported, effects),
    ensures
        asks(v, offer_id, action, effects),
        prepares(v, offer_id, action, monitor_supported, effects),
{
    match action {
        Action::Open(p) => {
            law_open_steps(v, offer_id, p, monitor_supported);
            let open = v.open_effects(offer_id, p, monitor_supported);
            assert(effects.drop_last() =~= open);
            assert forall|i: int| 0 <= i < effects.len() - 1 implies !(#[trigger] effects[i] is
                SendRequest) by {
                assert(effects[i] == open[i]);
            }
        },
        _ => {},
    }
}

/// For a guest without an interrupt page, moving a channel's interrupts changes only the
/// processor: everything else is as it was set when the channel was opened. Moving them to where
/// they are sets the same target once more.
pub proof fn law_move_changes_processor_only(
    v: InnerView,
    offer_id: OfferId,
    p: OpenParams,
    target_vp: u32,
    monitor_supported: bool,
    effects: Seq<Effect>,
)
    requires
        v.channels.contains_key(offer_id.0),
        !v.channel_bitmap,
        v.notified(offer_id, Action::Open(p), monitor_supported).carries_out(
            offer_id,
            Action::Modify { target_vp },
            monitor_supported,
            effects,
        ),
    ensures
        ({
            let opened = v.open_effects(offer_id, p, monitor_supported)[1];
            &&& opened is SetGuestEventPort
            &&& effects[0] == (Effect::SetGuestEventPort {
                offer_id,
                target: GuestEventTarget { vp: target_vp, ..opened->target },
            })
            &&& target_vp == p.open_data.target_vp ==> effects[0] == opened
        }),
{
    law_open_recorded(
        TaskView { running: false, next_seq: 0, external_requests: false, inner: v },
        offer_id,
        p,
        monitor_supported,
    );
    law_open_steps(v, offer_id, p, monitor_supported);
    law_action_carried_out(
        v.notified(offer_id, Action::Open(p), monitor_supported),
        offer_id,
        Action::Modify { target_vp },
        monitor_supported,
        effects,
    );
}

/// A device's answer changes the server's state only if it refuses an open or completes a close,
/// and the channel is the one that was asked: then that channel is closed, and nothing else
/// changes, of it or another.
pub proof fn law_answer_closes(
    v: TaskView,
    offer_id: OfferId,
    seq: u64,
    response: Result<ChannelResponse, RecvError>,
)
    ensures
        ({
            let w = v.responded(offer_id, seq, response);
            let current = v.inner.channels.contains_key(offer_id.0)
                && v.inner.channels[offer_id.0].seq == seq;
            let closes = response == Ok::<ChannelResponse, RecvError>(ChannelResponse::Open(false))
                || response == Ok::<ChannelResponse, RecvError>(ChannelResponse::Close);
            &&& !(current && closes) ==> w == v
            &&& current && closes ==> {
                &&& w == (TaskView { inner: w.inner, ..v })
                &&& same_but_open(v.inner, w.inner, offer_id)
                &&& w.inner.channels[offer_id.0].state is Closed
            }
        }),
{
}

/// Closing a channel changes nothing else, of it or another.
pub proof fn law_closed(v: TaskView, offer_id: OfferId)
    requires
        v.inner.channels.contains_key(offer_id.0),
    ensures
        v.closed(offer_id) == (TaskView { inner: v.closed(offer_id).inner, ..v }),
        same_but_open(v.inner, v.closed(offer_id).inner, offer_id),
        v.closed(offer_id).inner.channels[offer_id.0].state is Closed,
{
}

/// The channel state machine is told of a device's answer, once, under the channel's ID, and with
/// success or failure as the device answered. Before that, what opening the channel took is
/// dropped if the channel is closed by the answer. Of an answer that is not for the channel
/// offered at present, and of a device that is gone, it is not told.
pub proof fn law_answer_told(
    v: TaskView,
    offer_id: OfferId,
    seq: u64,
    response: Result<ChannelResponse, RecvError>,
)
    ensures
        ({
            let effects = v.response_effects(offer_id, seq, response);
            let current = v.inner.channels.contains_key(offer_id.0)
                && v.inner.channels[offer_id.0].seq == seq;
            &&& !current || response is Err ==> effects.len() == 0
            &&& current ==> match response {
                Ok(response) => tells(effects, offer_id, response),
                Err(_) => true,
            }
        }),
{
    match response {
        Ok(response) => law_completion_told(offer_id, response),
        Err(_) => {},
    }
}

/// Whether a list of effects tells the channel state machine of a device's answer.
pub open spec fn tells(
    effects: Seq<Effect>,
    offer_id: OfferId,
    response: ChannelResponse,
) -> bool {
    let n: int = if response == ChannelResponse::Open(false) || response is Close {
        1
    } else {
        0
    };
    &&& effects.len() == n + 1
    &&& n == 1 ==> effects[0] == (Effect::ReleaseOpen { offer_id })
    &&& effects[n] matches Effect::Server(call)
    &&& match response {
        ChannelResponse::Open(ok) => {
            &&& call matches ServerCall::OpenComplete(id, status)
            &&& id == offer_id
            &&& ok <==> status is Success
        },
        ChannelResponse::Close => call == ServerCall::CloseComplete(offer_id),
        ChannelResponse::Gpadl(gpadl_id, ok) => {
            &&& call matches ServerCall::GpadlCreateComplete(id, created, status)
            &&& id == offer_id
            &&& created == gpadl_id
            &&& ok <==> status is Success
        },
        ChannelResponse::TeardownGpadl(gpadl_id) => call == ServerCall::GpadlTeardownComplete(
            offer_id,
            gpadl_id,
        ),
        ChannelResponse::Modify(status) => call == ServerCall::ModifyChannelComplete(
            offer_id,
            status,
        ),
    }
}

/// The answer of an offered channel's device is told to the channel state machine.
pub proof fn law_completion_told(offer_id: OfferId, response: ChannelResponse)
    ensures
        tells(crate::task::completion_effects(offer_id, response), offer_id, response),
{
}

/// What a device answers becomes a response of the same kind and content, for the GPADL that the
/// request was about where it was about one.
pub proof fn law_reply_kept(pending: PendingResponse, reply: DeviceReply)
    requires
        pending.expects(reply),
    ensures
        match pending.kind {
            PendingKind::Open => reply matches DeviceReply::Opened(ok) && pending.response(reply)
                == ChannelResponse::Open(ok),
            PendingKind::Close => reply is Closed && pending.response(reply)
                == ChannelResponse::Close,
            PendingKind::Gpadl(id) => reply matches DeviceReply::GpadlCreated(ok)
                && pending.response(reply) == ChannelResponse::Gpadl(id, ok),
            PendingKind::TeardownGpadl(id) => reply is GpadlTornDown && pending.response(reply)
                == ChannelResponse::TeardownGpadl(id),
            PendingKind::Modify => reply matches DeviceReply::Modified(status)
                && pending.response(reply) == ChannelResponse::Modify(status),
        },
{
}

/// Every request has replies that it asks for.
pub proof fn law_reply_possible(pending: PendingResponse, ok: bool, status: i32)
    ensures
        match pending.kind {
            PendingKind::Open => pending.expects(DeviceReply::Opened(ok)),
            PendingKind::Close => pending.expects(DeviceReply::Closed),
            PendingKind::Gpadl(_) => pending.expects(DeviceReply::GpadlCreated(ok)),
            PendingKind::TeardownGpadl(_) => pending.expects(DeviceReply::GpadlTornDown),
            PendingKind::Modify => pending.expects(DeviceReply::Modified(status)),
        },
{
}

/// Whether a transition can end what a channel was opened with: a revoke or a new offer, another
/// open, or the device's answer that it refuses the open or has closed the channel.
pub open spec fn ends_open<H: Host>(t: Transition<H>, offer_id: OfferId) -> bool {
    match t {
        Transition::Event(Event::ServerRequest(id, request)) => id == offer_id && !(request matches
            Some(crate::task::ChannelServerRequest::Restore { .. })),
        Transition::Event(Event::ChannelResponse(id, _, response)) => id == offer_id && (
        response matches Ok(ChannelResponse::Open(false)) || response matches Ok(
            ChannelResponse::Close,
        )),
        Transition::Offered { offer_id: id, .. } => id == offer_id,
        Transition::Restored { offer_id: id, .. } => id == offer_id,
        Transition::Notified { offer_id: id, action, .. } => id == offer_id && action is Open,
        _ => false,
    }
}

/// A channel that was opened stays open, with what it was opened with, until the device refuses
/// the open or completes a close, or the channel is revoked, offered or opened anew. In
/// particular it stays open when the device accepts the open. Until then its rings can be found,
/// in the memory it uses, and it can be moved.
pub proof fn law_open_until_closed<H: Host>(
    v: TaskView,
    offer_id: OfferId,
    p: OpenParams,
    monitor_supported: bool,
    ts: Seq<Transition<H>>,
    target_vp: u32,
)
    requires
        v.inner.channels.contains_key(offer_id.0),
        v.with_inner(
            v.inner.notified(offer_id, Action::Open(p), monitor_supported),
        ).allows_all(ts),
        forall|i: int| 0 <= i < ts.len() ==> !ends_open(#[trigger] ts[i], offer_id),
    ensures
        ({
            let later = v.with_inner(
                v.inner.notified(offer_id, Action::Open(p), monitor_supported),
            ).apply_all(ts);
            &&& later.inner.channels.contains_key(offer_id.0)
            &&& later.inner.channels[offer_id.0].state matches ChannelState::Open {
                open_params,
                ..
            }
            &&& open_params == p
            &&& later.inner.rings(offer_id) matches Some(rings)
            &&& rings.gpadl_id == p.open_data.ring_gpadl_id
            &&& rings.offset == p.open_data.ring_offset
            &&& later.allows(
                Transition::<H>::Notified {
                    offer_id,
                    action: Action::Modify { target_vp },
                    monitor_supported,
                },
            )
        }),
{
    let opened = v.with_inner(v.inner.notified(offer_id, Action::Open(p), monitor_supported));
    lemma_stays_open(opened, offer_id, p, ts);
}

/// An open channel stays open through transitions that do not end it.
proof fn lemma_stays_open<H: Host>(
    v: TaskView,
    offer_id: OfferId,
    p: OpenParams,
    ts: Seq<Transition<H>>,
)
    requires
        v.inner.channels.contains_key(offer_id.0),
        v.inner.channels[offer_id.0].state is Open,
        v.inner.channels[offer_id.0].state->open_params == p,
        v.allows_all(ts),
        forall|i: int| 0 <= i < ts.len() ==> !ends_open(#[trigger] ts[i], offer_id),
    ensures
        v.apply_all(ts).inner.channels.contains_key(offer_id.0),
        v.apply_all(ts).inner.channels[offer_id.0].state is Open,
        v.apply_all(ts).inner.channels[offer_id.0].state->open_params == p,
    decreases ts.len(),
{
    if ts.len() > 0 {
        let rest = ts.drop_first();
        lemma_stays_open_once(v, offer_id, ts[0]);
        assert forall|i: int| 0 <= i < rest.len() implies !ends_open(
            #[trigger] rest[i],
            offer_id,
        ) by {
            assert(rest[i] == ts[i + 1]);
        }
        lemma_stays_open(v.apply(ts[0]), offer_id, p, rest);
    }
}

/// A single transition that does not end an open channel leaves it as it is.
proof fn lemma_stays_open_once<H: Host>(v: TaskView, offer_id: OfferId, t: Transition<H>)
    requires
        v.inner.channels.contains_key(offer_id.0),
        v.allows(t),
        !ends_open(t, offer_id),
    ensures
        v.apply(t).inner.channels.contains_key(offer_id.0),
        v.apply(t).inner.channels[offer_id.0] == v.inner.channels[offer_id.0],
{
    let w = v.apply(t);
    match t {
        Transition::Event(event) => {
            match event {
                Event::ServerRequest(..) => {},
                Event::ChannelResponse(id, seq, response) => {
                    law_answer_closes(v, id, seq, response);
                    assert(w == v || w == v.closed(id));
                },
                _ => {
                    assert(w.inner.channels == v.inner.channels);
                },
            }
        },
        Transition::Offered { .. } => {},
        Transition::Restored { .. } => {},
        Transition::Notified { action, .. } => {
            if !(action is Open) {
                assert(w.inner == v.inner);
            }
        },
        _ => {
            assert(w.inner.channels == v.inner.channels);
        },
    }
}

/// The rings of a channel can be found exactly if it is open, where the guest put them when it
/// opened the channel. They are in the trusted memory if the channel is confidential and there is
/// such a memory, and in the shared one otherwise.
pub proof fn law_rings_found(v: InnerView, offer_id: OfferId)
    ensures
        ({
            let channel = v.channels[offer_id.0];
            match v.rings(offer_id) {
                None => channel.state is Closed,
                Some(rings) => {
                    &&& channel.state matches ChannelState::Open { open_params, .. }
                    &&& rings.gpadl_id == open_params.open_data.ring_gpadl_id
                    &&& rings.offset == open_params.open_data.ring_offset
                    &&& rings.memory is Trusted <==> channel.confidential && v.trusted_memory
                },
            }
        }),
{
}

/// A revoke takes a channel from the server, whether it is open or not, and nothing else. What
/// belongs to it is dropped, and the channel state machine is told, so that the guest is. If there
/// is no such channel, nothing is done.
pub proof fn law_revoked(v: TaskView, offer_id: OfferId)
    ensures
        ({
            let w = v.revoked(offer_id);
            let effects = v.revoke_effects(offer_id);
            &&& w == (TaskView { inner: InnerView { channels: w.inner.channels, ..v.inner }, ..v })
            &&& !w.inner.channels.contains_key(offer_id.0)
            &&& forall|id: usize|
                id != offer_id.0 ==> (#[trigger] w.inner.channels.contains_key(id)
                    <==> v.inner.channels.contains_key(id))
            &&& forall|id: usize| #[trigger]
                w.inner.channels.contains_key(id) ==> w.inner.channels[id] == v.inner.channels[id]
            &&& v.inner.channels.contains_key(offer_id.0) ==> {
                &&& effects.len() == 2
                &&& effects[0] == (Effect::ReleaseChannel { offer_id })
                &&& effects[1] == Effect::Server(ServerCall::RevokeChannel(offer_id))
            }
            &&& !v.inner.channels.contains_key(offer_id.0) ==> effects.len() == 0
        }),
{
}

/// Restoring a channel without GPADLs adds none.
pub proof fn law_restore_without_gpadls(offer_id: OfferId, effects: Seq<Effect>)
    ensures
        crate::task::restores_gpadls(offer_id, Seq::empty(), effects) <==> effects.len() == 0,
{
    reveal(Seq::filter);
}

/// Restoring a channel with one GPADL more adds that one last, as it was, if its ranges are well
/// formed, and does the same otherwise.
pub proof fn law_restore_one_gpadl_more(
    offer_id: OfferId,
    gpadls: Seq<RestoredGpadl>,
    gpadl: RestoredGpadl,
    effects: Seq<Effect>,
)
    requires
        crate::task::restores_gpadls(offer_id, gpadls.push(gpadl), effects),
    ensures
        !gpadl.valid ==> crate::task::restores_gpadls(offer_id, gpadls, effects),
        gpadl.valid ==> {
            &&& effects.len() > 0
            &&& crate::task::restores_gpadls(offer_id, gpadls, effects.drop_last())
            &&& effects.last() matches Effect::AddGpadl { offer_id: to, gpadl: added }
            &&& to == offer_id
            &&& added.id == gpadl.request.id
            &&& added.count == gpadl.request.count
            &&& added.buf@ == gpadl.request.buf@
        },
{
    reveal(Seq::filter);
    assert(gpadls.push(gpadl).drop_last() =~= gpadls);
    let all = crate::task::valid_gpadls(gpadls.push(gpadl));
    let before = crate::task::valid_gpadls(gpadls);
    if gpadl.valid {
        assert(all =~= before.push(gpadl));
        let last = effects.len() - 1;
        assert(effects[last].adds_gpadl(offer_id, all[last].request));
        assert forall|i: int| 0 <= i < effects.drop_last().len() implies (
        #[trigger] effects.drop_last()[i]).adds_gpadl(offer_id, before[i].request) by {
            assert(effects[i].adds_gpadl(offer_id, all[i].request));
        }
    } else {
        assert(all =~= before);
    }
}

/// As many GPADLs are counted for a restored channel as are added, so that what opening the
/// channel takes comes right after them.
pub proof fn law_restored_gpadls_counted(
    offer_id: OfferId,
    gpadls: Seq<RestoredGpadl>,
    effects: Seq<Effect>,
)
    requires
        crate::task::restores_gpadls(offer_id, gpadls, effects),
    ensures
        crate::task::valid_gpadls(gpadls).len() == effects.len(),
{
}

} // verus!
