//! How a change of the guest's connection comes about, and where a server is reached.

use crate::builder::VmbusServerBuilder;
use crate::connection::InterruptPageError;
use crate::connection::ModifyConnectionError;
use crate::connection::ModifyStep;
use crate::connection::MonitorPageError;
use crate::host::Host;
use crate::inner::InnerView;
use crate::protocol::ModifyConnectionRequest;
use crate::protocol::MonitorPageGpas;
use crate::protocol::Update;
use crate::protocol::Vtl;
use crate::relay::ModifyRelayRequest;
use vstd::prelude::*;

verus! {

/// Whether the relay is told what it needs to know of a change: it is told if the change says so,
/// of the version as it is, of whether there is to be an interrupt page if that changes, and of
/// the monitor pages as they are, unless this server handles them.
pub open spec fn relay_gets(
    v: InnerView,
    request: ModifyConnectionRequest,
    monitor_supported: bool,
    told: Option<ModifyRelayRequest>,
) -> bool {
    &&& told is Some <==> request.notify_relay
    &&& told matches Some(relayed) ==> {
        &&& relayed.version == request.version
        &&& request.interrupt_page is Unchanged <==> relayed.use_interrupt_page is None
        &&& request.interrupt_page is Reset <==> relayed.use_interrupt_page == Some(false)
        &&& request.interrupt_page is SetTo <==> relayed.use_interrupt_page == Some(true)
        &&& v.enable_mnf && monitor_supported ==> relayed.monitor_page is Unchanged
        &&& !(v.enable_mnf && monitor_supported) ==> relayed.monitor_page == request.monitor_page
    }
}

/// Whenever a change of the connection ends in success, the relay is told what it needs to know,
/// whichever step was the last.
pub proof fn law_relay_told<H: Host>(
    v: InnerView,
    request: ModifyConnectionRequest,
    monitor_supported: bool,
    port: Result<(), H::SynicError>,
    monitor: Result<(), H::MonitorError>,
)
    ensures
        ({
            let started = v.modify_started::<H>(request, monitor_supported).1;
            let page_done = v.interrupt_page_done::<H>(request, monitor_supported).1;
            let port_added = v.shared_event_port_added::<H>(request, monitor_supported, port).1;
            let monitor_set = v.monitor_page_set::<H>(request, monitor).1;
            let succeeded = v.succeeded::<H>(request, monitor_supported).1;
            &&& started matches ModifyStep::Finished(Ok(told)) ==> relay_gets(
                v,
                request,
                monitor_supported,
                told,
            )
            &&& page_done matches ModifyStep::Finished(Ok(told)) ==> relay_gets(
                v,
                request,
                monitor_supported,
                told,
            )
            &&& port_added matches ModifyStep::Finished(Ok(told)) ==> relay_gets(
                v,
                request,
                monitor_supported,
                told,
            )
            &&& monitor_set matches ModifyStep::Finished(Ok(told)) ==> relay_gets(
                v,
                request,
                true,
                told,
            )
            &&& succeeded matches ModifyStep::Finished(Ok(told)) && relay_gets(
                v,
                request,
                monitor_supported,
                told,
            )
            &&& relay_gets(
                v,
                request,
                monitor_supported,
                v.relay_request(request, monitor_supported),
            )
        }),
{
}

/// What a relay is told of a change, taken by itself: the version and the monitor pages as they
/// are, and whether there is to be an interrupt page if that changes.
pub proof fn law_relayed(request: ModifyConnectionRequest)
    ensures
        request.relayed().version == request.version,
        request.relayed().monitor_page == request.monitor_page,
        request.interrupt_page is Unchanged <==> request.relayed().use_interrupt_page is None,
        request.interrupt_page is Reset <==> request.relayed().use_interrupt_page == Some(false),
        request.interrupt_page is SetTo <==> request.relayed().use_interrupt_page == Some(true),
{
}

/// Whether a state is another one whose messages go to the processor that a change names, if it
/// names one. Nothing else differs.
pub open spec fn moved_messages(
    v: InnerView,
    w: InnerView,
    request: ModifyConnectionRequest,
) -> bool {
    &&& w =~= (InnerView { message_target: w.message_target, ..v })
    &&& w.message_target.sint == v.message_target.sint
    &&& match request.target_message_vp {
        Some(vp) => w.message_target.vp == vp,
        None => w.message_target.vp == v.message_target.vp,
    }
}

/// A change that nothing stops moves the messages to the guest where it says so, and changes
/// nothing else.
pub proof fn law_change_succeeds<H: Host>(
    v: InnerView,
    request: ModifyConnectionRequest,
    monitor_supported: bool,
)
    ensures
        moved_messages(v, v.retargeted(request), request),
        ({
            let (w, step) = v.succeeded::<H>(request, monitor_supported);
            &&& moved_messages(v, w, request)
            &&& step matches ModifyStep::Finished(Ok(_))
        }),
{
}

/// A change begins with the interrupt page. If that is to stay, the monitor pages come next. If it
/// is to go, the page and the shared event port are given up. If there is to be one, its address
/// has to be that of a whole page, which is then locked; until then nothing changes.
pub proof fn law_change_begins<H: Host>(
    v: InnerView,
    request: ModifyConnectionRequest,
    monitor_supported: bool,
)
    ensures
        ({
            let (w, step) = v.modify_started::<H>(request, monitor_supported);
            match request.interrupt_page {
                Update::Unchanged => (w, step) == v.interrupt_page_done::<H>(
                    request,
                    monitor_supported,
                ),
                Update::Reset => {
                    &&& step is ReleaseInterruptPage
                    &&& !w.channel_bitmap
                    &&& !w.shared_event_port
                    &&& w == (InnerView { channel_bitmap: false, shared_event_port: false, ..v })
                    &&& w == v.without_interrupt_page()
                },
                Update::SetTo(address) => {
                    &&& w == v
                    &&& address as int % 4096 != 0 <==> step is Finished
                    &&& step matches ModifyStep::LockInterruptPage { gpn } ==> gpn * 4096
                        == address
                    &&& step is LockInterruptPage || step == ModifyStep::<H>::Finished(
                        Err(
                            ModifyConnectionError::InterruptPage(
                                InterruptPageError::NotPageAligned(address),
                            ),
                        ),
                    )
                },
            }
        }),
{
}

/// A locked page is in use at once, and the shared event port is added for it, at the level served.
/// If the page could not be locked, the change fails for that reason and nothing has changed.
pub proof fn law_page_locked<H: Host>(v: InnerView, result: Result<(), H::MemoryError>)
    ensures
        ({
            let (w, step) = v.interrupt_page_locked::<H>(result);
            match result {
                Ok(()) => {
                    &&& w.channel_bitmap
                    &&& w == (InnerView { channel_bitmap: true, ..v })
                    &&& step matches ModifyStep::AddSharedEventPort { connection_id, vtl }
                    &&& connection_id == 2
                    &&& vtl == v.vtl
                },
                Err(error) => {
                    &&& w == v
                    &&& step == ModifyStep::<H>::Finished(
                        Err(
                            ModifyConnectionError::InterruptPage(
                                InterruptPageError::Memory(error),
                            ),
                        ),
                    )
                },
            }
        }),
{
}

/// With the shared event port, the change goes on to the monitor pages. If it could not be added,
/// the change fails for that reason, and the server is as it was.
pub proof fn law_port_added<H: Host>(
    v: InnerView,
    request: ModifyConnectionRequest,
    monitor_supported: bool,
    result: Result<(), H::SynicError>,
)
    ensures
        ({
            let (w, step) = v.shared_event_port_added::<H>(request, monitor_supported, result);
            match result {
                Ok(()) => {
                    let with_port = InnerView { shared_event_port: true, ..v };
                    &&& w.shared_event_port
                    &&& (w, step) == with_port.interrupt_page_done::<H>(request, monitor_supported)
                },
                Err(error) => {
                    &&& w == v
                    &&& step == ModifyStep::<H>::Finished(
                        Err(
                            ModifyConnectionError::InterruptPage(InterruptPageError::Synic(error)),
                        ),
                    )
                },
            }
        }),
{
}

/// Whether there is an open channel that is signalled through the monitor page.
pub open spec fn monitor_in_use(v: InnerView) -> bool {
    exists|id: usize| #[trigger]
        v.channels.contains_key(id) && v.channels[id].state is Open
            && v.channels[id].state->monitor
}

/// A change of the monitor pages is refused exactly if an open channel is signalled through them
/// and it is not forced. Else it reaches the synic exactly if this server handles them and the
/// synic supports that; then the page that the guest writes is set, or none on a reset.
pub proof fn law_monitor_pages_changed(
    v: InnerView,
    monitor_page: Update<MonitorPageGpas>,
    force: bool,
    monitor_supported: bool,
)
    ensures
        v.monitor_change_refused(monitor_page, force) <==> !(monitor_page is Unchanged) && !force
            && monitor_in_use(v),
        v.sets_monitor_page(monitor_page, monitor_supported) <==> !(monitor_page is Unchanged)
            && v.enable_mnf && monitor_supported,
        match monitor_page {
            Update::SetTo(pages) => {
                &&& crate::connection::monitored_page(monitor_page) == Some(pages.child_to_parent)
                &&& crate::connection::new_monitor_page(monitor_page) == Some(pages)
            },
            _ => {
                &&& crate::connection::monitored_page(monitor_page) is None
                &&& crate::connection::new_monitor_page(monitor_page) is None
            },
        },
{
    if monitor_in_use(v) {
        let id = choose|id: usize| #[trigger]
            v.channels.contains_key(id) && v.channels[id].state is Open
                && v.channels[id].state->monitor;
        assert(v.channels[id].spec_uses_monitor());
    }
    if v.uses_monitor() {
        let id = choose|id: usize| #[trigger]
            v.channels.contains_key(id) && v.channels[id].spec_uses_monitor();
        assert(v.channels[id].state is Open && v.channels[id].state->monitor);
    }
}

/// Once the interrupt page is dealt with, the change fails if it would take the monitor pages from
/// an open channel and is not forced; it sets the page at the synic if there is a new one that this
/// server handles; and else it has succeeded. Only success changes the server.
pub proof fn law_change_goes_on<H: Host>(
    v: InnerView,
    request: ModifyConnectionRequest,
    monitor_supported: bool,
)
    ensures
        ({
            let (w, step) = v.interrupt_page_done::<H>(request, monitor_supported);
            let changes = !(request.monitor_page is Unchanged);
            let refused = changes && !request.force && monitor_in_use(v);
            let handled = changes && v.enable_mnf && monitor_supported;
            &&& refused ==> {
                &&& w == v
                &&& step == ModifyStep::<H>::Finished(
                    Err(ModifyConnectionError::MonitorPage(MonitorPageError::OpenChannelsUsingMnf)),
                )
            }
            &&& !refused && handled ==> {
                &&& w == v
                &&& step matches ModifyStep::SetMonitorPage { page }
                &&& request.monitor_page is Reset ==> page is None
                &&& request.monitor_page matches Update::SetTo(pages) ==> page == Some(
                    pages.child_to_parent,
                )
            }
            &&& !refused && !handled ==> {
                &&& moved_messages(v, w, request)
                &&& step matches ModifyStep::Finished(Ok(_))
            }
        }),
{
    law_monitor_pages_changed(v, request.monitor_page, request.force, monitor_supported);
    law_change_succeeds::<H>(v, request, monitor_supported);
}

/// Once the monitor page is set, the change has succeeded. If it could not be set, the change fails
/// for that reason, which names the pages, and nothing has changed.
pub proof fn law_monitor_page_set<H: Host>(
    v: InnerView,
    request: ModifyConnectionRequest,
    result: Result<(), H::MonitorError>,
)
    ensures
        ({
            let (w, step) = v.monitor_page_set::<H>(request, result);
            match result {
                Ok(()) => {
                    &&& moved_messages(v, w, request)
                    &&& step matches ModifyStep::Finished(Ok(_))
                },
                Err(error) => {
                    &&& w == v
                    &&& step matches ModifyStep::Finished(Err(failure))
                    &&& failure matches ModifyConnectionError::MonitorPage(cause)
                    &&& cause matches MonitorPageError::SetFailed { error: e, monitor_page }
                    &&& e == error
                    &&& match request.monitor_page {
                        Update::SetTo(pages) => monitor_page == Some(pages),
                        _ => monitor_page is None,
                    }
                },
            }
        }),
{
}

/// Trust levels are numbered from zero.
pub proof fn law_level_numbers(vtl: Vtl)
    ensures
        vtl is Vtl0 <==> vtl.spec_number() == 0,
        vtl is Vtl1 <==> vtl.spec_number() == 1,
        vtl is Vtl2 <==> vtl.spec_number() == 2,
{
}

/// A child message connection ID has bit two set, the interrupt source from bit four on, the
/// processor from bit eight on, and the level from bit twenty-two on, and no other bit.
pub proof fn law_child_connection_id_bits(vp_index: u32, sint_index: u8, vtl: Vtl)
    ensures
        ({
            let level: u32 = if vtl is Vtl0 {
                0
            } else if vtl is Vtl1 {
                1
            } else {
                2
            };
            let sint = sint_index as u32;
            crate::server::child_message_connection_id(vp_index, sint_index, vtl) == (4u32 | (
            level << 22) | (vp_index << 8) | (sint << 4))
        }),
{
}

/// A redirected control plane is reached at level two and interrupt source seven, and any other at
/// the level served and interrupt source two. The standard connection ID is that of a server for
/// level zero that is not redirected; any other server has one of its own, by level and interrupt
/// source.
pub proof fn law_control_plane_reached<'a, H: Host>(b: VmbusServerBuilder<'a, H>)
    ensures
        b.use_message_redirect ==> b.redirect() == (Vtl::Vtl2, 7u8),
        !b.use_message_redirect ==> b.redirect() == (b.vtl, 2u8),
        b.is_standard() <==> b.vtl is Vtl0 && !b.use_message_redirect,
        b.vtl is Vtl0 && !b.use_message_redirect ==> b.message_connection_id() == 1,
        b.use_message_redirect ==> b.message_connection_id() == 0x80_0074,
        b.vtl is Vtl1 && !b.use_message_redirect ==> b.message_connection_id() == 0x40_0024,
        b.vtl is Vtl2 && !b.use_message_redirect ==> b.message_connection_id() == 0x80_0024,
{
    crate::laws::law_child_connection_id_parts(0, 7, Vtl::Vtl2);
    crate::laws::law_child_connection_id_parts(0, 2, Vtl::Vtl1);
    crate::laws::law_child_connection_id_parts(0, 2, Vtl::Vtl2);
}

} // verus!
