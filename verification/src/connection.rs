//! Changes to the guest's connection.
//!
//! A change needs work outside the server that can fail. It is carried out in steps: the server
//! names the next step, and is told what came of it.

use crate::host::Host;
use crate::inner::InnerView;
use crate::protocol::ConnectionTarget;
use crate::protocol::ModifyConnectionRequest;
use crate::protocol::MonitorPageGpas;
use crate::protocol::Update;
use crate::protocol::Vtl;
use crate::protocol::PAGE_SIZE;
use crate::protocol::SHARED_EVENT_CONNECTION_ID;
use crate::relay::ModifyRelayRequest;
use vstd::prelude::*;

verus! {

/// Why the interrupt page could not be mapped.
pub enum InterruptPageError<H: Host> {
    /// The page's address is not at the start of a page.
    NotPageAligned(u64),
    /// The page could not be locked in guest memory.
    Memory(H::MemoryError),
    /// The shared event port could not be added.
    Synic(H::SynicError),
}

/// Why the monitor page could not be changed.
pub enum MonitorPageError<H: Host> {
    /// There are open channels that use the monitor page.
    OpenChannelsUsingMnf,
    /// The synic could not set the page.
    SetFailed { error: H::MonitorError, monitor_page: Option<MonitorPageGpas> },
}

/// Why the connection could not be modified.
pub enum ModifyConnectionError<H: Host> {
    InterruptPage(InterruptPageError<H>),
    MonitorPage(MonitorPageError<H>),
}

/// What it takes to change the interrupt page.
#[derive(Clone, Copy, Debug, PartialEq, Eq, Structural)]
pub enum InterruptPageStep {
    /// Nothing.
    Done,
    /// Drop the channel bitmap and the shared event port.
    Release,
    /// Lock a guest page and make a channel bitmap of it.
    Lock { gpn: u64 },
}

/// What it takes to change the monitor pages.
#[derive(Clone, Copy, Debug, PartialEq, Eq)]
pub enum MonitorPageStep {
    /// Nothing.
    Done,
    /// Set or clear the page that the synic monitors.
    Page(Option<u64>),
}

/// The next step of a change to the connection.
pub enum ModifyStep<H: Host> {
    /// Drop the channel bitmap and the shared event port.
    ReleaseInterruptPage,
    /// Lock a guest page and make a channel bitmap of it.
    LockInterruptPage { gpn: u64 },
    /// Signal the channel bitmap by guest events on a connection.
    AddSharedEventPort { connection_id: u32, vtl: Vtl },
    /// Set or clear the page that the synic monitors.
    SetMonitorPage { page: Option<u64> },
    /// The change is over. If it succeeded, the relay may have to be told.
    Finished(Result<Option<ModifyRelayRequest>, ModifyConnectionError<H>>),
}

/// The monitor pages that a change puts in place.
pub open spec fn new_monitor_page(monitor_page: Update<MonitorPageGpas>) -> Option<MonitorPageGpas> {
    match monitor_page {
        Update::SetTo(pages) => Some(pages),
        _ => None,
    }
}

/// The page that the synic monitors after a change.
pub open spec fn monitored_page(monitor_page: Update<MonitorPageGpas>) -> Option<u64> {
    match monitor_page {
        Update::SetTo(pages) => Some(pages.child_to_parent),
        _ => None,
    }
}

impl InnerView {
    /// Whether an open channel is signalled through the monitor page.
    pub open spec fn uses_monitor(self) -> bool {
        exists|id: usize| #[trigger]
            self.channels.contains_key(id) && self.channels[id].spec_uses_monitor()
    }

    /// Whether a change of the monitor pages is refused: it is, while open channels use them,
    /// unless it is forced.
    pub open spec fn monitor_change_refused(
        self,
        monitor_page: Update<MonitorPageGpas>,
        force: bool,
    ) -> bool {
        monitor_page !is Unchanged && !force && self.uses_monitor()
    }

    /// Whether a change of the monitor pages reaches the synic.
    pub open spec fn sets_monitor_page(
        self,
        monitor_page: Update<MonitorPageGpas>,
        monitor_supported: bool,
    ) -> bool {
        monitor_page !is Unchanged && self.enable_mnf && monitor_supported
    }

    /// What the relay is told of a change. If this server handles the monitor pages, they are
    /// none of the relay's business.
    pub open spec fn relay_request(
        self,
        request: ModifyConnectionRequest,
        monitor_supported: bool,
    ) -> Option<ModifyRelayRequest> {
        let visible = if self.enable_mnf && monitor_supported {
            ModifyConnectionRequest { monitor_page: Update::Unchanged, ..request }
        } else {
            request
        };
        if request.notify_relay {
            Some(visible.relayed())
        } else {
            None
        }
    }

    /// The state once messages go to the processor that a change names.
    pub open spec fn retargeted(self, request: ModifyConnectionRequest) -> InnerView {
        match request.target_message_vp {
            Some(vp) => InnerView {
                message_target: ConnectionTarget { vp, ..self.message_target },
                ..self
            },
            None => self,
        }
    }

    /// The end of a change that nothing stopped.
    pub open spec fn succeeded<H: Host>(
        self,
        request: ModifyConnectionRequest,
        monitor_supported: bool,
    ) -> (InnerView, ModifyStep<H>) {
        (
            self.retargeted(request),
            ModifyStep::Finished(Ok(self.relay_request(request, monitor_supported))),
        )
    }

    /// A change once the interrupt page is dealt with.
    pub open spec fn interrupt_page_done<H: Host>(
        self,
        request: ModifyConnectionRequest,
        monitor_supported: bool,
    ) -> (InnerView, ModifyStep<H>) {
        if self.monitor_change_refused(request.monitor_page, request.force) {
            (
                self,
                ModifyStep::Finished(
                    Err(ModifyConnectionError::MonitorPage(MonitorPageError::OpenChannelsUsingMnf)),
                ),
            )
        } else if self.sets_monitor_page(request.monitor_page, monitor_supported) {
            (self, ModifyStep::SetMonitorPage { page: monitored_page(request.monitor_page) })
        } else {
            self.succeeded(request, monitor_supported)
        }
    }

    /// The state without an interrupt page.
    pub open spec fn without_interrupt_page(self) -> InnerView {
        InnerView { channel_bitmap: false, shared_event_port: false, ..self }
    }

    /// The beginning of a change.
    pub open spec fn modify_started<H: Host>(
        self,
        request: ModifyConnectionRequest,
        monitor_supported: bool,
    ) -> (InnerView, ModifyStep<H>) {
        match request.interrupt_page {
            Update::Unchanged => self.interrupt_page_done(request, monitor_supported),
            Update::Reset => (self.without_interrupt_page(), ModifyStep::ReleaseInterruptPage),
            Update::SetTo(address) => if address % PAGE_SIZE != 0 {
                (
                    self,
                    ModifyStep::Finished(
                        Err(
                            ModifyConnectionError::InterruptPage(
                                InterruptPageError::NotPageAligned(address),
                            ),
                        ),
                    ),
                )
            } else {
                (self, ModifyStep::LockInterruptPage { gpn: address / PAGE_SIZE })
            },
        }
    }

    /// A change once it is known whether the interrupt page could be locked.
    pub open spec fn interrupt_page_locked<H: Host>(self, result: Result<(), H::MemoryError>) -> (
        InnerView,
        ModifyStep<H>,
    ) {
        match result {
            Ok(()) => (
                InnerView { channel_bitmap: true, ..self },
                ModifyStep::AddSharedEventPort {
                    connection_id: SHARED_EVENT_CONNECTION_ID,
                    vtl: self.vtl,
                },
            ),
            Err(error) => (
                self,
                ModifyStep::Finished(
                    Err(ModifyConnectionError::InterruptPage(InterruptPageError::Memory(error))),
                ),
            ),
        }
    }

    /// A change once it is known whether the shared event port could be added.
    pub open spec fn shared_event_port_added<H: Host>(
        self,
        request: ModifyConnectionRequest,
        monitor_supported: bool,
        result: Result<(), H::SynicError>,
    ) -> (InnerView, ModifyStep<H>) {
        match result {
            Ok(()) => InnerView { shared_event_port: true, ..self }.interrupt_page_done(
                request,
                monitor_supported,
            ),
            Err(error) => (
                self,
                ModifyStep::Finished(
                    Err(ModifyConnectionError::InterruptPage(InterruptPageError::Synic(error))),
                ),
            ),
        }
    }

    /// A change once it is known whether the monitor page could be set. It is only set if the
    /// synic supports that.
    pub open spec fn monitor_page_set<H: Host>(
        self,
        request: ModifyConnectionRequest,
        result: Result<(), H::MonitorError>,
    ) -> (InnerView, ModifyStep<H>) {
        match result {
            Ok(()) => self.succeeded(request, true),
            Err(error) => (
                self,
                ModifyStep::Finished(
                    Err(
                        ModifyConnectionError::MonitorPage(
                            MonitorPageError::SetFailed {
                                error,
                                monitor_page: new_monitor_page(request.monitor_page),
                            },
                        ),
                    ),
                ),
            ),
        }
    }
}

} // verus!
