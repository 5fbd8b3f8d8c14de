//! Waking up the two ends of a channel, and looking at its rings.

use crate::channel::Channel;
use crate::channel::ChannelState;
use crate::offer::choose_memory;
use crate::offer::MemoryChoice;
use crate::protocol::GpadlId;
use vstd::prelude::*;

verus! {

/// One of the two rings of a channel, as seen from the host.
#[derive(Clone, Copy, Debug, PartialEq, Eq, Structural)]
pub enum Ring {
    /// The ring that the guest writes and the host reads.
    Incoming,
    /// The ring that the host writes and the guest reads.
    Outgoing,
}

/// One of the two users of a ring.
#[derive(Clone, Copy, Debug, PartialEq, Eq, Structural)]
pub enum RingEnd {
    Reader,
    Writer,
}

/// One of the two ends of a channel.
#[derive(Clone, Copy, Debug, PartialEq, Eq, Structural)]
pub enum Wake {
    /// The device in the host, by the channel's host event.
    Host,
    /// The guest, by the channel's interrupt.
    Guest,
}

/// Who is at an end of a ring.
pub open spec fn user_of(ring: Ring, end: RingEnd) -> Wake {
    match (ring, end) {
        (Ring::Incoming, RingEnd::Reader) => Wake::Host,
        (Ring::Incoming, RingEnd::Writer) => Wake::Guest,
        (Ring::Outgoing, RingEnd::Reader) => Wake::Guest,
        (Ring::Outgoing, RingEnd::Writer) => Wake::Host,
    }
}

/// Why the rings of an open channel could not be looked at.
#[derive(Clone, Copy, Debug, PartialEq, Eq, Structural)]
pub enum UnstickError {
    /// The channel has no GPADL of the ring's ID.
    RingGpadlNotFound,
    /// The ring's GPADL does not consist of whole pages.
    RingNotAligned,
    /// The ring's GPADL has no room for two rings.
    CannotSplitRing,
}

/// An attempt to wake both ends of a channel, at one of its steps.
///
/// Without force, an end is only woken if it is in the state where a notification is expected. That
/// is seen from the rings, in the memory that the channel uses.
#[derive(Clone, Copy, Debug, PartialEq, Eq)]
pub enum Unstick {
    /// Wake an end without looking at the rings.
    Force(Wake),
    /// Find the ring's GPADL.
    FindGpadl { gpadl_id: GpadlId, offset: u32, memory: MemoryChoice },
    /// Check that the GPADL consists of whole pages.
    Align { offset: u32, memory: MemoryChoice },
    /// Split the GPADL into the two rings.
    Split { offset: u32, memory: MemoryChoice },
    /// Map a ring in a memory.
    MapRing(Ring, MemoryChoice),
    /// See whether the user at an end of a ring waits for a signal.
    Probe(Ring, RingEnd, MemoryChoice),
    /// Wake the user at an end of a ring.
    Signal(Ring, RingEnd, MemoryChoice),
    /// Nothing is left to do.
    Done(Result<(), UnstickError>),
}

impl Unstick {
    /// The first step. Confidential channels have their rings in the trusted memory, if there is
    /// one.
    pub open spec fn started(channel: Channel, force: bool, trusted_memory: bool) -> Unstick {
        match channel.state {
            ChannelState::Closed => Unstick::Done(Ok(())),
            ChannelState::Open { open_params, .. } => if force {
                Unstick::Force(Wake::Host)
            } else {
                Unstick::FindGpadl {
                    gpadl_id: open_params.open_data.ring_gpadl_id,
                    offset: open_params.open_data.ring_offset,
                    memory: crate::offer::memory_of(channel.confidential, trusted_memory),
                }
            },
        }
    }

    /// The step after an end of a ring is dealt with.
    pub open spec fn after_end(ring: Ring, end: RingEnd, memory: MemoryChoice) -> Unstick {
        match (ring, end) {
            (_, RingEnd::Reader) => Unstick::Probe(ring, RingEnd::Writer, memory),
            (Ring::Incoming, RingEnd::Writer) => Unstick::MapRing(Ring::Outgoing, memory),
            (Ring::Outgoing, RingEnd::Writer) => Unstick::Done(Ok(())),
        }
    }

    /// The next step, given whether the present one succeeded. Of a probe, that says whether the
    /// user waits for a signal; that someone was woken always succeeds.
    pub open spec fn after(self, ok: bool) -> Unstick {
        match self {
            Unstick::Force(Wake::Host) => Unstick::Force(Wake::Guest),
            Unstick::Force(Wake::Guest) => Unstick::Done(Ok(())),
            Unstick::FindGpadl { offset, memory, .. } => if ok {
                Unstick::Align { offset, memory }
            } else {
                Unstick::Done(Err(UnstickError::RingGpadlNotFound))
            },
            Unstick::Align { offset, memory } => if ok {
                Unstick::Split { offset, memory }
            } else {
                Unstick::Done(Err(UnstickError::RingNotAligned))
            },
            Unstick::Split { memory, .. } => if ok {
                Unstick::MapRing(Ring::Incoming, memory)
            } else {
                Unstick::Done(Err(UnstickError::CannotSplitRing))
            },
            Unstick::MapRing(ring, memory) => if ok {
                Unstick::Probe(ring, RingEnd::Reader, memory)
            } else {
                Unstick::after_end(ring, RingEnd::Writer, memory)
            },
            Unstick::Probe(ring, end, memory) => if ok {
                Unstick::Signal(ring, end, memory)
            } else {
                Unstick::after_end(ring, end, memory)
            },
            Unstick::Signal(ring, end, memory) => Unstick::after_end(ring, end, memory),
            Unstick::Done(_) => self,
        }
    }

    /// The memory that the rings are in, at the steps that look at them.
    pub open spec fn memory(self) -> Option<MemoryChoice> {
        match self {
            Unstick::FindGpadl { memory, .. } => Some(memory),
            Unstick::Align { memory, .. } => Some(memory),
            Unstick::Split { memory, .. } => Some(memory),
            Unstick::MapRing(_, memory) => Some(memory),
            Unstick::Probe(_, _, memory) => Some(memory),
            Unstick::Signal(_, _, memory) => Some(memory),
            Unstick::Force(_) | Unstick::Done(_) => None,
        }
    }

    /// Who is woken by the present step.
    pub open spec fn wakes(self) -> Option<Wake> {
        match self {
            Unstick::Force(wake) => Some(wake),
            Unstick::Signal(ring, end, _) => Some(user_of(ring, end)),
            _ => None,
        }
    }

    /// Starts an attempt to wake both ends of a channel. There is nothing to do for a closed
    /// channel. If `force`, both ends are woken in any case.
    pub fn unstick_channel(channel: &Channel, force: bool, trusted_memory: bool) -> (first:
        Unstick)
        ensures
            first == Unstick::started(*channel, force, trusted_memory),
    {
        if let ChannelState::Open { open_params, .. } = channel.state {
            if force {
                Unstick::Force(Wake::Host)
            } else {
                Unstick::FindGpadl {
                    gpadl_id: open_params.open_data.ring_gpadl_id,
                    offset: open_params.open_data.ring_offset,
                    memory: choose_memory(channel.confidential, trusted_memory),
                }
            }
        } else {
            Unstick::Done(Ok(()))
        }
    }

    /// Returns the next step, given whether the present one succeeded.
    ///
    /// If a ring cannot be mapped, the other one is still looked at.
    pub fn next(self, ok: bool) -> (next: Unstick)
        ensures
            next == self.after(ok),
    {
        match self {
            Unstick::Force(Wake::Host) => Unstick::Force(Wake::Guest),
            Unstick::Force(Wake::Guest) => Unstick::Done(Ok(())),
            Unstick::FindGpadl { offset, memory, .. } => {
                if ok {
                    Unstick::Align { offset, memory }
                } else {
                    Unstick::Done(Err(UnstickError::RingGpadlNotFound))
                }
            },
            Unstick::Align { offset, memory } => {
                if ok {
                    Unstick::Split { offset, memory }
                } else {
                    Unstick::Done(Err(UnstickError::RingNotAligned))
                }
            },
            Unstick::Split { memory, .. } => {
                if ok {
                    Unstick::MapRing(Ring::Incoming, memory)
                } else {
                    Unstick::Done(Err(UnstickError::CannotSplitRing))
                }
            },
            Unstick::MapRing(ring, memory) => {
                if ok {
                    Unstick::Probe(ring, RingEnd::Reader, memory)
                } else {
                    Self::end_done(ring, RingEnd::Writer, memory)
                }
            },
            Unstick::Probe(ring, end, memory) => {
                if ok {
                    Unstick::Signal(ring, end, memory)
                } else {
                    Self::end_done(ring, end, memory)
                }
            },
            Unstick::Signal(ring, end, memory) => Self::end_done(ring, end, memory),
            Unstick::Done(result) => Unstick::Done(result),
        }
    }

    /// Returns the step after an end of a ring is dealt with.
    fn end_done(ring: Ring, end: RingEnd, memory: MemoryChoice) -> (next: Unstick)
        ensures
            next == Unstick::after_end(ring, end, memory),
    {
        match (ring, end) {
            (_, RingEnd::Reader) => Unstick::Probe(ring, RingEnd::Writer, memory),
            (Ring::Incoming, RingEnd::Writer) => Unstick::MapRing(Ring::Outgoing, memory),
            (Ring::Outgoing, RingEnd::Writer) => Unstick::Done(Ok(())),
        }
    }

    /// Returns who is to be woken by the present step.
    pub fn wake(self) -> (wake: Option<Wake>)
        ensures
            wake == self.wakes(),
    {
        match self {
            Unstick::Force(wake) => Some(wake),
            Unstick::Signal(Ring::Incoming, end, _) => Self::unstick_incoming_ring(end),
            Unstick::Signal(Ring::Outgoing, end, _) => Self::unstick_outgoing_ring(end),
            _ => None,
        }
    }

    /// Returns who is to be woken for the incoming ring.
    fn unstick_incoming_ring(end: RingEnd) -> (wake: Option<Wake>)
        ensures
            wake == Some(user_of(Ring::Incoming, end)),
    {
        match end {
            RingEnd::Reader => Some(Wake::Host),
            RingEnd::Writer => Some(Wake::Guest),
        }
    }

    /// Returns who is to be woken for the outgoing ring.
    fn unstick_outgoing_ring(end: RingEnd) -> (wake: Option<Wake>)
        ensures
            wake == Some(user_of(Ring::Outgoing, end)),
    {
        match end {
            RingEnd::Reader => Some(Wake::Guest),
            RingEnd::Writer => Some(Wake::Host),
        }
    }
}

/// The rings that are reported of an open channel, given which of them could be mapped, or
/// `None` if they could not be found. There are none to report then.
pub open spec fn reported_rings(mapped: Option<(bool, bool)>) -> Option<Seq<Ring>> {
    match mapped {
        None => None,
        Some((incoming, outgoing)) => Some(
            (if incoming {
                seq![Ring::Incoming]
            } else {
                seq![]
            }) + (if outgoing {
                seq![Ring::Outgoing]
            } else {
                seq![]
            }),
        ),
    }
}

/// Inspects the rings of an open channel by directly accessing guest memory: returns the rings to
/// report, given which of them could be mapped, or `None` if they could not be found.
pub fn inspect_rings(mapped: Option<(bool, bool)>) -> (rings: Option<Vec<Ring>>)
    ensures
        rings is Some <==> mapped is Some,
        rings matches Some(rings) ==> Some(rings@) == reported_rings(mapped),
{
    match mapped {
        None => None,
        Some((incoming, outgoing)) => {
            let mut rings: Vec<Ring> = Vec::new();
            if incoming {
                rings.push(Ring::Incoming);
            }
            if outgoing {
                rings.push(Ring::Outgoing);
            }
            proof {
                assert(rings@ =~= reported_rings(mapped)->0);
            }
            Some(rings)
        },
    }
}

} // verus!
