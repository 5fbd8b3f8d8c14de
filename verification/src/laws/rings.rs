//! How channels are woken up, and what is reported of their rings.

use crate::channel::Channel;
use crate::channel::ChannelState;
use crate::rings::Ring;
use crate::rings::RingEnd;
use crate::rings::Unstick;
use crate::rings::UnstickError;
use crate::rings::Wake;
use vstd::prelude::*;

verus! {

/// Whether an attempt to wake both ends of a channel begins as it should: a closed channel is left
/// alone; both ends of an open one are woken if that is forced, the host first; else the GPADL of
/// its rings is looked for, in the memory that the channel uses.
pub open spec fn begins(
    first: Unstick,
    channel: Channel,
    force: bool,
    trusted_memory: bool,
) -> bool {
    match channel.state {
        ChannelState::Closed => first == Unstick::Done(Ok(())),
        ChannelState::Open { open_params, .. } => {
            &&& force ==> first == Unstick::Force(Wake::Host)
            &&& !force ==> {
                &&& first matches Unstick::FindGpadl { gpadl_id, offset, memory }
                &&& gpadl_id == open_params.open_data.ring_gpadl_id
                &&& offset == open_params.open_data.ring_offset
                &&& memory is Trusted <==> channel.confidential && trusted_memory
            }
        },
    }
}

/// An attempt begins by what the channel is at present.
pub proof fn law_attempt_begins(channel: Channel, force: bool, trusted_memory: bool)
    ensures
        begins(
            Unstick::started(channel, force, trusted_memory),
            channel,
            force,
            trusted_memory,
        ),
{
}

/// The host is woken for the incoming ring if it is to read there, and for the outgoing one if it
/// is to write; the guest is at the other ends. A step that wakes no one wakes neither.
pub proof fn law_woken(step: Unstick)
    ensures
        step.wakes() == Some(Wake::Host) <==> match step {
            Unstick::Force(wake) => wake is Host,
            Unstick::Signal(ring, end, _) => (ring is Incoming && end is Reader) || (
            ring is Outgoing && end is Writer),
            _ => false,
        },
        step.wakes() == Some(Wake::Guest) <==> match step {
            Unstick::Force(wake) => wake is Guest,
            Unstick::Signal(ring, end, _) => (ring is Incoming && end is Writer) || (
            ring is Outgoing && end is Reader),
            _ => false,
        },
{
}

/// The rings are found by way of their GPADL, which is found, aligned and split in this order. If
/// one of these fails, the attempt is over, with the reason.
pub proof fn law_rings_looked_for(step: Unstick, ok: bool)
    ensures
        match step {
            Unstick::FindGpadl { offset, memory, .. } => if ok {
                step.after(ok) == (Unstick::Align { offset, memory })
            } else {
                step.after(ok) == Unstick::Done(Err(UnstickError::RingGpadlNotFound))
            },
            Unstick::Align { offset, memory } => if ok {
                step.after(ok) == (Unstick::Split { offset, memory })
            } else {
                step.after(ok) == Unstick::Done(Err(UnstickError::RingNotAligned))
            },
            Unstick::Split { memory, .. } => if ok {
                step.after(ok) == Unstick::MapRing(Ring::Incoming, memory)
            } else {
                step.after(ok) == Unstick::Done(Err(UnstickError::CannotSplitRing))
            },
            _ => true,
        },
{
}

/// At a ring, the reader is probed and then the writer, and each is woken exactly if it waits. The
/// outgoing ring comes after the incoming one, also if that could not be mapped. After the
/// outgoing ring the attempt has succeeded, and it stays as it ended.
pub proof fn law_ring_probed(step: Unstick, ok: bool)
    ensures
        match step {
            Unstick::MapRing(ring, memory) => {
                &&& ok ==> step.after(ok) == Unstick::Probe(ring, RingEnd::Reader, memory)
                &&& !ok && ring is Incoming ==> step.after(ok) == Unstick::MapRing(
                    Ring::Outgoing,
                    memory,
                )
                &&& !ok && ring is Outgoing ==> step.after(ok) == Unstick::Done(Ok(()))
            },
            Unstick::Probe(ring, end, memory) => {
                &&& ok ==> step.after(ok) == Unstick::Signal(ring, end, memory)
                &&& !ok ==> step.after(ok) == Unstick::Signal(ring, end, memory).after(true)
            },
            Unstick::Signal(ring, end, memory) => {
                &&& end is Reader ==> step.after(ok) == Unstick::Probe(
                    ring,
                    RingEnd::Writer,
                    memory,
                )
                &&& end is Writer && ring is Incoming ==> step.after(ok) == Unstick::MapRing(
                    Ring::Outgoing,
                    memory,
                )
                &&& end is Writer && ring is Outgoing ==> step.after(ok) == Unstick::Done(Ok(()))
            },
            Unstick::Force(wake) => {
                &&& wake is Host ==> step.after(ok) == Unstick::Force(Wake::Guest)
                &&& wake is Guest ==> step.after(ok) == Unstick::Done(Ok(()))
            },
            Unstick::Done(_) => step.after(ok) == step,
            _ => true,
        },
{
}

/// Of the rings that were found, those are reported that could be mapped, the incoming one first.
/// If they were not found, there is no report.
pub proof fn law_rings_reported(mapped: Option<(bool, bool)>)
    ensures
        match mapped {
            None => crate::rings::reported_rings(mapped) is None,
            Some((incoming, outgoing)) => {
                &&& crate::rings::reported_rings(mapped) matches Some(rings)
                &&& rings.contains(Ring::Incoming) <==> incoming
                &&& rings.contains(Ring::Outgoing) <==> outgoing
                &&& rings.no_duplicates()
                &&& incoming ==> rings[0] == Ring::Incoming
            },
        },
{
    match mapped {
        None => {},
        Some((incoming, outgoing)) => {
            let rings = crate::rings::reported_rings(mapped)->0;
            if incoming {
                assert(rings[0] == Ring::Incoming);
            }
            if outgoing {
                assert(rings[rings.len() - 1] == Ring::Outgoing);
            }
        },
    }
}

} // verus!
