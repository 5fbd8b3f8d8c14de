//! Waking up channels, and looking at their rings.

use vmbus_server::channel::Channel;
use vmbus_server::channel::ChannelState;
use vmbus_server::offer::MemoryChoice;
use vmbus_server::protocol::GpadlId;
use vmbus_server::protocol::Guid;
use vmbus_server::protocol::OfferKey;
use vmbus_server::protocol::OpenChannelFlags;
use vmbus_server::protocol::OpenData;
use vmbus_server::protocol::OpenParams;
use vmbus_server::protocol::OPEN_DATA_OTHER_LEN;
use vmbus_server::rings::inspect_rings;
use vmbus_server::rings::Ring;
use vmbus_server::rings::RingEnd;
use vmbus_server::rings::Unstick;
use vmbus_server::rings::UnstickError;
use vmbus_server::rings::Wake;

fn channel(open: bool) -> Channel {
    channel_of(open, false)
}

fn channel_of(open: bool, confidential: bool) -> Channel {
    let id = Guid { data1: 0, data2: 0, data3: 0, data4: [0; 8] };
    let open_params = OpenParams {
        open_data: OpenData {
            target_vp: 0,
            ring_gpadl_id: GpadlId(10),
            ring_offset: 4,
            other: [9; OPEN_DATA_OTHER_LEN],
        },
        connection_id: 1,
        event_flag: 1,
        monitor_id: None,
        flags: OpenChannelFlags { redirect_interrupt: false },
    };
    Channel {
        key: OfferKey { interface_id: id, instance_id: id, subchannel_index: 0 },
        seq: 0,
        state: if open {
            ChannelState::Open { open_params, monitor: false }
        } else {
            ChannelState::Closed
        },
        confidential,
    }
}

fn run(
    channel: &Channel,
    force: bool,
    answer: impl Fn(Unstick) -> bool,
) -> (Vec<Wake>, Result<(), UnstickError>) {
    let mut woken = Vec::new();
    let mut step = Unstick::unstick_channel(channel, force, true);
    loop {
        if let Unstick::Done(result) = step {
            return (woken, result);
        }
        woken.extend(step.wake());
        step = step.next(answer(step));
    }
}

#[test]
fn closed_channel_is_left_alone() {
    assert_eq!(run(&channel(false), true, |_| true), (vec![], Ok(())));
    assert_eq!(run(&channel(false), false, |_| true), (vec![], Ok(())));
}

#[test]
fn force_wakes_both_ends() {
    let both = vec![Wake::Host, Wake::Guest];
    assert_eq!(run(&channel(true), true, |_| true), (both.clone(), Ok(())));
    assert_eq!(run(&channel(true), true, |_| false), (both, Ok(())));
}

#[test]
fn rings_are_looked_at_in_order() {
    let memory = MemoryChoice::Shared;
    let mut step = Unstick::unstick_channel(&channel(true), false, false);
    for expected in steps(memory) {
        assert_eq!(step, expected);
        step = step.next(true);
    }
}

fn steps(memory: MemoryChoice) -> Vec<Unstick> {
    vec![
        Unstick::FindGpadl { gpadl_id: GpadlId(10), offset: 4, memory },
        Unstick::Align { offset: 4, memory },
        Unstick::Split { offset: 4, memory },
        Unstick::MapRing(Ring::Incoming, memory),
        Unstick::Probe(Ring::Incoming, RingEnd::Reader, memory),
        Unstick::Signal(Ring::Incoming, RingEnd::Reader, memory),
        Unstick::Probe(Ring::Incoming, RingEnd::Writer, memory),
        Unstick::Signal(Ring::Incoming, RingEnd::Writer, memory),
        Unstick::MapRing(Ring::Outgoing, memory),
        Unstick::Probe(Ring::Outgoing, RingEnd::Reader, memory),
        Unstick::Signal(Ring::Outgoing, RingEnd::Reader, memory),
        Unstick::Probe(Ring::Outgoing, RingEnd::Writer, memory),
        Unstick::Signal(Ring::Outgoing, RingEnd::Writer, memory),
        Unstick::Done(Ok(())),
        Unstick::Done(Ok(())),
    ]
}

#[test]
fn confidential_channels_are_woken_by_the_trusted_memory() {
    let first = |confidential, trusted_memory| {
        Unstick::unstick_channel(&channel_of(true, confidential), false, trusted_memory)
    };
    let mut step = first(true, true);
    for expected in steps(MemoryChoice::Trusted) {
        assert_eq!(step, expected);
        step = step.next(true);
    }
    assert_eq!(first(true, false), steps(MemoryChoice::Shared)[0]);
    assert_eq!(first(false, true), steps(MemoryChoice::Shared)[0]);

    // A guest that waits in the trusted memory is woken, and no one for the shared one.
    let waits_in = |memory| {
        let answer = move |step| match step {
            Unstick::MapRing(_, used) => used == memory,
            Unstick::Probe(ring, end, _) => ring == Ring::Incoming && end == RingEnd::Writer,
            _ => true,
        };
        run(&channel_of(true, true), false, answer).0
    };
    assert_eq!(waits_in(MemoryChoice::Trusted), vec![Wake::Guest]);
    assert_eq!(waits_in(MemoryChoice::Shared), vec![]);
}

#[test]
fn only_those_who_wait_are_woken() {
    let all = vec![Wake::Host, Wake::Guest, Wake::Guest, Wake::Host];
    assert_eq!(run(&channel(true), false, |_| true), (all, Ok(())));

    let none = |step| !matches!(step, Unstick::Probe(..));
    assert_eq!(run(&channel(true), false, none), (vec![], Ok(())));

    let one = |ring, end| {
        run(&channel(true), false, move |step| match step {
            Unstick::Probe(r, e, _) => r == ring && e == end,
            _ => true,
        })
        .0
    };
    assert_eq!(one(Ring::Incoming, RingEnd::Reader), vec![Wake::Host]);
    assert_eq!(one(Ring::Incoming, RingEnd::Writer), vec![Wake::Guest]);
    assert_eq!(one(Ring::Outgoing, RingEnd::Reader), vec![Wake::Guest]);
    assert_eq!(one(Ring::Outgoing, RingEnd::Writer), vec![Wake::Host]);
}

#[test]
fn one_unusable_ring_does_not_hide_the_other() {
    let no_incoming = |step| !matches!(step, Unstick::MapRing(Ring::Incoming, _));
    assert_eq!(
        run(&channel(true), false, no_incoming),
        (vec![Wake::Guest, Wake::Host], Ok(()))
    );
    let no_outgoing = |step| !matches!(step, Unstick::MapRing(Ring::Outgoing, _));
    assert_eq!(
        run(&channel(true), false, no_outgoing),
        (vec![Wake::Host, Wake::Guest], Ok(()))
    );
}

#[test]
fn missing_rings_are_reported() {
    let fail = |error: fn(Unstick) -> bool| run(&channel(true), false, move |step| !error(step));
    assert_eq!(
        fail(|step| matches!(step, Unstick::FindGpadl { .. })),
        (vec![], Err(UnstickError::RingGpadlNotFound))
    );
    assert_eq!(
        fail(|step| matches!(step, Unstick::Align { .. })),
        (vec![], Err(UnstickError::RingNotAligned))
    );
    assert_eq!(
        fail(|step| matches!(step, Unstick::Split { .. })),
        (vec![], Err(UnstickError::CannotSplitRing))
    );
}

#[test]
fn mapped_rings_are_inspected() {
    assert_eq!(inspect_rings(None), None);
    assert_eq!(inspect_rings(Some((false, false))), Some(vec![]));
    assert_eq!(inspect_rings(Some((true, false))), Some(vec![Ring::Incoming]));
    assert_eq!(inspect_rings(Some((false, true))), Some(vec![Ring::Outgoing]));
    assert_eq!(
        inspect_rings(Some((true, true))),
        Some(vec![Ring::Incoming, Ring::Outgoing])
    );
}
