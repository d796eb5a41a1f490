//! What holds of a worker over whole runs of events.
//!
//! A run feeds a sequence of events to the worker one after the other. The
//! statements here are about [`next`] and [`outcome`], the two functions
//! that [`Worker::step`](crate::worker::Worker::step) is proved to compute.

use vstd::prelude::*;
use crate::frame::FrameDescriptor;
use crate::packet::kind_of;
use crate::packet::payload_of;
use crate::packet::PacketKind;
use crate::packet::PACKET_SIZE;
use crate::socket::Endpoint;
use crate::socket::RETRY_DELAY_SECS;
use crate::turbojpeg::Error;
use crate::turbojpeg::Header;
use crate::worker::next;
use crate::worker::outcome;
use crate::worker::receiving;
use crate::worker::Action;
use crate::worker::Event;
use crate::worker::Loss;
use crate::worker::OutOfTurn;
use crate::worker::Phase;
use crate::worker::StopReason;
use crate::worker::WorkerView;

verus! {

/// The worker after a run of events.
pub open spec fn run(s: WorkerView, events: Seq<Event>) -> WorkerView
    decreases events.len(),
{
    if events.len() == 0 {
        s
    } else {
        run(next(s, events.first()), events.drop_first())
    }
}

/// The descriptors that the worker asks to publish during a run, in order.
pub open spec fn published(s: WorkerView, events: Seq<Event>) -> Seq<FrameDescriptor>
    decreases events.len(),
{
    if events.len() == 0 {
        Seq::empty()
    } else {
        let rest = published(next(s, events.first()), events.drop_first());
        match outcome(s, events.first()) {
            Ok(Action::Publish(descriptor)) => seq![descriptor] + rest,
            _ => rest,
        }
    }
}

/// The events of receiving these datagrams one after the other.
pub open spec fn arrivals(packets: Seq<[u8; PACKET_SIZE]>) -> Seq<Event> {
    Seq::new(packets.len(), |i: int| Event::Packet(packets[i]))
}

/// The payloads of these datagrams, one behind the other in the order of
/// the datagrams.
pub open spec fn payloads(packets: Seq<[u8; PACKET_SIZE]>) -> Seq<u8>
    decreases packets.len(),
{
    if packets.len() == 0 {
        Seq::empty()
    } else {
        payload_of(packets.first()@) + payloads(packets.drop_first())
    }
}

/// The events of one whole frame: its first datagram, the clock reading
/// that the worker asks for, the datagrams of its body, and its last
/// datagram.
pub open spec fn frame(
    first: [u8; PACKET_SIZE],
    now: u64,
    body: Seq<[u8; PACKET_SIZE]>,
    last: [u8; PACKET_SIZE],
) -> Seq<Event> {
    seq![Event::Packet(first), Event::Time(now)] + arrivals(body) + seq![Event::Packet(last)]
}

/// Whether these datagrams are one whole frame: the first starts it, the
/// last ends it, and those between do neither.
pub open spec fn is_frame(
    first: [u8; PACKET_SIZE],
    body: Seq<[u8; PACKET_SIZE]>,
    last: [u8; PACKET_SIZE],
) -> bool {
    &&& kind_of(first@) == PacketKind::FrameStart
    &&& forall|i: int| 0 <= i < body.len() ==> kind_of(#[trigger] body[i]@) == PacketKind::Continuation
    &&& kind_of(last@) == PacketKind::Terminal
}

/// Whether every reading of the cancellation flag in these events finds
/// the flag set.
pub open spec fn flag_is_set(events: Seq<Event>) -> bool {
    forall|i: int|
        0 <= i < events.len() ==> (#[trigger] events[i] matches Event::Cancellation(cancelled)
            ==> cancelled)
}

/// The events of `attempts` failed attempts to open the socket, each
/// followed by the delay that the worker asks for.
pub open spec fn failed_attempts(attempts: nat) -> Seq<Event>
    decreases attempts,
{
    if attempts == 0 {
        Seq::empty()
    } else {
        seq![Event::SocketFailed, Event::Waited] + failed_attempts((attempts - 1) as nat)
    }
}

/// A run over one event is the worker after that event.
pub proof fn lemma_run_single(s: WorkerView, event: Event)
    ensures
        run(s, seq![event]) == next(s, event),
{
    let events = seq![event];
    assert(events.first() == event);
    assert(events.drop_first().len() == 0);
    assert(run(next(s, event), events.drop_first()) == next(s, event));
}

/// A run over two sequences of events, one behind the other, is the run
/// over the second from where the run over the first has ended.
pub proof fn lemma_run_concat(s: WorkerView, head: Seq<Event>, tail: Seq<Event>)
    ensures
        run(s, head + tail) == run(run(s, head), tail),
    decreases head.len(),
{
    if head.len() == 0 {
        assert(head + tail =~= tail);
    } else {
        assert((head + tail).first() == head.first());
        assert((head + tail).drop_first() =~= head.drop_first() + tail);
        lemma_run_concat(next(s, head.first()), head.drop_first(), tail);
    }
}

/// The descriptors published over two sequences of events, one behind the
/// other, are those of the first followed by those of the second.
pub proof fn lemma_published_concat(s: WorkerView, head: Seq<Event>, tail: Seq<Event>)
    ensures
        published(s, head + tail) == published(s, head) + published(run(s, head), tail),
    decreases head.len(),
{
    if head.len() == 0 {
        assert(head + tail =~= tail);
        assert(published(s, head) + published(s, tail) =~= published(s, tail));
    } else {
        assert((head + tail).first() == head.first());
        assert((head + tail).drop_first() =~= head.drop_first() + tail);
        lemma_published_concat(next(s, head.first()), head.drop_first(), tail);
        let rest_head = published(next(s, head.first()), head.drop_first());
        let rest_tail = published(run(s, head), tail);
        match outcome(s, head.first()) {
            Ok(Action::Publish(descriptor)) => {
                assert(seq![descriptor] + (rest_head + rest_tail) =~= (seq![descriptor]
                    + rest_head) + rest_tail);
            },
            _ => {},
        }
    }
}

/// While a frame is under construction, datagrams of its body only add
/// their payloads to the assembly buffer, in the order of their arrival.
pub proof fn lemma_body_accumulates(s: WorkerView, body: Seq<[u8; PACKET_SIZE]>)
    requires
        s.phase == Phase::Accumulating,
        forall|i: int| 0 <= i < body.len() ==> kind_of(#[trigger] body[i]@) == PacketKind::Continuation,
    ensures
        run(s, arrivals(body)) == (WorkerView { assembly: s.assembly + payloads(body), ..s }),
    decreases body.len(),
{
    if body.len() == 0 {
        assert(s.assembly + payloads(body) =~= s.assembly);
        assert(run(s, arrivals(body)) =~= (WorkerView { assembly: s.assembly + payloads(body), ..s }));
    } else {
        let events = arrivals(body);
        let rest = body.drop_first();
        assert(events.first() == Event::Packet(body[0]));
        assert(events.drop_first() =~= arrivals(rest));
        let after = next(s, Event::Packet(body[0]));
        assert forall|i: int| 0 <= i < rest.len() implies kind_of(#[trigger] rest[i]@)
            == PacketKind::Continuation by {
            assert(rest[i] == body[i + 1]);
        }
        lemma_body_accumulates(after, rest);
        assert((s.assembly + payload_of(body[0]@)) + payloads(rest) =~= s.assembly + payloads(body));
        assert(run(s, arrivals(body)) =~= (WorkerView { assembly: s.assembly + payloads(body), ..s }));
    }
}

/// Reassembly. Whatever a worker that waits for a datagram holds, and
/// whatever came before: once a whole frame has arrived, the worker waits
/// for the codec's header probe, the assembly buffer holds exactly the
/// payloads of the frame's datagrams in the order of their arrival, and
/// the frame's timestamp is the clock reading taken at its first datagram.
/// A frame that was under construction and never ended leaves no byte
/// behind.
pub proof fn law_frame_is_reassembled(
    s: WorkerView,
    first: [u8; PACKET_SIZE],
    now: u64,
    body: Seq<[u8; PACKET_SIZE]>,
    last: [u8; PACKET_SIZE],
)
    requires
        receiving(s.phase),
        is_frame(first, body, last),
    ensures
        run(s, frame(first, now, body, last)) == (WorkerView {
            phase: Phase::Probing,
            assembly: payload_of(first@) + payloads(body) + payload_of(last@),
            held: Seq::empty(),
            timestamp: now,
            pixels: s.pixels,
        }),
        published(s, frame(first, now, body, last)) == Seq::<FrameDescriptor>::empty(),
        outcome(
            run(s, seq![Event::Packet(first), Event::Time(now)] + arrivals(body)),
            Event::Packet(last),
        ) == Ok::<Action, OutOfTurn>(Action::ProbeHeader),
{
    let opening = seq![Event::Packet(first), Event::Time(now)];
    let closing = seq![Event::Packet(last)];
    let started = next(s, Event::Packet(first));
    let stamped = next(started, Event::Time(now));
    assert(run(s, opening) == stamped) by {
        assert(opening =~= seq![Event::Packet(first)] + seq![Event::Time(now)]);
        lemma_run_concat(s, seq![Event::Packet(first)], seq![Event::Time(now)]);
        lemma_run_single(s, Event::Packet(first));
        lemma_run_single(started, Event::Time(now));
    }
    assert(stamped.assembly =~= payload_of(first@));
    lemma_body_accumulates(stamped, body);
    let filled = run(stamped, arrivals(body));
    lemma_run_concat(s, opening, arrivals(body));
    lemma_run_concat(s, opening + arrivals(body), closing);
    lemma_run_single(filled, Event::Packet(last));
    assert(run(s, frame(first, now, body, last)) =~= (WorkerView {
        phase: Phase::Probing,
        assembly: payload_of(first@) + payloads(body) + payload_of(last@),
        held: Seq::empty(),
        timestamp: now,
        pixels: s.pixels,
    }));
    lemma_frame_publishes_nothing(s, first, now, body, last);
}

/// No descriptor is published while the datagrams of a frame arrive.
proof fn lemma_frame_publishes_nothing(
    s: WorkerView,
    first: [u8; PACKET_SIZE],
    now: u64,
    body: Seq<[u8; PACKET_SIZE]>,
    last: [u8; PACKET_SIZE],
)
    ensures
        published(s, frame(first, now, body, last)) == Seq::<FrameDescriptor>::empty(),
{
    let events = frame(first, now, body, last);
    assert forall|i: int| 0 <= i < events.len() implies !(#[trigger] events[i] is Decoded) by {
        if 2 <= i < 2 + body.len() {
            assert(events[i] == arrivals(body)[i - 2]);
        }
    }
    lemma_only_decodes_publish(s, events);
}

/// A descriptor is published only in answer to the end of a decode: a run
/// without one publishes nothing.
pub proof fn lemma_only_decodes_publish(s: WorkerView, events: Seq<Event>)
    requires
        forall|i: int| 0 <= i < events.len() ==> !(#[trigger] events[i] is Decoded),
    ensures
        published(s, events) == Seq::<FrameDescriptor>::empty(),
    decreases events.len(),
{
    if events.len() > 0 {
        assert(!(events[0] is Decoded));
        let rest = events.drop_first();
        assert forall|i: int| 0 <= i < rest.len() implies !(#[trigger] rest[i] is Decoded) by {
            assert(rest[i] == events[i + 1]);
        }
        lemma_only_decodes_publish(next(s, events.first()), rest);
    }
}

/// A frame start discards a frame that never ended. Whatever the assembly
/// buffer of a worker that waits for a datagram holds: the first datagram
/// of a new frame makes the worker ask for the clock, not for the codec,
/// and once the clock is read the assembly buffer holds the payload of
/// that datagram and nothing else.
pub proof fn law_frame_start_resets(s: WorkerView, first: [u8; PACKET_SIZE], now: u64)
    requires
        receiving(s.phase),
        kind_of(first@) == PacketKind::FrameStart,
    ensures
        outcome(s, Event::Packet(first)) == Ok::<Action, OutOfTurn>(Action::ReadClock),
        next(s, Event::Packet(first)).assembly == Seq::<u8>::empty(),
        outcome(next(s, Event::Packet(first)), Event::Time(now)) == Ok::<Action, OutOfTurn>(
            Action::Receive,
        ),
        next(next(s, Event::Packet(first)), Event::Time(now)) == (WorkerView {
            phase: Phase::Accumulating,
            assembly: payload_of(first@),
            held: Seq::empty(),
            timestamp: now,
            pixels: s.pixels,
        }),
{
    let started = next(s, Event::Packet(first));
    assert(started.assembly + started.held =~= payload_of(first@));
}

/// Only a frame start clears the assembly buffer. Any other event leaves
/// what the buffer holds where it is and at most puts more bytes behind it.
pub proof fn law_assembly_is_cleared_by_frame_starts_only(s: WorkerView, event: Event)
    ensures
        ({
            let after = next(s, event);
            let starts_frame = receiving(s.phase) && (event matches Event::Packet(packet)
                && kind_of(packet@) == PacketKind::FrameStart);
            &&& starts_frame ==> after.assembly.len() == 0
            &&& !starts_frame ==> after.assembly.len() >= s.assembly.len()
                && after.assembly.subrange(0, s.assembly.len() as int) == s.assembly
        }),
{
    let after = next(s, event);
    assert(s.assembly.subrange(0, s.assembly.len() as int) =~= s.assembly);
    if after.assembly.len() >= s.assembly.len() {
        assert(after.assembly.subrange(0, s.assembly.len() as int) =~= s.assembly);
    }
}

/// The timestamp belongs to the frame: it changes only when the clock
/// reading for a frame start comes in, and then it is that reading.
pub proof fn law_timestamp_is_set_at_frame_starts_only(s: WorkerView, event: Event)
    ensures
        next(s, event).timestamp != s.timestamp ==> s.phase == Phase::Stamping && event
            == Event::Time(next(s, event).timestamp),
        s.phase == Phase::Stamping ==> forall|now: u64| #[trigger]
            next(s, Event::Time(now)).timestamp == now,
{
}

/// What is well-formed stays well-formed, whatever events come.
pub proof fn law_well_formedness_is_kept(s: WorkerView, events: Seq<Event>)
    requires
        s.wf(),
    ensures
        run(s, events).wf(),
    decreases events.len(),
{
    if events.len() > 0 {
        law_well_formedness_is_kept(next(s, events.first()), events.drop_first());
    }
}

/// The pixel buffer never shrinks: after any run of events it is at least
/// as long as before, and what it held before is still at its front.
pub proof fn law_pixel_buffer_only_grows(s: WorkerView, events: Seq<Event>)
    ensures
        run(s, events).pixels.len() >= s.pixels.len(),
        run(s, events).pixels.subrange(0, s.pixels.len() as int) == s.pixels,
    decreases events.len(),
{
    if events.len() == 0 {
        assert(s.pixels.subrange(0, s.pixels.len() as int) =~= s.pixels);
    } else {
        let after = next(s, events.first());
        assert(after.pixels.len() >= s.pixels.len());
        assert(after.pixels.subrange(0, s.pixels.len() as int) =~= s.pixels);
        law_pixel_buffer_only_grows(after, events.drop_first());
        let end = run(s, events);
        assert(end.pixels.subrange(0, s.pixels.len() as int) =~= end.pixels.subrange(
            0,
            after.pixels.len() as int,
        ).subrange(0, s.pixels.len() as int));
    }
}

/// How many descriptors a worker in this phase can still publish once the
/// cancellation flag is set: the frame in flight, if its decode has not
/// ended yet.
pub open spec fn frames_in_flight(phase: Phase) -> nat {
    match phase {
        Phase::Publishing => 0,
        Phase::Reporting => 0,
        Phase::Checkpoint => 0,
        Phase::Stopped(_) => 0,
        _ => 1,
    }
}

/// Cancellation. Once the cancellation flag is set, so that every reading
/// of it finds it set, the worker publishes the frame in flight at most and
/// no frame after it, whatever else happens and however long the run.
pub proof fn law_cancellation_ends_publishing(s: WorkerView, events: Seq<Event>)
    requires
        flag_is_set(events),
    ensures
        published(s, events).len() <= frames_in_flight(s.phase),
        published(s, events).len() <= 1,
    decreases events.len(),
{
    if events.len() > 0 {
        let event = events.first();
        let rest = events.drop_first();
        assert(events[0] matches Event::Cancellation(cancelled) ==> cancelled);
        assert forall|i: int| 0 <= i < rest.len() implies (#[trigger] rest[i] matches Event::Cancellation(
            cancelled,
        ) ==> cancelled) by {
            assert(rest[i] == events[i + 1]);
        }
        law_cancellation_ends_publishing(next(s, event), rest);
    }
}

/// A stopped worker stays stopped: it refuses every event, keeps its state
/// and publishes nothing.
pub proof fn law_stopped_is_final(s: WorkerView, events: Seq<Event>)
    requires
        s.phase is Stopped,
    ensures
        run(s, events) == s,
        published(s, events) == Seq::<FrameDescriptor>::empty(),
        forall|i: int| 0 <= i < events.len() ==> outcome(s, #[trigger] events[i]) == Err::<Action, OutOfTurn>(
            OutOfTurn { phase: s.phase },
        ),
    decreases events.len(),
{
    if events.len() > 0 {
        law_stopped_is_final(s, events.drop_first());
    }
}

/// The cancellation flag is read after every completed frame and nowhere
/// else: when the sink has returned or the loss is reported. A set flag
/// stops the worker there; a clear one sends it back to receiving.
pub proof fn law_checkpoint_follows_every_frame(s: WorkerView, cancelled: bool)
    requires
        s.phase == Phase::Publishing || s.phase == Phase::Reporting,
    ensures
        ({
            let event = if s.phase == Phase::Publishing {
                Event::Published
            } else {
                Event::Reported
            };
            let checkpoint = next(s, event);
            &&& outcome(s, event) == Ok::<Action, OutOfTurn>(Action::CheckCancellation)
            &&& checkpoint.phase == Phase::Checkpoint
            &&& cancelled ==> outcome(checkpoint, Event::Cancellation(cancelled)) == Ok::<
                Action,
                OutOfTurn,
            >(Action::Stop(StopReason::Cancelled))
            &&& cancelled ==> next(checkpoint, Event::Cancellation(cancelled)).phase
                == Phase::Stopped(StopReason::Cancelled)
            &&& !cancelled ==> outcome(checkpoint, Event::Cancellation(cancelled)) == Ok::<
                Action,
                OutOfTurn,
            >(Action::Receive)
            &&& !cancelled ==> next(checkpoint, Event::Cancellation(cancelled)).phase
                == Phase::AwaitingFrameStart
        }),
{
}

/// A decode that succeeds is published. For a worker that waits for the
/// header probe and a header that a descriptor can hold: the worker makes
/// the pixel buffer hold the decoded frame and asks for the decode, and when
/// the decode succeeds, whatever the codec has written into the buffer, it
/// asks to publish the frame under the header's geometry, four bytes per
/// pixel, and the timestamp of the frame.
pub proof fn law_successful_decode_is_published(s: WorkerView, header: Header, written: Seq<u8>)
    requires
        s.phase == Phase::Probing,
        FrameDescriptor::describable(header),
        written.len() == next(s, Event::Header(header)).pixels.len(),
    ensures
        outcome(s, Event::Header(header)) == Ok::<Action, OutOfTurn>(Action::Decode(header)),
        next(s, Event::Header(header)).pixels.len() >= header.size(),
        ({
            let decoding = WorkerView { pixels: written, ..next(s, Event::Header(header)) };
            let descriptor = FrameDescriptor::of(header, s.timestamp);
            &&& outcome(decoding, Event::Decoded(Ok(()))) == Ok::<Action, OutOfTurn>(
                Action::Publish(descriptor),
            )
            &&& next(decoding, Event::Decoded(Ok(()))).phase == Phase::Publishing
            &&& descriptor.width == header.width
            &&& descriptor.height == header.height
            &&& descriptor.stride == 4 * header.width
            &&& descriptor.size() <= decoding.pixels.len()
        }),
{
    let descriptor = FrameDescriptor::of(header, s.timestamp);
    assert(descriptor.stride * descriptor.height == header.width * header.height * 4)
        by (nonlinear_arith)
        requires
            descriptor.stride == header.width * 4,
            descriptor.height == header.height,
    ;
}

/// A decode that fails costs its frame and nothing else. The worker asks
/// to report the codec's error, publishes nothing, and reads the
/// cancellation flag next. If the flag is clear and a whole frame arrives
/// after that, the worker holds exactly what it would hold had the failed
/// frame never been: the new frame's bytes, the new frame's timestamp.
pub proof fn law_decode_failure_is_contained(
    s: WorkerView,
    error: Error,
    first: [u8; PACKET_SIZE],
    now: u64,
    body: Seq<[u8; PACKET_SIZE]>,
    last: [u8; PACKET_SIZE],
)
    requires
        s.phase is Decoding,
        is_frame(first, body, last),
    ensures
        outcome(s, Event::Decoded(Err(error))) == Ok::<Action, OutOfTurn>(
            Action::Report(Loss::Codec(error)),
        ),
        ({
            let recovery = seq![
                Event::Decoded(Err(error)),
                Event::Reported,
                Event::Cancellation(false),
            ];
            &&& run(s, recovery).phase == Phase::AwaitingFrameStart
            &&& published(s, recovery + frame(first, now, body, last)) == Seq::<
                FrameDescriptor,
            >::empty()
            &&& run(s, recovery + frame(first, now, body, last)) == (WorkerView {
                phase: Phase::Probing,
                assembly: payload_of(first@) + payloads(body) + payload_of(last@),
                held: Seq::empty(),
                timestamp: now,
                pixels: s.pixels,
            })
        }),
{
    let recovery = seq![Event::Decoded(Err(error)), Event::Reported, Event::Cancellation(false)];
    let reporting = next(s, recovery[0]);
    let checkpoint = next(reporting, recovery[1]);
    let ready = next(checkpoint, recovery[2]);
    let rest1 = recovery.drop_first();
    let rest2 = rest1.drop_first();
    let rest3 = rest2.drop_first();
    assert(rest1.first() == recovery[1]);
    assert(rest2.first() == recovery[2]);
    assert(rest3 =~= Seq::<Event>::empty());
    assert(run(ready, rest3) == ready);
    assert(run(checkpoint, rest2) == ready);
    assert(run(reporting, rest1) == ready);
    assert(run(s, recovery) == ready);
    assert(published(ready, rest3) =~= Seq::<FrameDescriptor>::empty());
    assert(published(checkpoint, rest2) =~= Seq::<FrameDescriptor>::empty());
    assert(published(reporting, rest1) =~= Seq::<FrameDescriptor>::empty());
    assert(published(s, recovery) =~= Seq::<FrameDescriptor>::empty());
    lemma_run_concat(s, recovery, frame(first, now, body, last));
    lemma_published_concat(s, recovery, frame(first, now, body, last));
    law_frame_is_reassembled(ready, first, now, body, last);
}

/// Acquiring the socket never fails for good. However often the attempt
/// to open the socket fails, the worker asks for a delay of one second and
/// then for another attempt, and it is where it was before the failures;
/// the first attempt that succeeds sends it on to receive.
pub proof fn law_acquisition_is_retried(s: WorkerView, attempts: nat)
    requires
        s.phase == Phase::Acquiring,
    ensures
        run(s, failed_attempts(attempts)) == s,
        outcome(s, Event::SocketFailed) == Ok::<Action, OutOfTurn>(Action::Wait(RETRY_DELAY_SECS)),
        outcome(next(s, Event::SocketFailed), Event::Waited) == Ok::<Action, OutOfTurn>(
            Action::OpenSocket(Endpoint::spec_stream()),
        ),
        outcome(s, Event::SocketReady) == Ok::<Action, OutOfTurn>(Action::Receive),
        next(s, Event::SocketReady).phase == Phase::AwaitingFrameStart,
    decreases attempts,
{
    if attempts > 0 {
        let events = failed_attempts(attempts);
        let rest = failed_attempts((attempts - 1) as nat);
        let waiting = next(s, Event::SocketFailed);
        let again = next(waiting, Event::Waited);
        assert(again =~= s);
        assert(events.first() == Event::SocketFailed);
        assert(events.drop_first().first() == Event::Waited);
        assert(events.drop_first().drop_first() =~= rest);
        law_acquisition_is_retried(s, (attempts - 1) as nat);
        assert(run(waiting, events.drop_first()) == run(again, rest));
        assert(run(s, events) == run(waiting, events.drop_first()));
    }
}

} // verus!
