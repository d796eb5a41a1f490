//! The worker: everything one stream receiver decides between getting its
//! socket and stopping.
//!
//! The worker never touches the network, the clock, the codec or the video
//! sink itself. It answers each [`Event`] that its driver reports with the
//! [`Action`] that the driver has to perform next, and the driver reports
//! the outcome of that action as the next event. The driver owns the socket
//! and the codec; the worker owns the assembly buffer, the frame timestamp
//! and the pixel buffer.

use vstd::prelude::*;
use crate::frame::FrameDescriptor;
use crate::packet::kind_of;
use crate::packet::payload;
use crate::packet::payload_of;
use crate::packet::classify;
use crate::packet::PacketKind;
use crate::packet::PACKET_SIZE;
use crate::packet::PAYLOAD_SIZE;
use crate::socket::Endpoint;
use crate::socket::RETRY_DELAY_SECS;
use crate::turbojpeg::Error;
use crate::turbojpeg::Header;

verus! {

/// Why a worker has stopped.
#[derive(Clone, Copy, Debug, PartialEq, Eq, Structural)]
pub enum StopReason {
    /// The cancellation flag was found set after a frame.
    Cancelled,
    /// Reading from the socket failed.
    ReadFailed,
}

/// Why a completed frame was not published.
#[derive(Debug, PartialEq, Eq)]
pub enum Loss {
    /// The codec failed to decode the frame.
    Codec(Error),
    /// The codec reported a geometry that no pixel buffer or frame
    /// descriptor can hold, or the pixel buffer was found too short for
    /// it after the decode.
    Geometry(Header),
}

/// What the worker is waiting for.
#[derive(Clone, Copy, Debug, PartialEq, Eq, Structural)]
pub enum Phase {
    /// Not started yet.
    Created,
    /// Waiting for an attempt to open the socket to end.
    Acquiring,
    /// Waiting for the delay after a failed attempt to pass.
    Backoff,
    /// Waiting for a datagram; none has arrived since the socket was opened
    /// or since the last frame was completed.
    AwaitingFrameStart,
    /// Waiting for a datagram while a frame is under construction.
    Accumulating,
    /// Waiting for the clock reading of a frame that has just started.
    Stamping,
    /// Waiting for the codec to probe the header of a completed frame.
    Probing,
    /// Waiting for the codec to decode the frame with this header.
    Decoding(Header),
    /// Waiting for the video sink to return.
    Publishing,
    /// Waiting for a lost frame to be reported.
    Reporting,
    /// Waiting for a reading of the cancellation flag.
    Checkpoint,
    /// Stopped for good.
    Stopped(StopReason),
}

/// What the driver reports to the worker.
#[derive(Debug, PartialEq, Eq)]
pub enum Event {
    /// The worker's thread is running.
    Started,
    /// The socket is bound and has joined the multicast group.
    SocketReady,
    /// The socket could not be opened, bound or joined to the group.
    SocketFailed,
    /// The delay has passed.
    Waited,
    /// A datagram was received.
    Packet([u8; PACKET_SIZE]),
    /// Receiving a datagram failed.
    ReadFailed,
    /// The clock was read; the reading is in nanoseconds.
    Time(u64),
    /// The codec has probed the header of the assembly buffer.
    Header(Header),
    /// The codec has finished decoding into the pixel buffer.
    Decoded(Result<(), Error>),
    /// The video sink has returned.
    Published,
    /// The lost frame has been reported.
    Reported,
    /// The cancellation flag was read; `true` means that it is set.
    Cancellation(bool),
}

/// What the worker asks its driver to do.
#[derive(Debug, PartialEq, Eq)]
pub enum Action {
    /// Open the socket at this endpoint and join its group on the
    /// configured interface. Answered by `SocketReady` or `SocketFailed`.
    OpenSocket(Endpoint),
    /// Let this many seconds pass. Answered by `Waited`.
    Wait(u64),
    /// Receive one datagram. Answered by `Packet` or `ReadFailed`.
    Receive,
    /// Read the monotonic clock. Answered by `Time`.
    ReadClock,
    /// Probe the header of the assembly buffer. Answered by `Header`.
    ProbeHeader,
    /// Decode the assembly buffer, which has this header, into the pixel
    /// buffer. Answered by `Decoded`.
    Decode(Header),
    /// Hand the pixel buffer to the video sink under this description.
    /// Answered by `Published`.
    Publish(FrameDescriptor),
    /// Report that the completed frame is lost. Answered by `Reported`.
    Report(Loss),
    /// Read the cancellation flag. Answered by `Cancellation`.
    CheckCancellation,
    /// Leave the loop and let the worker end without a successor.
    Stop(StopReason),
}

/// The refusal of an event that does not answer the action the worker is
/// waiting on. It carries the phase the worker was and still is in.
#[derive(Clone, Copy, Debug, PartialEq, Eq, Structural)]
pub struct OutOfTurn {
    pub phase: Phase,
}

/// The worker as contracts see it.
#[verifier::ext_equal]
pub struct WorkerView {
    /// What the worker is waiting for.
    pub phase: Phase,
    /// The compressed bytes of the frame under construction.
    pub assembly: Seq<u8>,
    /// The payload of a frame's first datagram while the frame's timestamp
    /// is still being read.
    pub held: Seq<u8>,
    /// The clock reading taken for the frame under construction.
    pub timestamp: u64,
    /// The decoded pixels.
    pub pixels: Seq<u8>,
}

impl WorkerView {
    /// What holds of every worker, whatever it has been through: the
    /// assembly buffer holds whole payloads; a payload is held back exactly
    /// while the timestamp of its frame is being read, and the assembly
    /// buffer is empty meanwhile; and a header under which the codec is
    /// decoding is one that a frame descriptor can hold.
    pub open spec fn wf(self) -> bool {
        &&& self.assembly.len() % (PAYLOAD_SIZE as nat) == 0
        &&& self.phase == Phase::Stamping ==> self.assembly.len() == 0 && self.held.len()
            == PAYLOAD_SIZE
        &&& self.phase != Phase::Stamping ==> self.held.len() == 0
        &&& self.phase matches Phase::Decoding(header) ==> FrameDescriptor::describable(header)
    }
}

/// The pixel buffer after it was made to hold `size` bytes: unchanged if it
/// already does, else extended with zero bytes to exactly that length.
pub open spec fn grown(pixels: Seq<u8>, size: int) -> Seq<u8> {
    if size <= pixels.len() {
        pixels
    } else {
        pixels + Seq::new((size - pixels.len()) as nat, |i: int| 0u8)
    }
}

/// Whether the worker in this phase is waiting for a datagram.
pub open spec fn receiving(phase: Phase) -> bool {
    phase == Phase::AwaitingFrameStart || phase == Phase::Accumulating
}

/// Whether an event answers the action that a worker in this phase is
/// waiting on.
pub open spec fn answers(phase: Phase, event: Event) -> bool {
    match phase {
        Phase::Created => event is Started,
        Phase::Acquiring => event is SocketReady || event is SocketFailed,
        Phase::Backoff => event is Waited,
        Phase::AwaitingFrameStart => event is Packet || event is ReadFailed,
        Phase::Accumulating => event is Packet || event is ReadFailed,
        Phase::Stamping => event is Time,
        Phase::Probing => event is Header,
        Phase::Decoding(_) => event is Decoded,
        Phase::Publishing => event is Published,
        Phase::Reporting => event is Reported,
        Phase::Checkpoint => event is Cancellation,
        Phase::Stopped(_) => false,
    }
}

/// Whether a successfully decoded frame with this header is published by a
/// worker whose pixel buffer holds `capacity` bytes.
pub open spec fn publishable(header: Header, capacity: nat) -> bool {
    FrameDescriptor::describable(header) && header.size() <= capacity
}

/// The worker after an event. An event out of turn leaves it as it is.
pub open spec fn next(s: WorkerView, event: Event) -> WorkerView {
    if !answers(s.phase, event) {
        s
    } else {
        match event {
            Event::Started => WorkerView { phase: Phase::Acquiring, ..s },
            Event::SocketReady => WorkerView { phase: Phase::AwaitingFrameStart, ..s },
            Event::SocketFailed => WorkerView { phase: Phase::Backoff, ..s },
            Event::Waited => WorkerView { phase: Phase::Acquiring, ..s },
            Event::Packet(packet) => match kind_of(packet@) {
                PacketKind::FrameStart => WorkerView {
                    phase: Phase::Stamping,
                    assembly: Seq::empty(),
                    held: payload_of(packet@),
                    ..s
                },
                PacketKind::Continuation => WorkerView {
                    phase: Phase::Accumulating,
                    assembly: s.assembly + payload_of(packet@),
                    ..s
                },
                PacketKind::Terminal => WorkerView {
                    phase: Phase::Probing,
                    assembly: s.assembly + payload_of(packet@),
                    ..s
                },
            },
            Event::ReadFailed => WorkerView { phase: Phase::Stopped(StopReason::ReadFailed), ..s },
            Event::Time(now) => WorkerView {
                phase: Phase::Accumulating,
                assembly: s.assembly + s.held,
                held: Seq::empty(),
                timestamp: now,
                ..s
            },
            Event::Header(header) => if FrameDescriptor::describable(header) {
                WorkerView {
                    phase: Phase::Decoding(header),
                    pixels: grown(s.pixels, header.size()),
                    ..s
                }
            } else {
                WorkerView { phase: Phase::Reporting, ..s }
            },
            Event::Decoded(outcome) => if outcome is Ok && publishable(
                s.phase->Decoding_0,
                s.pixels.len(),
            ) {
                WorkerView { phase: Phase::Publishing, ..s }
            } else {
                WorkerView { phase: Phase::Reporting, ..s }
            },
            Event::Published => WorkerView { phase: Phase::Checkpoint, ..s },
            Event::Reported => WorkerView { phase: Phase::Checkpoint, ..s },
            Event::Cancellation(cancelled) => if cancelled {
                WorkerView { phase: Phase::Stopped(StopReason::Cancelled), ..s }
            } else {
                WorkerView { phase: Phase::AwaitingFrameStart, ..s }
            },
        }
    }
}

/// The action with which the worker answers an event in turn.
pub open spec fn reply(s: WorkerView, event: Event) -> Action
    recommends
        answers(s.phase, event),
{
    match event {
        Event::Started => Action::OpenSocket(Endpoint::spec_stream()),
        Event::SocketReady => Action::Receive,
        Event::SocketFailed => Action::Wait(RETRY_DELAY_SECS),
        Event::Waited => Action::OpenSocket(Endpoint::spec_stream()),
        Event::Packet(packet) => match kind_of(packet@) {
            PacketKind::FrameStart => Action::ReadClock,
            PacketKind::Continuation => Action::Receive,
            PacketKind::Terminal => Action::ProbeHeader,
        },
        Event::ReadFailed => Action::Stop(StopReason::ReadFailed),
        Event::Time(_) => Action::Receive,
        Event::Header(header) => if FrameDescriptor::describable(header) {
            Action::Decode(header)
        } else {
            Action::Report(Loss::Geometry(header))
        },
        Event::Decoded(outcome) => match outcome {
            Ok(_) => if publishable(s.phase->Decoding_0, s.pixels.len()) {
                Action::Publish(FrameDescriptor::of(s.phase->Decoding_0, s.timestamp))
            } else {
                Action::Report(Loss::Geometry(s.phase->Decoding_0))
            },
            Err(error) => Action::Report(Loss::Codec(error)),
        },
        Event::Published => Action::CheckCancellation,
        Event::Reported => Action::CheckCancellation,
        Event::Cancellation(cancelled) => if cancelled {
            Action::Stop(StopReason::Cancelled)
        } else {
            Action::Receive
        },
    }
}

/// What `step` returns for an event: the reply where the event is in turn,
/// the refusal where it is not.
pub open spec fn outcome(s: WorkerView, event: Event) -> Result<Action, OutOfTurn> {
    if answers(s.phase, event) {
        Ok(reply(s, event))
    } else {
        Err(OutOfTurn { phase: s.phase })
    }
}

/// One stream receiver's state.
pub struct Worker {
    phase: Phase,
    assembly: Vec<u8>,
    held: Vec<u8>,
    timestamp: u64,
    pixels: Vec<u8>,
}

impl View for Worker {
    type V = WorkerView;

    closed spec fn view(&self) -> WorkerView {
        WorkerView {
            phase: self.phase,
            assembly: self.assembly@,
            held: self.held@,
            timestamp: self.timestamp,
            pixels: self.pixels@,
        }
    }
}

impl Worker {
    /// A worker that has not started: both buffers are empty.
    pub fn new() -> (worker: Worker)
        ensures
            worker@ == (WorkerView {
                phase: Phase::Created,
                assembly: Seq::empty(),
                held: Seq::empty(),
                timestamp: 0,
                pixels: Seq::empty(),
            }),
            worker@.wf(),
    {
        Worker {
            phase: Phase::Created,
            assembly: Vec::new(),
            held: Vec::new(),
            timestamp: 0,
            pixels: Vec::new(),
        }
    }

    /// What the worker is waiting for.
    pub fn phase(&self) -> (phase: Phase)
        ensures
            phase == self@.phase,
    {
        self.phase
    }

    /// The clock reading taken for the frame under construction.
    pub fn timestamp(&self) -> (timestamp: u64)
        ensures
            timestamp == self@.timestamp,
    {
        self.timestamp
    }

    /// The assembly buffer.
    pub fn assembly(&self) -> (bytes: &[u8])
        ensures
            bytes@ == self@.assembly,
    {
        self.assembly.as_slice()
    }

    /// The pixel buffer.
    pub fn pixels(&self) -> (bytes: &[u8])
        ensures
            bytes@ == self@.pixels,
    {
        self.pixels.as_slice()
    }

    /// Lends the codec what it decodes from and what it decodes into: the
    /// assembly buffer and the pixel buffer. Whatever the codec writes is
    /// what the pixel buffer holds afterwards; nothing else changes.
    pub fn decode_buffers(&mut self) -> (buffers: (&[u8], &mut [u8]))
        ensures
            buffers.0@ == old(self)@.assembly,
            buffers.1@ == old(self)@.pixels,
            final(self)@ == (WorkerView { pixels: final(buffers.1)@, ..old(self)@ }),
            old(self)@.wf() ==> final(self)@.wf(),
    {
        (self.assembly.as_slice(), self.pixels.as_mut_slice())
    }

    /// Takes the outcome of the action that the worker is waiting on and
    /// returns the action to perform next. An event that does not answer
    /// that action is refused and changes nothing.
    pub fn step(&mut self, event: Event) -> (result: Result<Action, OutOfTurn>)
        ensures
            result == outcome(old(self)@, event),
            final(self)@ == next(old(self)@, event),
            old(self)@.wf() ==> final(self)@.wf(),
            final(self)@.pixels.len() >= old(self)@.pixels.len(),
            result matches Ok(Action::Decode(header)) ==> header.sizable() && header.size()
                <= final(self)@.pixels.len(),
            result matches Ok(Action::Publish(descriptor)) ==> descriptor.size()
                <= final(self)@.pixels.len(),
    {
        let phase = self.phase;
        match (phase, event) {
            (Phase::Created, Event::Started) => {
                self.phase = Phase::Acquiring;
                Ok(Action::OpenSocket(Endpoint::stream()))
            },
            (Phase::Acquiring, Event::SocketReady) => {
                self.phase = Phase::AwaitingFrameStart;
                Ok(Action::Receive)
            },
            (Phase::Acquiring, Event::SocketFailed) => {
                self.phase = Phase::Backoff;
                Ok(Action::Wait(RETRY_DELAY_SECS))
            },
            (Phase::Backoff, Event::Waited) => {
                self.phase = Phase::Acquiring;
                Ok(Action::OpenSocket(Endpoint::stream()))
            },
            (Phase::AwaitingFrameStart, Event::Packet(packet)) => Ok(self.accept(&packet)),
            (Phase::Accumulating, Event::Packet(packet)) => Ok(self.accept(&packet)),
            (Phase::AwaitingFrameStart, Event::ReadFailed) => {
                self.phase = Phase::Stopped(StopReason::ReadFailed);
                Ok(Action::Stop(StopReason::ReadFailed))
            },
            (Phase::Accumulating, Event::ReadFailed) => {
                self.phase = Phase::Stopped(StopReason::ReadFailed);
                Ok(Action::Stop(StopReason::ReadFailed))
            },
            (Phase::Stamping, Event::Time(now)) => {
                self.timestamp = now;
                self.assembly.append(&mut self.held);
                self.phase = Phase::Accumulating;
                Ok(Action::Receive)
            },
            (Phase::Probing, Event::Header(header)) => Ok(self.plan_decode(header)),
            (Phase::Decoding(header), Event::Decoded(outcome)) => Ok(
                self.conclude_decode(header, outcome),
            ),
            (Phase::Publishing, Event::Published) => {
                self.phase = Phase::Checkpoint;
                Ok(Action::CheckCancellation)
            },
            (Phase::Reporting, Event::Reported) => {
                self.phase = Phase::Checkpoint;
                Ok(Action::CheckCancellation)
            },
            (Phase::Checkpoint, Event::Cancellation(cancelled)) => {
                if cancelled {
                    self.phase = Phase::Stopped(StopReason::Cancelled);
                    Ok(Action::Stop(StopReason::Cancelled))
                } else {
                    self.phase = Phase::AwaitingFrameStart;
                    Ok(Action::Receive)
                }
            },
            _ => Err(OutOfTurn { phase }),
        }
    }

    /// Takes a datagram into the frame under construction.
    fn accept(&mut self, packet: &[u8; PACKET_SIZE]) -> (action: Action)
        requires
            receiving(old(self)@.phase),
        ensures
            action == reply(old(self)@, Event::Packet(*packet)),
            final(self)@ == next(old(self)@, Event::Packet(*packet)),
    {
        match classify(packet) {
            PacketKind::FrameStart => {
                self.assembly.clear();
                self.held.clear();
                self.held.extend_from_slice(payload(packet));
                self.phase = Phase::Stamping;
                Action::ReadClock
            },
            PacketKind::Continuation => {
                self.assembly.extend_from_slice(payload(packet));
                self.phase = Phase::Accumulating;
                Action::Receive
            },
            PacketKind::Terminal => {
                self.assembly.extend_from_slice(payload(packet));
                self.phase = Phase::Probing;
                Action::ProbeHeader
            },
        }
    }

    /// Makes the pixel buffer large enough for the frame that the codec has
    /// found in the assembly buffer, or gives the frame up.
    fn plan_decode(&mut self, header: Header) -> (action: Action)
        requires
            old(self)@.phase == Phase::Probing,
        ensures
            action == reply(old(self)@, Event::Header(header)),
            final(self)@ == next(old(self)@, Event::Header(header)),
            final(self)@.pixels.len() >= old(self)@.pixels.len(),
    {
        match FrameDescriptor::new(&header, self.timestamp) {
            Some(_) => {
                let size: usize = header.dst_size();
                if size > self.pixels.len() {
                    self.pixels.resize(size, 0u8);
                }
                self.phase = Phase::Decoding(header);
                Action::Decode(header)
            },
            None => {
                self.phase = Phase::Reporting;
                Action::Report(Loss::Geometry(header))
            },
        }
    }

    /// Decides what becomes of a frame once the codec is done with it.
    fn conclude_decode(&mut self, header: Header, outcome: Result<(), Error>) -> (action: Action)
        requires
            old(self)@.phase == Phase::Decoding(header),
        ensures
            action == reply(old(self)@, Event::Decoded(outcome)),
            final(self)@ == next(old(self)@, Event::Decoded(outcome)),
            action matches Action::Publish(descriptor) ==> descriptor.size()
                <= final(self)@.pixels.len(),
    {
        match outcome {
            Ok(_) => {
                match FrameDescriptor::new(&header, self.timestamp) {
                    Some(descriptor) => {
                        if header.fits_within(self.pixels.len()) {
                            self.phase = Phase::Publishing;
                            Action::Publish(descriptor)
                        } else {
                            self.phase = Phase::Reporting;
                            Action::Report(Loss::Geometry(header))
                        }
                    },
                    None => {
                        self.phase = Phase::Reporting;
                        Action::Report(Loss::Geometry(header))
                    },
                }
            },
            Err(error) => {
                self.phase = Phase::Reporting;
                Action::Report(Loss::Codec(error))
            },
        }
    }
}

} // verus!
