//! The decisions of the decode-resample-enqueue loop.
//!
//! The loop itself alternates with outside work (reading packets, decoding,
//! resampling, waiting for room in the queue); here it is a machine that,
//! given what that work reported, says what to do next. Every decode-side
//! failure ends the run.
use vstd::prelude::*;
use crate::frame::FrameError;

verus! {

/// A fatal error of the decoding side.
#[derive(Clone, Copy, Debug, PartialEq, Eq, Structural)]
pub enum PipelineError {
    /// The input holds no audio stream.
    StreamNotFound,
    /// The decoder refused a packet.
    PacketRejected,
    /// The resampler failed on a frame.
    ResampleFailed,
    /// A resampled frame could not be read as interleaved samples.
    Frame(FrameError),
}

/// The stream to decode: the one the demuxer judged best among the audio
/// streams, if it found any.
pub fn select_stream(best_audio: Option<usize>) -> (r: Result<usize, PipelineError>)
    ensures
        match best_audio {
            Some(i) => r == Ok::<usize, PipelineError>(i),
            None => r == Err::<usize, PipelineError>(PipelineError::StreamNotFound),
        },
{
    match best_audio {
        Some(i) => Ok(i),
        None => Err(PipelineError::StreamNotFound),
    }
}

/// Where the loop stands.
#[derive(Clone, Copy, Debug, PartialEq, Eq, Structural)]
pub enum Phase {
    /// Waiting for the next packet of the input.
    Reading,
    /// A packet of the selected stream is being handed to the decoder.
    Sending,
    /// Taking the frames the decoder has ready.
    Draining,
    /// A decoded frame is being resampled and extracted.
    Resampling,
    /// The input is exhausted.
    Finished,
    /// A fatal error ended the run.
    Failed(PipelineError),
}

/// What the outside work reports.
#[derive(Clone, Copy, Debug, PartialEq, Eq, Structural)]
pub enum Event {
    /// A packet of the given stream was read.
    Packet(usize),
    /// The input has no more packets.
    EndOfInput,
    /// The decoder took the packet (`true`) or refused it.
    Sent(bool),
    /// The decoder handed out a frame.
    FrameReady,
    /// The decoder has no frame ready.
    NoFrame,
    /// The frame was resampled and its samples extracted.
    Extracted,
    /// The resampler failed.
    ResampleFailed,
    /// The resampled frame could not be extracted.
    BadFrame(FrameError),
}

/// What to do next.
#[derive(Clone, Copy, Debug, PartialEq, Eq, Structural)]
pub enum Action {
    /// Read the next packet.
    ReadPacket,
    /// Hand the packet just read to the decoder.
    SendPacket,
    /// Ask the decoder for a frame.
    ReceiveFrame,
    /// Resample the frame and extract its samples.
    Resample,
    /// Push the extracted samples into the queue, waiting for room as
    /// needed, then ask the decoder for a frame.
    EnqueueThenReceive,
    /// Stop: the input is exhausted.
    Stop,
    /// Stop: the run failed.
    Fail(PipelineError),
}

/// The decode loop's state: the selected stream and the phase.
#[derive(Clone, Copy, Debug, PartialEq, Eq, Structural)]
pub struct Pipeline {
    pub stream: usize,
    pub phase: Phase,
}

/// The phase and action that follow `event` in `phase`, for the stream
/// `stream`. An event that cannot come in a phase leaves it as it is and
/// repeats what it asks for; a finished or failed run stays so.
pub open spec fn next(stream: usize, phase: Phase, event: Event) -> (Phase, Action) {
    match (phase, event) {
        (Phase::Reading, Event::Packet(s)) => if s == stream {
            (Phase::Sending, Action::SendPacket)
        } else {
            (Phase::Reading, Action::ReadPacket)
        },
        (Phase::Reading, Event::EndOfInput) => (Phase::Finished, Action::Stop),
        (Phase::Sending, Event::Sent(true)) => (Phase::Draining, Action::ReceiveFrame),
        (Phase::Sending, Event::Sent(false)) => (
            Phase::Failed(PipelineError::PacketRejected),
            Action::Fail(PipelineError::PacketRejected),
        ),
        (Phase::Draining, Event::FrameReady) => (Phase::Resampling, Action::Resample),
        (Phase::Draining, Event::NoFrame) => (Phase::Reading, Action::ReadPacket),
        (Phase::Resampling, Event::Extracted) => (Phase::Draining, Action::EnqueueThenReceive),
        (Phase::Resampling, Event::ResampleFailed) => (
            Phase::Failed(PipelineError::ResampleFailed),
            Action::Fail(PipelineError::ResampleFailed),
        ),
        (Phase::Resampling, Event::BadFrame(e)) => (
            Phase::Failed(PipelineError::Frame(e)),
            Action::Fail(PipelineError::Frame(e)),
        ),
        _ => (phase, pending(phase)),
    }
}

/// What a phase asks of the outside work.
pub open spec fn pending(phase: Phase) -> Action {
    match phase {
        Phase::Reading => Action::ReadPacket,
        Phase::Sending => Action::SendPacket,
        Phase::Draining => Action::ReceiveFrame,
        Phase::Resampling => Action::Resample,
        Phase::Finished => Action::Stop,
        Phase::Failed(e) => Action::Fail(e),
    }
}

impl Pipeline {
    /// A loop over the packets of `stream`, about to read the first packet.
    pub fn new(stream: usize) -> (p: Pipeline)
        ensures
            p.stream == stream,
            p.phase == Phase::Reading,
    {
        Pipeline { stream, phase: Phase::Reading }
    }

    /// What the current phase asks of the outside work.
    pub fn pending(&self) -> (a: Action)
        ensures
            a == pending(self.phase),
    {
        match self.phase {
            Phase::Reading => Action::ReadPacket,
            Phase::Sending => Action::SendPacket,
            Phase::Draining => Action::ReceiveFrame,
            Phase::Resampling => Action::Resample,
            Phase::Finished => Action::Stop,
            Phase::Failed(e) => Action::Fail(e),
        }
    }

    /// Takes in what the outside work reported and says what to do next.
    pub fn step(&mut self, event: Event) -> (a: Action)
        ensures
            final(self).stream == old(self).stream,
            (final(self).phase, a) == next(old(self).stream, old(self).phase, event),
    {
        let (phase, action) = match (self.phase, event) {
            (Phase::Reading, Event::Packet(s)) => if s == self.stream {
                (Phase::Sending, Action::SendPacket)
            } else {
                (Phase::Reading, Action::ReadPacket)
            },
            (Phase::Reading, Event::EndOfInput) => (Phase::Finished, Action::Stop),
            (Phase::Sending, Event::Sent(true)) => (Phase::Draining, Action::ReceiveFrame),
            (Phase::Sending, Event::Sent(false)) => (
                Phase::Failed(PipelineError::PacketRejected),
                Action::Fail(PipelineError::PacketRejected),
            ),
            (Phase::Draining, Event::FrameReady) => (Phase::Resampling, Action::Resample),
            (Phase::Draining, Event::NoFrame) => (Phase::Reading, Action::ReadPacket),
            (Phase::Resampling, Event::Extracted) => (Phase::Draining, Action::EnqueueThenReceive),
            (Phase::Resampling, Event::ResampleFailed) => (
                Phase::Failed(PipelineError::ResampleFailed),
                Action::Fail(PipelineError::ResampleFailed),
            ),
            (Phase::Resampling, Event::BadFrame(e)) => (
                Phase::Failed(PipelineError::Frame(e)),
                Action::Fail(PipelineError::Frame(e)),
            ),
            _ => (self.phase, self.pending()),
        };
        self.phase = phase;
        action
    }
}

} // verus!
