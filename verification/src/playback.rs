//! The playback session: the bounded lifetime of one
//! device-open -> decode -> render -> tear-down sequence.
//!
//! Each trigger gets a fresh session. A session snapshots the shared volume
//! exactly once, when it begins; that snapshot is the session's gain for its
//! whole lifetime and is never re-read, even if the setting changes while
//! the clip is sounding. The host performs the outside work - opening the
//! output device, decoding the clip bytes, creating the sink, waiting for
//! the clip to end - and reports each outcome back; the session decides what
//! happens next. Any stage failing abandons the attempt: the failure is
//! recorded, nothing escalates, and the only action left is teardown.

use vstd::prelude::*;
use crate::volume::Volume;

verus! {

/// Why a playback attempt was abandoned. Every variant is recovered from
/// locally: the attempt simply does not happen, and the process stays armed
/// for the next trigger.
#[derive(Clone, Copy, PartialEq, Eq, Structural, Debug)]
pub enum PlaybackFailure {
    /// No audio output device/stream could be acquired.
    DeviceUnavailable,
    /// The fixed clip bytes did not decode into a playable source.
    DecodeFailed,
    /// No playback sink could be bound to the opened device.
    SinkUnavailable,
}

/// Where one playback session stands.
#[derive(Clone, Copy, PartialEq, Eq, Structural, Debug)]
pub enum SessionStage {
    /// Waiting for an audio output device/stream to be acquired.
    AwaitingDevice,
    /// Device acquired; waiting for the clip bytes to be decoded.
    AwaitingDecode,
    /// Clip decoded; waiting for a sink bound to the device.
    AwaitingSink,
    /// Sink created with the session's gain; the clip is sounding and runs
    /// to completion - there is no cancellation.
    Rendering,
    /// The clip played to completion.
    Finished,
    /// The attempt was abandoned at some stage.
    Failed(PlaybackFailure),
}

/// What the host must do next for a session.
#[derive(Clone, Copy, PartialEq, Eq, Structural, Debug)]
pub enum SessionAction {
    /// Acquire a fresh default audio output device/stream.
    OpenOutput,
    /// Decode the fixed clip bytes into a playable source.
    DecodeClip,
    /// Bind a playback sink to the opened device.
    CreateSink,
    /// Set the sink's gain to the carried volume, enqueue the source, and
    /// block until the clip ends.
    RenderAtGain(Volume),
    /// The session is over: release the device, stream and sink. Nothing is
    /// held past this point.
    TearDown,
}

/// The host's report of one stage's outcome.
#[derive(Clone, Copy, PartialEq, Eq, Structural, Debug)]
pub enum SessionEvent {
    /// Whether the output device/stream was acquired.
    OutputOpened(bool),
    /// Whether the clip bytes decoded.
    ClipDecoded(bool),
    /// Whether the sink was created.
    SinkCreated(bool),
    /// The clip finished sounding.
    RenderComplete,
}

/// The stage a session moves to when an outcome is reported. An event that
/// does not belong to the current stage changes nothing; in particular the
/// terminal stages never change again.
pub open spec fn stage_after(s: SessionStage, e: SessionEvent) -> SessionStage {
    match (s, e) {
        (SessionStage::AwaitingDevice, SessionEvent::OutputOpened(ok)) => if ok {
            SessionStage::AwaitingDecode
        } else {
            SessionStage::Failed(PlaybackFailure::DeviceUnavailable)
        },
        (SessionStage::AwaitingDecode, SessionEvent::ClipDecoded(ok)) => if ok {
            SessionStage::AwaitingSink
        } else {
            SessionStage::Failed(PlaybackFailure::DecodeFailed)
        },
        (SessionStage::AwaitingSink, SessionEvent::SinkCreated(ok)) => if ok {
            SessionStage::Rendering
        } else {
            SessionStage::Failed(PlaybackFailure::SinkUnavailable)
        },
        (SessionStage::Rendering, SessionEvent::RenderComplete) => SessionStage::Finished,
        _ => s,
    }
}

/// A stage from which nothing more happens: the clip finished, or the
/// attempt was abandoned.
pub open spec fn stage_over(s: SessionStage) -> bool {
    s == SessionStage::Finished || (s matches SessionStage::Failed(_))
}

/// One playback session: the gain snapshotted at its start, and where it
/// stands.
#[derive(Clone, Copy, PartialEq, Eq, Structural, Debug)]
pub struct PlaybackSession {
    /// The volume snapshotted when the session began. Fixed for the
    /// session's whole lifetime.
    pub gain: Volume,
    /// Where the session stands.
    pub stage: SessionStage,
}

/// A session after one reported outcome: the stage moves, the gain never
/// does.
pub open spec fn session_step(s: PlaybackSession, e: SessionEvent) -> PlaybackSession {
    PlaybackSession { gain: s.gain, stage: stage_after(s.stage, e) }
}

/// A session after a whole sequence of reported outcomes.
pub open spec fn session_run(s: PlaybackSession, es: Seq<SessionEvent>) -> PlaybackSession
    decreases es.len(),
{
    if es.len() == 0 {
        s
    } else {
        session_run(session_step(s, es[0]), es.subrange(1, es.len() as int))
    }
}

/// What the host must do next, given where a session stands.
pub open spec fn action_for(s: PlaybackSession) -> SessionAction {
    match s.stage {
        SessionStage::AwaitingDevice => SessionAction::OpenOutput,
        SessionStage::AwaitingDecode => SessionAction::DecodeClip,
        SessionStage::AwaitingSink => SessionAction::CreateSink,
        SessionStage::Rendering => SessionAction::RenderAtGain(s.gain),
        SessionStage::Finished => SessionAction::TearDown,
        SessionStage::Failed(_) => SessionAction::TearDown,
    }
}

impl PlaybackSession {
    /// The session's invariant: its gain is in range.
    pub open spec fn wf(self) -> bool {
        self.gain.wf()
    }

    /// Begin a fresh session. The volume is snapshotted here, exactly once
    /// per session; nothing later re-reads it.
    pub fn begin(snapshot: Volume) -> (s: PlaybackSession)
        requires
            snapshot.wf(),
        ensures
            s.wf(),
            s.gain == snapshot,
            s.stage == SessionStage::AwaitingDevice,
    {
        PlaybackSession { gain: snapshot, stage: SessionStage::AwaitingDevice }
    }

    /// What the host must do next for this session.
    pub fn next_action(&self) -> (a: SessionAction)
        ensures
            a == action_for(*self),
    {
        match self.stage {
            SessionStage::AwaitingDevice => SessionAction::OpenOutput,
            SessionStage::AwaitingDecode => SessionAction::DecodeClip,
            SessionStage::AwaitingSink => SessionAction::CreateSink,
            SessionStage::Rendering => SessionAction::RenderAtGain(self.gain),
            SessionStage::Finished => SessionAction::TearDown,
            SessionStage::Failed(_) => SessionAction::TearDown,
        }
    }

    /// Advance on the host's report of one outcome.
    pub fn step(&mut self, e: SessionEvent)
        ensures
            *final(self) == session_step(*old(self), e),
            final(self).gain == old(self).gain,
            final(self).stage == stage_after(old(self).stage, e),
    {
        let next = match (self.stage, e) {
            (SessionStage::AwaitingDevice, SessionEvent::OutputOpened(ok)) => if ok {
                SessionStage::AwaitingDecode
            } else {
                SessionStage::Failed(PlaybackFailure::DeviceUnavailable)
            },
            (SessionStage::AwaitingDecode, SessionEvent::ClipDecoded(ok)) => if ok {
                SessionStage::AwaitingSink
            } else {
                SessionStage::Failed(PlaybackFailure::DecodeFailed)
            },
            (SessionStage::AwaitingSink, SessionEvent::SinkCreated(ok)) => if ok {
                SessionStage::Rendering
            } else {
                SessionStage::Failed(PlaybackFailure::SinkUnavailable)
            },
            (SessionStage::Rendering, SessionEvent::RenderComplete) => SessionStage::Finished,
            (s, _) => s,
        };
        self.stage = next;
    }

    /// Whether the session is over: the clip finished or the attempt was
    /// abandoned. Either way the only action left is teardown.
    pub fn is_over(&self) -> (over: bool)
        ensures
            over == stage_over(self.stage),
    {
        match self.stage {
            SessionStage::Finished => true,
            SessionStage::Failed(_) => true,
            _ => false,
        }
    }
}

/// One session, one snapshot: however a session advances, its gain stays
/// the volume snapshotted when it began; no sequence of reported outcomes
/// changes it.
pub proof fn law_gain_fixed_for_session(s: PlaybackSession, es: Seq<SessionEvent>)
    ensures
        session_run(s, es).gain == s.gain,
    decreases es.len(),
{
    if es.len() > 0 {
        law_gain_fixed_for_session(session_step(s, es[0]), es.subrange(1, es.len() as int));
    }
}

/// The gain handed to the renderer is exactly the volume snapshotted at
/// session start: whatever outcomes were reported since the session began,
/// if its next action is to render, it renders at the snapshot.
pub proof fn law_render_at_snapshot(snapshot: Volume, es: Seq<SessionEvent>)
    requires
        snapshot.wf(),
    ensures
        ({
            let s = session_run(
                PlaybackSession { gain: snapshot, stage: SessionStage::AwaitingDevice },
                es,
            );
            action_for(s) matches SessionAction::RenderAtGain(g) ==> g == snapshot
        }),
{
    law_gain_fixed_for_session(
        PlaybackSession { gain: snapshot, stage: SessionStage::AwaitingDevice },
        es,
    );
}

/// An abandoned attempt stays abandoned: from a failed stage no later
/// outcome revives the session, its failure stays what it was, and the only
/// action left is teardown.
pub proof fn law_failure_is_terminal(s: PlaybackSession, es: Seq<SessionEvent>)
    requires
        s.stage matches SessionStage::Failed(_),
    ensures
        session_run(s, es).stage == s.stage,
        action_for(s) == SessionAction::TearDown,
        action_for(session_run(s, es)) == SessionAction::TearDown,
    decreases es.len(),
{
    if es.len() > 0 {
        law_failure_is_terminal(session_step(s, es[0]), es.subrange(1, es.len() as int));
    }
}

} // verus!
