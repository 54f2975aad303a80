use hotkey_chime::playback::{
    PlaybackFailure, PlaybackSession, SessionAction, SessionEvent, SessionStage,
};
use hotkey_chime::setting::SharedSetting;
use hotkey_chime::volume::Volume;

#[test]
fn successful_session_walks_every_stage() {
    let mut s = PlaybackSession::begin(Volume::new(800));
    assert_eq!(s.stage, SessionStage::AwaitingDevice);
    assert_eq!(s.next_action(), SessionAction::OpenOutput);
    s.step(SessionEvent::OutputOpened(true));
    assert_eq!(s.stage, SessionStage::AwaitingDecode);
    assert_eq!(s.next_action(), SessionAction::DecodeClip);
    s.step(SessionEvent::ClipDecoded(true));
    assert_eq!(s.stage, SessionStage::AwaitingSink);
    assert_eq!(s.next_action(), SessionAction::CreateSink);
    s.step(SessionEvent::SinkCreated(true));
    assert_eq!(s.stage, SessionStage::Rendering);
    assert_eq!(s.next_action(), SessionAction::RenderAtGain(Volume::new(800)));
    s.step(SessionEvent::RenderComplete);
    assert_eq!(s.stage, SessionStage::Finished);
    assert_eq!(s.next_action(), SessionAction::TearDown);
    assert!(s.is_over());
}

#[test]
fn device_failure_abandons_the_attempt() {
    let mut s = PlaybackSession::begin(Volume::new(500));
    s.step(SessionEvent::OutputOpened(false));
    assert_eq!(s.stage, SessionStage::Failed(PlaybackFailure::DeviceUnavailable));
    assert_eq!(s.next_action(), SessionAction::TearDown);
    assert!(s.is_over());
}

#[test]
fn decode_failure_abandons_the_attempt() {
    let mut s = PlaybackSession::begin(Volume::new(500));
    s.step(SessionEvent::OutputOpened(true));
    s.step(SessionEvent::ClipDecoded(false));
    assert_eq!(s.stage, SessionStage::Failed(PlaybackFailure::DecodeFailed));
    assert_eq!(s.next_action(), SessionAction::TearDown);
}

#[test]
fn sink_failure_abandons_the_attempt() {
    let mut s = PlaybackSession::begin(Volume::new(500));
    s.step(SessionEvent::OutputOpened(true));
    s.step(SessionEvent::ClipDecoded(true));
    s.step(SessionEvent::SinkCreated(false));
    assert_eq!(s.stage, SessionStage::Failed(PlaybackFailure::SinkUnavailable));
    assert_eq!(s.next_action(), SessionAction::TearDown);
}

#[test]
fn failed_session_stays_failed() {
    let mut s = PlaybackSession::begin(Volume::new(500));
    s.step(SessionEvent::OutputOpened(false));
    s.step(SessionEvent::ClipDecoded(true));
    s.step(SessionEvent::SinkCreated(true));
    s.step(SessionEvent::RenderComplete);
    assert_eq!(s.stage, SessionStage::Failed(PlaybackFailure::DeviceUnavailable));
}

#[test]
fn session_gain_is_snapshotted_once() {
    let setting = SharedSetting::starting_at_default();
    setting.apply(800);
    let mut s = PlaybackSession::begin(setting.read());
    s.step(SessionEvent::OutputOpened(true));
    // The setting changes while the clip would be sounding ...
    setting.apply(100);
    s.step(SessionEvent::ClipDecoded(true));
    s.step(SessionEvent::SinkCreated(true));
    // ... but the session still renders at the gain snapshotted at its start.
    assert_eq!(s.next_action(), SessionAction::RenderAtGain(Volume::new(800)));
    assert_eq!(s.gain.permille(), 800);
    // The new value is waiting for the next session.
    assert_eq!(setting.read().permille(), 100);
}

#[test]
fn playback_failure_leaves_setting_unchanged() {
    let setting = SharedSetting::starting_at_default();
    setting.apply(700);
    let mut s = PlaybackSession::begin(setting.read());
    s.step(SessionEvent::OutputOpened(false));
    assert!(s.is_over());
    assert_eq!(setting.read().permille(), 700);
}
