//! The watcher's dispatch discipline: a single thread consumes key events
//! one at a time, and a matched chord runs one complete playback session
//! before the next event is even looked at.
//!
//! The host's dedicated thread owns the real OS event source and calls
//! [`watcher_turn`] for each arriving event (or [`run_script`] for an
//! injected script of synthetic events, which is how the discipline is
//! exercised without an OS hook). Because a turn only returns once the
//! session it started is over, rapid re-triggering is serialized by the
//! blocking turn itself - there is no debouncing, and no queue: each matched
//! event is one attempt, run to its end, in arrival order.

use vstd::prelude::*;
use crate::chord::{KeyEvent, ModifierState, chord_matches, mods_after};
use crate::playback::{PlaybackSession, SessionEvent, SessionStage, PlaybackFailure};
use crate::setting::SharedSetting;

verus! {

/// The outcomes the host environment reports for the stages of one playback
/// attempt: whether the output device opened, whether the clip decoded, and
/// whether the sink was created. A real host fills this from the audio
/// subsystem; a synthetic one injects failures at will.
#[derive(Clone, Copy, PartialEq, Eq, Structural, Debug)]
pub struct StageOutcomes {
    pub output_opened: bool,
    pub clip_decoded: bool,
    pub sink_created: bool,
}

/// The terminal stage one attempt reaches under the given outcomes: the
/// first failing stage abandons it, and with no failure the clip runs to
/// completion.
pub open spec fn outcome_stage(env: StageOutcomes) -> SessionStage {
    if !env.output_opened {
        SessionStage::Failed(PlaybackFailure::DeviceUnavailable)
    } else if !env.clip_decoded {
        SessionStage::Failed(PlaybackFailure::DecodeFailed)
    } else if !env.sink_created {
        SessionStage::Failed(PlaybackFailure::SinkUnavailable)
    } else {
        SessionStage::Finished
    }
}

/// The modifier state after a whole script of events is observed.
pub open spec fn mods_after_all(m: ModifierState, es: Seq<KeyEvent>) -> ModifierState
    decreases es.len(),
{
    if es.len() == 0 {
        m
    } else {
        mods_after_all(mods_after(m, es[0]), es.subrange(1, es.len() as int))
    }
}

/// How many events of a script match the chord at the instant they arrive -
/// that is, how many playback attempts the script causes.
pub open spec fn match_count(m: ModifierState, es: Seq<KeyEvent>) -> nat
    decreases es.len(),
{
    if es.len() == 0 {
        0
    } else {
        (if chord_matches(es[0], m) {
            1nat
        } else {
            0nat
        }) + match_count(mods_after(m, es[0]), es.subrange(1, es.len() as int))
    }
}

/// One turn of the single-threaded watcher loop: observe one key event and,
/// if it matches the chord, snapshot the shared volume once, run one whole
/// playback session under the reported outcomes, and append the finished
/// session to the log. The turn returns only once that session is over, so
/// a second trigger can never begin before the first attempt has ended.
pub fn watcher_turn(
    mods: &mut ModifierState,
    e: KeyEvent,
    setting: &SharedSetting,
    env: StageOutcomes,
    log: &mut Vec<PlaybackSession>,
) -> (matched: bool)
    ensures
        *final(mods) == mods_after(*old(mods), e),
        matched == chord_matches(e, *old(mods)),
        !matched ==> *final(log) == *old(log),
        matched ==> final(log)@.len() == old(log)@.len() + 1,
        matched ==> final(log)@.subrange(0, old(log)@.len() as int) == old(log)@,
        matched ==> final(log)@.last().wf() && final(log)@.last().stage == outcome_stage(env),
{
    let matched = mods.observe(e);
    if matched {
        let snapshot = setting.read();
        let mut s = PlaybackSession::begin(snapshot);
        s.step(SessionEvent::OutputOpened(env.output_opened));
        if !s.is_over() {
            s.step(SessionEvent::ClipDecoded(env.clip_decoded));
        }
        if !s.is_over() {
            s.step(SessionEvent::SinkCreated(env.sink_created));
        }
        if !s.is_over() {
            s.step(SessionEvent::RenderComplete);
        }
        log.push(s);
        proof {
            assert(log@.subrange(0, old(log)@.len() as int) =~= old(log)@);
        }
    }
    matched
}

/// Observing one more event at the end of a script folds in from the right.
proof fn lemma_script_snoc(m: ModifierState, es: Seq<KeyEvent>, e: KeyEvent)
    ensures
        mods_after_all(m, es.push(e)) == mods_after(mods_after_all(m, es), e),
        match_count(m, es.push(e)) == match_count(m, es) + (if chord_matches(
            e,
            mods_after_all(m, es),
        ) {
            1nat
        } else {
            0nat
        }),
    decreases es.len(),
{
    if es.len() == 0 {
        assert(es.push(e)[0] == e);
        assert(es.push(e).subrange(1, 1) =~= Seq::<KeyEvent>::empty());
        assert(mods_after_all(m, es.push(e)) == mods_after_all(
            mods_after(m, e),
            es.push(e).subrange(1, 1),
        ));
        assert(mods_after_all(mods_after(m, e), Seq::<KeyEvent>::empty()) == mods_after(m, e));
        assert(match_count(m, es.push(e)) == (if chord_matches(e, m) {
            1nat
        } else {
            0nat
        }) + match_count(mods_after(m, e), es.push(e).subrange(1, 1)));
        assert(match_count(mods_after(m, e), Seq::<KeyEvent>::empty()) == 0);
    } else {
        let tail = es.subrange(1, es.len() as int);
        let stepped = mods_after(m, es[0]);
        assert(es.push(e)[0] == es[0]);
        assert(es.push(e).subrange(1, (es.len() + 1) as int) =~= tail.push(e));
        lemma_script_snoc(stepped, tail, e);
        assert(mods_after_all(m, es) == mods_after_all(stepped, tail));
        assert(mods_after_all(m, es.push(e)) == mods_after_all(stepped, tail.push(e)));
        assert(match_count(m, es) == (if chord_matches(es[0], m) {
            1nat
        } else {
            0nat
        }) + match_count(stepped, tail));
        assert(match_count(m, es.push(e)) == (if chord_matches(es[0], m) {
            1nat
        } else {
            0nat
        }) + match_count(stepped, tail.push(e)));
    }
}

/// Drive the watcher over a finite script of key events, as the dedicated
/// watcher thread consumes the OS queue: one event at a time, each matched
/// event causing exactly one playback attempt, each attempt run to its end
/// before the next event is examined. The log gains one terminal session
/// per matched event, in arrival order.
pub fn run_script(
    mods: &mut ModifierState,
    events: &Vec<KeyEvent>,
    setting: &SharedSetting,
    env: StageOutcomes,
    log: &mut Vec<PlaybackSession>,
)
    ensures
        *final(mods) == mods_after_all(*old(mods), events@),
        final(log)@.len() == old(log)@.len() + match_count(*old(mods), events@),
        final(log)@.subrange(0, old(log)@.len() as int) == old(log)@,
        forall|j: int|
            old(log)@.len() <= j < final(log)@.len() ==> (#[trigger] final(log)@[j]).wf()
                && final(log)@[j].stage == outcome_stage(env),
{
    let mut i: usize = 0;
    while i < events.len()
        invariant
            i <= events@.len(),
            *mods == mods_after_all(*old(mods), events@.subrange(0, i as int)),
            log@.len() == old(log)@.len() + match_count(*old(mods), events@.subrange(0, i as int)),
            log@.subrange(0, old(log)@.len() as int) == old(log)@,
            forall|j: int|
                old(log)@.len() <= j < log@.len() ==> (#[trigger] log@[j]).wf() && log@[j].stage
                    == outcome_stage(env),
        decreases events@.len() - i,
    {
        let ghost prefix = events@.subrange(0, i as int);
        let ghost prev_log = log@;
        let e = events[i];
        let matched = watcher_turn(mods, e, setting, env, log);
        proof {
            lemma_script_snoc(*old(mods), prefix, e);
            assert(events@.subrange(0, (i + 1) as int) =~= prefix.push(e));
            assert forall|k: int| 0 <= k < old(log)@.len() implies prev_log[k] == old(log)@[k] by {
                assert(prev_log.subrange(0, old(log)@.len() as int)[k] == prev_log[k]);
            }
            if matched {
                assert forall|k: int| 0 <= k < prev_log.len() implies log@[k] == prev_log[k] by {
                    assert(log@.subrange(0, prev_log.len() as int)[k] == log@[k]);
                }
                assert(log@.subrange(0, old(log)@.len() as int) =~= old(log)@);
                assert forall|j: int|
                    old(log)@.len() <= j < log@.len() implies (#[trigger] log@[j]).wf()
                    && log@[j].stage == outcome_stage(env) by {
                    if j < prev_log.len() {
                        assert(log@[j] == prev_log[j]);
                    } else {
                        assert(log@[j] == log@.last());
                    }
                }
            }
        }
        i += 1;
    }
    proof {
        assert(events@.subrange(0, events@.len() as int) =~= events@);
    }
}

} // verus!
