//! Reachability probing of the speech-swift audio-server at startup.

use vstd::prelude::*;

verus! {

/// What to do after one startup probe of the audio-server.
#[derive(Debug, Clone, Copy, PartialEq, Eq)]
pub struct HealthProbeStep {
    /// Emit `speech_swift_reachable`.
    pub emit_reachable: bool,
    /// Emit `speech_swift_unreachable`.
    pub emit_unreachable: bool,
    /// Stop probing (the server is up).
    pub done: bool,
    /// Whether the server counts as previously reachable for the next probe.
    pub previously_reachable: bool,
}

pub open spec fn spec_health_probe_step(previously_reachable: bool, reachable: bool) -> HealthProbeStep {
    if reachable {
        HealthProbeStep {
            emit_reachable: !previously_reachable,
            emit_unreachable: false,
            done: true,
            previously_reachable,
        }
    } else {
        HealthProbeStep {
            emit_reachable: false,
            emit_unreachable: previously_reachable,
            done: false,
            previously_reachable: false,
        }
    }
}

/// One startup probe: on success stop, announcing the recovery only if the
/// server had been reported unreachable; on the first failure announce it
/// unreachable, and keep probing.
pub fn health_probe_step(previously_reachable: bool, reachable: bool) -> (step: HealthProbeStep)
    ensures
        step == spec_health_probe_step(previously_reachable, reachable),
{
    if reachable {
        HealthProbeStep {
            emit_reachable: !previously_reachable,
            emit_unreachable: false,
            done: true,
            previously_reachable,
        }
    } else {
        HealthProbeStep {
            emit_reachable: false,
            emit_unreachable: previously_reachable,
            done: false,
            previously_reachable: false,
        }
    }
}

/// The events emitted by a run of startup probes with the given results
/// (`true` for `speech_swift_reachable`, `false` for
/// `speech_swift_unreachable`), starting from "previously reachable".
pub open spec fn probe_events(previously_reachable: bool, results: Seq<bool>) -> Seq<bool>
    decreases results.len(),
{
    if results.len() == 0 {
        Seq::empty()
    } else {
        let step = spec_health_probe_step(previously_reachable, results[0]);
        let here = if step.emit_reachable {
            seq![true]
        } else if step.emit_unreachable {
            seq![false]
        } else {
            Seq::empty()
        };
        if step.done {
            here
        } else {
            here + probe_events(step.previously_reachable, results.drop_first())
        }
    }
}

/// Startup probing reports the audio-server unreachable at most once, and
/// reports it reachable only after having reported it unreachable: the
/// events are none, just "unreachable", or "unreachable" then "reachable".
pub proof fn lemma_probe_events_announce_once(results: Seq<bool>)
    ensures
        probe_events(true, results) == Seq::<bool>::empty() || probe_events(true, results)
            == seq![false] || probe_events(true, results) == seq![false, true],
{
    if results.len() > 0 && !results[0] {
        lemma_probe_events_after_failure(results.drop_first());
        let rest = probe_events(false, results.drop_first());
        assert(probe_events(true, results) == seq![false] + rest);
        if rest.len() == 0 {
            assert(seq![false] + rest =~= seq![false]);
        } else {
            assert(seq![false] + rest =~= seq![false, true]);
        }
    }
}

/// Once the server was reported unreachable, later probes report at most
/// its recovery.
pub proof fn lemma_probe_events_after_failure(results: Seq<bool>)
    ensures
        probe_events(false, results) == Seq::<bool>::empty() || probe_events(false, results)
            == seq![true],
    decreases results.len(),
{
    if results.len() > 0 && !results[0] {
        lemma_probe_events_after_failure(results.drop_first());
        assert(Seq::<bool>::empty() + probe_events(false, results.drop_first()) =~= probe_events(
            false,
            results.drop_first(),
        ));
    }
}

} // verus!
