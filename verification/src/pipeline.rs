//! The admission pipeline. A single event passes, in order, the rate check,
//! the field validator, the digest check and the signature check, and is
//! then handed to the publisher. A batch is screened event by event in input
//! order (two phases: verify all, then publish all); a publish failure
//! demotes an already-verified event into the rejected set. The publish
//! calls themselves are outside work: the boundary performs them and hands
//! the outcomes back to [`finalize_batch`].

use vstd::prelude::*;

use crate::errors::{reason_of, VerifyError};
use crate::event::FactoEvent;
use crate::limiter::AppState;
use crate::validate::{validate_event, validate_verdict};

verus! {

/// One rejected event of a batch, with its boundary reason text.
pub struct RejectedEvent {
    pub facto_id: String,
    pub reason: String,
}

/// The outcome of single-event ingestion.
pub struct SingleIngestResponse {
    pub accepted: bool,
    pub facto_id: String,
    pub reason: Option<String>,
}

/// A submitted batch.
pub struct BatchIngestRequest {
    pub events: Vec<FactoEvent>,
    pub batch_id: Option<String>,
}

/// The outcome of batch ingestion: counts and the per-event rejections. The
/// batch is never aborted early.
pub struct BatchIngestResponse {
    pub accepted_count: usize,
    pub rejected_count: usize,
    pub rejected: Vec<RejectedEvent>,
}

/// Process liveness, as reported at the boundary.
pub struct HealthResponse {
    pub status: String,
    pub version: String,
}

/// Broker connectivity, as reported at the boundary.
pub struct ReadyResponse {
    pub ready: bool,
    pub nats_connected: bool,
}

impl HealthResponse {
    /// Process liveness never depends on the broker: a responding process
    /// reports itself healthy, with its version.
    pub fn healthy(version: String) -> (r: HealthResponse)
        ensures
            r.status@ == "healthy"@,
            r.version == version,
    {
        HealthResponse { status: "healthy".to_owned(), version }
    }
}

impl ReadyResponse {
    /// Readiness is exactly the broker liveness gate.
    pub fn for_liveness(nats_connected: bool) -> (r: ReadyResponse)
        ensures
            r.ready == nats_connected,
            r.nats_connected == nats_connected,
    {
        ReadyResponse { ready: nats_connected, nats_connected }
    }
}

/// The verdict of the single-event path, given the rate decision and the
/// broker liveness gate: the first failing check names the rejection.
pub open spec fn single_verdict(e: FactoEvent, rate_ok: bool, broker_live: bool) -> Result<
    (),
    VerifyError,
> {
    if !rate_ok {
        Err(VerifyError::RateLimitExceeded)
    } else {
        match validate_verdict(e) {
            Err(err) => Err(err),
            Ok(()) => if !broker_live {
                Err(VerifyError::BrokerUnavailable)
            } else {
                Ok(())
            },
        }
    }
}

/// Decides the single-event path from the rate outcome and the liveness
/// gate; `Ok` means the event may be handed to the publisher.
pub fn decide_single(event: &FactoEvent, rate_ok: bool, broker_live: bool) -> (r: Result<
    (),
    VerifyError,
>)
    ensures
        r == single_verdict(*event, rate_ok, broker_live),
{
    if !rate_ok {
        return Err(VerifyError::RateLimitExceeded);
    }
    match validate_event(event) {
        Err(e) => Err(e),
        Ok(()) => if !broker_live {
            Err(VerifyError::BrokerUnavailable)
        } else {
            Ok(())
        },
    }
}

/// Runs the single-event path against the shared state: rate check, then
/// validation, then the liveness gate. The rate outcome depends on the
/// clock, so the result is pinned for each possible outcome.
pub fn admit_single(state: &AppState, event: &FactoEvent, broker_live: bool) -> (r: Result<
    (),
    VerifyError,
>)
    ensures
        exists|rate_ok: bool| r == single_verdict(*event, rate_ok, broker_live),
        r is Ok ==> validate_verdict(*event) is Ok && broker_live,
{
    let rate_ok = state.check_rate_limit(event.agent_id.as_str());
    let r = decide_single(event, rate_ok, broker_live);
    proof {
        assert(r == single_verdict(*event, rate_ok, broker_live));
    }
    r
}

/// The response of the single-event path for a final verdict (the publish
/// outcome already folded in by the caller).
pub fn response_for_single(facto_id: String, verdict: Result<(), VerifyError>) -> (r:
    SingleIngestResponse)
    ensures
        r.accepted == verdict is Ok,
        r.facto_id == facto_id,
        verdict is Ok ==> r.reason is None,
        verdict matches Err(e) ==> r.reason matches Some(t) && t@ == reason_of(e),
{
    match verdict {
        Ok(()) => SingleIngestResponse { accepted: true, facto_id, reason: None },
        Err(e) => SingleIngestResponse {
            accepted: false,
            facto_id,
            reason: Some(e.reason_text()),
        },
    }
}

/// The verdict of one batch member, given its rate outcome.
pub open spec fn event_verdict(e: FactoEvent, rate_ok: bool) -> Result<(), VerifyError> {
    if !rate_ok {
        Err(VerifyError::RateLimitExceeded)
    } else {
        validate_verdict(e)
    }
}

/// Phase one of the batch path: every event is screened independently, in
/// input order, whatever the broker's state. Each verdict is the event's
/// validation outcome, or the rate-limit rejection when its rate check
/// denied.
pub fn screen_events(state: &AppState, events: &Vec<FactoEvent>) -> (r: Vec<
    Result<(), VerifyError>,
>)
    ensures
        r@.len() == events@.len(),
        forall|i: int|
            0 <= i < r@.len() ==> #[trigger] r@[i] == event_verdict(events@[i], true) || r@[i]
                == event_verdict(events@[i], false),
{
    let mut out: Vec<Result<(), VerifyError>> = Vec::new();
    let n = events.len();
    let mut i: usize = 0;
    while i < n
        invariant
            i <= n,
            n == events@.len(),
            out@.len() == i,
            forall|j: int|
                0 <= j < i ==> #[trigger] out@[j] == event_verdict(events@[j], true) || out@[j]
                    == event_verdict(events@[j], false),
        decreases n - i,
    {
        let event = &events[i];
        let rate_ok = state.check_rate_limit(event.agent_id.as_str());
        let v = if !rate_ok {
            Err(VerifyError::RateLimitExceeded)
        } else {
            validate_event(event)
        };
        proof {
            assert(v == event_verdict(events@[i as int], rate_ok));
        }
        out.push(v);
        i = i + 1;
    }
    out
}

/// How many verdicts admitted their event.
pub open spec fn count_oks(vs: Seq<Result<(), VerifyError>>) -> int
    decreases vs.len(),
{
    if vs.len() == 0 {
        0
    } else {
        count_oks(vs.drop_last()) + if vs.last() is Ok {
            1int
        } else {
            0int
        }
    }
}

/// How many publish attempts succeeded.
pub open spec fn count_true(bs: Seq<bool>) -> int
    decreases bs.len(),
{
    if bs.len() == 0 {
        0
    } else {
        count_true(bs.drop_last()) + if bs.last() {
            1int
        } else {
            0int
        }
    }
}

/// The events whose verdict admitted them, in input order.
pub open spec fn accepted_of(events: Seq<FactoEvent>, vs: Seq<Result<(), VerifyError>>) -> Seq<
    FactoEvent,
>
    decreases events.len(),
{
    if events.len() == 0 {
        Seq::empty()
    } else {
        let pre = accepted_of(events.drop_last(), vs.drop_last());
        if vs.last() is Ok {
            pre.push(events.last())
        } else {
            pre
        }
    }
}

/// The rejections, in input order: each rejected event's id with its error.
pub open spec fn rejections_of(events: Seq<FactoEvent>, vs: Seq<Result<(), VerifyError>>) -> Seq<
    (Seq<char>, VerifyError),
>
    decreases events.len(),
{
    if events.len() == 0 {
        Seq::empty()
    } else {
        let pre = rejections_of(events.drop_last(), vs.drop_last());
        match vs.last() {
            Ok(_) => pre,
            Err(err) => pre.push((events.last().facto_id@, err)),
        }
    }
}

/// The two splits cover the batch: their lengths sum to its size.
pub proof fn lemma_split_lens(events: Seq<FactoEvent>, vs: Seq<Result<(), VerifyError>>)
    requires
        events.len() == vs.len(),
    ensures
        accepted_of(events, vs).len() == count_oks(vs),
        rejections_of(events, vs).len() == events.len() - count_oks(vs),
    decreases events.len(),
{
    if events.len() > 0 {
        lemma_split_lens(events.drop_last(), vs.drop_last());
    }
}

/// Splits a screened batch into the events to publish and the rejections.
pub fn split_verified(events: Vec<FactoEvent>, verdicts: &Vec<Result<(), VerifyError>>) -> (r: (
    Vec<FactoEvent>,
    Vec<RejectedEvent>,
))
    requires
        verdicts@.len() == events@.len(),
    ensures
        r.0@ == accepted_of(events@, verdicts@),
        r.1@.len() == rejections_of(events@, verdicts@).len(),
        forall|i: int|
            0 <= i < r.1@.len() ==> #[trigger] r.1@[i].facto_id@ == rejections_of(
                events@,
                verdicts@,
            )[i].0 && r.1@[i].reason@ == reason_of(rejections_of(events@, verdicts@)[i].1),
        r.0@.len() + r.1@.len() == events@.len(),
{
    let ghost gevents = events@;
    let mut accepted: Vec<FactoEvent> = Vec::new();
    let mut rejected: Vec<RejectedEvent> = Vec::new();
    let n = events.len();
    let mut i: usize = 0;
    let mut rest = events;
    // Consume from the front to move each event exactly once.
    while i < n
        invariant
            i <= n,
            n == gevents.len(),
            rest@ == gevents.skip(i as int),
            verdicts@.len() == n,
            accepted@ == accepted_of(gevents.take(i as int), verdicts@.take(i as int)),
            rejected@.len() == rejections_of(gevents.take(i as int), verdicts@.take(i as int)).len(),
            forall|k: int|
                0 <= k < rejected@.len() ==> #[trigger] rejected@[k].facto_id@ == rejections_of(
                    gevents.take(i as int),
                    verdicts@.take(i as int),
                )[k].0 && rejected@[k].reason@ == reason_of(
                rejections_of(gevents.take(i as int), verdicts@.take(i as int))[k].1,
            ),
        decreases n - i,
    {
        let event = rest.remove(0);
        let ok = matches!(verdicts[i], Ok(()));
        proof {
            assert(event == gevents[i as int]);
        }
        if ok {
            accepted.push(event);
        } else {
            let err = match verdicts[i] {
                Ok(_) => VerifyError::PublishFailed,
                Err(e) => e,
            };
            rejected.push(RejectedEvent { facto_id: event.facto_id, reason: err.reason_text() });
        }
        proof {
            let te = gevents.take(i + 1 as int);
            let tv = verdicts@.take(i + 1 as int);
            assert(te.drop_last() =~= gevents.take(i as int));
            assert(tv.drop_last() =~= verdicts@.take(i as int));
            assert(te.last() == gevents[i as int]);
            assert(tv.last() == verdicts@[i as int]);
        }
        i = i + 1;
    }
    proof {
        assert(gevents.take(n as int) =~= gevents);
        assert(verdicts@.take(n as int) =~= verdicts@);
        lemma_split_lens(gevents, verdicts@);
    }
    (accepted, rejected)
}

/// The ids of verified events demoted by a failed publish, in input order.
pub open spec fn demoted_of(accepted: Seq<FactoEvent>, ok: Seq<bool>) -> Seq<Seq<char>>
    decreases accepted.len(),
{
    if accepted.len() == 0 {
        Seq::empty()
    } else {
        let pre = demoted_of(accepted.drop_last(), ok.drop_last());
        if ok.last() {
            pre
        } else {
            pre.push(accepted.last().facto_id@)
        }
    }
}

/// Every publish either succeeds or demotes: the counts add up.
pub proof fn lemma_demoted_len(accepted: Seq<FactoEvent>, ok: Seq<bool>)
    requires
        accepted.len() == ok.len(),
    ensures
        demoted_of(accepted, ok).len() == accepted.len() - count_true(ok),
    decreases accepted.len(),
{
    if accepted.len() > 0 {
        lemma_demoted_len(accepted.drop_last(), ok.drop_last());
    }
}

/// Phase two of the batch path with a live broker: folds the per-event
/// publish outcomes into the response. Successes are counted as accepted;
/// each failure demotes its event into the rejected set with the publish
/// failure reason. The response accounts for every event exactly once.
pub fn finalize_batch(accepted: Vec<FactoEvent>, publish_ok: &Vec<bool>, rejected: Vec<
    RejectedEvent,
>) -> (r: BatchIngestResponse)
    requires
        publish_ok@.len() == accepted@.len(),
    ensures
        r.accepted_count == count_true(publish_ok@),
        r.rejected_count == r.rejected@.len(),
        r.rejected@.len() == rejected@.len() + (accepted@.len() - count_true(publish_ok@)),
        forall|i: int| 0 <= i < rejected@.len() ==> r.rejected@[i] == rejected@[i],
        forall|k: int|
            0 <= k < demoted_of(accepted@, publish_ok@).len() ==> #[trigger] r.rejected@[rejected@.len() + k].facto_id@
                == demoted_of(accepted@, publish_ok@)[k] && r.rejected@[rejected@.len() + k].reason@
                == reason_of(VerifyError::PublishFailed),
{
    let ghost gaccepted = accepted@;
    let ghost pre = rejected@;
    let mut rejected = rejected;
    let mut accepted_count: usize = 0;
    let n = accepted.len();
    let mut i: usize = 0;
    let mut rest = accepted;
    while i < n
        invariant
            i <= n,
            n == gaccepted.len(),
            rest@ == gaccepted.skip(i as int),
            publish_ok@.len() == n,
            accepted_count == count_true(publish_ok@.take(i as int)),
            accepted_count <= i,
            rejected@.len() == pre.len() + demoted_of(
                gaccepted.take(i as int),
                publish_ok@.take(i as int),
            ).len(),
            forall|j: int| 0 <= j < pre.len() ==> rejected@[j] == pre[j],
            forall|k: int|
                0 <= k < demoted_of(gaccepted.take(i as int), publish_ok@.take(i as int)).len()
                    ==> #[trigger] rejected@[pre.len() + k].facto_id@ == demoted_of(
                    gaccepted.take(i as int),
                    publish_ok@.take(i as int),
                )[k] && rejected@[pre.len() + k].reason@ == reason_of(VerifyError::PublishFailed),
        decreases n - i,
    {
        let event = rest.remove(0);
        proof {
            assert(event == gaccepted[i as int]);
        }
        if publish_ok[i] {
            accepted_count = accepted_count + 1;
        } else {
            let reason = VerifyError::PublishFailed.reason_text();
            rejected.push(RejectedEvent { facto_id: event.facto_id, reason });
        }
        proof {
            let ta = gaccepted.take(i + 1 as int);
            let to = publish_ok@.take(i + 1 as int);
            assert(ta.drop_last() =~= gaccepted.take(i as int));
            assert(to.drop_last() =~= publish_ok@.take(i as int));
            assert(ta.last() == gaccepted[i as int]);
            assert(to.last() == publish_ok@[i as int]);
        }
        i = i + 1;
    }
    proof {
        assert(gaccepted.take(n as int) =~= gaccepted);
        assert(publish_ok@.take(n as int) =~= publish_ok@);
        lemma_demoted_len(gaccepted, publish_ok@);
    }
    let rejected_count = rejected.len();
    BatchIngestResponse { accepted_count, rejected_count, rejected }
}

/// Phase two of the batch path with no live broker: verification has still
/// run for every event, and every verified event is rejected as not ready.
pub fn finalize_batch_unavailable(accepted: Vec<FactoEvent>, rejected: Vec<RejectedEvent>) -> (r:
    BatchIngestResponse)
    ensures
        r.accepted_count == 0,
        r.rejected_count == r.rejected@.len(),
        r.rejected@.len() == rejected@.len() + accepted@.len(),
        forall|i: int| 0 <= i < rejected@.len() ==> r.rejected@[i] == rejected@[i],
        forall|i: int|
            rejected@.len() <= i < r.rejected@.len() ==> (#[trigger] r.rejected@[i]).facto_id@
                == accepted@[i - rejected@.len()].facto_id@ && r.rejected@[i].reason@ == reason_of(
                VerifyError::BrokerUnavailable,
            ),
{
    let ghost gaccepted = accepted@;
    let ghost pre = rejected@;
    let mut rejected = rejected;
    let n = accepted.len();
    let mut i: usize = 0;
    let mut rest = accepted;
    while i < n
        invariant
            i <= n,
            n == gaccepted.len(),
            rest@ == gaccepted.skip(i as int),
            rejected@.len() == pre.len() + i,
            forall|j: int| 0 <= j < pre.len() ==> rejected@[j] == pre[j],
            forall|j: int|
                pre.len() <= j < rejected@.len() ==> (#[trigger] rejected@[j]).facto_id@
                    == gaccepted[j - pre.len()].facto_id@ && rejected@[j].reason@ == reason_of(
                    VerifyError::BrokerUnavailable,
                ),
        decreases n - i,
    {
        let event = rest.remove(0);
        proof {
            assert(event == gaccepted[i as int]);
        }
        let reason = VerifyError::BrokerUnavailable.reason_text();
        rejected.push(RejectedEvent { facto_id: event.facto_id, reason });
        i = i + 1;
    }
    let rejected_count = rejected.len();
    BatchIngestResponse { accepted_count: 0, rejected_count, rejected }
}

} // verus!
