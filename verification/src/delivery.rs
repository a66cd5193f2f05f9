//! Bounded retrying of one ping.
//!
//! A [`Delivery`] is a small state machine. While it is
//! [`Phase::Attempting`] the caller sends its request and feeds what came
//! back into [`Delivery::record`]. The first acknowledged attempt ends the
//! delivery with success; after one initial attempt and [`MAX_RETRIES`]
//! retries without acknowledgement it ends with failure. Attempts follow each
//! other immediately, there is no back-off.
//!
//! [`Delivery::send_with`] is this loop for a caller that can send a request
//! with a plain function.

use vstd::prelude::*;
use crate::request::{PingRequest, PingRequestView};

verus! {

/// How often a ping is sent again after the first attempt was not
/// acknowledged.
///
/// The number follows a statistical analysis of what improves the
/// reliability of pings the most:
/// <https://blog.healthchecks.io/2020/01/fighting-packet-loss-with-curl/>
pub const MAX_RETRIES: u8 = 20;

/// How many seconds a transport gives one attempt before it counts the
/// attempt as failed.
pub const ATTEMPT_TIMEOUT_SECONDS: u64 = 5;

/// What came back from one attempt to send a ping.
#[derive(Clone, Copy, Debug, PartialEq, Eq, Structural)]
pub enum Outcome {
    /// The server answered with this HTTP status code.
    Status(u16),
    /// No answer: connection refused, DNS failure, timeout and the like.
    TransportError,
}

impl Outcome {
    /// An attempt is acknowledged by a 2xx status and by nothing else.
    pub open spec fn is_success(self) -> bool {
        self matches Outcome::Status(code) && 200 <= code <= 299
    }

    /// Whether the server acknowledged the ping.
    pub fn acknowledged(&self) -> (yes: bool)
        ensures
            yes == self.is_success(),
    {
        match self {
            Outcome::Status(code) => 200 <= *code && *code <= 299,
            Outcome::TransportError => false,
        }
    }
}

/// Where a delivery stands.
#[derive(Clone, Copy, Debug, PartialEq, Eq, Structural)]
pub enum Phase {
    /// The request is to be sent (again).
    Attempting,
    /// An attempt was acknowledged.
    Succeeded,
    /// Every allowed attempt was made and none was acknowledged.
    Exhausted,
}

/// A [`Delivery`] as mathematical values.
pub struct DeliveryView {
    pub request: PingRequestView,
    pub attempts: nat,
    pub phase: Phase,
}

impl DeliveryView {
    /// The delivery of `request` before any attempt.
    pub open spec fn fresh(request: PingRequestView) -> DeliveryView {
        DeliveryView { request, attempts: 0, phase: Phase::Attempting }
    }

    /// The states a delivery can be in.
    pub open spec fn wf(self) -> bool {
        match self.phase {
            Phase::Attempting => self.attempts <= MAX_RETRIES,
            Phase::Succeeded => 1 <= self.attempts <= MAX_RETRIES + 1,
            Phase::Exhausted => self.attempts == MAX_RETRIES + 1,
        }
    }

    /// The state after one more attempt came back with `outcome`.
    ///
    /// A finished delivery stays as it is. The request never changes.
    pub open spec fn record(self, outcome: Outcome) -> DeliveryView {
        if self.phase != Phase::Attempting {
            self
        } else if outcome.is_success() {
            DeliveryView { attempts: self.attempts + 1, phase: Phase::Succeeded, ..self }
        } else if self.attempts >= MAX_RETRIES {
            DeliveryView { attempts: self.attempts + 1, phase: Phase::Exhausted, ..self }
        } else {
            DeliveryView { attempts: self.attempts + 1, ..self }
        }
    }

    /// The state after the attempts came back with `outcomes`, in this order.
    pub open spec fn run(self, outcomes: Seq<Outcome>) -> DeliveryView
        decreases outcomes.len(),
    {
        if outcomes.len() == 0 {
            self
        } else {
            self.run(outcomes.drop_last()).record(outcomes.last())
        }
    }

    /// The result of the delivery once it is finished.
    pub open spec fn result(self) -> Option<bool> {
        match self.phase {
            Phase::Attempting => None,
            Phase::Succeeded => Some(true),
            Phase::Exhausted => Some(false),
        }
    }
}

/// The retry state of one ping.
#[derive(Debug)]
pub struct Delivery {
    request: PingRequest,
    attempts: u8,
    phase: Phase,
}

impl View for Delivery {
    type V = DeliveryView;

    closed spec fn view(&self) -> DeliveryView {
        DeliveryView { request: self.request@, attempts: self.attempts as nat, phase: self.phase }
    }
}

impl Delivery {
    #[verifier::type_invariant]
    spec fn inv(&self) -> bool {
        self@.wf()
    }

    /// The request that every attempt sends.
    pub closed spec fn sent(&self) -> PingRequest {
        self.request
    }

    /// Starts the delivery of `request`: nothing was attempted yet.
    pub fn new(request: PingRequest) -> (delivery: Delivery)
        ensures
            delivery@ == DeliveryView::fresh(request@),
            delivery@.wf(),
            delivery.sent() == request,
    {
        Delivery { request, attempts: 0, phase: Phase::Attempting }
    }

    /// The request that every attempt sends.
    pub fn request(&self) -> (request: &PingRequest)
        ensures
            request@ == self@.request,
            *request == self.sent(),
    {
        &self.request
    }

    /// How many attempts have been recorded.
    pub fn attempts(&self) -> (count: u8)
        ensures
            count == self@.attempts,
            count <= MAX_RETRIES + 1,
    {
        proof {
            use_type_invariant(self);
        }
        self.attempts
    }

    /// Where the delivery stands.
    pub fn phase(&self) -> (phase: Phase)
        ensures
            phase == self@.phase,
            self@.wf(),
    {
        proof {
            use_type_invariant(self);
        }
        self.phase
    }

    /// `None` while the request is still to be sent; afterwards whether the
    /// service acknowledged the ping.
    pub fn result(&self) -> (result: Option<bool>)
        ensures
            result == self@.result(),
    {
        match self.phase {
            Phase::Attempting => None,
            Phase::Succeeded => Some(true),
            Phase::Exhausted => Some(false),
        }
    }

    /// Takes note of what came back from one more attempt.
    ///
    /// The first acknowledged attempt finishes the delivery, the failure of
    /// attempt number `MAX_RETRIES + 1` does too. Recording on a finished
    /// delivery changes nothing.
    pub fn record(self, outcome: Outcome) -> (next: Delivery)
        ensures
            next@ == self@.record(outcome),
            next@.wf(),
            next.sent() == self.sent(),
    {
        proof {
            use_type_invariant(&self);
        }
        match self.phase {
            Phase::Attempting => {
                let attempts: u8 = self.attempts + 1;
                let phase = if outcome.acknowledged() {
                    Phase::Succeeded
                } else if self.attempts >= MAX_RETRIES {
                    Phase::Exhausted
                } else {
                    Phase::Attempting
                };
                Delivery { request: self.request, attempts, phase }
            },
            _ => self,
        }
    }

    /// Takes note of what came back from a series of attempts, in their
    /// order. What follows the outcome that finishes the delivery is
    /// ignored.
    pub fn record_all(self, outcomes: &Vec<Outcome>) -> (next: Delivery)
        ensures
            next@ == self@.run(outcomes@),
            next@.wf(),
    {
        proof {
            use_type_invariant(&self);
        }
        let ghost start = self@;
        let mut current = self;
        let mut i: usize = 0;
        while i < outcomes.len()
            invariant
                i <= outcomes@.len(),
                current@ == start.run(outcomes@.take(i as int)),
                current@.wf(),
            decreases outcomes@.len() - i,
        {
            assert(outcomes@.take(i + 1).drop_last() =~= outcomes@.take(i as int));
            current = current.record(outcomes[i]);
            i = i + 1;
        }
        assert(outcomes@.take(i as int) =~= outcomes@);
        current
    }
}

/// Every one of `outcomes` is something that `send` can answer to `request`.
pub open spec fn answers_of<F: Fn(&PingRequest) -> Outcome>(
    send: F,
    request: PingRequest,
    outcomes: Seq<Outcome>,
) -> bool {
    forall|i: int|
        0 <= i < outcomes.len() ==> call_ensures(send, (&request,), #[trigger] outcomes[i])
}

/// `outcomes` is what `send` answered while `delivery` was carried out to its
/// end `delivered`: answers to the request of the delivery, one for each
/// attempt that the delivery counted, the last of them the one that finished
/// it.
pub open spec fn carried_out<F: Fn(&PingRequest) -> Outcome>(
    delivery: Delivery,
    send: F,
    outcomes: Seq<Outcome>,
    delivered: bool,
) -> bool {
    &&& answers_of(send, delivery.sent(), outcomes)
    &&& delivery@.run(outcomes).result() == Some(delivered)
    &&& delivery@.run(outcomes).attempts == delivery@.attempts + outcomes.len()
}

impl Delivery {
    /// Carries out the delivery: sends its request with `send`, again and
    /// again without delay, until the delivery is finished, and returns its
    /// result.
    ///
    /// The result is that of the state machine on what `send` answered.
    /// `send` is called once for each attempt that the delivery counts and
    /// never after the delivery has finished, so at most `MAX_RETRIES + 1`
    /// times.
    pub fn send_with<F: Fn(&PingRequest) -> Outcome>(self, send: F) -> (delivered: bool)
        requires
            forall|request: &PingRequest| call_requires(send, (request,)),
        ensures
            exists|outcomes: Seq<Outcome>| #[trigger] carried_out(self, send, outcomes, delivered),
    {
        proof {
            use_type_invariant(&self);
        }
        let ghost start = self;
        let ghost mut outcomes: Seq<Outcome> = Seq::empty();
        let mut current = self;
        loop
            invariant
                forall|request: &PingRequest| call_requires(send, (request,)),
                start == self,
                start@.wf(),
                current@.wf(),
                current.sent() == start.sent(),
                answers_of(send, start.sent(), outcomes),
                current@ == start@.run(outcomes),
                current@.attempts == start@.attempts + outcomes.len(),
            decreases MAX_RETRIES + 1 - current@.attempts,
        {
            match current.result() {
                Some(delivered) => {
                    assert(carried_out(start, send, outcomes, delivered));
                    return delivered;
                },
                None => {
                    let outcome = send(current.request());
                    proof {
                        let ghost longer = outcomes.push(outcome);
                        assert(longer.drop_last() =~= outcomes);
                        outcomes = longer;
                    }
                    current = current.record(outcome);
                },
            }
        }
    }
}

/// Whatever comes back, a delivery stays within its states, sends the same
/// request with every attempt, and counts each outcome that it records while
/// it is still attempting.
pub proof fn lemma_run_invariants(start: DeliveryView, outcomes: Seq<Outcome>)
    requires
        start.wf(),
    ensures
        start.run(outcomes).wf(),
        start.run(outcomes).request == start.request,
        start.attempts <= start.run(outcomes).attempts <= start.attempts + outcomes.len(),
        start.run(outcomes).attempts <= MAX_RETRIES + 1,
        start.run(outcomes).phase == Phase::Attempting ==> start.phase == Phase::Attempting
            && start.run(outcomes).attempts == start.attempts + outcomes.len(),
    decreases outcomes.len(),
{
    if outcomes.len() > 0 {
        lemma_run_invariants(start, outcomes.drop_last());
    }
}

/// A finished delivery ignores whatever is recorded afterwards.
pub proof fn lemma_finished_is_final(done: DeliveryView, outcomes: Seq<Outcome>)
    requires
        done.phase != Phase::Attempting,
    ensures
        done.run(outcomes) == done,
    decreases outcomes.len(),
{
    if outcomes.len() > 0 {
        lemma_finished_is_final(done, outcomes.drop_last());
    }
}

/// Recording `first` and then `rest` is recording their concatenation.
pub proof fn lemma_run_concat(start: DeliveryView, first: Seq<Outcome>, rest: Seq<Outcome>)
    ensures
        start.run(first + rest) == start.run(first).run(rest),
    decreases rest.len(),
{
    if rest.len() == 0 {
        assert(first + rest =~= first);
    } else {
        assert((first + rest).drop_last() =~= first + rest.drop_last());
        lemma_run_concat(start, first, rest.drop_last());
    }
}

/// Retrying ends: once more than `MAX_RETRIES` outcomes have come back, the
/// delivery is finished, whatever the outcomes were, and it made at most
/// `MAX_RETRIES + 1` attempts.
pub proof fn lemma_delivery_finishes(request: PingRequestView, outcomes: Seq<Outcome>)
    requires
        outcomes.len() > MAX_RETRIES,
    ensures
        DeliveryView::fresh(request).run(outcomes).result() is Some,
        DeliveryView::fresh(request).run(outcomes).attempts <= MAX_RETRIES + 1,
{
    lemma_run_invariants(DeliveryView::fresh(request), outcomes);
}

/// A ping that is never acknowledged is reported as failed after exactly
/// `MAX_RETRIES + 1` attempts; with fewer outcomes the delivery is still
/// attempting and has made one attempt for each.
pub proof fn lemma_unacknowledged_delivery_fails(request: PingRequestView, outcomes: Seq<Outcome>)
    requires
        forall|i: int| 0 <= i < outcomes.len() ==> !(#[trigger] outcomes[i]).is_success(),
    ensures
        outcomes.len() <= MAX_RETRIES ==> DeliveryView::fresh(request).run(outcomes)
            == (DeliveryView { attempts: outcomes.len(), ..DeliveryView::fresh(request) }),
        outcomes.len() > MAX_RETRIES ==> DeliveryView::fresh(request).run(outcomes)
            == (DeliveryView {
            attempts: (MAX_RETRIES + 1) as nat,
            phase: Phase::Exhausted,
            ..DeliveryView::fresh(request)
        }),
        outcomes.len() > MAX_RETRIES ==> DeliveryView::fresh(request).run(outcomes).result()
            == Some(false),
    decreases outcomes.len(),
{
    if outcomes.len() > 0 {
        lemma_unacknowledged_delivery_fails(request, outcomes.drop_last());
    }
}

/// The first acknowledged attempt ends the delivery with success: when the
/// first `k` attempts fail and the next one is acknowledged, the delivery
/// succeeds after exactly `k + 1` attempts, whatever would have come back
/// later.
pub proof fn lemma_first_acknowledgement_succeeds(
    request: PingRequestView,
    outcomes: Seq<Outcome>,
    k: int,
)
    requires
        0 <= k < outcomes.len(),
        k <= MAX_RETRIES,
        forall|i: int| 0 <= i < k ==> !(#[trigger] outcomes[i]).is_success(),
        outcomes[k].is_success(),
    ensures
        DeliveryView::fresh(request).run(outcomes) == (DeliveryView {
            attempts: (k + 1) as nat,
            phase: Phase::Succeeded,
            ..DeliveryView::fresh(request)
        }),
        DeliveryView::fresh(request).run(outcomes).result() == Some(true),
{
    let fresh = DeliveryView::fresh(request);
    let failed = outcomes.subrange(0, k);
    let upto = outcomes.subrange(0, k + 1);
    let rest = outcomes.subrange(k + 1, outcomes.len() as int);
    lemma_unacknowledged_delivery_fails(request, failed);
    assert(upto.drop_last() =~= failed);
    assert(upto.last() == outcomes[k]);
    assert(outcomes =~= upto + rest);
    lemma_run_concat(fresh, upto, rest);
    lemma_finished_is_final(fresh.run(upto), rest);
}

/// The result of a delivery is that of the last attempt that was made: every
/// attempt before it failed, and the ping counts as delivered if and only if
/// that last attempt was acknowledged.
pub proof fn lemma_result_is_that_of_the_last_attempt(
    request: PingRequestView,
    outcomes: Seq<Outcome>,
)
    requires
        DeliveryView::fresh(request).run(outcomes).result() is Some,
    ensures
        1 <= DeliveryView::fresh(request).run(outcomes).attempts <= outcomes.len(),
        forall|i: int|
            0 <= i < DeliveryView::fresh(request).run(outcomes).attempts - 1 ==> !(
            #[trigger] outcomes[i]).is_success(),
        DeliveryView::fresh(request).run(outcomes).result() == Some(
            outcomes[DeliveryView::fresh(request).run(outcomes).attempts - 1].is_success(),
        ),
    decreases outcomes.len(),
{
    let fresh = DeliveryView::fresh(request);
    if outcomes.len() > 0 {
        let before = outcomes.drop_last();
        lemma_run_invariants(fresh, before);
        if fresh.run(before).result() is Some {
            lemma_result_is_that_of_the_last_attempt(request, before);
            assert forall|i: int| 0 <= i < fresh.run(outcomes).attempts - 1 implies !(
            #[trigger] outcomes[i]).is_success() by {
                assert(outcomes[i] == before[i]);
            }
        } else {
            assert forall|i: int| 0 <= i < before.len() implies !(
            #[trigger] outcomes[i]).is_success() by {
                lemma_no_success_while_attempting(request, before, i);
                assert(outcomes[i] == before[i]);
            }
        }
    }
}

/// While a delivery is still attempting, nothing that it recorded was an
/// acknowledgement.
pub proof fn lemma_no_success_while_attempting(
    request: PingRequestView,
    outcomes: Seq<Outcome>,
    i: int,
)
    requires
        DeliveryView::fresh(request).run(outcomes).phase == Phase::Attempting,
        0 <= i < outcomes.len(),
    ensures
        !outcomes[i].is_success(),
    decreases outcomes.len(),
{
    let fresh = DeliveryView::fresh(request);
    let before = outcomes.drop_last();
    lemma_run_invariants(fresh, before);
    if i < before.len() {
        lemma_no_success_while_attempting(request, before, i);
    }
}

} // verus!
