use rand::Rng;
use vstd::arithmetic::power2::{
    lemma2_to64,
    lemma2_to64_rest,
    lemma_pow2_strictly_increases,
    lemma_pow2_unfold,
    pow2,
};
use vstd::prelude::*;
use crate::config::{MAX_RETRY_LIMIT, STATUS_BAD_GATEWAY, STATUS_GATEWAY_TIMEOUT};

verus! {

/// Relies on `rand::Rng::gen_range` over the thread-local generator: the value
/// drawn lies in `0..bound` (it panics only on an empty range).
#[verifier::external_body]
fn random_below(bound: u64) -> (r: u64)
    requires
        bound > 0,
    ensures
        r < bound,
{
    rand::thread_rng().gen_range(0..bound)
}

/// What became of one network attempt.
pub enum Outcome {
    /// The upstream answered in time; its whole body has been read.
    Responded { status: u16, body: Vec<u8> },
    /// A connection-level failure: refused, reset, name resolution, ...
    TransportError,
    /// No answer before the per-attempt deadline.
    TimedOut,
}

pub ghost enum OutcomeView {
    Responded { status: u16, body: Seq<u8> },
    TransportError,
    TimedOut,
}

impl View for Outcome {
    type V = OutcomeView;

    open spec fn view(&self) -> OutcomeView {
        match self {
            Outcome::Responded { status, body } => OutcomeView::Responded {
                status: *status,
                body: body@,
            },
            Outcome::TransportError => OutcomeView::TransportError,
            Outcome::TimedOut => OutcomeView::TimedOut,
        }
    }
}

/// What the forwarding loop does next.
pub enum Next {
    /// Issue attempt `index` at once.
    Attempt { index: u32 },
    /// Sleep `delay_ms` milliseconds, then issue attempt `index`.
    Backoff { index: u32, delay_ms: u64 },
    /// Reply with the upstream's status and body.
    Relay { status: u16, body: Vec<u8> },
    /// Reply with a synthesized error status and message.
    Fail { status: u16, message: String },
}

pub ghost enum NextView {
    Attempt { index: nat },
    Backoff { index: nat, delay_ms: nat },
    Relay { status: u16, body: Seq<u8> },
    Fail { status: u16, message: Seq<char> },
}

impl View for Next {
    type V = NextView;

    open spec fn view(&self) -> NextView {
        match self {
            Next::Attempt { index } => NextView::Attempt { index: *index as nat },
            Next::Backoff { index, delay_ms } => NextView::Backoff {
                index: *index as nat,
                delay_ms: *delay_ms as nat,
            },
            Next::Relay { status, body } => NextView::Relay { status: *status, body: body@ },
            Next::Fail { status, message } => NextView::Fail { status: *status, message: message@ },
        }
    }
}

impl NextView {
    pub open spec fn is_final(self) -> bool {
        self is Relay || self is Fail
    }
}

/// The message sent with a 502 reply.
pub open spec fn bad_gateway_message() -> Seq<char> {
    seq!['B', 'a', 'd', ' ', 'G', 'a', 't', 'e', 'w', 'a', 'y']
}

/// The message sent with a 504 reply.
pub open spec fn gateway_timeout_message() -> Seq<char> {
    seq!['G', 'a', 't', 'e', 'w', 'a', 'y', ' ', 'T', 'i', 'm', 'e', 'o', 'u', 't']
}

/// The fixed part of the delay before the attempt that follows a transport
/// failure of attempt `a`: `2^a` seconds, in milliseconds.
pub open spec fn backoff_base(a: nat) -> nat {
    pow2(a) * 1000
}

/// Computes `2^attempt * 1000 + jitter` milliseconds.
pub fn backoff_delay_ms(attempt: u32, jitter: u64) -> (r: u64)
    requires
        attempt < MAX_RETRY_LIMIT,
        jitter < 1000,
    ensures
        r == backoff_base(attempt as nat) + jitter,
{
    proof {
        lemma2_to64();
        lemma2_to64_rest();
    }
    let mut p: u64 = 1;
    let mut i: u32 = 0;
    while i < attempt
        invariant
            i <= attempt < MAX_RETRY_LIMIT,
            p == pow2(i as nat),
            pow2(54) == 0x40000000000000,
        decreases attempt - i,
    {
        proof {
            lemma_pow2_unfold((i + 1) as nat);
            if i + 1 < 54 {
                lemma_pow2_strictly_increases((i + 1) as nat, 54);
            }
        }
        p = p * 2;
        i = i + 1;
    }
    proof {
        if attempt < 54 {
            lemma_pow2_strictly_increases(attempt as nat, 54);
        }
        assert(p * 1000 <= 0x40000000000000 * 1000) by (nonlinear_arith)
            requires
                p <= 0x40000000000000,
        ;
    }
    p * 1000 + jitter
}

/// Draws the jittered delay before the attempt that follows a transport
/// failure of attempt `attempt`.
pub fn draw_backoff_ms(attempt: u32) -> (r: u64)
    requires
        attempt < MAX_RETRY_LIMIT,
    ensures
        backoff_base(attempt as nat) <= r < backoff_base(attempt as nat) + 1000,
{
    let jitter = random_below(1000);
    backoff_delay_ms(attempt, jitter)
}

/// The retry state of one incoming request: the attempt bound, the index of
/// the attempt in flight, and whether a reply has been decided.
#[derive(Clone, Copy, Debug, PartialEq, Eq, Structural)]
pub struct RetryMachine {
    pub max_retries: u32,
    pub attempt: u32,
    pub done: bool,
}

impl RetryMachine {
    pub open spec fn wf(self) -> bool {
        &&& 1 <= self.max_retries <= MAX_RETRY_LIMIT
        &&& self.attempt < self.max_retries
    }

    pub open spec fn initial(max_retries: u32) -> RetryMachine {
        RetryMachine { max_retries, attempt: 0, done: false }
    }

    /// One transition: the state after the outcome of the attempt in flight,
    /// and what to do next. `jitter` is the random part of a backoff delay.
    pub open spec fn step(self, outcome: OutcomeView, jitter: nat) -> (RetryMachine, NextView) {
        let last = self.attempt + 1 >= self.max_retries;
        let advanced = RetryMachine { attempt: (self.attempt + 1) as u32, ..self };
        let finished = RetryMachine { done: true, ..self };
        match outcome {
            OutcomeView::Responded { status, body } => (
                finished,
                NextView::Relay { status, body },
            ),
            OutcomeView::TransportError => if last {
                (finished, NextView::Fail { status: 502, message: bad_gateway_message() })
            } else {
                (
                    advanced,
                    NextView::Backoff {
                        index: self.attempt as nat + 1,
                        delay_ms: backoff_base(self.attempt as nat) + jitter,
                    },
                )
            },
            OutcomeView::TimedOut => if last {
                (finished, NextView::Fail { status: 504, message: gateway_timeout_message() })
            } else {
                (advanced, NextView::Attempt { index: self.attempt as nat + 1 })
            },
        }
    }

    /// The decisions taken on a sequence of attempt outcomes, one per attempt,
    /// until a reply is decided.
    pub open spec fn run(self, outcomes: Seq<OutcomeView>, jitters: Seq<nat>) -> Seq<NextView>
        decreases outcomes.len(),
    {
        if outcomes.len() == 0 || self.done {
            Seq::empty()
        } else {
            let (m, n) = self.step(outcomes[0], jitters[0]);
            seq![n] + m.run(outcomes.drop_first(), jitters.drop_first())
        }
    }

    /// A machine for a new request, whose attempt 0 is to be issued.
    pub fn new(max_retries: u32) -> (r: RetryMachine)
        requires
            1 <= max_retries <= MAX_RETRY_LIMIT,
        ensures
            r == RetryMachine::initial(max_retries),
            r.wf(),
    {
        RetryMachine { max_retries, attempt: 0, done: false }
    }

    /// Takes the outcome of the attempt in flight and decides what follows,
    /// with `jitter` as the random part of a backoff delay.
    pub fn on_outcome_with_jitter(&mut self, outcome: Outcome, jitter: u64) -> (r: Next)
        requires
            old(self).wf(),
            !old(self).done,
            jitter < 1000,
        ensures
            final(self).wf(),
            (*final(self), r@) == old(self).step(outcome@, jitter as nat),
    {
        proof {
            reveal_strlit("Bad Gateway");
            reveal_strlit("Gateway Timeout");
        }
        let last = self.attempt + 1 >= self.max_retries;
        match outcome {
            Outcome::Responded { status, body } => {
                self.done = true;
                Next::Relay { status, body }
            },
            Outcome::TransportError => {
                if last {
                    self.done = true;
                    let message = String::from_str("Bad Gateway");
                    assert(message@ =~= bad_gateway_message());
                    Next::Fail { status: STATUS_BAD_GATEWAY, message }
                } else {
                    let delay_ms = backoff_delay_ms(self.attempt, jitter);
                    self.attempt = self.attempt + 1;
                    Next::Backoff { index: self.attempt, delay_ms }
                }
            },
            Outcome::TimedOut => {
                if last {
                    self.done = true;
                    let message = String::from_str("Gateway Timeout");
                    assert(message@ =~= gateway_timeout_message());
                    Next::Fail { status: STATUS_GATEWAY_TIMEOUT, message }
                } else {
                    self.attempt = self.attempt + 1;
                    Next::Attempt { index: self.attempt }
                }
            },
        }
    }

    /// Takes the outcome of the attempt in flight and decides what follows; a
    /// backoff delay gets a random part drawn in `0..1000`.
    pub fn on_outcome(&mut self, outcome: Outcome) -> (r: Next)
        requires
            old(self).wf(),
            !old(self).done,
        ensures
            final(self).wf(),
            exists|j: nat| j < 1000 && (*final(self), r@) == old(self).step(outcome@, j),
    {
        let jitter = match outcome {
            Outcome::TransportError => random_below(1000),
            _ => 0,
        };
        let r = self.on_outcome_with_jitter(outcome, jitter);
        assert((jitter as nat) < 1000);
        r
    }
}

/// The number of decisions that issue a further attempt.
pub open spec fn retries(actions: Seq<NextView>) -> nat
    decreases actions.len(),
{
    if actions.len() == 0 {
        0
    } else {
        (if actions[0].is_final() {
            0nat
        } else {
            1nat
        }) + retries(actions.drop_first())
    }
}

/// The network attempts made for a request whose decisions are `actions`: the
/// first one, then one per retry.
pub open spec fn attempts_made(actions: Seq<NextView>) -> nat {
    1 + retries(actions)
}

proof fn lemma_retries_prepend(n: NextView, rest: Seq<NextView>)
    ensures
        retries(seq![n] + rest) == (if n.is_final() {
            0nat
        } else {
            1nat
        }) + retries(rest),
{
    let all = seq![n] + rest;
    assert(all[0] == n);
    assert(all.drop_first() =~= rest);
}

proof fn lemma_retries_bounded_from(m: RetryMachine, outcomes: Seq<OutcomeView>, jitters: Seq<nat>)
    requires
        m.wf(),
    ensures
        m.done ==> m.run(outcomes, jitters).len() == 0,
        !m.done ==> retries(m.run(outcomes, jitters)) + m.attempt + 1 <= m.max_retries,
    decreases outcomes.len(),
{
    if outcomes.len() > 0 && !m.done {
        let (m2, n) = m.step(outcomes[0], jitters[0]);
        lemma_retries_prepend(n, m2.run(outcomes.drop_first(), jitters.drop_first()));
        if m2.done {
            assert(m2.run(outcomes.drop_first(), jitters.drop_first()).len() == 0);
        } else {
            lemma_retries_bounded_from(m2, outcomes.drop_first(), jitters.drop_first());
        }
    }
}

/// Whatever the upstream does, a request gets at most `max_retries` network
/// attempts.
pub proof fn lemma_at_most_max_attempts(
    max_retries: u32,
    outcomes: Seq<OutcomeView>,
    jitters: Seq<nat>,
)
    requires
        1 <= max_retries <= MAX_RETRY_LIMIT,
    ensures
        attempts_made(RetryMachine::initial(max_retries).run(outcomes, jitters)) <= max_retries,
{
    lemma_retries_bounded_from(RetryMachine::initial(max_retries), outcomes, jitters);
}

proof fn lemma_all_transport_errors_from(
    m: RetryMachine,
    outcomes: Seq<OutcomeView>,
    jitters: Seq<nat>,
)
    requires
        m.wf(),
        !m.done,
        outcomes.len() + m.attempt >= m.max_retries,
        forall|i: int| 0 <= i < outcomes.len() ==> #[trigger] outcomes[i] is TransportError,
    ensures
        ({
            let r = m.run(outcomes, jitters);
            &&& r.len() + m.attempt == m.max_retries
            &&& r.last() == NextView::Fail { status: 502, message: bad_gateway_message() }
            &&& retries(r) + m.attempt + 1 == m.max_retries
        }),
    decreases outcomes.len(),
{
    let (m2, n) = m.step(outcomes[0], jitters[0]);
    let rest = m2.run(outcomes.drop_first(), jitters.drop_first());
    lemma_retries_prepend(n, rest);
    if !m2.done {
        assert forall|i: int| 0 <= i < outcomes.drop_first().len() implies #[trigger] outcomes.drop_first()[i] is TransportError by {
            assert(outcomes.drop_first()[i] == outcomes[i + 1]);
        }
        lemma_all_transport_errors_from(m2, outcomes.drop_first(), jitters.drop_first());
    }
    assert((seq![n] + rest).last() == if rest.len() == 0 { n } else { rest.last() });
}

proof fn lemma_all_timeouts_from(m: RetryMachine, outcomes: Seq<OutcomeView>, jitters: Seq<nat>)
    requires
        m.wf(),
        !m.done,
        outcomes.len() + m.attempt >= m.max_retries,
        forall|i: int| 0 <= i < outcomes.len() ==> #[trigger] outcomes[i] is TimedOut,
    ensures
        ({
            let r = m.run(outcomes, jitters);
            &&& r.len() + m.attempt == m.max_retries
            &&& r.last() == NextView::Fail { status: 504, message: gateway_timeout_message() }
            &&& retries(r) + m.attempt + 1 == m.max_retries
            &&& forall|i: int| 0 <= i < r.len() ==> !(#[trigger] r[i] is Backoff)
        }),
    decreases outcomes.len(),
{
    let (m2, n) = m.step(outcomes[0], jitters[0]);
    let rest = m2.run(outcomes.drop_first(), jitters.drop_first());
    lemma_retries_prepend(n, rest);
    if !m2.done {
        assert forall|i: int| 0 <= i < outcomes.drop_first().len() implies #[trigger] outcomes.drop_first()[i] is TimedOut by {
            assert(outcomes.drop_first()[i] == outcomes[i + 1]);
        }
        lemma_all_timeouts_from(m2, outcomes.drop_first(), jitters.drop_first());
    }
    let all = seq![n] + rest;
    assert(all.last() == if rest.len() == 0 { n } else { rest.last() });
    assert forall|i: int| 0 <= i < all.len() implies !(#[trigger] all[i] is Backoff) by {
        if i > 0 {
            assert(all[i] == rest[i - 1]);
        }
    }
}

/// When every attempt fails at the transport level, the request ends in a 502
/// after exactly `max_retries` attempts.
pub proof fn lemma_transport_failures_end_in_bad_gateway(
    max_retries: u32,
    outcomes: Seq<OutcomeView>,
    jitters: Seq<nat>,
)
    requires
        1 <= max_retries <= MAX_RETRY_LIMIT,
        outcomes.len() >= max_retries,
        forall|i: int| 0 <= i < outcomes.len() ==> #[trigger] outcomes[i] is TransportError,
    ensures
        ({
            let r = RetryMachine::initial(max_retries).run(outcomes, jitters);
            &&& r.last() is Fail
            &&& r.last()->Fail_status == 502
            &&& attempts_made(r) == max_retries
        }),
{
    lemma_all_transport_errors_from(RetryMachine::initial(max_retries), outcomes, jitters);
}

/// When every attempt times out, the request ends in a 504 after exactly
/// `max_retries` attempts, with no backoff sleep between them.
pub proof fn lemma_timeouts_end_in_gateway_timeout(
    max_retries: u32,
    outcomes: Seq<OutcomeView>,
    jitters: Seq<nat>,
)
    requires
        1 <= max_retries <= MAX_RETRY_LIMIT,
        outcomes.len() >= max_retries,
        forall|i: int| 0 <= i < outcomes.len() ==> #[trigger] outcomes[i] is TimedOut,
    ensures
        ({
            let r = RetryMachine::initial(max_retries).run(outcomes, jitters);
            &&& r.last() is Fail
            &&& r.last()->Fail_status == 504
            &&& attempts_made(r) == max_retries
            &&& forall|i: int| 0 <= i < r.len() ==> !(#[trigger] r[i] is Backoff)
        }),
{
    lemma_all_timeouts_from(RetryMachine::initial(max_retries), outcomes, jitters);
}

} // verus!
