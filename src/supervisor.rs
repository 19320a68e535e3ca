use crate::buffer::{pushed, Message};
use crate::session::{MqttClient, MAX_CONSECUTIVE_ERRORS};
use crate::types::ConnectionStatus;
use vstd::prelude::*;

verus! {

/// What one poll of the protocol engine produced, as far as the supervisor
/// cares.
pub enum PollOutcome {
    /// The broker acknowledged the connection.
    Acknowledged,
    /// A publish arrived for us, with its raw payload.
    Published { topic: String, payload: Vec<u8> },
    /// Any other protocol event.
    Other,
    /// The poll failed.
    Failed(rumqttc::ConnectionError),
}

/// Relies on the shape of rumqttc's poll result: `Ok(Event::Incoming(..))`
/// carrying a `ConnAck` or a `Publish`, any other `Ok`, or the error.
#[verifier::external_body]
fn classify_poll(r: Result<rumqttc::Event, rumqttc::ConnectionError>) -> (o: PollOutcome)
    ensures
        (r is Err) == (o is Failed),
{
    match r {
        Ok(rumqttc::Event::Incoming(rumqttc::Packet::ConnAck(_))) => PollOutcome::Acknowledged,
        Ok(rumqttc::Event::Incoming(rumqttc::Packet::Publish(p))) => PollOutcome::Published {
            topic: p.topic,
            payload: p.payload.to_vec(),
        },
        Ok(_) => PollOutcome::Other,
        Err(e) => PollOutcome::Failed(e),
    }
}

/// What `String::from_utf8_lossy` makes of some bytes.
pub uninterp spec fn lossy_text(b: Seq<u8>) -> Seq<char>;

/// Relies on String::from_utf8_lossy: the bytes read as UTF-8, each invalid
/// sequence replaced by U+FFFD; an empty input gives an empty text.
#[verifier::external_body]
fn decode_lossy(b: &Vec<u8>) -> (r: String)
    ensures
        r@ == lossy_text(b@),
        b@.len() == 0 ==> r@.len() == 0,
{
    String::from_utf8_lossy(b.as_slice()).to_string()
}

/// A poll result with its payload decoded and its arrival time stamped.
pub enum PollEvent {
    Acknowledged,
    Received(Message),
    Other,
    Failed,
}

/// Prepares a poll result for `Supervisor::step`: a publish becomes a
/// message whose payload is the lossy UTF-8 reading of its bytes, stamped
/// with `now_ms`.
pub fn poll_event(o: PollOutcome, now_ms: u64) -> (r: PollEvent)
    ensures
        (o is Acknowledged) == (r is Acknowledged),
        (o is Other) == (r is Other),
        (o is Failed) == (r is Failed),
        o matches PollOutcome::Published { topic, payload } ==> r == PollEvent::Received(
            Message { topic, payload: r->Received_0.payload, timestamp: now_ms },
        ) && r->Received_0.payload@ == lossy_text(payload@),
{
    match o {
        PollOutcome::Acknowledged => PollEvent::Acknowledged,
        PollOutcome::Published { topic, payload } => {
            let text = decode_lossy(&payload);
            PollEvent::Received(Message { topic, payload: text, timestamp: now_ms })
        },
        PollOutcome::Other => PollEvent::Other,
        PollOutcome::Failed(_) => PollEvent::Failed,
    }
}

/// Reads one result of the protocol engine's poll, stamped with `now_ms`.
pub fn read_poll(r: Result<rumqttc::Event, rumqttc::ConnectionError>, now_ms: u64) -> (e: PollEvent)
    ensures
        (r is Err) == (e is Failed),
        e matches PollEvent::Received(m) ==> m.timestamp == now_ms,
{
    poll_event(classify_poll(r), now_ms)
}

/// What the supervisor does after an event.
#[derive(Debug, Clone, Copy, PartialEq, Eq, Structural)]
pub enum Step {
    /// Poll again at once.
    Continue,
    /// Wait `RETRY_DELAY_MS`, then poll again.
    Retry,
    /// End the supervisor task.
    Stop,
}

/// What is announced to the user interface after an event.
pub enum Notice {
    Status(ConnectionStatus),
    Arrived(Message),
}

/// The count of failed polls in a row after one more poll.
pub open spec fn next_errors(count: nat, failed: bool) -> nat {
    if failed {
        count + 1
    } else {
        0
    }
}

/// The count of failed polls in a row after the given poll results, from a
/// fresh start (`true` marks a failure).
pub open spec fn errors_after(polls: Seq<bool>) -> nat
    decreases polls.len(),
{
    if polls.len() == 0 {
        0
    } else {
        next_errors(errors_after(polls.drop_last()), polls.last())
    }
}

/// Whether the last `n` poll results are all failures.
pub open spec fn ends_in_failures(polls: Seq<bool>, n: nat) -> bool {
    n <= polls.len() && forall|i: int| polls.len() - n <= i < polls.len() ==> #[trigger] polls[i]
}

/// The failure policy of one session's event loop.
pub struct Supervisor {
    consecutive_errors: u32,
}

impl Supervisor {
    pub closed spec fn errors(&self) -> nat {
        self.consecutive_errors as nat
    }

    /// A running supervisor has not reached the ceiling.
    pub closed spec fn wf(&self) -> bool {
        self.consecutive_errors < MAX_CONSECUTIVE_ERRORS
    }

    pub fn new() -> (r: Supervisor)
        ensures
            r.wf(),
            r.errors() == 0,
    {
        Supervisor { consecutive_errors: 0 }
    }

    /// Applies one poll result to the session. An acknowledgement sets
    /// `Connected`; a message is stored; both, and any other event, clear the
    /// failure count. A failure sets `Error` and counts; at
    /// `MAX_CONSECUTIVE_ERRORS` in a row the supervisor stops, otherwise it
    /// retries after a pause.
    pub fn step(&mut self, session: &mut MqttClient, ev: PollEvent) -> (r: (Step, Option<Notice>))
        requires
            old(self).wf(),
            old(session).wf(),
        ensures
            final(session).wf(),
            final(self).errors() == next_errors(old(self).errors(), ev is Failed),
            r.0 == Step::Stop ==> ev is Failed && final(self).errors() == MAX_CONSECUTIVE_ERRORS,
            r.0 != Step::Stop ==> final(self).wf(),
            (ev is Failed) ==> (r.0 == Step::Stop) == (final(self).errors() >= MAX_CONSECUTIVE_ERRORS),
            (ev is Failed) ==> r.0 != Step::Continue,
            !(ev is Failed) ==> r.0 == Step::Continue,
            final(session).is_live() == old(session).is_live(),
            final(session).info() == old(session).info(),
            final(session).subscriptions() == old(session).subscriptions(),
            final(session).status() == match ev {
                PollEvent::Acknowledged => ConnectionStatus::Connected,
                PollEvent::Failed => ConnectionStatus::Error,
                _ => old(session).status(),
            },
            final(session).messages() == match ev {
                PollEvent::Received(m) => pushed(old(session).messages(), m),
                _ => old(session).messages(),
            },
            match ev {
                PollEvent::Acknowledged => r.1 matches Some(Notice::Status(s)) && s
                    == ConnectionStatus::Connected,
                PollEvent::Received(m) => r.1 matches Some(Notice::Arrived(n)) && n == m,
                PollEvent::Other => r.1 is None,
                PollEvent::Failed => r.1 matches Some(Notice::Status(s)) && s
                    == ConnectionStatus::Error,
            },
    {
        match ev {
            PollEvent::Acknowledged => {
                session.set_status(ConnectionStatus::Connected);
                self.consecutive_errors = 0;
                (Step::Continue, Some(Notice::Status(ConnectionStatus::Connected)))
            },
            PollEvent::Received(m) => {
                self.consecutive_errors = 0;
                let copy = m.duplicate();
                session.receive(m);
                (Step::Continue, Some(Notice::Arrived(copy)))
            },
            PollEvent::Other => {
                self.consecutive_errors = 0;
                (Step::Continue, None)
            },
            PollEvent::Failed => {
                self.consecutive_errors = self.consecutive_errors + 1;
                session.set_status(ConnectionStatus::Error);
                let notice = Some(Notice::Status(ConnectionStatus::Error));
                if self.consecutive_errors >= MAX_CONSECUTIVE_ERRORS {
                    (Step::Stop, notice)
                } else {
                    (Step::Retry, notice)
                }
            },
        }
    }
}

/// The supervisor's failure count after a run of poll results is the length
/// of the run of failures that ends it: it reaches `MAX_CONSECUTIVE_ERRORS`,
/// and so stops the supervisor, exactly when the last
/// `MAX_CONSECUTIVE_ERRORS` results are all failures, and any success clears
/// it.
pub proof fn lemma_failure_ceiling(polls: Seq<bool>)
    ensures
        errors_after(polls) >= MAX_CONSECUTIVE_ERRORS <==> ends_in_failures(
            polls,
            MAX_CONSECUTIVE_ERRORS as nat,
        ),
        polls.len() > 0 && !polls.last() ==> errors_after(polls) == 0,
    decreases polls.len(),
{
    lemma_errors_count_failure_run(polls, MAX_CONSECUTIVE_ERRORS as nat);
}

/// `errors_after(polls) >= n` exactly when the last `n` results are failures.
pub proof fn lemma_errors_count_failure_run(polls: Seq<bool>, n: nat)
    ensures
        errors_after(polls) >= n <==> ends_in_failures(polls, n),
    decreases polls.len(), n,
{
    if n == 0 {
    } else if polls.len() == 0 {
    } else {
        let prev = polls.drop_last();
        lemma_errors_count_failure_run(prev, (n - 1) as nat);
        if polls.last() {
            if ends_in_failures(prev, (n - 1) as nat) {
                assert forall|i: int| polls.len() - n <= i < polls.len() implies #[trigger] polls[i] by {
                    if i < polls.len() - 1 {
                        assert(prev[i]);
                    }
                }
            }
            if ends_in_failures(polls, n) {
                assert forall|i: int| prev.len() - (n - 1) <= i < prev.len() implies #[trigger] prev[i] by {
                    assert(polls[i]);
                }
            }
        } else {
            assert(!polls[polls.len() - 1]);
        }
    }
}

} // verus!
