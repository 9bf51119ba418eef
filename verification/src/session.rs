//! The life of one connection and its reconnect policy, as a state machine.
//!
//! The machine itself does no I/O. Its owner performs the action that a step
//! returns (dial, start the loops, join them, release the socket) and reports
//! what happened as the next event.

use vstd::prelude::*;

verus! {

/// Where a session stands.
#[derive(Clone, Copy, Debug, PartialEq, Eq, Structural)]
pub enum SessionState {
    /// The socket is being established.
    Connecting,
    /// The socket is up and both loops run.
    Established,
    /// A fault or a shutdown request was seen; the loops are being joined.
    Draining,
    /// Terminal: the socket is released.
    Closed,
}

/// What the owner of a session reports to it.
#[derive(Clone, Copy, Debug, PartialEq, Eq, Structural)]
pub enum Event {
    /// The socket was established.
    Connected,
    /// An attempt to establish the socket failed.
    ConnectFailed,
    /// A read or write on the socket failed.
    IoFault,
    /// The user asked for the session to end.
    ShutdownRequested,
    /// Both loops have ended.
    LoopsJoined,
}

/// What the owner of a session is to do next.
#[derive(Clone, Copy, Debug, PartialEq, Eq, Structural)]
pub enum Action {
    /// Nothing.
    Idle,
    /// Start the reader and writer loops, with sequence numbers from zero.
    StartLoops,
    /// Make the loops end and wait for them.
    JoinLoops,
    /// Wait this many milliseconds, then try to establish the socket.
    Dial { delay_ms: u64 },
    /// Release the socket; the session is over.
    Release,
}

/// How a session retries.
#[derive(Clone, Copy, Debug, PartialEq, Eq, Structural)]
pub struct RetryPolicy {
    /// The delay before the first retry, in milliseconds.
    pub base_delay_ms: u64,
    /// The ceiling of the delay, in milliseconds.
    pub max_delay_ms: u64,
    /// After how many failed attempts in a row the session gives up; `None`
    /// for never.
    pub max_attempts: Option<u32>,
}

/// A session: its state, what it was asked, and what it has counted.
#[derive(Clone, Copy, Debug, PartialEq, Eq, Structural)]
pub struct Session {
    pub state: SessionState,
    pub policy: RetryPolicy,
    /// Whether a shutdown was requested.
    pub shutdown_requested: bool,
    /// Whether the socket has been established at least once.
    pub was_established: bool,
    /// Failed attempts since the socket was last established.
    pub failed_attempts: u32,
    /// How many times the socket was established again after a fault.
    pub reconnect_count: u64,
    /// Whether the session ended because it could not reconnect.
    pub gave_up: bool,
}

/// `base` doubled `times` times.
pub open spec fn doubled(base: nat, times: nat) -> nat
    decreases times,
{
    if times == 0 {
        base
    } else {
        2 * doubled(base, (times - 1) as nat)
    }
}

/// The delay before the retry that follows `failed_attempts` failures: the
/// base delay doubled once per failure, but no more than the ceiling.
pub open spec fn backoff_delay(policy: RetryPolicy, failed_attempts: u32) -> u64 {
    let d = doubled(policy.base_delay_ms as nat, failed_attempts as nat);
    if d <= policy.max_delay_ms {
        d as u64
    } else {
        policy.max_delay_ms
    }
}

/// A counter after one more event: it counts up to its type's ceiling.
pub open spec fn one_more(count: u64) -> u64 {
    if count < u64::MAX {
        (count + 1) as u64
    } else {
        count
    }
}

/// Whether a session that has failed `failures` times in a row gives up.
pub open spec fn exhausted(policy: RetryPolicy, failures: u32) -> bool {
    match policy.max_attempts {
        Some(limit) => failures >= limit,
        None => false,
    }
}

/// The session after an event, and what its owner is to do.
pub open spec fn stepped(s: Session, event: Event) -> (Session, Action) {
    match (s.state, event) {
        (SessionState::Connecting, Event::Connected) => (
            Session {
                state: SessionState::Established,
                was_established: true,
                failed_attempts: 0,
                reconnect_count: if s.was_established {
                    one_more(s.reconnect_count)
                } else {
                    s.reconnect_count
                },
                ..s
            },
            Action::StartLoops,
        ),
        (SessionState::Connecting, Event::ConnectFailed) => {
            let failures = if s.failed_attempts < u32::MAX {
                (s.failed_attempts + 1) as u32
            } else {
                s.failed_attempts
            };
            if exhausted(s.policy, failures) {
                (
                    Session {
                        state: SessionState::Closed,
                        failed_attempts: failures,
                        gave_up: true,
                        ..s
                    },
                    Action::Release,
                )
            } else {
                (
                    Session { failed_attempts: failures, ..s },
                    Action::Dial { delay_ms: backoff_delay(s.policy, s.failed_attempts) },
                )
            }
        },
        (SessionState::Connecting, Event::ShutdownRequested) => (
            Session { state: SessionState::Closed, shutdown_requested: true, ..s },
            Action::Release,
        ),
        (SessionState::Established, Event::IoFault) => (
            Session { state: SessionState::Draining, ..s },
            Action::JoinLoops,
        ),
        (SessionState::Established, Event::ShutdownRequested) => (
            Session { state: SessionState::Draining, shutdown_requested: true, ..s },
            Action::JoinLoops,
        ),
        (SessionState::Draining, Event::ShutdownRequested) => (
            Session { shutdown_requested: true, ..s },
            Action::Idle,
        ),
        (SessionState::Draining, Event::LoopsJoined) => if s.shutdown_requested {
            (Session { state: SessionState::Closed, ..s }, Action::Release)
        } else {
            (
                Session { state: SessionState::Connecting, ..s },
                Action::Dial { delay_ms: backoff_delay(s.policy, 0) },
            )
        },
        _ => (s, Action::Idle),
    }
}

proof fn lemma_doubled_grows(base: nat, a: nat, b: nat)
    requires
        a <= b,
    ensures
        doubled(base, a) <= doubled(base, b),
    decreases b,
{
    if a < b {
        lemma_doubled_grows(base, a, (b - 1) as nat);
    }
}

impl RetryPolicy {
    /// The usual policy: retry for ever, from `base_delay_ms` up to
    /// `max_delay_ms` between attempts.
    pub fn unbounded(base_delay_ms: u64, max_delay_ms: u64) -> (p: RetryPolicy)
        ensures
            p == (RetryPolicy { base_delay_ms, max_delay_ms, max_attempts: None }),
    {
        RetryPolicy { base_delay_ms, max_delay_ms, max_attempts: None }
    }

    /// The delay, in milliseconds, before the retry that follows
    /// `failed_attempts` failures in a row.
    pub fn delay_ms(&self, failed_attempts: u32) -> (d: u64)
        ensures
            d == backoff_delay(*self, failed_attempts),
    {
        let base: u64 = self.base_delay_ms;
        let max: u64 = self.max_delay_ms;
        if base >= max {
            proof {
                lemma_doubled_grows(base as nat, 0, failed_attempts as nat);
            }
            return max;
        }
        if base == 0 {
            proof {
                lemma_doubled_zero(failed_attempts as nat);
            }
            return 0;
        }
        let mut d: u64 = base;
        let mut i: u32 = 0;
        while i < failed_attempts && d < max
            invariant
                i <= failed_attempts,
                0 < d <= max,
                d == max || d == doubled(base as nat, i as nat),
                d == max ==> doubled(base as nat, i as nat) >= max,
            decreases max - d,
        {
            if d >= max - d {
                d = max;
            } else {
                d = d + d;
            }
            i += 1;
        }
        proof {
            lemma_doubled_grows(base as nat, i as nat, failed_attempts as nat);
        }
        d
    }
}

proof fn lemma_doubled_zero(times: nat)
    ensures
        doubled(0, times) == 0,
    decreases times,
{
    if times > 0 {
        lemma_doubled_zero((times - 1) as nat);
    }
}

impl Session {
    /// A session that is about to establish its socket for the first time.
    pub fn new(policy: RetryPolicy) -> (s: Session)
        ensures
            s == (Session {
                state: SessionState::Connecting,
                policy,
                shutdown_requested: false,
                was_established: false,
                failed_attempts: 0,
                reconnect_count: 0,
                gave_up: false,
            }),
    {
        Session {
            state: SessionState::Connecting,
            policy,
            shutdown_requested: false,
            was_established: false,
            failed_attempts: 0,
            reconnect_count: 0,
            gave_up: false,
        }
    }

    /// Whether the loops may run: only while the session is established.
    pub fn is_established(&self) -> (e: bool)
        ensures
            e == (self.state == SessionState::Established),
    {
        match self.state {
            SessionState::Established => true,
            _ => false,
        }
    }

    /// Whether the session is over.
    pub fn is_closed(&self) -> (c: bool)
        ensures
            c == (self.state == SessionState::Closed),
    {
        match self.state {
            SessionState::Closed => true,
            _ => false,
        }
    }

    /// Takes an event, moves to the next state and says what to do.
    pub fn step(&mut self, event: Event) -> (action: Action)
        ensures
            (*final(self), action) == stepped(*old(self), event),
    {
        match (self.state, event) {
            (SessionState::Connecting, Event::Connected) => {
                self.state = SessionState::Established;
                if self.was_established && self.reconnect_count < u64::MAX {
                    self.reconnect_count = self.reconnect_count + 1;
                }
                self.was_established = true;
                self.failed_attempts = 0;
                Action::StartLoops
            },
            (SessionState::Connecting, Event::ConnectFailed) => {
                let delay_ms: u64 = self.policy.delay_ms(self.failed_attempts);
                if self.failed_attempts < u32::MAX {
                    self.failed_attempts = self.failed_attempts + 1;
                }
                let give_up = match self.policy.max_attempts {
                    Some(limit) => self.failed_attempts >= limit,
                    None => false,
                };
                if give_up {
                    self.state = SessionState::Closed;
                    self.gave_up = true;
                    Action::Release
                } else {
                    Action::Dial { delay_ms }
                }
            },
            (SessionState::Connecting, Event::ShutdownRequested) => {
                self.state = SessionState::Closed;
                self.shutdown_requested = true;
                Action::Release
            },
            (SessionState::Established, Event::IoFault) => {
                self.state = SessionState::Draining;
                Action::JoinLoops
            },
            (SessionState::Established, Event::ShutdownRequested) => {
                self.state = SessionState::Draining;
                self.shutdown_requested = true;
                Action::JoinLoops
            },
            (SessionState::Draining, Event::ShutdownRequested) => {
                self.shutdown_requested = true;
                Action::Idle
            },
            (SessionState::Draining, Event::LoopsJoined) => {
                if self.shutdown_requested {
                    self.state = SessionState::Closed;
                    Action::Release
                } else {
                    self.state = SessionState::Connecting;
                    let delay_ms: u64 = self.policy.delay_ms(0);
                    Action::Dial { delay_ms }
                }
            },
            _ => Action::Idle,
        }
    }
}

/// One failed read or write takes an established session to `Draining`.
/// Unless a shutdown was requested, joining the loops then takes it to
/// `Connecting` after the base backoff delay, and the next successful dial
/// takes it back to `Established`, counted as one reconnect, with the loops
/// started anew.
pub proof fn lemma_fault_then_reconnect(s: Session)
    requires
        s.state == SessionState::Established,
        s.was_established,
        !s.shutdown_requested,
    ensures
        ({
            let (draining, first) = stepped(s, Event::IoFault);
            let (connecting, second) = stepped(draining, Event::LoopsJoined);
            let (established, third) = stepped(connecting, Event::Connected);
            &&& draining.state == SessionState::Draining
            &&& first == Action::JoinLoops
            &&& connecting.state == SessionState::Connecting
            &&& second == (Action::Dial { delay_ms: backoff_delay(s.policy, 0) })
            &&& established.state == SessionState::Established
            &&& third == Action::StartLoops
            &&& established.reconnect_count == one_more(s.reconnect_count)
        }),
{
}

/// A closed session stays closed, whatever is reported to it.
pub proof fn lemma_closed_is_terminal(s: Session, event: Event)
    requires
        s.state == SessionState::Closed,
    ensures
        stepped(s, event) == (s, Action::Idle),
{
}

/// The delay between attempts never exceeds the policy's ceiling.
pub proof fn lemma_backoff_capped(policy: RetryPolicy, failed_attempts: u32)
    ensures
        backoff_delay(policy, failed_attempts) <= policy.max_delay_ms,
{
}

/// A shutdown request ends every session: a connecting session closes at
/// once, an established or draining one closes when its loops have been
/// joined, and no reconnect is attempted.
pub proof fn lemma_shutdown_closes(s: Session)
    requires
        s.state != SessionState::Closed,
    ensures
        ({
            let (asked, first) = stepped(s, Event::ShutdownRequested);
            let (joined, second) = stepped(asked, Event::LoopsJoined);
            &&& asked.shutdown_requested
            &&& s.state == SessionState::Connecting ==> asked.state == SessionState::Closed
                && first == Action::Release
            &&& s.state != SessionState::Connecting ==> asked.state == SessionState::Draining
                && joined.state == SessionState::Closed && second == Action::Release
            &&& joined.reconnect_count == s.reconnect_count
        }),
{
}

} // verus!
