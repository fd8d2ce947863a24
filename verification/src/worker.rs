//! The per-server worker: one unit of concurrency owning one chat-platform
//! session. Its lifecycle is a small state machine; the caller runs the
//! outside work (connecting, the session's run-loop, sleeping out a backoff)
//! and feeds each outcome back in as an event.
//!
//! The restart policy: any session failure or failed connection attempt is
//! retried without limit while the process runs, each retry behind a capped,
//! doubling backoff delay. Only two things end a worker: a syntactically
//! invalid credential, which can never succeed and is fatal to this worker
//! alone, and a requested shutdown.

use vstd::prelude::*;
use crate::Error;
use crate::config::ServerConfig;

verus! {

/// Where a worker stands in its lifecycle.
#[derive(PartialEq, Eq, Structural, Clone, Copy, Debug)]
pub enum WorkerPhase {
    /// Trying to establish a session.
    Connecting,
    /// A session is established; the presence poller and command responder
    /// run against it.
    Active,
    /// The session's run-loop returned an error; about to reconnect.
    Disconnected,
    /// Shut down or failed fatally; never restarted.
    Terminated,
}

/// What happened in the outside world, fed into the state machine.
#[derive(PartialEq, Eq, Structural, Clone, Copy, Debug)]
pub enum WorkerEvent {
    /// A connection attempt produced a session.
    ConnectOk,
    /// A connection attempt failed because the credential is syntactically
    /// invalid; no retry can succeed.
    ConnectInvalidCredential,
    /// A connection attempt failed for any other, transient, reason.
    ConnectFailed,
    /// The session's run-loop returned an error.
    SessionEnded,
    /// The backoff delay before a reconnect has elapsed.
    BackoffElapsed,
    /// Process-wide shutdown was requested.
    CancelRequested,
}

/// What the caller must do next.
#[derive(PartialEq, Eq, Structural, Clone, Copy, Debug)]
pub enum WorkerAction {
    /// Attempt to establish a session.
    AttemptConnect,
    /// Run the session: start the presence poller and command responder.
    RunSession,
    /// Log the failure, wait the given number of milliseconds, then report
    /// `BackoffElapsed`.
    RetryAfterMs(u64),
    /// Report the fatal credential error; the worker is done.
    ReportFatal,
    /// Release the session and exit; the worker is done.
    Release,
    /// Nothing: the event does not apply to the current phase.
    Idle,
}

/// The capped, doubling backoff delay in milliseconds before retry number
/// `r + 1`: half a second after the first failure, doubling with each
/// consecutive failure, never above thirty seconds.
pub open spec fn spec_backoff_ms(r: nat) -> nat {
    if r == 0 {
        500
    } else if r == 1 {
        1000
    } else if r == 2 {
        2000
    } else if r == 3 {
        4000
    } else if r == 4 {
        8000
    } else if r == 5 {
        16000
    } else {
        30000
    }
}

/// The backoff never exceeds its thirty-second cap and is never zero.
pub proof fn lemma_backoff_bounded(r: nat)
    ensures
        0 < spec_backoff_ms(r) <= 30000,
{
}

/// Retry counts saturate where the backoff reaches its cap.
pub open spec fn spec_bump_retries(r: nat) -> nat {
    if r >= 6 {
        6
    } else {
        r + 1
    }
}

/// The whole transition table: from a phase, a retry count and an event to
/// the next phase, the next retry count and the caller's action.
///
/// - `Connecting`: success activates the worker and clears the retry count;
///   an invalid credential terminates it fatally; any other failure backs
///   off and reconnects.
/// - `Active`: the session ending moves to `Disconnected` behind a backoff.
/// - `Disconnected`: once the backoff has elapsed, reconnect.
/// - Shutdown terminates from every phase; a terminated worker ignores
///   every further event; an event that does not apply to the phase changes
///   nothing.
pub open spec fn spec_step(phase: WorkerPhase, retries: nat, ev: WorkerEvent) -> (
    WorkerPhase,
    nat,
    WorkerAction,
) {
    match (phase, ev) {
        (_, WorkerEvent::CancelRequested) => if phase is Terminated {
            (WorkerPhase::Terminated, retries, WorkerAction::Idle)
        } else {
            (WorkerPhase::Terminated, retries, WorkerAction::Release)
        },
        (WorkerPhase::Connecting, WorkerEvent::ConnectOk) => (
            WorkerPhase::Active,
            0,
            WorkerAction::RunSession,
        ),
        (WorkerPhase::Connecting, WorkerEvent::ConnectInvalidCredential) => (
            WorkerPhase::Terminated,
            retries,
            WorkerAction::ReportFatal,
        ),
        (WorkerPhase::Connecting, WorkerEvent::ConnectFailed) => (
            WorkerPhase::Connecting,
            spec_bump_retries(retries),
            WorkerAction::RetryAfterMs(spec_backoff_ms(retries) as u64),
        ),
        (WorkerPhase::Connecting, WorkerEvent::BackoffElapsed) => (
            WorkerPhase::Connecting,
            retries,
            WorkerAction::AttemptConnect,
        ),
        (WorkerPhase::Active, WorkerEvent::SessionEnded) => (
            WorkerPhase::Disconnected,
            spec_bump_retries(retries),
            WorkerAction::RetryAfterMs(spec_backoff_ms(retries) as u64),
        ),
        (WorkerPhase::Disconnected, WorkerEvent::BackoffElapsed) => (
            WorkerPhase::Connecting,
            retries,
            WorkerAction::AttemptConnect,
        ),
        _ => (phase, retries, WorkerAction::Idle),
    }
}

/// One worker's state: its configuration, copied in at spawn time and never
/// changed, and where it stands in its lifecycle.
pub struct Worker {
    pub name: String,
    pub config: ServerConfig,
    pub poll_interval_ms: u64,
    pub phase: WorkerPhase,
    pub retries: u64,
}

impl Worker {
    pub open spec fn wf(self) -> bool {
        &&& self.poll_interval_ms > 0
        &&& self.retries <= 6
    }

    /// Creates a worker for one server, about to make its first connection
    /// attempt.
    pub fn spawn(name: String, config: ServerConfig, poll_interval_ms: u64) -> (w: Worker)
        requires
            poll_interval_ms > 0,
        ensures
            w.name@ == name@,
            w.config == config,
            w.poll_interval_ms == poll_interval_ms,
            w.phase == WorkerPhase::Connecting,
            w.retries == 0,
            w.wf(),
    {
        Worker { name, config, poll_interval_ms, phase: WorkerPhase::Connecting, retries: 0 }
    }

    /// Feeds one event into the state machine; the configuration is
    /// untouched, and the caller gets the action to perform next.
    pub fn step(&mut self, ev: WorkerEvent) -> (a: WorkerAction)
        requires
            old(self).wf(),
        ensures
            (final(self).phase, final(self).retries as nat, a) == spec_step(
                old(self).phase,
                old(self).retries as nat,
                ev,
            ),
            final(self).name == old(self).name,
            final(self).config == old(self).config,
            final(self).poll_interval_ms == old(self).poll_interval_ms,
            final(self).wf(),
    {
        match (self.phase, ev) {
            (_, WorkerEvent::CancelRequested) => {
                if self.phase == WorkerPhase::Terminated {
                    WorkerAction::Idle
                } else {
                    self.phase = WorkerPhase::Terminated;
                    WorkerAction::Release
                }
            },
            (WorkerPhase::Connecting, WorkerEvent::ConnectOk) => {
                self.phase = WorkerPhase::Active;
                self.retries = 0;
                WorkerAction::RunSession
            },
            (WorkerPhase::Connecting, WorkerEvent::ConnectInvalidCredential) => {
                self.phase = WorkerPhase::Terminated;
                WorkerAction::ReportFatal
            },
            (WorkerPhase::Connecting, WorkerEvent::ConnectFailed) => {
                let delay = self.backoff_ms();
                self.retries = if self.retries >= 6 {
                    6
                } else {
                    self.retries + 1
                };
                WorkerAction::RetryAfterMs(delay)
            },
            (WorkerPhase::Connecting, WorkerEvent::BackoffElapsed) => {
                WorkerAction::AttemptConnect
            },
            (WorkerPhase::Active, WorkerEvent::SessionEnded) => {
                let delay = self.backoff_ms();
                self.phase = WorkerPhase::Disconnected;
                self.retries = if self.retries >= 6 {
                    6
                } else {
                    self.retries + 1
                };
                WorkerAction::RetryAfterMs(delay)
            },
            (WorkerPhase::Disconnected, WorkerEvent::BackoffElapsed) => {
                self.phase = WorkerPhase::Connecting;
                WorkerAction::AttemptConnect
            },
            _ => WorkerAction::Idle,
        }
    }

    fn backoff_ms(&self) -> (d: u64)
        ensures
            d as nat == spec_backoff_ms(self.retries as nat),
    {
        if self.retries == 0 {
            500
        } else if self.retries == 1 {
            1000
        } else if self.retries == 2 {
            2000
        } else if self.retries == 3 {
            4000
        } else if self.retries == 4 {
            8000
        } else if self.retries == 5 {
            16000
        } else {
            30000
        }
    }
}

/// A worker that loses its session comes back: after the session ends, the
/// backoff elapses and a reconnect succeeds, it stands `Active` again, from
/// any retry count. No event but shutdown can leave it `Terminated` on the
/// way.
pub proof fn lemma_worker_restarts(retries: nat)
    ensures
        ({
            let (p1, r1, _) = spec_step(WorkerPhase::Active, retries, WorkerEvent::SessionEnded);
            let (p2, r2, _) = spec_step(p1, r1, WorkerEvent::BackoffElapsed);
            let (p3, _, _) = spec_step(p2, r2, WorkerEvent::ConnectOk);
            p1 == WorkerPhase::Disconnected && p2 == WorkerPhase::Connecting && p3
                == WorkerPhase::Active
        }),
{
}

/// Shutdown is final: after `CancelRequested` a worker is `Terminated`, and
/// every further event leaves it `Terminated` with nothing to do.
pub proof fn lemma_cancel_terminates(phase: WorkerPhase, retries: nat, ev: WorkerEvent)
    ensures
        spec_step(phase, retries, WorkerEvent::CancelRequested).0 == WorkerPhase::Terminated,
        spec_step(WorkerPhase::Terminated, retries, ev).0 == WorkerPhase::Terminated,
        ev != WorkerEvent::CancelRequested ==> spec_step(WorkerPhase::Terminated, retries, ev).2
            == WorkerAction::Idle,
{
}

/// After removing every leading `"Bot "` prefix — the form in which the
/// platform expects a bot's token to be sent.
pub open spec fn spec_strip_bot(s: Seq<char>) -> Seq<char>
    decreases s.len(),
{
    if s.len() >= 4 && s.subrange(0, 4) == "Bot "@ {
        spec_strip_bot(s.subrange(4, s.len() as int))
    } else {
        s
    }
}

/// Three non-empty parts separated by two `'.'` characters: non-empty, with
/// exactly two dots, none at either end and no two adjacent.
pub open spec fn spec_dot_count(s: Seq<char>) -> nat
    decreases s.len(),
{
    if s.len() == 0 {
        0
    } else {
        (if s[0] == '.' {
            1nat
        } else {
            0nat
        }) + spec_dot_count(s.skip(1))
    }
}

pub open spec fn spec_three_parts(t: Seq<char>) -> bool {
    &&& t.len() > 0
    &&& spec_dot_count(t) == 2
    &&& t[0] != '.'
    &&& t[t.len() - 1] != '.'
    &&& forall|k: int| 0 <= k < t.len() - 1 ==> !(#[trigger] t[k] == '.' && t[k + 1] == '.')
}

/// A credential of valid shape: after every leading `"Bot "` prefix is
/// removed, what is left splits on `'.'` into exactly three non-empty parts.
pub open spec fn spec_credential_valid(s: Seq<char>) -> bool {
    spec_three_parts(spec_strip_bot(s))
}

/// Relies on `serenity::utils::token::validate`: it strips every leading
/// `"Bot "` prefix, splits what is left on `'.'`, and accepts exactly the
/// tokens with three non-empty parts.
#[verifier::external_body]
fn credential_shape_ok(token: &str) -> (r: bool)
    ensures
        r == spec_credential_valid(token@),
{
    serenity::utils::token::validate(token).is_ok()
}

/// Checks a server's credential before the first connection attempt. A
/// syntactically invalid credential is a configuration error, fatal to this
/// worker: the error identifies the worker by its name — the credential
/// itself is a secret and is not carried — and the caller feeds
/// `ConnectInvalidCredential` into the state machine.
pub fn validate_credential(name: &str, credential: &str) -> (r: Result<(), Error>)
    ensures
        r is Ok <==> spec_credential_valid(credential@),
        match r {
            Ok(_) => true,
            Err(e) => e matches Error::InvalidCredential(n) && n@ == name@,
        },
{
    if credential_shape_ok(credential) {
        Ok(())
    } else {
        Err(Error::InvalidCredential(name.to_owned()))
    }
}

} // verus!
