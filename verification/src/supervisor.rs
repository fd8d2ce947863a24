//! The supervisor: owns the set of workers, starts exactly one per enabled
//! server, routes events to them, and tears them all down on shutdown. It
//! never sees a worker's error value, only where each worker stands; a
//! worker failing fatally leaves its siblings running, and the whole run is
//! over only when every worker is terminated.

use vstd::prelude::*;
use crate::config::GlobalConfig;
use crate::config::ServerConfig;
use crate::config::ServerConfigView;
use crate::worker::Worker;
use crate::worker::WorkerAction;
use crate::worker::WorkerEvent;
use crate::worker::WorkerPhase;
use crate::worker::spec_step;

verus! {

/// The enabled servers of a configuration, in configuration order: the
/// servers the supervisor starts workers for.
pub open spec fn spec_enabled_servers(servers: Seq<(Seq<char>, ServerConfigView)>) -> Seq<
    (Seq<char>, ServerConfigView),
> {
    servers.filter(|p: (Seq<char>, ServerConfigView)| p.1.enabled)
}

/// The supervisor's state: every worker it has spawned, in spawn order, and
/// whether shutdown has been requested.
pub struct Supervisor {
    pub workers: Vec<Worker>,
    pub shutdown_requested: bool,
}

impl Supervisor {
    pub open spec fn wf(self) -> bool {
        forall|i: int| 0 <= i < self.workers@.len() ==> (#[trigger] self.workers@[i]).wf()
    }

    /// The identity of each spawned worker: its name and configuration.
    pub open spec fn spec_spawned(self) -> Seq<(Seq<char>, ServerConfigView)> {
        self.workers@.map_values(|w: Worker| (w.name@, w.config@))
    }

    /// Every worker has acknowledged termination.
    pub open spec fn spec_all_terminated(self) -> bool {
        forall|i: int|
            0 <= i < self.workers@.len() ==> (#[trigger] self.workers@[i]).phase
                == WorkerPhase::Terminated
    }

    /// Starts one worker per enabled server — and none for a disabled one:
    /// the spawned workers are exactly the enabled servers, in
    /// configuration order, each `Connecting` with the configuration's poll
    /// interval copied in.
    pub fn start(config: &GlobalConfig) -> (s: Supervisor)
        requires
            config.wf(),
        ensures
            s.wf(),
            !s.shutdown_requested,
            s.spec_spawned() == spec_enabled_servers(config@.servers),
            forall|i: int|
                0 <= i < s.workers@.len() ==> (#[trigger] s.workers@[i]).phase
                    == WorkerPhase::Connecting && s.workers@[i].retries == 0
                    && s.workers@[i].poll_interval_ms == config.poll_interval_ms,
    {
        let mut workers: Vec<Worker> = Vec::new();
        let mut i: usize = 0;
        proof {
            assert(config@.servers.take(0) =~= Seq::<(Seq<char>, ServerConfigView)>::empty());
            reveal(Seq::filter);
            assert(workers@.map_values(|w: Worker| (w.name@, w.config@)) =~= spec_enabled_servers(
                config@.servers.take(0),
            ));
        }
        while i < config.servers.len()
            invariant
                i <= config.servers@.len(),
                config.wf(),
                config@.servers.len() == config.servers@.len(),
                workers@.map_values(|w: Worker| (w.name@, w.config@)) == spec_enabled_servers(
                    config@.servers.take(i as int),
                ),
                forall|k: int|
                    0 <= k < workers@.len() ==> (#[trigger] workers@[k]).phase
                        == WorkerPhase::Connecting && workers@[k].retries == 0 && workers@[k].wf()
                        && workers@[k].poll_interval_ms == config.poll_interval_ms,
            decreases config.servers@.len() - i,
        {
            let ns = &config.servers[i];
            proof {
                assert(config@.servers[i as int] == ns@);
                assert(config@.servers.take(i + 1 as int).drop_last() =~= config@.servers.take(
                    i as int,
                ));
                assert(config@.servers.take(i + 1 as int).last() == config@.servers[i as int]);
                reveal(Seq::filter);
            }
            if ns.config.enabled {
                let cfg = ServerConfig {
                    enabled: ns.config.enabled,
                    address: ns.config.address.clone(),
                    credential: ns.config.credential.clone(),
                };
                let w = Worker::spawn(ns.name.clone(), cfg, config.poll_interval_ms);
                let ghost old_workers = workers@;
                workers.push(w);
                proof {
                    assert(workers@.map_values(|w: Worker| (w.name@, w.config@)) =~= old_workers
                        .map_values(|w: Worker| (w.name@, w.config@)).push((ns.name@, ns.config@)));
                }
            }
            i = i + 1;
        }
        proof {
            assert(config@.servers.take(config.servers@.len() as int) =~= config@.servers);
        }
        Supervisor { workers, shutdown_requested: false }
    }

    /// Notes that shutdown was requested; the workers are untouched until
    /// each is cancelled.
    pub fn request_shutdown(&mut self)
        ensures
            final(self).shutdown_requested,
            final(self).workers == old(self).workers,
    {
        self.shutdown_requested = true;
    }

    /// Routes one event to worker `i`. Every other worker is untouched:
    /// one worker's failure or restart never pauses its siblings.
    pub fn worker_event(&mut self, i: usize, ev: WorkerEvent) -> (a: WorkerAction)
        requires
            old(self).wf(),
            i < old(self).workers@.len(),
        ensures
            final(self).wf(),
            final(self).shutdown_requested == old(self).shutdown_requested,
            final(self).workers@.len() == old(self).workers@.len(),
            forall|j: int|
                0 <= j < old(self).workers@.len() && j != i ==> final(self).workers@[j] == old(
                    self,
                ).workers@[j],
            ({
                let w0 = old(self).workers@[i as int];
                let w1 = final(self).workers@[i as int];
                (w1.phase, w1.retries as nat, a) == spec_step(w0.phase, w0.retries as nat, ev)
                    && w1.name == w0.name && w1.config == w0.config && w1.poll_interval_ms
                    == w0.poll_interval_ms
            }),
    {
        let mut w = self.workers.remove(i);
        let a = w.step(ev);
        self.workers.insert(i, w);
        proof {
            assert(final(self).workers@ =~= old(self).workers@.update(i as int, w));
        }
        a
    }

    /// Cancels every worker: after this, every worker has acknowledged
    /// termination, and nothing else about any worker has changed. The
    /// caller returns only once this is done.
    pub fn cancel_all(&mut self)
        requires
            old(self).wf(),
        ensures
            final(self).wf(),
            final(self).spec_all_terminated(),
            final(self).workers@.len() == old(self).workers@.len(),
            forall|j: int|
                0 <= j < old(self).workers@.len() ==> {
                    let w0 = old(self).workers@[j];
                    let w1 = #[trigger] final(self).workers@[j];
                    w1.name == w0.name && w1.config == w0.config && w1.poll_interval_ms
                        == w0.poll_interval_ms
                },
    {
        let n = self.workers.len();
        let mut i: usize = 0;
        while i < n
            invariant
                old(self).wf(),
                i <= n,
                n == old(self).workers@.len(),
                self.workers@.len() == n,
                self.wf(),
                forall|j: int|
                    i <= j < n ==> #[trigger] self.workers@[j] == old(self).workers@[j],
                forall|j: int|
                    0 <= j < i ==> (#[trigger] self.workers@[j]).phase == WorkerPhase::Terminated,
                forall|j: int|
                    0 <= j < i ==> {
                        let w0 = old(self).workers@[j];
                        let w1 = #[trigger] self.workers@[j];
                        w1.name == w0.name && w1.config == w0.config && w1.poll_interval_ms
                            == w0.poll_interval_ms
                    },
            decreases n - i,
        {
            let mut w = self.workers.remove(i);
            let _ = w.step(WorkerEvent::CancelRequested);
            self.workers.insert(i, w);
            i = i + 1;
        }
    }

    /// Whether the whole run is over: every spawned worker has reached
    /// termination.
    pub fn finished(&self) -> (b: bool)
        ensures
            b == self.spec_all_terminated(),
    {
        let mut i: usize = 0;
        while i < self.workers.len()
            invariant
                i <= self.workers@.len(),
                forall|j: int|
                    0 <= j < i ==> (#[trigger] self.workers@[j]).phase == WorkerPhase::Terminated,
            decreases self.workers@.len() - i,
        {
            if !matches!(self.workers[i].phase, WorkerPhase::Terminated) {
                return false;
            }
            i = i + 1;
        }
        true
    }
}

/// The supervisor returns only after every spawned worker has terminated:
/// cancelling all workers leaves each of them terminated, and a finished
/// supervisor has no worker in any other phase.
pub proof fn lemma_finished_all_terminated(s: Supervisor, i: int)
    requires
        s.spec_all_terminated(),
        0 <= i < s.workers@.len(),
    ensures
        s.workers@[i].phase == WorkerPhase::Terminated,
{
}

} // verus!
