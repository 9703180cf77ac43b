//! Graceful-shutdown supervision, as a verified state machine.
//!
//! A supervisor watches a named set of subsystems. It starts in `Running`,
//! moves to `ShuttingDown` when an OS signal arrives or a subsystem requests
//! shutdown, and reaches `Stopped` once every subsystem has terminated or the
//! shutdown timeout elapses. The asynchronous plumbing that feeds it events
//! lives outside this library; every transition rule is proved here.

use vstd::prelude::*;

verus! {

/// What a single subsystem is currently doing.
#[derive(Clone, Copy, Debug, PartialEq, Eq, Structural)]
pub enum Status {
    /// The subsystem has not terminated yet.
    Running,
    /// The subsystem terminated and reported success.
    Succeeded,
    /// The subsystem terminated and reported an error, or crashed.
    Failed,
}

/// How a finished run ended.
#[derive(Clone, Copy, Debug, PartialEq, Eq, Structural)]
pub enum Outcome {
    /// Every subsystem terminated successfully before the timeout.
    Completed,
    /// A subsystem failed, or the timeout elapsed first.
    Failed,
}

/// Phase of the supervised run.
#[derive(Clone, Copy, Debug, PartialEq, Eq, Structural)]
pub enum Phase {
    /// All subsystems are active; no shutdown was triggered yet.
    Running,
    /// Shutdown was triggered; waiting for subsystems, bounded by a timeout.
    ShuttingDown,
    /// Terminal phase.
    Stopped(Outcome),
}

/// A named subsystem together with its current status.
#[derive(Clone, Debug)]
pub struct Subsystem {
    pub name: String,
    pub status: Status,
}

impl View for Subsystem {
    type V = (Seq<char>, Status);

    open spec fn view(&self) -> (Seq<char>, Status) {
        (self.name@, self.status)
    }
}

/// Mathematical model of a supervisor.
pub ghost struct SupervisorView {
    pub phase: Phase,
    pub subs: Seq<(Seq<char>, Status)>,
}

/// Whether every subsystem has terminated.
pub open spec fn all_terminated(subs: Seq<(Seq<char>, Status)>) -> bool {
    forall|i: int| 0 <= i < subs.len() ==> subs[i].1 != Status::Running
}

/// Whether some subsystem has failed.
pub open spec fn any_failed(subs: Seq<(Seq<char>, Status)>) -> bool {
    exists|i: int| 0 <= i < subs.len() && subs[i].1 == Status::Failed
}

/// Outcome owed once the run stops with the given statuses.
pub open spec fn outcome_of(subs: Seq<(Seq<char>, Status)>) -> Outcome {
    if any_failed(subs) || !all_terminated(subs) {
        Outcome::Failed
    } else {
        Outcome::Completed
    }
}

/// Names of the subsystems that currently have the given status.
pub open spec fn names_with(subs: Seq<(Seq<char>, Status)>, st: Status) -> Seq<Seq<char>>
    decreases subs.len(),
{
    if subs.len() == 0 {
        Seq::empty()
    } else if subs.last().1 == st {
        names_with(subs.drop_last(), st) + seq![subs.last().0]
    } else {
        names_with(subs.drop_last(), st)
    }
}

/// Shutdown trigger: from `Running` the run moves to `ShuttingDown` (or
/// directly to `Stopped` when nothing is left to wait for); in any later
/// phase the trigger has no effect.
pub open spec fn spec_request_shutdown(m: SupervisorView) -> SupervisorView {
    if m.phase == Phase::Running {
        if all_terminated(m.subs) {
            SupervisorView { phase: Phase::Stopped(outcome_of(m.subs)), subs: m.subs }
        } else {
            SupervisorView { phase: Phase::ShuttingDown, subs: m.subs }
        }
    } else {
        m
    }
}

/// Termination of subsystem `i` with success (`ok`) or failure. A failure
/// triggers shutdown; once shutdown is underway and every subsystem has
/// terminated, the run stops with the outcome the statuses owe.
pub open spec fn spec_finished(m: SupervisorView, i: int, ok: bool) -> SupervisorView {
    let st = if ok {
        Status::Succeeded
    } else {
        Status::Failed
    };
    let subs = m.subs.update(i, (m.subs[i].0, st));
    let phase = if !ok && m.phase == Phase::Running {
        Phase::ShuttingDown
    } else {
        m.phase
    };
    if phase == Phase::ShuttingDown && all_terminated(subs) {
        SupervisorView { phase: Phase::Stopped(outcome_of(subs)), subs }
    } else {
        SupervisorView { phase, subs }
    }
}

/// Expiry of the shutdown timeout: the run stops at once; subsystems still
/// running are abandoned and the run counts as failed.
pub open spec fn spec_timeout(m: SupervisorView) -> SupervisorView {
    SupervisorView { phase: Phase::Stopped(Outcome::Failed), subs: m.subs }
}

/// Every state a supervisor can reach satisfies this.
pub open spec fn wf(m: SupervisorView) -> bool {
    &&& (m.phase == Phase::ShuttingDown ==> !all_terminated(m.subs))
    &&& (m.phase == Phase::Stopped(Outcome::Completed) ==> all_terminated(m.subs)
        && !any_failed(m.subs))
}

/// Supervisor of one graceful run: holds each subsystem's status and the
/// phase of the run.
#[derive(Clone, Debug)]
pub struct Supervisor {
    pub phase: Phase,
    pub subs: Vec<Subsystem>,
}

/// Error a failed run reports: which subsystems failed, and which were
/// still running when the timeout expired.
#[derive(Clone, Debug)]
pub struct SupervisorError {
    pub failed: Vec<String>,
    pub timed_out: Vec<String>,
}

impl View for Supervisor {
    type V = SupervisorView;

    open spec fn view(&self) -> SupervisorView {
        SupervisorView {
            phase: self.phase,
            subs: self.subs@.map_values(|s: Subsystem| s@),
        }
    }
}

impl Supervisor {
    /// Starts a run: every named subsystem is active, no shutdown yet.
    pub fn new(names: Vec<String>) -> (s: Supervisor)
        ensures
            s@.phase == Phase::Running,
            s@.subs == names@.map_values(|n: String| (n@, Status::Running)),
            wf(s@),
    {
        let mut subs: Vec<Subsystem> = Vec::new();
        let n = names.len();
        let mut i: usize = 0;
        while i < n
            invariant
                n == names.len(),
                i <= n,
                subs@.map_values(|s: Subsystem| s@) == names@.map_values(
                    |nm: String| (nm@, Status::Running),
                ).take(i as int),
            decreases n - i,
        {
            let ghost prev = subs@.map_values(|s: Subsystem| s@);
            subs.push(Subsystem { name: names[i].clone(), status: Status::Running });
            proof {
                assert(subs@.map_values(|s: Subsystem| s@) =~= prev.push(
                    (names@[i as int]@, Status::Running),
                ));
                assert(names@.map_values(|nm: String| (nm@, Status::Running)).take(i + 1 as int)
                    =~= names@.map_values(|nm: String| (nm@, Status::Running)).take(i as int).push(
                    (names@[i as int]@, Status::Running),
                ));
            }
            i += 1;
        }
        proof {
            assert(names@.map_values(|nm: String| (nm@, Status::Running)).take(n as int)
                =~= names@.map_values(|nm: String| (nm@, Status::Running)));
        }
        Supervisor { phase: Phase::Running, subs }
    }

    /// Triggers shutdown, whether from an OS termination signal or from a
    /// subsystem's own request. Idempotent: once shutdown has started, a
    /// further trigger changes nothing.
    pub fn request_shutdown(&mut self)
        requires
            wf(old(self)@),
        ensures
            final(self)@ == spec_request_shutdown(old(self)@),
            wf(final(self)@),
    {
        if self.phase == Phase::Running {
            if self.count_running() == 0 {
                let out = self.current_outcome();
                self.phase = Phase::Stopped(out);
            } else {
                self.phase = Phase::ShuttingDown;
            }
        }
    }

    /// Records that subsystem `i` terminated, successfully iff `ok`. A
    /// failure triggers shutdown of the whole run; the last termination
    /// during shutdown stops the run.
    pub fn subsystem_finished(&mut self, i: usize, ok: bool)
        requires
            wf(old(self)@),
            i < old(self)@.subs.len(),
            old(self)@.subs[i as int].1 == Status::Running,
            !(old(self)@.phase matches Phase::Stopped(_)),
        ensures
            final(self)@ == spec_finished(old(self)@, i as int, ok),
            wf(final(self)@),
    {
        let st = if ok {
            Status::Succeeded
        } else {
            Status::Failed
        };
        let name = self.subs[i].name.clone();
        self.subs.set(i, Subsystem { name, status: st });
        proof {
            assert(self@.subs =~= spec_finished(old(self)@, i as int, ok).subs);
        }
        if !ok && self.phase == Phase::Running {
            self.phase = Phase::ShuttingDown;
        }
        if self.phase == Phase::ShuttingDown && self.count_running() == 0 {
            let out = self.current_outcome();
            self.phase = Phase::Stopped(out);
        }
    }

    /// Records that the shutdown timeout elapsed: the run stops as failed,
    /// abandoning the subsystems still running.
    pub fn timeout_elapsed(&mut self)
        requires
            wf(old(self)@),
            old(self)@.phase == Phase::ShuttingDown,
        ensures
            final(self)@ == spec_timeout(old(self)@),
            wf(final(self)@),
    {
        self.phase = Phase::Stopped(Outcome::Failed);
    }

    /// How many subsystems are still running.
    fn count_running(&self) -> (n: usize)
        ensures
            (n == 0) == all_terminated(self@.subs),
    {
        let len = self.subs.len();
        let mut n: usize = 0;
        let mut i: usize = 0;
        while i < len
            invariant
                len == self.subs.len(),
                i <= len,
                n <= i,
                (n == 0) == (forall|j: int|
                    0 <= j < i ==> self@.subs[j].1 != Status::Running),
            decreases len - i,
        {
            assert(self@.subs[i as int].1 == self.subs@[i as int].status);
            if self.subs[i].status == Status::Running {
                n += 1;
            }
            i += 1;
        }
        n
    }

    /// The outcome the current statuses owe.
    fn current_outcome(&self) -> (out: Outcome)
        ensures
            out == outcome_of(self@.subs),
    {
        let len = self.subs.len();
        let mut failed = false;
        let mut running = false;
        let mut i: usize = 0;
        while i < len
            invariant
                len == self.subs.len(),
                i <= len,
                failed == (exists|j: int|
                    0 <= j < i && self@.subs[j].1 == Status::Failed),
                running == (exists|j: int|
                    0 <= j < i && self@.subs[j].1 == Status::Running),
            decreases len - i,
        {
            assert(self@.subs[i as int].1 == self.subs@[i as int].status);
            if self.subs[i].status == Status::Failed {
                failed = true;
            }
            if self.subs[i].status == Status::Running {
                running = true;
            }
            i += 1;
        }
        if failed || running {
            Outcome::Failed
        } else {
            Outcome::Completed
        }
    }

    /// Names of the subsystems whose status is `st`, in order.
    fn collect_names(&self, st: Status) -> (r: Vec<String>)
        ensures
            r@.map_values(|s: String| s@) == names_with(self@.subs, st),
    {
        let len = self.subs.len();
        let mut r: Vec<String> = Vec::new();
        let mut i: usize = 0;
        while i < len
            invariant
                len == self.subs.len(),
                i <= len,
                r@.map_values(|s: String| s@) == names_with(self@.subs.take(i as int), st),
            decreases len - i,
        {
            assert(self@.subs[i as int] == self.subs@[i as int]@);
            proof {
                assert(self@.subs.take(i + 1 as int).drop_last() =~= self@.subs.take(i as int));
            }
            if self.subs[i].status == st {
                let ghost prev = r@.map_values(|s: String| s@);
                r.push(self.subs[i].name.clone());
                proof {
                    assert(r@.map_values(|s: String| s@) =~= prev.push(self@.subs[i as int].0));
                }
            }
            i += 1;
        }
        proof {
            assert(self@.subs.take(len as int) =~= self@.subs);
        }
        r
    }

    /// Result of a stopped run: `Ok` exactly when the run completed;
    /// otherwise the error names the subsystems that failed and those that
    /// were still running when the run was abandoned.
    pub fn run_result(&self) -> (r: Result<(), SupervisorError>)
        requires
            self@.phase matches Phase::Stopped(_),
        ensures
            r is Ok <==> self@.phase == Phase::Stopped(Outcome::Completed),
            (r matches Err(e) ==> e.failed@.map_values(|s: String| s@) == names_with(
                self@.subs,
                Status::Failed,
            ) && e.timed_out@.map_values(|s: String| s@) == names_with(
                self@.subs,
                Status::Running,
            )),
    {
        if self.phase == Phase::Stopped(Outcome::Completed) {
            Ok(())
        } else {
            Err(
                SupervisorError {
                    failed: self.collect_names(Status::Failed),
                    timed_out: self.collect_names(Status::Running),
                },
            )
        }
    }
}

proof fn lemma_names_with_contains(subs: Seq<(Seq<char>, Status)>, st: Status, i: int)
    requires
        0 <= i < subs.len(),
        subs[i].1 == st,
    ensures
        names_with(subs, st).contains(subs[i].0),
    decreases subs.len(),
{
    if i == subs.len() - 1 {
        let nw = names_with(subs, st);
        assert(nw[nw.len() - 1] == subs[i].0);
    } else {
        lemma_names_with_contains(subs.drop_last(), st, i);
        let prefix = names_with(subs.drop_last(), st);
        let k = choose|k: int| 0 <= k < prefix.len() && prefix[k] == subs[i].0;
        assert(names_with(subs, st)[k] == subs[i].0);
    }
}

/// Triggering shutdown is idempotent: a second trigger — a repeated call,
/// another subsystem's request, or a signal arriving after a request —
/// leaves the supervisor exactly as the first trigger left it, so exactly
/// one shutdown sequence runs.
pub proof fn lemma_request_shutdown_idempotent(m: SupervisorView)
    ensures
        spec_request_shutdown(spec_request_shutdown(m)) == spec_request_shutdown(m),
{
}

/// A run of one subsystem that requests shutdown once its work is done and
/// then terminates successfully stops as completed, with no timeout
/// involved: the request starts the shutdown, and the subsystem's own
/// termination is the last event of the run.
pub proof fn lemma_single_subsystem_clean_run(name: Seq<char>)
    ensures
        ({
            let m0 = SupervisorView {
                phase: Phase::Running,
                subs: seq![(name, Status::Running)],
            };
            let m1 = spec_request_shutdown(m0);
            let m2 = spec_finished(m1, 0, true);
            m1.phase == Phase::ShuttingDown && m2.phase == Phase::Stopped(Outcome::Completed)
        }),
{
    let m0 = SupervisorView { phase: Phase::Running, subs: seq![(name, Status::Running)] };
    assert(m0.subs[0].1 == Status::Running);
    let m1 = spec_request_shutdown(m0);
    let subs2 = m1.subs.update(0, (name, Status::Succeeded));
    assert(forall|i: int| 0 <= i < subs2.len() ==> subs2[i].1 == Status::Succeeded);
}

/// A shutdown signal moves a running supervisor to `ShuttingDown`; if a
/// subsystem has still not finished when the timeout elapses, the run
/// stops as failed and the error names that subsystem among the ones
/// still running.
pub proof fn lemma_signal_then_timeout(m: SupervisorView, i: int)
    requires
        m.phase == Phase::Running,
        0 <= i < m.subs.len(),
        m.subs[i].1 == Status::Running,
    ensures
        spec_request_shutdown(m).phase == Phase::ShuttingDown,
        spec_timeout(spec_request_shutdown(m)).phase == Phase::Stopped(Outcome::Failed),
        names_with(spec_timeout(spec_request_shutdown(m)).subs, Status::Running).contains(
            m.subs[i].0,
        ),
{
    lemma_names_with_contains(m.subs, Status::Running, i);
}

} // verus!
