//! Bookkeeping of the audio.cpp server processes: one instance per
//! configuration fingerprint, counted leases, release and idle reaping,
//! orphan clean-up once per process, and the CPU fallback memory.
//!
//! The process work (spawning, health polling, killing, timers) belongs to
//! the host; every decision about which instance serves a lease, when an
//! instance goes, and what the engine's log tail reads is made here.
use std::collections::{HashMap, HashSet, VecDeque};
use std::time::Duration;

use vstd::prelude::*;
use vstd::string::*;

use crate::audiocpp::AudiocppError;
use crate::text::{concat2, concat3, decimal, decimal_string, join_path, join_with, path_join, views};

verus! {

/// Deadline of the health check, spawn and eager model load included.
pub const READY_TIMEOUT_SECS: u32 = 20;

/// Lines of engine output kept for diagnostics.
pub const STDERR_TAIL_LINES: usize = 20;

/// A lease on a server process. It names its instance by configuration
/// fingerprint and generation, so that a release reaches exactly that one.
#[derive(Debug, Clone, Copy, PartialEq, Eq, Structural)]
pub struct ServerLease {
    pub port: u16,
    pub generation: u64,
    pub config_hash: u64,
}

pub open spec fn base_url_of(port: u16) -> Seq<char> {
    "http://127.0.0.1:"@ + decimal(port as nat)
}

impl ServerLease {
    /// `http://127.0.0.1:<port>`, for the HTTP client.
    pub fn base_url(&self) -> (r: String)
        ensures
            r@ == base_url_of(self.port),
    {
        let n = decimal_string(self.port as u64);
        concat2("http://127.0.0.1:", n.as_str())
    }
}

/// One running instance: its fingerprint, port, generation and live leases.
#[derive(Debug, Clone, Copy, PartialEq, Eq, Structural)]
pub struct InstanceRecord {
    pub config_hash: u64,
    pub port: u16,
    pub generation: u64,
    pub leases: usize,
}

/// What the host does after a lease is released.
#[derive(Debug, Clone, Copy, PartialEq, Eq, Structural)]
pub enum ReleaseAction {
    /// Other leases remain (or the instance is already gone).
    Nothing,
    /// Kill the instance now: no keepalive window is configured.
    KillNow(InstanceRecord),
    /// Wait `delay_ms`, then call `reap_if_idle` with this fingerprint and generation.
    ReapAfter { config_hash: u64, generation: u64, delay_ms: u64 },
}

/// The abstract state of the instance table.
pub struct ManagerModel {
    /// The live instances, by configuration fingerprint.
    pub instances: Map<u64, InstanceRecord>,
    pub orphan_reaped: bool,
    pub keepalive_ms: u64,
    pub generation: u64,
    pub gpu_fallback: Set<u64>,
}

/// The instance table of the process (one per host).
#[derive(Debug)]
pub struct ServerManager {
    instances: HashMap<u64, InstanceRecord>,
    orphan_reaped: bool,
    keepalive_ms: u64,
    generation: u64,
    gpu_fallback: HashSet<u64>,
}

impl View for ServerManager {
    type V = ManagerModel;

    closed spec fn view(&self) -> ManagerModel {
        ManagerModel {
            instances: self.instances@,
            orphan_reaped: self.orphan_reaped,
            keepalive_ms: self.keepalive_ms,
            generation: self.generation,
            gpu_fallback: self.gpu_fallback@,
        }
    }
}

/// Each instance is filed under its own fingerprint.
pub open spec fn keys_match(m: Map<u64, InstanceRecord>) -> bool {
    forall|h: u64| #[trigger] m.contains_key(h) ==> m[h].config_hash == h
}

pub open spec fn with_leases(r: InstanceRecord, n: usize) -> InstanceRecord {
    InstanceRecord { config_hash: r.config_hash, port: r.port, generation: r.generation, leases: n }
}

pub open spec fn lease_of(r: InstanceRecord) -> ServerLease {
    ServerLease { port: r.port, generation: r.generation, config_hash: r.config_hash }
}

/// The table after one more lease on `h` (unchanged when `h` has no instance).
pub open spec fn acquired(m: Map<u64, InstanceRecord>, h: u64) -> Map<u64, InstanceRecord> {
    if m.contains_key(h) {
        m.insert(h, with_leases(m[h], (m[h].leases + 1) as usize))
    } else {
        m
    }
}

/// The table and the host's action after a lease on `h` of generation `g`
/// is released: the count drops (never below zero); at zero the instance is
/// killed at once without a keepalive window, else its reaping is scheduled.
pub open spec fn release_outcome(m: Map<u64, InstanceRecord>, keepalive_ms: u64, h: u64, g: u64) -> (
    Map<u64, InstanceRecord>,
    ReleaseAction,
) {
    if !m.contains_key(h) {
        (m, ReleaseAction::Nothing)
    } else {
        let n: usize = if m[h].leases > 0 {
            (m[h].leases - 1) as usize
        } else {
            0
        };
        if n > 0 {
            (m.insert(h, with_leases(m[h], n)), ReleaseAction::Nothing)
        } else if keepalive_ms == 0 {
            (m.remove(h), ReleaseAction::KillNow(with_leases(m[h], 0)))
        } else {
            (
                m.insert(h, with_leases(m[h], 0)),
                ReleaseAction::ReapAfter { config_hash: h, generation: g, delay_ms: keepalive_ms },
            )
        }
    }
}

/// The table after the keepalive window: the instance goes only when it has
/// no lease and is still the generation that was released.
pub open spec fn reap_outcome(m: Map<u64, InstanceRecord>, h: u64, g: u64) -> (
    Map<u64, InstanceRecord>,
    Option<InstanceRecord>,
) {
    if m.contains_key(h) && m[h].leases == 0 && m[h].generation == g {
        (m.remove(h), Some(m[h]))
    } else {
        (m, None)
    }
}

/// The model after `shutdown_blocking`: no instance, everything else kept.
pub open spec fn shut_down(m: ManagerModel) -> ManagerModel {
    ManagerModel {
        instances: Map::empty(),
        orphan_reaped: m.orphan_reaped,
        keepalive_ms: m.keepalive_ms,
        generation: m.generation,
        gpu_fallback: m.gpu_fallback,
    }
}

/// The keepalive window in milliseconds: none means 0, larger than `u64`
/// saturates.
pub open spec fn keepalive_of(ms: Option<u128>) -> u64 {
    match ms {
        None => 0,
        Some(m) => if m > u64::MAX as u128 {
            u64::MAX
        } else {
            m as u64
        },
    }
}

impl ServerManager {
    /// Well-formed: each instance is filed under its own fingerprint.
    pub open spec fn wf(&self) -> bool {
        keys_match(self@.instances)
    }

    /// An empty table: no instance, no keepalive window (leases end their
    /// process at once), generation 0, orphans not yet reaped.
    pub fn new() -> (r: Self)
        ensures
            r.wf(),
            r@.instances == Map::<u64, InstanceRecord>::empty(),
            !r@.orphan_reaped,
            r@.keepalive_ms == 0,
            r@.generation == 0,
            r@.gpu_fallback == Set::<u64>::empty(),
    {
        ServerManager {
            instances: HashMap::new(),
            orphan_reaped: false,
            keepalive_ms: 0,
            generation: 0,
            gpu_fallback: HashSet::new(),
        }
    }

    /// The configured keepalive window (milliseconds; 0 = none).
    pub fn idle_keepalive_ms(&self) -> (r: u64)
        ensures
            r == self@.keepalive_ms,
    {
        self.keepalive_ms
    }

    /// The generation of the latest spawn attempt (0 before the first).
    pub fn last_generation(&self) -> (r: u64)
        ensures
            r == self@.generation,
    {
        self.generation
    }

    /// The number of live instances.
    pub fn instance_count(&self) -> (r: usize)
        ensures
            r == self@.instances.len(),
    {
        broadcast use vstd::std_specs::hash::group_hash_axioms;

        self.instances.len()
    }

    /// The record of the instance with fingerprint `h`, if any.
    pub fn instance(&self, h: u64) -> (r: Option<InstanceRecord>)
        ensures
            r == (if self@.instances.contains_key(h) {
                Some(self@.instances[h])
            } else {
                None
            }),
    {
        broadcast use vstd::std_specs::hash::group_hash_axioms;

        match self.instances.get(&h) {
            Some(r) => Some(*r),
            None => None,
        }
    }

    /// Orphan clean-up runs once per process: true on the first call only.
    pub fn take_orphan_reap(&mut self) -> (first: bool)
        ensures
            first == !old(self)@.orphan_reaped,
            final(self)@.orphan_reaped,
            final(self)@.instances == old(self)@.instances,
            final(self)@.keepalive_ms == old(self)@.keepalive_ms,
            final(self)@.generation == old(self)@.generation,
            final(self)@.gpu_fallback == old(self)@.gpu_fallback,
    {
        let first = !self.orphan_reaped;
        self.orphan_reaped = true;
        first
    }

    /// Drops the instances whose process has exited (lazy restart); the
    /// others stay. Returns the dropped records by fingerprint, for the host
    /// to clean up.
    pub fn remove_dead(&mut self, dead: &Vec<u64>) -> (removed: HashMap<u64, InstanceRecord>)
        requires
            old(self).wf(),
        ensures
            final(self).wf(),
            final(self)@.instances == old(self)@.instances.remove_keys(dead@.to_set()),
            removed@ == old(self)@.instances.restrict(dead@.to_set()),
            final(self)@.orphan_reaped == old(self)@.orphan_reaped,
            final(self)@.keepalive_ms == old(self)@.keepalive_ms,
            final(self)@.generation == old(self)@.generation,
            final(self)@.gpu_fallback == old(self)@.gpu_fallback,
    {
        broadcast use vstd::std_specs::hash::group_hash_axioms;

        let ghost m = self.instances@;
        let mut removed: HashMap<u64, InstanceRecord> = HashMap::new();
        let mut i: usize = 0;
        while i < dead.len()
            invariant
                0 <= i <= dead.len(),
                keys_match(m),
                self.instances@ == m.remove_keys(dead@.take(i as int).to_set()),
                removed@ == m.restrict(dead@.take(i as int).to_set()),
                self@.orphan_reaped == old(self)@.orphan_reaped,
                self@.keepalive_ms == old(self)@.keepalive_ms,
                self@.generation == old(self)@.generation,
                self@.gpu_fallback == old(self)@.gpu_fallback,
            decreases dead.len() - i,
        {
            let k = dead[i];
            let ghost before = dead@.take(i as int).to_set();
            assert(dead@.take(i + 1).to_set() =~= before.insert(k)) by {
                assert(dead@.take(i + 1) =~= dead@.take(i as int).push(k));
                dead@.take(i as int).lemma_push_to_set_commute(k);
            }
            match self.instances.remove(&k) {
                Some(r) => {
                    removed.insert(k, r);
                },
                None => {},
            }
            assert(self.instances@ =~= m.remove_keys(before.insert(k)));
            assert(removed@ =~= m.restrict(before.insert(k)));
            i = i + 1;
        }
        assert(dead@.take(dead@.len() as int) =~= dead@);
        removed
    }

    /// One more lease on the instance with fingerprint `h`, when there is one.
    pub fn acquire(&mut self, h: u64) -> (r: Option<ServerLease>)
        requires
            old(self).wf(),
            old(self)@.instances.contains_key(h) ==> old(self)@.instances[h].leases < usize::MAX,
        ensures
            final(self).wf(),
            final(self)@.instances == acquired(old(self)@.instances, h),
            r == (if old(self)@.instances.contains_key(h) {
                Some(lease_of(old(self)@.instances[h]))
            } else {
                None
            }),
            final(self)@.orphan_reaped == old(self)@.orphan_reaped,
            final(self)@.keepalive_ms == old(self)@.keepalive_ms,
            final(self)@.generation == old(self)@.generation,
            final(self)@.gpu_fallback == old(self)@.gpu_fallback,
    {
        broadcast use vstd::std_specs::hash::group_hash_axioms;

        match self.instance(h) {
            Some(r) => {
                let bumped = InstanceRecord {
                    config_hash: r.config_hash,
                    port: r.port,
                    generation: r.generation,
                    leases: r.leases + 1,
                };
                self.instances.insert(h, bumped);
                Some(ServerLease { port: r.port, generation: r.generation, config_hash: r.config_hash })
            },
            None => None,
        }
    }

    /// The next generation (one per spawn attempt).
    pub fn next_generation(&mut self) -> (g: u64)
        requires
            old(self)@.generation < u64::MAX,
        ensures
            g == old(self)@.generation + 1,
            final(self)@.generation == g,
            final(self)@.instances == old(self)@.instances,
            final(self)@.orphan_reaped == old(self)@.orphan_reaped,
            final(self)@.keepalive_ms == old(self)@.keepalive_ms,
            final(self)@.gpu_fallback == old(self)@.gpu_fallback,
    {
        self.generation = self.generation + 1;
        self.generation
    }

    /// Enters a freshly started instance, holding its first lease.
    pub fn register(&mut self, h: u64, port: u16, generation: u64) -> (r: ServerLease)
        requires
            old(self).wf(),
            !old(self)@.instances.contains_key(h),
        ensures
            final(self).wf(),
            final(self)@.instances == old(self)@.instances.insert(
                h,
                InstanceRecord { config_hash: h, port, generation, leases: 1 },
            ),
            r == (ServerLease { port, generation, config_hash: h }),
            final(self)@.orphan_reaped == old(self)@.orphan_reaped,
            final(self)@.keepalive_ms == old(self)@.keepalive_ms,
            final(self)@.generation == old(self)@.generation,
            final(self)@.gpu_fallback == old(self)@.gpu_fallback,
    {
        broadcast use vstd::std_specs::hash::group_hash_axioms;

        self.instances.insert(h, InstanceRecord { config_hash: h, port, generation, leases: 1 });
        ServerLease { port, generation, config_hash: h }
    }

    /// Releases a lease of fingerprint `h` and generation `g`.
    pub fn release(&mut self, h: u64, g: u64) -> (r: ReleaseAction)
        requires
            old(self).wf(),
        ensures
            final(self).wf(),
            (final(self)@.instances, r) == release_outcome(
                old(self)@.instances,
                old(self)@.keepalive_ms,
                h,
                g,
            ),
            final(self)@.orphan_reaped == old(self)@.orphan_reaped,
            final(self)@.keepalive_ms == old(self)@.keepalive_ms,
            final(self)@.generation == old(self)@.generation,
            final(self)@.gpu_fallback == old(self)@.gpu_fallback,
    {
        broadcast use vstd::std_specs::hash::group_hash_axioms;

        let r = match self.instance(h) {
            Some(r) => r,
            None => return ReleaseAction::Nothing,
        };
        let n: usize = if r.leases > 0 {
            r.leases - 1
        } else {
            0
        };
        let rec = InstanceRecord {
            config_hash: r.config_hash,
            port: r.port,
            generation: r.generation,
            leases: n,
        };
        if n > 0 {
            self.instances.insert(h, rec);
            return ReleaseAction::Nothing;
        }
        if self.keepalive_ms == 0 {
            self.instances.remove(&h);
            return ReleaseAction::KillNow(rec);
        }
        self.instances.insert(h, rec);
        ReleaseAction::ReapAfter { config_hash: h, generation: g, delay_ms: self.keepalive_ms }
    }

    /// After the keepalive window: removes the instance when it is still
    /// idle and of generation `g`, and returns it for the host to kill.
    pub fn reap_if_idle(&mut self, h: u64, g: u64) -> (r: Option<InstanceRecord>)
        requires
            old(self).wf(),
        ensures
            final(self).wf(),
            (final(self)@.instances, r) == reap_outcome(old(self)@.instances, h, g),
            final(self)@.orphan_reaped == old(self)@.orphan_reaped,
            final(self)@.keepalive_ms == old(self)@.keepalive_ms,
            final(self)@.generation == old(self)@.generation,
            final(self)@.gpu_fallback == old(self)@.gpu_fallback,
    {
        broadcast use vstd::std_specs::hash::group_hash_axioms;

        match self.instance(h) {
            Some(r) => {
                if r.leases == 0 && r.generation == g {
                    self.instances.remove(&h);
                    Some(r)
                } else {
                    None
                }
            },
            None => None,
        }
    }

    /// Whether fingerprint `h` once failed on its GPU backend and fell back.
    pub fn is_gpu_fallback(&self, h: u64) -> (r: bool)
        ensures
            r == self@.gpu_fallback.contains(h),
    {
        broadcast use vstd::std_specs::hash::group_hash_axioms;

        self.gpu_fallback.contains(&h)
    }

    /// Remembers, for the life of the process, that fingerprint `h` falls back to the CPU.
    pub fn remember_gpu_fallback(&mut self, h: u64)
        ensures
            final(self)@.gpu_fallback == old(self)@.gpu_fallback.insert(h),
            final(self)@.instances == old(self)@.instances,
            final(self)@.orphan_reaped == old(self)@.orphan_reaped,
            final(self)@.keepalive_ms == old(self)@.keepalive_ms,
            final(self)@.generation == old(self)@.generation,
    {
        broadcast use vstd::std_specs::hash::group_hash_axioms;

        self.gpu_fallback.insert(h);
    }
}

/// Sets the idle keepalive window: `None` keeps no window (the last
/// release ends the process at once); a window longer than `u64`
/// milliseconds saturates.
pub fn set_idle_keepalive(manager: &mut ServerManager, keepalive: Option<Duration>)
    ensures
        final(manager)@.instances == old(manager)@.instances,
        final(manager)@.orphan_reaped == old(manager)@.orphan_reaped,
        final(manager)@.generation == old(manager)@.generation,
        final(manager)@.gpu_fallback == old(manager)@.gpu_fallback,
        final(manager)@.keepalive_ms == keepalive_of(
            match keepalive {
                Some(d) => Some(duration_ms(d)),
                None => None,
            },
        ),
{
    let ms = match keepalive {
        Some(d) => Some(duration_millis(&d)),
        None => None,
    };
    set_idle_keepalive_ms(manager, ms);
}

/// The keepalive window from a millisecond count.
pub fn set_idle_keepalive_ms(manager: &mut ServerManager, ms: Option<u128>)
    ensures
        final(manager)@.keepalive_ms == keepalive_of(ms),
        final(manager)@.instances == old(manager)@.instances,
        final(manager)@.orphan_reaped == old(manager)@.orphan_reaped,
        final(manager)@.generation == old(manager)@.generation,
        final(manager)@.gpu_fallback == old(manager)@.gpu_fallback,
{
    let v: u64 = match ms {
        None => 0,
        Some(m) => if m > u64::MAX as u128 {
            u64::MAX
        } else {
            m as u64
        },
    };
    manager.keepalive_ms = v;
}

/// The whole milliseconds of a duration, as `Duration::as_millis` gives them.
pub uninterp spec fn duration_ms(d: Duration) -> u128;

/// `Duration::as_millis`: the whole milliseconds of a duration, a function
/// of the duration alone, named `duration_ms` (a `Duration`'s fields are
/// private, so the count is not written out over them).
#[verifier::external_body]
fn duration_millis(d: &Duration) -> (r: u128)
    ensures
        r == duration_ms(*d),
{
    d.as_millis()
}

/// Stops every instance (idempotent): empties the table and returns the
/// records by fingerprint, for the host to kill.
pub fn shutdown_blocking(manager: &mut ServerManager) -> (stopped: HashMap<u64, InstanceRecord>)
    ensures
        final(manager).wf(),
        final(manager)@ == shut_down(old(manager)@),
        stopped@ == old(manager)@.instances,
{
    let mut stopped: HashMap<u64, InstanceRecord> = HashMap::new();
    std::mem::swap(&mut stopped, &mut manager.instances);
    assert(manager@.gpu_fallback == old(manager)@.gpu_fallback);
    stopped
}

/// Whether a failed start is retried with the CPU backend: the engine
/// exited at once and the request asked for another backend.
pub fn retry_on_cpu(provider: &str, err: &AudiocppError) -> (r: bool)
    ensures
        r == (provider@ != "cpu"@ && err is EngineExitedImmediately),
{
    match err {
        AudiocppError::EngineExitedImmediately { .. } => !crate::text::str_eq(provider, "cpu"),
        _ => false,
    }
}

/// Whether a lease goes straight to the CPU backend: the requested backend
/// is not the CPU and this fingerprint fell back before.
pub fn starts_on_cpu(manager: &ServerManager, provider: &str, h: u64) -> (r: bool)
    ensures
        r == (provider@ != "cpu"@ && manager@.gpu_fallback.contains(h)),
{
    !crate::text::str_eq(provider, "cpu") && manager.is_gpu_fallback(h)
}

/// The backend an attempt of a lease runs on.
#[derive(Debug, Clone, Copy, PartialEq, Eq, Structural)]
pub enum LeaseAttempt {
    /// The backend the request asked for.
    Requested,
    /// The CPU backend, in place of a GPU backend that failed to start.
    CpuFallback,
}

/// What the host does once an attempt has run.
#[derive(Debug, Clone, Copy, PartialEq, Eq, Structural)]
pub enum LeaseNext {
    /// The attempt's result is the lease's result.
    Finish,
    /// Run one more attempt, on the CPU backend.
    RetryOnCpu,
}

/// The first attempt of a lease: straight on the CPU for a fingerprint that
/// fell back before (its GPU start is bound to fail), else as requested.
pub open spec fn first_attempt_of(fallback: Set<u64>, provider: Seq<char>, h: u64) -> LeaseAttempt {
    if provider != "cpu"@ && fallback.contains(h) {
        LeaseAttempt::CpuFallback
    } else {
        LeaseAttempt::Requested
    }
}

/// After an attempt: a requested non-CPU backend whose engine exited at once
/// is retried on the CPU; anything else finishes the lease.
pub open spec fn lease_next_of(provider: Seq<char>, attempt: LeaseAttempt, exited_at_once: bool) -> LeaseNext {
    if attempt == LeaseAttempt::Requested && provider != "cpu"@ && exited_at_once {
        LeaseNext::RetryOnCpu
    } else {
        LeaseNext::Finish
    }
}

pub open spec fn exited_at_once(failure: Option<&AudiocppError>) -> bool {
    match failure {
        Some(e) => *e is EngineExitedImmediately,
        None => false,
    }
}

pub fn first_attempt(manager: &ServerManager, provider: &str, h: u64) -> (r: LeaseAttempt)
    ensures
        r == first_attempt_of(manager@.gpu_fallback, provider@, h),
{
    if starts_on_cpu(manager, provider, h) {
        LeaseAttempt::CpuFallback
    } else {
        LeaseAttempt::Requested
    }
}

/// Decides what follows an attempt of a lease on fingerprint `h` (`failure`
/// is the attempt's error, `None` when it succeeded). A retry on the CPU is
/// remembered for the fingerprint, for the life of the process.
pub fn after_attempt(
    manager: &mut ServerManager,
    provider: &str,
    h: u64,
    attempt: LeaseAttempt,
    failure: Option<&AudiocppError>,
) -> (r: LeaseNext)
    ensures
        r == lease_next_of(provider@, attempt, exited_at_once(failure)),
        final(manager)@.gpu_fallback == (if r == LeaseNext::RetryOnCpu {
            old(manager)@.gpu_fallback.insert(h)
        } else {
            old(manager)@.gpu_fallback
        }),
        final(manager)@.instances == old(manager)@.instances,
        final(manager)@.orphan_reaped == old(manager)@.orphan_reaped,
        final(manager)@.keepalive_ms == old(manager)@.keepalive_ms,
        final(manager)@.generation == old(manager)@.generation,
{
    let retry = match failure {
        Some(e) => attempt == LeaseAttempt::Requested && retry_on_cpu(provider, e),
        None => false,
    };
    if retry {
        manager.remember_gpu_fallback(h);
        LeaseNext::RetryOnCpu
    } else {
        LeaseNext::Finish
    }
}

/// A lease makes at most two attempts: an attempt on the CPU fallback always
/// finishes the lease, a fallback attempt is never made for a CPU request,
/// and once a GPU backend has been retried on the CPU, the next lease of the
/// same fingerprint goes straight to the CPU.
pub proof fn lemma_lease_retries_at_most_once(
    fallback: Set<u64>,
    provider: Seq<char>,
    h: u64,
    exited: bool,
)
    ensures
        lease_next_of(provider, LeaseAttempt::CpuFallback, exited) == LeaseNext::Finish,
        first_attempt_of(fallback, provider, h) == LeaseAttempt::CpuFallback ==> provider != "cpu"@,
        lease_next_of(provider, LeaseAttempt::Requested, exited) == LeaseNext::RetryOnCpu
            ==> first_attempt_of(fallback.insert(h), provider, h) == LeaseAttempt::CpuFallback,
{
}

/// Keeps the last `STDERR_TAIL_LINES` lines of engine output.
pub fn push_tail_line(tail: &mut VecDeque<String>, line: String)
    ensures
        views(final(tail)@) == if old(tail)@.len() >= STDERR_TAIL_LINES {
            views(old(tail)@.drop_first()).push(line@)
        } else {
            views(old(tail)@).push(line@)
        },
{
    if tail.len() >= STDERR_TAIL_LINES {
        tail.pop_front();
    }
    let ghost before = tail@;
    tail.push_back(line);
    assert(views(tail@) =~= views(before).push(line@));
}

/// The engine output for an error text: its lines joined by newlines, or
/// `(无输出)` when it printed nothing.
pub open spec fn tail_text(lines: Seq<Seq<char>>) -> Seq<char> {
    if lines.len() == 0 {
        "(无输出)"@
    } else {
        join_with(lines, "\n"@)
    }
}

pub fn tail_string(tail: &VecDeque<String>) -> (r: String)
    ensures
        r@ == tail_text(views(tail@)),
{
    if tail.len() == 0 {
        return crate::text::owned("(无输出)");
    }
    let mut lines: Vec<String> = Vec::new();
    let mut i: usize = 0;
    while i < tail.len()
        invariant
            0 <= i <= tail@.len(),
            views(lines@) == views(tail@.take(i as int)),
        decreases tail@.len() - i,
    {
        let ghost before = lines@;
        lines.push(tail[i].clone());
        proof {
            assert(tail@.take(i + 1) =~= tail@.take(i as int).push(tail@[i as int]));
            assert(views(lines@) =~= views(before).push(tail@[i as int]@));
            assert(views(tail@.take(i + 1)) =~= views(tail@.take(i as int)).push(tail@[i as int]@));
        }
        i = i + 1;
    }
    assert(tail@.take(tail@.len() as int) =~= tail@);
    crate::text::join_strings(&lines, "\n")
}

/// The pid file of an instance generation:
/// `<engines>/audiocpp-server-<generation>.pid`.
pub open spec fn pidfile_path_of(engines_dir: Seq<char>, generation: u64) -> Seq<char> {
    path_join(engines_dir, "audiocpp-server-"@ + decimal(generation as nat) + ".pid"@)
}

pub fn pidfile_path(engines_dir: &str, generation: u64) -> (r: String)
    ensures
        r@ == pidfile_path_of(engines_dir@, generation),
{
    let n = decimal_string(generation);
    let name = concat3("audiocpp-server-", n.as_str(), ".pid");
    join_path(engines_dir, name.as_str())
}

/// Instances of different generations never share a pid file.
pub proof fn lemma_pidfiles_differ(engines_dir: Seq<char>, a: u64, b: u64)
    requires
        a != b,
    ensures
        pidfile_path_of(engines_dir, a) != pidfile_path_of(engines_dir, b),
{
    reveal_strlit("audiocpp-server-");
    crate::text::lemma_numbered_paths_differ(engines_dir, "audiocpp-server-"@, ".pid"@, a as nat, b as nat);
}

/// The child's `PATH`: the engine directory, the injected directories, then
/// the current entries, each directory once (directories compared as paths,
/// component by component), first occurrence kept.
pub open spec fn dedup_first(s: Seq<Seq<char>>) -> Seq<Seq<char>>
    decreases s.len(),
{
    if s.len() == 0 {
        s
    } else {
        let d = dedup_first(s.drop_last());
        if crate::text::has_path(d, s.last()) {
            d
        } else {
            d.push(s.last())
        }
    }
}

pub fn augmented_child_path(
    engine_dir: &str,
    search_dirs: &Vec<String>,
    current: &Vec<String>,
) -> (r: Vec<String>)
    ensures
        views(r@) == dedup_first(seq![engine_dir@] + views(search_dirs@) + views(current@)),
{
    let ghost all = seq![engine_dir@] + views(search_dirs@) + views(current@);
    let mut dirs: Vec<String> = Vec::new();
    dirs.push(crate::text::owned(engine_dir));
    proof {
        assert(all.take(1).drop_last() =~= Seq::<Seq<char>>::empty());
        assert(dedup_first(Seq::<Seq<char>>::empty()) =~= Seq::<Seq<char>>::empty());
        assert(all.take(1).last() == engine_dir@);
        assert(views(dirs@) =~= dedup_first(all.take(1)));
    }
    let mut i: usize = 0;
    while i < search_dirs.len()
        invariant
            0 <= i <= search_dirs.len(),
            all == seq![engine_dir@] + views(search_dirs@) + views(current@),
            views(dirs@) == dedup_first(all.take(1 + i)),
        decreases search_dirs.len() - i,
    {
        let d = &search_dirs[i];
        proof {
            assert(all.take(1 + i + 1).drop_last() =~= all.take(1 + i));
            assert(all.take(1 + i + 1).last() == d@);
        }
        if !crate::text::vec_contains_path(&dirs, d.as_str()) {
            let ghost before = dirs@;
            dirs.push(d.clone());
            assert(views(dirs@) =~= views(before).push(d@));
        }
        i = i + 1;
    }
    let mut j: usize = 0;
    while j < current.len()
        invariant
            0 <= j <= current.len(),
            all == seq![engine_dir@] + views(search_dirs@) + views(current@),
            views(dirs@) == dedup_first(all.take(1 + search_dirs.len() + j)),
        decreases current.len() - j,
    {
        let d = &current[j];
        let ghost k = 1 + search_dirs.len() + j;
        proof {
            assert(all.take(k + 1).drop_last() =~= all.take(k));
            assert(all.take(k + 1).last() == d@);
        }
        if !crate::text::vec_contains_path(&dirs, d.as_str()) {
            let ghost before = dirs@;
            dirs.push(d.clone());
            assert(views(dirs@) =~= views(before).push(d@));
        }
        j = j + 1;
    }
    assert(all.take(all.len() as int) =~= all);
    dirs
}

/// Releasing a lease that was just taken on a held instance gives back the
/// table as it was, with nothing for the host to do.
pub proof fn lemma_release_undoes_acquire(m: Map<u64, InstanceRecord>, keepalive_ms: u64, h: u64, g: u64)
    requires
        m.contains_key(h),
        1 <= m[h].leases < usize::MAX,
    ensures
        release_outcome(acquired(m, h), keepalive_ms, h, g) == (m, ReleaseAction::Nothing),
{
    let t = acquired(m, h);
    assert(with_leases(t[h], m[h].leases) == m[h]);
    assert(t.insert(h, with_leases(t[h], m[h].leases)) =~= m);
}

/// Without a keepalive window, the last release of a freshly started
/// instance removes it at once and tells the host to kill it.
pub proof fn lemma_last_release_kills_without_keepalive(
    m: Map<u64, InstanceRecord>,
    h: u64,
    port: u16,
    g: u64,
)
    requires
        !m.contains_key(h),
    ensures
        ({
            let started = m.insert(h, InstanceRecord { config_hash: h, port, generation: g, leases: 1 });
            release_outcome(started, 0, h, g) == (
                m,
                ReleaseAction::KillNow(InstanceRecord { config_hash: h, port, generation: g, leases: 0 }),
            )
        }),
{
    let started = m.insert(h, InstanceRecord { config_hash: h, port, generation: g, leases: 1 });
    assert(started.remove(h) =~= m);
}

/// A lease taken inside the keepalive window keeps the instance: the
/// scheduled reap then finds it busy and leaves the table alone.
pub proof fn lemma_lease_in_window_cancels_reap(
    m: Map<u64, InstanceRecord>,
    keepalive_ms: u64,
    h: u64,
    g: u64,
)
    requires
        keepalive_ms > 0,
        m.contains_key(h),
        m[h].leases == 1,
    ensures
        ({
            let (idle, action) = release_outcome(m, keepalive_ms, h, g);
            let busy = acquired(idle, h);
            &&& action == (ReleaseAction::ReapAfter { config_hash: h, generation: g, delay_ms: keepalive_ms })
            &&& reap_outcome(busy, h, g) == (busy, None::<InstanceRecord>)
        }),
{
}

/// Once the window has passed with no new lease, the reap removes exactly
/// the released instance of that generation.
pub proof fn lemma_idle_instance_is_reaped(m: Map<u64, InstanceRecord>, keepalive_ms: u64, h: u64)
    requires
        keepalive_ms > 0,
        m.contains_key(h),
        m[h].leases == 1,
    ensures
        ({
            let g = m[h].generation;
            let (idle, action) = release_outcome(m, keepalive_ms, h, g);
            &&& action == (ReleaseAction::ReapAfter { config_hash: h, generation: g, delay_ms: keepalive_ms })
            &&& reap_outcome(idle, h, g) == (m.remove(h), Some(with_leases(m[h], 0)))
        }),
{
    let g = m[h].generation;
    let idle = m.insert(h, with_leases(m[h], 0));
    assert(idle.remove(h) =~= m.remove(h));
}

/// A reap never removes an instance of another generation (one restarted
/// after a crash) nor one that holds a lease.
pub proof fn lemma_reap_spares_busy_or_newer(m: Map<u64, InstanceRecord>, h: u64, g: u64)
    requires
        m.contains_key(h),
        m[h].leases > 0 || m[h].generation != g,
    ensures
        reap_outcome(m, h, g) == (m, None::<InstanceRecord>),
{
}

/// Leases share an instance by fingerprint: a further lease on a held
/// fingerprint names the same instance (same port, hence the same base
/// URL, and the same generation) and only counts one more lease; every
/// other instance stays as it was.
pub proof fn lemma_second_lease_reuses_instance(m: Map<u64, InstanceRecord>, h: u64)
    requires
        keys_match(m),
        m.contains_key(h),
        m[h].leases < usize::MAX,
    ensures
        acquired(m, h).contains_key(h),
        lease_of(m[h]) == (ServerLease { port: m[h].port, generation: m[h].generation, config_hash: h }),
        acquired(m, h)[h] == with_leases(m[h], (m[h].leases + 1) as usize),
        acquired(m, h).dom() == m.dom(),
        forall|k: u64| k != h && #[trigger] m.contains_key(k) ==> acquired(m, h)[k] == m[k],
{
    assert(acquired(m, h).dom() =~= m.dom());
}

/// Instances of different fingerprints coexist: starting an instance for a
/// new fingerprint adds it and leaves every instance already running as it
/// was.
pub proof fn lemma_instances_coexist(m: Map<u64, InstanceRecord>, h: u64, port: u16, g: u64)
    requires
        keys_match(m),
        !m.contains_key(h),
    ensures
        ({
            let t = m.insert(h, InstanceRecord { config_hash: h, port, generation: g, leases: 1 });
            &&& keys_match(t)
            &&& t.contains_key(h)
            &&& t.dom() == m.dom().insert(h)
            &&& forall|k: u64| #[trigger] m.contains_key(k) ==> t[k] == m[k]
        }),
{
    let t = m.insert(h, InstanceRecord { config_hash: h, port, generation: g, leases: 1 });
    assert(t.dom() =~= m.dom().insert(h));
}

/// Without a keepalive window, releasing the last lease of one fingerprint
/// ends that instance only: every other instance stays, unchanged.
pub proof fn lemma_last_release_ends_only_its_instance(m: Map<u64, InstanceRecord>, h: u64, g: u64)
    requires
        keys_match(m),
        m.contains_key(h),
        m[h].leases <= 1,
    ensures
        ({
            let (t, action) = release_outcome(m, 0, h, g);
            &&& action == ReleaseAction::KillNow(with_leases(m[h], 0))
            &&& !t.contains_key(h)
            &&& t.dom() == m.dom().remove(h)
            &&& forall|k: u64| k != h && #[trigger] m.contains_key(k) ==> t[k] == m[k]
        }),
{
    assert(m.remove(h).dom() =~= m.dom().remove(h));
}

/// Stopping everything twice is stopping it once.
pub proof fn lemma_shutdown_idempotent(m: ManagerModel)
    ensures
        shut_down(shut_down(m)) == shut_down(m),
        shut_down(m).instances.dom().len() == 0,
{
    assert(shut_down(m).instances.dom() =~= Set::<u64>::empty());
}

/// One round of the health check after a spawn.
#[derive(Debug, Clone, Copy, PartialEq, Eq, Structural)]
pub enum ReadyOutcome {
    /// `/health` answers and `/v1/models` lists the model.
    Ready,
    /// Poll again after the interval.
    Retry,
    /// The process is gone (the requested backend is usually the cause).
    Exited,
    /// The deadline passed.
    TimedOut,
}

/// An exited process ends the wait first; a healthy server that lists the
/// model is ready; past the deadline the wait fails; else it goes on.
pub open spec fn ready_outcome_of(exited: bool, healthy: bool, listed: bool, past_deadline: bool) -> ReadyOutcome {
    if exited {
        ReadyOutcome::Exited
    } else if healthy && listed {
        ReadyOutcome::Ready
    } else if past_deadline {
        ReadyOutcome::TimedOut
    } else {
        ReadyOutcome::Retry
    }
}

pub fn readiness_step(exited: bool, healthy: bool, listed: bool, past_deadline: bool) -> (r: ReadyOutcome)
    ensures
        r == ready_outcome_of(exited, healthy, listed, past_deadline),
{
    if exited {
        ReadyOutcome::Exited
    } else if healthy && listed {
        ReadyOutcome::Ready
    } else if past_deadline {
        ReadyOutcome::TimedOut
    } else {
        ReadyOutcome::Retry
    }
}

/// Whether `/v1/models` lists the model.
pub fn model_listed(ids: &Vec<String>, model_id: &str) -> (r: bool)
    ensures
        r == views(ids@).contains(model_id@),
{
    crate::text::vec_contains_str(ids, model_id)
}

/// The error of a failed wait: the backend that exited with the engine's
/// last output, or the timeout with that output.
pub fn startup_error(outcome: ReadyOutcome, backend: &str, tail: &str) -> (r: AudiocppError)
    requires
        outcome == ReadyOutcome::Exited || outcome == ReadyOutcome::TimedOut,
    ensures
        outcome == ReadyOutcome::Exited ==> (r matches AudiocppError::EngineExitedImmediately {
            backend: b,
            stderr_tail: t,
        } && b@ == backend@ && t@ == tail@),
        outcome == ReadyOutcome::TimedOut ==> (r matches AudiocppError::StartupTimeout {
            timeout_secs: s,
            stderr_tail: t,
        } && s == READY_TIMEOUT_SECS && t@ == tail@),
{
    if outcome == ReadyOutcome::Exited {
        AudiocppError::EngineExitedImmediately {
            backend: crate::text::owned(backend),
            stderr_tail: crate::text::owned(tail),
        }
    } else {
        AudiocppError::StartupTimeout { timeout_secs: READY_TIMEOUT_SECS, stderr_tail: crate::text::owned(tail) }
    }
}

/// Files of the engines directory that an orphan clean-up handles.
#[derive(Debug, Clone, Copy, PartialEq, Eq, Structural)]
pub enum OrphanFile {
    /// `audiocpp-server-*.pid`: names a process to check and kill.
    PidFile,
    /// `audiocpp-server-*.json`: a configuration left behind.
    ConfigFile,
}

pub open spec fn orphan_file_of(name: Seq<char>) -> Option<OrphanFile> {
    if crate::text::has_prefix(name, "audiocpp-server-"@) && crate::text::has_suffix(name, ".pid"@) {
        Some(OrphanFile::PidFile)
    } else if crate::text::has_prefix(name, "audiocpp-server-"@) && crate::text::has_suffix(name, ".json"@) {
        Some(OrphanFile::ConfigFile)
    } else {
        None
    }
}

pub fn orphan_file_kind(name: &str) -> (r: Option<OrphanFile>)
    ensures
        r == orphan_file_of(name@),
{
    if crate::text::starts_with(name, "audiocpp-server-") {
        if crate::text::ends_with(name, ".pid") {
            return Some(OrphanFile::PidFile);
        }
        if crate::text::ends_with(name, ".json") {
            return Some(OrphanFile::ConfigFile);
        }
    }
    None
}

/// Whether a process name is that of the engine.
pub fn is_engine_process_name(name: &str) -> (r: bool)
    ensures
        r == crate::text::contains_seq(name@, "audiocpp_server"@),
{
    crate::text::contains_str(name, "audiocpp_server")
}

pub open spec fn is_digit(c: char) -> bool {
    '0' <= c && c <= '9'
}

/// The value of a run of decimal digits.
pub open spec fn digits_value(s: Seq<char>) -> nat
    decreases s.len(),
{
    if s.len() == 0 {
        0
    } else {
        digits_value(s.drop_last()) * 10 + (s.last() as nat - '0' as nat) as nat
    }
}

/// `u32` parsing of a text: an optional `+`, then one or more decimal
/// digits whose value fits in 32 bits.
pub open spec fn parsed_u32(s: Seq<char>) -> Option<u32> {
    let body = sign_stripped(s);
    if body.len() > 0 && all_digits(body) && digits_value(body) <= u32::MAX {
        Some(digits_value(body) as u32)
    } else {
        None
    }
}

/// The text without one leading `+`.
pub open spec fn sign_stripped(s: Seq<char>) -> Seq<char> {
    if s.len() > 0 && s[0] == '+' {
        s.drop_first()
    } else {
        s
    }
}

pub open spec fn all_digits(s: Seq<char>) -> bool {
    forall|i: int| 0 <= i < s.len() ==> is_digit(#[trigger] s[i])
}

proof fn lemma_digits_monotone(s: Seq<char>, k: int)
    requires
        0 <= k <= s.len(),
        forall|i: int| 0 <= i < s.len() ==> is_digit(#[trigger] s[i]),
    ensures
        digits_value(s.take(k)) <= digits_value(s),
    decreases s.len() - k,
{
    if k < s.len() {
        lemma_digits_monotone(s, k + 1);
        assert(s.take(k + 1).drop_last() =~= s.take(k));
    } else {
        assert(s.take(k) =~= s);
    }
}

fn parse_u32(t: &str) -> (r: Option<u32>)
    ensures
        r == parsed_u32(t@),
{
    let n = t.unicode_len();
    let start: usize = if n > 0 && t.get_char(0) == '+' {
        1
    } else {
        0
    };
    let ghost body = sign_stripped(t@);
    assert(body =~= t@.subrange(start as int, n as int));
    if start == n {
        return None;
    }
    let mut v: u64 = 0;
    let mut i: usize = start;
    while i < n
        invariant
            n == t@.len(),
            start <= i <= n,
            start < n,
            body == sign_stripped(t@),
            body =~= t@.subrange(start as int, n as int),
            forall|k: int| 0 <= k < i - start ==> is_digit(#[trigger] body[k]),
            v == digits_value(body.take(i - start)),
            v <= u32::MAX,
        decreases n - i,
    {
        let c = t.get_char(i);
        assert(c == body[i - start]);
        if !('0' <= c && c <= '9') {
            assert(!is_digit(body[i - start]));
            return None;
        }
        let d = (c as u32 - '0' as u32) as u64;
        v = v * 10 + d;
        proof {
            assert(body.take(i - start + 1).drop_last() =~= body.take(i - start));
        }
        if v > 4294967295 {
            proof {
                if all_digits(body) {
                    lemma_digits_monotone(body, i - start + 1);
                }
            }
            return None;
        }
        i = i + 1;
    }
    assert(body.take(n - start) =~= body);
    Some(v as u32)
}

/// The pid written in a pid file (surrounding whitespace ignored).
pub fn parse_pid(content: &str) -> (r: Option<u32>)
    ensures
        r == parsed_u32(crate::text::trim(content@)),
{
    parse_u32(crate::text::trim_str(content))
}

} // verus!
