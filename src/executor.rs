use vstd::multiset::Multiset;
use vstd::prelude::*;

use crate::config::MonitorConfiguration;
use crate::registry::IdMap;
use crate::timer::WorkTimer;
use crate::worker::{MonitorId, WorkTimeThresholds};

verus! {

/// What is kept of a monitor to start it again after a pause.
#[derive(Debug)]
pub struct CacheEntry {
    pub timer: WorkTimer,
    pub thresholds: WorkTimeThresholds,
    pub config: MonitorConfiguration,
}

impl Clone for CacheEntry {
    fn clone(&self) -> (r: Self)
        ensures
            r == *self,
    {
        CacheEntry {
            timer: self.timer.clone(),
            thresholds: self.thresholds,
            config: self.config.clone(),
        }
    }
}

/// An execution context to start: its monitor and the state it starts from.
#[derive(Debug)]
pub struct WorkerStart {
    pub id: MonitorId,
    pub entry: CacheEntry,
}

/// What the execution layer does to follow one lifecycle transition: first stop the context of
/// `stop` and wait until it has ended, then start `start`.
#[derive(Debug)]
pub struct WorkerActions {
    pub stop: Option<MonitorId>,
    pub start: Option<WorkerStart>,
}

/// The abstract state of the lifecycle manager: the registry, and the monitors that have a
/// running execution context.
pub type LifecycleState = (Map<Seq<char>, CacheEntry>, Set<Seq<char>>);

/// Every running monitor has a registry entry.
pub open spec fn coherent(s: LifecycleState) -> bool {
    s.1.subset_of(s.0.dom())
}

pub open spec fn create_step(s: LifecycleState, id: Seq<char>, e: CacheEntry) -> LifecycleState {
    (s.0.insert(id, e), s.1.insert(id))
}

pub open spec fn pause_step(s: LifecycleState, id: Seq<char>) -> LifecycleState {
    (s.0, s.1.remove(id))
}

/// The entry that a resume starts from: the stored one, when the monitor is known and not running.
pub open spec fn resume_start(s: LifecycleState, id: Seq<char>) -> Option<CacheEntry> {
    if s.0.contains_key(id) && !s.1.contains(id) {
        Some(s.0[id])
    } else {
        None
    }
}

pub open spec fn resume_step(s: LifecycleState, id: Seq<char>) -> LifecycleState {
    if resume_start(s, id) is Some {
        (s.0, s.1.insert(id))
    } else {
        s
    }
}

pub open spec fn kill_step(s: LifecycleState, id: Seq<char>) -> LifecycleState {
    (s.0.remove(id), s.1.remove(id))
}

impl WorkerActions {
    /// Stops only a running context, and starts one only where none runs after the stop.
    pub open spec fn valid_for(&self, running: Set<Seq<char>>) -> bool {
        &&& (self.stop matches Some(id) ==> running.contains(id@))
        &&& (self.start matches Some(w) ==> !self.after_stop(running).contains(w.id@))
    }

    pub open spec fn after_stop(&self, running: Set<Seq<char>>) -> Set<Seq<char>> {
        match self.stop {
            Some(id) => running.remove(id@),
            None => running,
        }
    }

    /// The running set once the actions are performed.
    pub open spec fn applied_to(&self, running: Set<Seq<char>>) -> Set<Seq<char>> {
        match self.start {
            Some(w) => self.after_stop(running).insert(w.id@),
            None => self.after_stop(running),
        }
    }

    /// The handles that the execution layer holds once the actions are performed.
    pub open spec fn performed_on(&self, handles: Multiset<Seq<char>>) -> Multiset<Seq<char>> {
        let h = match self.stop {
            Some(id) => handles.remove(id@),
            None => handles,
        };
        match self.start {
            Some(w) => h.insert(w.id@),
            None => h,
        }
    }
}

/// The lifecycle manager: a registry of every known monitor and the set of monitors that run.
pub struct WorkerExecutor {
    cache: IdMap<CacheEntry>,
    workers: IdMap<()>,
}

impl WorkerExecutor {
    pub closed spec fn view(&self) -> LifecycleState {
        (self.cache@, self.workers@.dom())
    }

    pub closed spec fn wf(&self) -> bool {
        &&& self.cache.wf()
        &&& self.workers.wf()
        &&& coherent(self@)
    }

    pub fn new() -> (r: Self)
        ensures
            r.wf(),
            r@.0 == Map::<Seq<char>, CacheEntry>::empty(),
            r@.1 == Set::<Seq<char>>::empty(),
    {
        let r = WorkerExecutor { cache: IdMap::new(), workers: IdMap::new() };
        assert(r@.1 =~= Set::<Seq<char>>::empty());
        r
    }

    /// Whether `id` has a registry entry.
    pub fn is_registered(&self, id: &MonitorId) -> (r: bool)
        requires
            self.wf(),
        ensures
            r == self@.0.contains_key(id@),
    {
        self.cache.contains(id)
    }

    /// Whether `id` has a running execution context.
    pub fn is_running(&self, id: &MonitorId) -> (r: bool)
        requires
            self.wf(),
        ensures
            r == self@.1.contains(id@),
    {
        self.workers.contains(id)
    }

    /// The registry entry of `id`, if any.
    pub fn entry(&self, id: &MonitorId) -> (r: Option<&CacheEntry>)
        requires
            self.wf(),
        ensures
            r is Some <==> self@.0.contains_key(id@),
            r matches Some(e) ==> *e == self@.0[id@],
    {
        self.cache.get(id)
    }

    /// Stores the monitor's entry, replacing any earlier one, and starts it; a context that
    /// already runs for `id` is stopped first.
    pub fn create_worker(
        &mut self,
        id: MonitorId,
        timer: WorkTimer,
        thresholds: WorkTimeThresholds,
        config: MonitorConfiguration,
    ) -> (r: WorkerActions)
        requires
            old(self).wf(),
        ensures
            final(self).wf(),
            final(self)@ == create_step(
                old(self)@,
                id@,
                CacheEntry { timer, thresholds, config },
            ),
            r.stop is Some <==> old(self)@.1.contains(id@),
            r.stop matches Some(s) ==> s@ == id@,
            r.start matches Some(w) && w.id@ == id@ && w.entry == (CacheEntry {
                timer,
                thresholds,
                config,
            }),
            r.valid_for(old(self)@.1),
            final(self)@.1 == r.applied_to(old(self)@.1),
    {
        let ghost pre = self@;
        let was_running = self.workers.contains(&id);
        let entry = CacheEntry { timer, thresholds, config };
        self.cache.insert(id.clone(), entry.clone());
        self.workers.insert(id.clone(), ());
        let stop = if was_running {
            Some(id.clone())
        } else {
            None
        };
        let r = WorkerActions { stop, start: Some(WorkerStart { id, entry }) };
        proof {
            assert(self@.1 =~= pre.1.insert(id@));
            assert(r.applied_to(pre.1) =~= pre.1.insert(id@));
        }
        r
    }

    /// Stops the context of `id`, if one runs; the registry is left as it is.
    pub fn pause_worker(&mut self, id: &MonitorId) -> (r: WorkerActions)
        requires
            old(self).wf(),
        ensures
            final(self).wf(),
            final(self)@ == pause_step(old(self)@, id@),
            r.stop is Some <==> old(self)@.1.contains(id@),
            r.stop matches Some(s) ==> s@ == id@,
            r.start is None,
            r.valid_for(old(self)@.1),
            final(self)@.1 == r.applied_to(old(self)@.1),
    {
        let ghost pre = self@;
        let was_running = self.workers.contains(id);
        self.workers.remove(id);
        let stop = if was_running {
            Some(id.clone())
        } else {
            None
        };
        let r = WorkerActions { stop, start: None };
        proof {
            assert(self@.1 =~= pre.1.remove(id@));
            assert(r.applied_to(pre.1) =~= pre.1.remove(id@));
        }
        r
    }

    /// Starts `id` again from its stored entry, when it is registered and not running;
    /// otherwise nothing happens.
    pub fn resume_worker(&mut self, id: &MonitorId) -> (r: WorkerActions)
        requires
            old(self).wf(),
        ensures
            final(self).wf(),
            final(self)@ == resume_step(old(self)@, id@),
            r.stop is None,
            r.start is Some <==> resume_start(old(self)@, id@) is Some,
            r.start matches Some(w) ==> w.id@ == id@ && resume_start(old(self)@, id@) == Some(
                w.entry,
            ),
            r.valid_for(old(self)@.1),
            final(self)@.1 == r.applied_to(old(self)@.1),
    {
        let ghost pre = self@;
        if self.workers.contains(id) {
            return WorkerActions { stop: None, start: None };
        }
        let entry = match self.cache.get(id) {
            Some(e) => e.clone(),
            None => {
                return WorkerActions { stop: None, start: None };
            },
        };
        self.workers.insert(id.clone(), ());
        let r = WorkerActions { stop: None, start: Some(WorkerStart { id: id.clone(), entry }) };
        proof {
            assert(self@.1 =~= pre.1.insert(id@));
        }
        r
    }

    /// Stops the context of `id`, if one runs, and forgets its registry entry.
    pub fn kill_worker(&mut self, id: &MonitorId) -> (r: WorkerActions)
        requires
            old(self).wf(),
        ensures
            final(self).wf(),
            final(self)@ == kill_step(old(self)@, id@),
            r.stop is Some <==> old(self)@.1.contains(id@),
            r.stop matches Some(s) ==> s@ == id@,
            r.start is None,
            r.valid_for(old(self)@.1),
            final(self)@.1 == r.applied_to(old(self)@.1),
    {
        let ghost pre = self@;
        let was_running = self.workers.contains(id);
        self.cache.remove(id);
        self.workers.remove(id);
        let stop = if was_running {
            Some(id.clone())
        } else {
            None
        };
        let r = WorkerActions { stop, start: None };
        proof {
            assert(self@.1 =~= pre.1.remove(id@));
            assert(r.applied_to(pre.1) =~= pre.1.remove(id@));
        }
        r
    }
}

/// At most one execution context per monitor: when the execution layer holds at most one handle
/// per monitor, one for each running monitor, then after it performs actions that are valid for
/// that running set it still holds at most one per monitor, one for each monitor of the new set.
pub proof fn lemma_exclusive(
    handles: Multiset<Seq<char>>,
    running: Set<Seq<char>>,
    a: WorkerActions,
)
    requires
        forall|k: Seq<char>| #[trigger] handles.count(k) <= 1,
        forall|k: Seq<char>| #[trigger] handles.count(k) > 0 <==> running.contains(k),
        a.valid_for(running),
    ensures
        forall|k: Seq<char>| #[trigger] a.performed_on(handles).count(k) <= 1,
        forall|k: Seq<char>| #[trigger]
            a.performed_on(handles).count(k) > 0 <==> a.applied_to(running).contains(k),
{
}

/// Pausing and then resuming a monitor right after its creation starts it again from the very
/// entry given at creation (its timer keeps the last execution time stored then), and the
/// registry still holds that entry.
pub proof fn lemma_pause_resume_round_trip(s: LifecycleState, m: Seq<char>, e: CacheEntry)
    ensures
        resume_start(pause_step(create_step(s, m, e), m), m) == Some(e),
        resume_step(pause_step(create_step(s, m, e), m), m).0.contains_key(m),
        resume_step(pause_step(create_step(s, m, e), m), m).0[m] == e,
        resume_step(pause_step(create_step(s, m, e), m), m).1.contains(m),
{
}

/// After a kill the monitor has no entry and no context, and resuming it does nothing.
pub proof fn lemma_kill_final(s: LifecycleState, m: Seq<char>)
    ensures
        !kill_step(s, m).0.contains_key(m),
        !kill_step(s, m).1.contains(m),
        resume_start(kill_step(s, m), m) is None,
        resume_step(kill_step(s, m), m) == kill_step(s, m),
{
}

/// Pause, resume and kill of a monitor that has no entry change nothing and stop nothing.
pub proof fn lemma_unknown_id_no_op(s: LifecycleState, m: Seq<char>)
    requires
        coherent(s),
        !s.0.contains_key(m),
    ensures
        !s.1.contains(m),
        resume_start(s, m) is None,
        pause_step(s, m) == s,
        resume_step(s, m) == s,
        kill_step(s, m) == s,
{
    assert(s.1.remove(m) =~= s.1);
    assert(s.0.remove(m) =~= s.0);
}

} // verus!
