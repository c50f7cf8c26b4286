use vstd::prelude::*;

use crate::clock::time_now;
use crate::config::MonitorConfiguration;
use crate::executor::{
    create_step, kill_step, pause_step, resume_start, resume_step, CacheEntry, LifecycleState,
    WorkerActions, WorkerExecutor,
};
use crate::timer::WorkTimer;
use crate::worker::{MonitorId, WorkTimeThresholds};

verus! {

/// Schedule and thresholds of a monitor, as the bus carries them.
#[derive(Debug, Clone, Copy, PartialEq, Eq, Structural)]
pub struct MonitorTiming {
    pub repeat_secs: u32,
    pub healthy: u32,
    pub timeout: u32,
}

#[derive(Debug)]
pub struct CreateMonitorMessage {
    pub monitor_id: String,
    pub timing: MonitorTiming,
    pub monitor: MonitorConfiguration,
}

/// A command that names one monitor only.
#[derive(Debug)]
pub struct TargetMessage {
    pub monitor_id: String,
}

/// A command received on the control topic.
#[derive(Debug)]
pub enum MonitorMessage {
    Create(CreateMonitorMessage),
    Pause(TargetMessage),
    Resume(TargetMessage),
    Kill(TargetMessage),
}

/// The entry that a create command stores when it is handled at `now`.
pub open spec fn created_entry(m: CreateMonitorMessage, now: u64) -> CacheEntry {
    CacheEntry {
        timer: WorkTimer { period_secs: m.timing.repeat_secs, last_execution: now },
        thresholds: WorkTimeThresholds { healthy: m.timing.healthy, timeout: m.timing.timeout },
        config: m.monitor,
    }
}

/// The lifecycle state after a command is handled at `now`.
pub open spec fn message_step(s: LifecycleState, msg: MonitorMessage, now: u64) -> LifecycleState {
    match msg {
        MonitorMessage::Create(m) => create_step(s, m.monitor_id@, created_entry(m, now)),
        MonitorMessage::Pause(m) => pause_step(s, m.monitor_id@),
        MonitorMessage::Resume(m) => resume_step(s, m.monitor_id@),
        MonitorMessage::Kill(m) => kill_step(s, m.monitor_id@),
    }
}

/// The monitor that a command names.
pub open spec fn message_target(msg: MonitorMessage) -> Seq<char> {
    match msg {
        MonitorMessage::Create(m) => m.monitor_id@,
        MonitorMessage::Pause(m) => m.monitor_id@,
        MonitorMessage::Resume(m) => m.monitor_id@,
        MonitorMessage::Kill(m) => m.monitor_id@,
    }
}

/// Identity of this agent.
#[derive(Debug)]
pub struct WorkerInformation {
    pub worker_id: String,
}

impl WorkerInformation {
    /// The identity this agent runs under unless another is given.
    pub fn initialize() -> (r: Self)
        ensures
            r.worker_id@ == "worker-1"@,
    {
        WorkerInformation { worker_id: "worker-1".to_string() }
    }

    pub fn get(&self) -> (r: &str)
        ensures
            r@ == self.worker_id@,
    {
        self.worker_id.as_str()
    }
}

/// Relies on std's `concat` on a slice of string slices: the two strings one after the other.
#[verifier::external_body]
fn concat2(a: &str, b: &str) -> (r: String)
    ensures
        r@ == a@ + b@,
{
    [a, b].concat()
}

/// The control topic of kind `act` for a worker.
pub fn topic(act: &str, worker_id: &str) -> (r: String)
    ensures
        r@ == act@ + "-"@ + worker_id@,
{
    let head = concat2(act, "-");
    proof {
        reveal_strlit("-");
    }
    concat2(head.as_str(), worker_id)
}

/// Name of a worker's consumer on the bus.
pub fn consumer_name(worker_id: &str) -> (r: String)
    ensures
        r@ == "consumer-"@ + worker_id@,
{
    concat2("consumer-", worker_id)
}

/// Name of a worker's exclusive subscription on the bus.
pub fn subscription_name(worker_id: &str) -> (r: String)
    ensures
        r@ == "subscription-"@ + worker_id@,
{
    concat2("subscription-", worker_id)
}

/// The command handler of one agent: its identity and its lifecycle manager.
pub struct WorkerServer {
    info: WorkerInformation,
    executor: WorkerExecutor,
}

impl WorkerServer {
    pub closed spec fn view(&self) -> LifecycleState {
        self.executor@
    }

    pub closed spec fn wf(&self) -> bool {
        self.executor.wf()
    }

    /// The identity of the agent that this handler serves.
    pub closed spec fn identity(&self) -> Seq<char> {
        self.info.worker_id@
    }

    pub fn worker_id(&self) -> (r: &str)
        ensures
            r@ == self.identity(),
    {
        self.info.get()
    }

    pub fn new(executor: WorkerExecutor, info: WorkerInformation) -> (r: Self)
        requires
            executor.wf(),
        ensures
            r.wf(),
            r@ == executor@,
            r.identity() == info.worker_id@,
    {
        WorkerServer { info, executor }
    }

    /// The lifecycle manager, to read.
    pub fn executor(&self) -> (r: &WorkerExecutor)
        requires
            self.wf(),
        ensures
            r.wf(),
            r@ == self@,
    {
        &self.executor
    }

    /// Handles one command at time `now`: a create stores its entry with a timer that starts at
    /// `now` and starts it; pause, resume and kill act on the named monitor.
    pub fn handle_msg_at(&mut self, msg: MonitorMessage, now: u64) -> (r: WorkerActions)
        requires
            old(self).wf(),
        ensures
            final(self).wf(),
            final(self).identity() == old(self).identity(),
            final(self)@ == message_step(old(self)@, msg, now),
            r.valid_for(old(self)@.1),
            final(self)@.1 == r.applied_to(old(self)@.1),
            r.stop is Some <==> (!(msg is Resume) && old(self)@.1.contains(message_target(msg))),
            r.stop matches Some(s) ==> s@ == message_target(msg),
            r.start is Some <==> (msg is Create || (msg is Resume && resume_start(
                old(self)@,
                message_target(msg),
            ) is Some)),
            r.start matches Some(w) ==> w.id@ == message_target(msg),
            msg matches MonitorMessage::Create(m) ==> r.start matches Some(w) && w.entry
                == created_entry(m, now),
            msg is Resume ==> (r.start matches Some(w) ==> resume_start(
                old(self)@,
                message_target(msg),
            ) == Some(w.entry)),
    {
        match msg {
            MonitorMessage::Create(m) => {
                let timer = WorkTimer::new_at(m.timing.repeat_secs, now);
                let thresholds = WorkTimeThresholds {
                    healthy: m.timing.healthy,
                    timeout: m.timing.timeout,
                };
                self.executor.create_worker(MonitorId(m.monitor_id), timer, thresholds, m.monitor)
            },
            MonitorMessage::Pause(m) => self.executor.pause_worker(&MonitorId(m.monitor_id)),
            MonitorMessage::Resume(m) => self.executor.resume_worker(&MonitorId(m.monitor_id)),
            MonitorMessage::Kill(m) => self.executor.kill_worker(&MonitorId(m.monitor_id)),
        }
    }

    /// Handles one command at the current time.
    pub fn handle_msg(&mut self, msg: MonitorMessage) -> (r: WorkerActions)
        requires
            old(self).wf(),
        ensures
            final(self).wf(),
            final(self).identity() == old(self).identity(),
            exists|now: u64| final(self)@ == message_step(old(self)@, msg, now),
            r.valid_for(old(self)@.1),
            final(self)@.1 == r.applied_to(old(self)@.1),
    {
        let now = time_now();
        self.handle_msg_at(msg, now)
    }

    /// Handles one delivery from the bus, already acknowledged: a payload that could not be
    /// decoded (`None`) is dropped and changes nothing.
    pub fn handle_delivery_at(&mut self, decoded: Option<MonitorMessage>, now: u64) -> (r:
        WorkerActions)
        requires
            old(self).wf(),
        ensures
            final(self).wf(),
            final(self).identity() == old(self).identity(),
            decoded is None ==> final(self)@ == old(self)@ && r.stop is None && r.start is None,
            decoded matches Some(msg) ==> final(self)@ == message_step(old(self)@, msg, now),
            r.valid_for(old(self)@.1),
            final(self)@.1 == r.applied_to(old(self)@.1),
    {
        match decoded {
            Some(msg) => self.handle_msg_at(msg, now),
            None => {
                let r = WorkerActions { stop: None, start: None };
                proof {
                    assert(r.applied_to(self@.1) =~= self@.1);
                }
                r
            },
        }
    }
}

} // verus!
