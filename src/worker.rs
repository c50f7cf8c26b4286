use vstd::prelude::*;

use crate::clock::time_now;
use crate::config::{
    HttpMonitorConfiguration, HttpsMonitorConfiguration, MonitorConfiguration, MonitorType,
    PingMonitorConfiguration, TcpMonitorConfiguration, UdpMonitorConfiguration,
};
use crate::timer::WorkTimer;

verus! {

/// The outcome of one probe run.
#[derive(Debug)]
pub struct MonitorReport {
    pub monitor_type: MonitorType,
    pub exec_time: u64,
}

/// A failed probe run.
#[derive(Debug)]
pub struct WorkerError {}

/// Thresholds handed to each probe run; advisory, no decision reads them.
#[derive(Debug, Clone, Copy, PartialEq, Eq, Structural)]
pub struct WorkTimeThresholds {
    pub healthy: u32,
    pub timeout: u32,
}

/// Identity of a monitored target.
#[derive(Debug, Hash, Eq)]
pub struct MonitorId(pub String);

impl MonitorId {
    pub open spec fn view(&self) -> Seq<char> {
        self.0@
    }
}

impl Clone for MonitorId {
    fn clone(&self) -> (r: Self)
        ensures
            r == *self,
    {
        MonitorId(self.0.clone())
    }
}

impl PartialEq for MonitorId {
    fn eq(&self, o: &MonitorId) -> (r: bool)
        ensures
            r == (self@ == o@),
    {
        self.0 == o.0
    }
}

impl vstd::std_specs::cmp::PartialEqSpecImpl for MonitorId {
    open spec fn obeys_eq_spec() -> bool {
        true
    }

    open spec fn eq_spec(&self, o: &MonitorId) -> bool {
        self@ == o@
    }
}

/// A probe strategy: runs one health check on its configuration.
pub trait MonitorWorker {
    type Config;

    /// The kind that a successful run of this strategy reports.
    spec fn probe_kind() -> MonitorType;

    fn execute(config: &Self::Config, thresholds: &WorkTimeThresholds) -> (r: Result<
        MonitorReport,
        WorkerError,
    >)
        ensures
            r is Ok ==> r->Ok_0.monitor_type == Self::probe_kind(),
    ;
}

pub struct PingMonitorWorker;

impl MonitorWorker for PingMonitorWorker {
    type Config = PingMonitorConfiguration;

    open spec fn probe_kind() -> MonitorType {
        MonitorType::Ping
    }

    fn execute(_config: &PingMonitorConfiguration, _thresholds: &WorkTimeThresholds) -> (r: Result<
        MonitorReport,
        WorkerError,
    >) {
        Ok(MonitorReport { monitor_type: MonitorType::Ping, exec_time: time_now() })
    }
}

pub struct HttpMonitorWorker;

impl MonitorWorker for HttpMonitorWorker {
    type Config = HttpMonitorConfiguration;

    open spec fn probe_kind() -> MonitorType {
        MonitorType::Http
    }

    fn execute(_config: &HttpMonitorConfiguration, _thresholds: &WorkTimeThresholds) -> (r: Result<
        MonitorReport,
        WorkerError,
    >) {
        Ok(MonitorReport { monitor_type: MonitorType::Http, exec_time: time_now() })
    }
}

pub struct HttpsMonitorWorker;

impl MonitorWorker for HttpsMonitorWorker {
    type Config = HttpsMonitorConfiguration;

    open spec fn probe_kind() -> MonitorType {
        MonitorType::Https
    }

    fn execute(_config: &HttpsMonitorConfiguration, _thresholds: &WorkTimeThresholds) -> (r:
        Result<MonitorReport, WorkerError>) {
        Ok(MonitorReport { monitor_type: MonitorType::Https, exec_time: time_now() })
    }
}

pub struct TcpMonitorWorker;

impl MonitorWorker for TcpMonitorWorker {
    type Config = TcpMonitorConfiguration;

    open spec fn probe_kind() -> MonitorType {
        MonitorType::Tcp
    }

    fn execute(_config: &TcpMonitorConfiguration, _thresholds: &WorkTimeThresholds) -> (r: Result<
        MonitorReport,
        WorkerError,
    >) {
        Ok(MonitorReport { monitor_type: MonitorType::Tcp, exec_time: time_now() })
    }
}

pub struct UdpMonitorWorker;

impl MonitorWorker for UdpMonitorWorker {
    type Config = UdpMonitorConfiguration;

    open spec fn probe_kind() -> MonitorType {
        MonitorType::Udp
    }

    fn execute(_config: &UdpMonitorConfiguration, _thresholds: &WorkTimeThresholds) -> (r: Result<
        MonitorReport,
        WorkerError,
    >) {
        Ok(MonitorReport { monitor_type: MonitorType::Udp, exec_time: time_now() })
    }
}

/// Runs the probe strategy that matches the configuration's variant.
pub fn execute_probe(config: &MonitorConfiguration, thresholds: &WorkTimeThresholds) -> (r: Result<
    MonitorReport,
    WorkerError,
>)
    ensures
        r is Ok ==> r->Ok_0.monitor_type == config.kind(),
{
    match config {
        MonitorConfiguration::Ping(c) => PingMonitorWorker::execute(c, thresholds),
        MonitorConfiguration::Http(c) => HttpMonitorWorker::execute(c, thresholds),
        MonitorConfiguration::Https(c) => HttpsMonitorWorker::execute(c, thresholds),
        MonitorConfiguration::Tcp(c) => TcpMonitorWorker::execute(c, thresholds),
        MonitorConfiguration::Udp(c) => UdpMonitorWorker::execute(c, thresholds),
    }
}

/// One check of an execution context at time `now`: when the timer is due, the run is recorded
/// first and then the matching probe is run; otherwise nothing happens.
pub fn run_tick(
    timer: &mut WorkTimer,
    now: u64,
    config: &MonitorConfiguration,
    thresholds: &WorkTimeThresholds,
) -> (r: Option<Result<MonitorReport, WorkerError>>)
    ensures
        r is Some <==> old(timer).due_at(now),
        old(timer).due_at(now) ==> *final(timer) == old(timer).saved_at(now),
        !old(timer).due_at(now) ==> *final(timer) == *old(timer),
        r matches Some(Ok(rep)) ==> rep.monitor_type == config.kind(),
{
    if timer.should_run_at(now) {
        timer.save_execution_at(now);
        Some(execute_probe(config, thresholds))
    } else {
        None
    }
}

/// Dispatch is total and exact: a configuration reports the kind of its own variant and no
/// other, and every kind of monitor is reached by some configuration.
pub proof fn lemma_dispatch_total(c: MonitorConfiguration, t: MonitorType)
    ensures
        c.kind() == MonitorType::Ping <==> c is Ping,
        c.kind() == MonitorType::Http <==> c is Http,
        c.kind() == MonitorType::Https <==> c is Https,
        c.kind() == MonitorType::Tcp <==> c is Tcp,
        c.kind() == MonitorType::Udp <==> c is Udp,
        exists|d: MonitorConfiguration| #[trigger] d.kind() == t,
{
    let d = match t {
        MonitorType::Ping => MonitorConfiguration::Ping(arbitrary()),
        MonitorType::Http => MonitorConfiguration::Http(arbitrary()),
        MonitorType::Https => MonitorConfiguration::Https(arbitrary()),
        MonitorType::Tcp => MonitorConfiguration::Tcp(arbitrary()),
        MonitorType::Udp => MonitorConfiguration::Udp(arbitrary()),
    };
    assert(d.kind() == t);
}

} // verus!
