use monitor_worker::config::{
    HttpMonitorConfiguration, HttpsMonitorConfiguration, MonitorConfiguration, MonitorType,
    PingMonitorConfiguration, TcpMonitorConfiguration, UdpMonitorConfiguration,
};
use monitor_worker::executor::{CacheEntry, WorkerActions, WorkerExecutor};
use monitor_worker::server::{
    consumer_name, subscription_name, topic, CreateMonitorMessage, MonitorMessage, MonitorTiming,
    TargetMessage, WorkerInformation, WorkerServer,
};
use monitor_worker::timer::WorkTimer;
use monitor_worker::worker::{execute_probe, run_tick, MonitorId, WorkTimeThresholds};

fn ping(host: &str) -> MonitorConfiguration {
    MonitorConfiguration::Ping(PingMonitorConfiguration { host: host.to_string() })
}

fn tcp(host: &str, port: u16) -> MonitorConfiguration {
    MonitorConfiguration::Tcp(TcpMonitorConfiguration {
        host: host.to_string(),
        port,
        send: None,
        receive: None,
    })
}

fn thresholds() -> WorkTimeThresholds {
    WorkTimeThresholds { healthy: 5, timeout: 10 }
}

fn no_actions(a: &WorkerActions) -> bool {
    a.stop.is_none() && a.start.is_none()
}

/// Runs one polling check of a started context at `now`, returning the reported kind if it ran.
fn tick(entry: &mut CacheEntry, now: u64) -> Option<MonitorType> {
    let outcome = run_tick(&mut entry.timer, now, &entry.config, &entry.thresholds);
    outcome.map(|r| r.expect("stub probes succeed").monitor_type)
}

#[test]
fn test_main() {
    let mut executor = WorkerExecutor::new();

    let id1 = MonitorId("worker-1".to_string());
    let timer1 = WorkTimer::new_at(5, 1000);
    let id2 = MonitorId("worker-2".to_string());
    let timer2 = WorkTimer::new_at(10, 1015);

    let a = executor.create_worker(id1.clone(), timer1, thresholds(), ping("test"));
    assert!(a.stop.is_none());
    let mut ctx1 = a.start.expect("worker-1 starts").entry;
    assert_eq!(tick(&mut ctx1, 1004), None);
    assert_eq!(tick(&mut ctx1, 1005), Some(MonitorType::Ping));

    let a = executor.create_worker(id2.clone(), timer2, thresholds(), tcp("test", 4000));
    let mut ctx2 = a.start.expect("worker-2 starts").entry;
    assert_eq!(tick(&mut ctx2, 1025), Some(MonitorType::Tcp));

    let a = executor.pause_worker(&id1);
    assert_eq!(a.stop, Some(id1.clone()));
    assert!(a.start.is_none());
    assert!(executor.is_registered(&id1));
    assert!(!executor.is_running(&id1));

    let a = executor.resume_worker(&id1);
    let resumed = a.start.expect("worker-1 resumes").entry;
    assert_eq!(resumed.timer.last_execution, 1000);

    let a = executor.kill_worker(&id2);
    assert_eq!(a.stop, Some(id2.clone()));
    assert!(!executor.is_registered(&id2));

    let a = executor.kill_worker(&id1);
    assert_eq!(a.stop, Some(id1.clone()));
    assert!(!executor.is_registered(&id1));
    assert!(!executor.is_running(&id1));
}

#[test]
fn timer_boundary_is_due() {
    let t = WorkTimer::new_at(5, 100);
    assert!(!t.should_run_at(104));
    assert!(t.should_run_at(105));
    assert!(t.should_run_at(200));
}

#[test]
fn timer_not_due_right_after_save() {
    let mut t = WorkTimer::new_at(5, 100);
    t.save_execution_at(120);
    assert_eq!(t.last_execution, 120);
    assert!(!t.should_run_at(120));
    assert!(!t.should_run_at(124));
    assert!(t.should_run_at(125));
}

#[test]
fn timer_clock_going_back_is_not_due_and_keeps_last_run() {
    let mut t = WorkTimer::new_at(5, 100);
    assert!(!t.should_run_at(50));
    t.save_execution_at(50);
    assert_eq!(t.last_execution, 100);
    assert_eq!(t.period_secs, 5);
}

#[test]
fn timer_zero_period_always_due() {
    let mut t = WorkTimer::new(0);
    assert!(t.should_run());
    t.save_execution();
    assert!(t.should_run());
}

#[test]
fn timer_new_reads_clock() {
    let t = WorkTimer::new(7);
    assert_eq!(t.period_secs, 7);
    assert!(t.last_execution > 0);
    assert!(!t.should_run_at(t.last_execution));
}

#[test]
fn pause_resume_restores_stale_timer() {
    let mut executor = WorkerExecutor::new();
    let id = MonitorId("m".to_string());
    let a = executor.create_worker(id.clone(), WorkTimer::new_at(5, 10), thresholds(), ping("h"));
    let mut ctx = a.start.unwrap().entry;
    assert_eq!(tick(&mut ctx, 15), Some(MonitorType::Ping));
    assert_eq!(ctx.timer.last_execution, 15);

    let a = executor.pause_worker(&id);
    assert_eq!(a.stop, Some(id.clone()));
    let a = executor.resume_worker(&id);
    assert!(a.stop.is_none());
    let start = a.start.unwrap();
    assert_eq!(start.id, id);
    assert_eq!(start.entry.timer, WorkTimer::new_at(5, 10));
    assert_eq!(start.entry.thresholds, thresholds());
    let mut ctx = start.entry;
    assert_eq!(tick(&mut ctx, 100), Some(MonitorType::Ping));
    let stored = executor.entry(&id).unwrap();
    assert_eq!(stored.timer.last_execution, 10);
    assert!(executor.is_running(&id));
}

#[test]
fn kill_then_resume_is_no_op() {
    let mut executor = WorkerExecutor::new();
    let id = MonitorId("m".to_string());
    executor.create_worker(id.clone(), WorkTimer::new_at(5, 0), thresholds(), ping("h"));
    let a = executor.kill_worker(&id);
    assert_eq!(a.stop, Some(id.clone()));
    assert!(a.start.is_none());
    let a = executor.resume_worker(&id);
    assert!(no_actions(&a));
    assert!(!executor.is_registered(&id));
    assert!(!executor.is_running(&id));
    assert!(executor.entry(&id).is_none());
}

#[test]
fn unknown_id_operations_change_nothing() {
    let mut executor = WorkerExecutor::new();
    let known = MonitorId("known".to_string());
    let unknown = MonitorId("unknown".to_string());
    executor.create_worker(known.clone(), WorkTimer::new_at(5, 0), thresholds(), ping("h"));
    assert!(no_actions(&executor.pause_worker(&unknown)));
    assert!(no_actions(&executor.resume_worker(&unknown)));
    assert!(no_actions(&executor.kill_worker(&unknown)));
    assert!(!executor.is_registered(&unknown));
    assert!(executor.is_registered(&known));
    assert!(executor.is_running(&known));
}

#[test]
fn kill_of_paused_monitor_stops_nothing() {
    let mut executor = WorkerExecutor::new();
    let id = MonitorId("m".to_string());
    executor.create_worker(id.clone(), WorkTimer::new_at(5, 0), thresholds(), ping("h"));
    executor.pause_worker(&id);
    assert!(no_actions(&executor.pause_worker(&id)));
    assert!(no_actions(&executor.kill_worker(&id)));
    assert!(!executor.is_registered(&id));
}

#[test]
fn create_on_running_monitor_restarts_it() {
    let mut executor = WorkerExecutor::new();
    let id = MonitorId("m".to_string());
    executor.create_worker(id.clone(), WorkTimer::new_at(5, 0), thresholds(), ping("h"));
    let a = executor.create_worker(id.clone(), WorkTimer::new_at(9, 50), thresholds(), tcp("t", 1));
    assert_eq!(a.stop, Some(id.clone()));
    let start = a.start.unwrap();
    assert_eq!(start.entry.timer.period_secs, 9);
    assert_eq!(start.entry.config.monitor_type(), MonitorType::Tcp);
    assert_eq!(executor.entry(&id).unwrap().timer.last_execution, 50);
}

#[test]
fn resume_of_running_monitor_is_no_op() {
    let mut executor = WorkerExecutor::new();
    let id = MonitorId("m".to_string());
    executor.create_worker(id.clone(), WorkTimer::new_at(5, 0), thresholds(), ping("h"));
    assert!(no_actions(&executor.resume_worker(&id)));
    assert!(executor.is_running(&id));
}

#[test]
fn dispatch_reports_each_kind() {
    let configs = vec![
        (ping("p"), MonitorType::Ping),
        (
            MonitorConfiguration::Http(HttpMonitorConfiguration { url: "http://x".to_string() }),
            MonitorType::Http,
        ),
        (
            MonitorConfiguration::Https(HttpsMonitorConfiguration { url: "https://x".to_string() }),
            MonitorType::Https,
        ),
        (tcp("t", 80), MonitorType::Tcp),
        (
            MonitorConfiguration::Udp(UdpMonitorConfiguration {
                host: "u".to_string(),
                port: 53,
                send: Some("q".to_string()),
                receive: None,
            }),
            MonitorType::Udp,
        ),
    ];
    for (config, kind) in configs {
        assert_eq!(config.monitor_type(), kind);
        let report = execute_probe(&config, &thresholds()).unwrap();
        assert_eq!(report.monitor_type, kind);
        assert!(report.exec_time > 0);
    }
}

#[test]
fn end_to_end_ping_scenario() {
    let mut server = WorkerServer::new(WorkerExecutor::new(), WorkerInformation::initialize());
    let create = MonitorMessage::Create(CreateMonitorMessage {
        monitor_id: "m1".to_string(),
        timing: MonitorTiming { repeat_secs: 5, healthy: 5, timeout: 10 },
        monitor: ping("test"),
    });
    let a = server.handle_msg_at(create, 0);
    let mut ctx = a.start.expect("m1 starts").entry;
    assert_eq!(tick(&mut ctx, 4), None);
    assert_eq!(tick(&mut ctx, 5), Some(MonitorType::Ping));

    let pause = MonitorMessage::Pause(TargetMessage { monitor_id: "m1".to_string() });
    let a = server.handle_msg_at(pause, 6);
    assert_eq!(a.stop, Some(MonitorId("m1".to_string())));
    assert!(a.start.is_none());

    let resume = MonitorMessage::Resume(TargetMessage { monitor_id: "m1".to_string() });
    let a = server.handle_msg_at(resume, 30);
    let mut ctx = a.start.expect("m1 resumes").entry;
    assert_eq!(ctx.timer.last_execution, 0);
    assert_eq!(tick(&mut ctx, 30), Some(MonitorType::Ping));

    let kill = MonitorMessage::Kill(TargetMessage { monitor_id: "m1".to_string() });
    let a = server.handle_msg_at(kill, 31);
    assert_eq!(a.stop, Some(MonitorId("m1".to_string())));
    let resume = MonitorMessage::Resume(TargetMessage { monitor_id: "m1".to_string() });
    let a = server.handle_msg_at(resume, 40);
    assert!(no_actions(&a));
    let id = MonitorId("m1".to_string());
    assert!(!server.executor().is_registered(&id));
    assert!(!server.executor().is_running(&id));
}

#[test]
fn create_message_maps_fields() {
    let mut server = WorkerServer::new(WorkerExecutor::new(), WorkerInformation::initialize());
    let create = MonitorMessage::Create(CreateMonitorMessage {
        monitor_id: "m2".to_string(),
        timing: MonitorTiming { repeat_secs: 30, healthy: 7, timeout: 9 },
        monitor: tcp("host", 4000),
    });
    let a = server.handle_delivery_at(Some(create), 77);
    let start = a.start.unwrap();
    assert_eq!(start.id, MonitorId("m2".to_string()));
    assert_eq!(start.entry.timer, WorkTimer::new_at(30, 77));
    assert_eq!(start.entry.thresholds, WorkTimeThresholds { healthy: 7, timeout: 9 });
    assert_eq!(start.entry.config.monitor_type(), MonitorType::Tcp);
}

#[test]
fn undecodable_delivery_is_dropped() {
    let mut server = WorkerServer::new(WorkerExecutor::new(), WorkerInformation::initialize());
    let a = server.handle_delivery_at(None, 5);
    assert!(no_actions(&a));
    let a = server.handle_msg(MonitorMessage::Kill(TargetMessage { monitor_id: "x".to_string() }));
    assert!(no_actions(&a));
}

#[test]
fn worker_identity_and_bus_names() {
    let info = WorkerInformation::initialize();
    assert_eq!(info.get(), "worker-1");
    let server = WorkerServer::new(WorkerExecutor::new(), info);
    assert_eq!(server.worker_id(), "worker-1");
    assert_eq!(topic("monitor", "worker-1"), "monitor-worker-1");
    assert_eq!(consumer_name("worker-7"), "consumer-worker-7");
    assert_eq!(subscription_name("w"), "subscription-w");
}
