use mining_supervisor::status::{
    PoolReport, PoolReporter, ProxyReport, ProxyReporter, Severity,
};
use mining_supervisor::supervision::{
    classify_pool_event, forget_downstream, pool_event_severity, proxy_event_severity, settle_removal,
    supervise_pool_event, supervise_proxy_event, LoopEvent, LoopState, PoolStep, StopCause,
};
use pool_sv2::mining_pool::{Configuration, Pool};
use roles_logic_sv2::utils::Mutex;
use std::sync::Arc;

const POOL_CONFIG: &str = r#"
authority_public_key = "9auqWEzQDVyd2oe1JVGFLMLHZtCo2FFqZwtKA5gd9xbuEu7PH72"
authority_secret_key = "mkDLTBBRxdBv998612qipDYoTK3YUrqLe8uWw7gu3iXbSrn2n"
cert_validity_sec = 3600
listen_address = "127.0.0.1:0"
coinbase_outputs = [
    { output_script_type = "P2WPKH", output_script_value = "036adc3bdf21e6f9a0f0fb0066bf517e5b7909ed1563d6958a10993849a7554075" },
]
pool_signature = "Stratum v2 SRI Pool"
tp_address = "127.0.0.1:8442"
"#;

fn runtime() -> tokio::runtime::Runtime {
    tokio::runtime::Builder::new_current_thread()
        .enable_all()
        .build()
        .unwrap()
}

/// Starts a pool without connections. Must run inside a runtime.
fn start_pool() -> Arc<Mutex<Pool>> {
    let config: Configuration = toml::from_str(POOL_CONFIG).unwrap();
    let (status_tx, _status_rx) = async_channel::unbounded();
    let (_new_template_tx, new_template_rx) = async_channel::bounded(10);
    let (_prev_hash_tx, prev_hash_rx) = async_channel::bounded(10);
    let (solution_tx, _solution_rx) = async_channel::bounded(10);
    let (signal_tx, _signal_rx) = async_channel::bounded(10);
    Pool::start(
        config,
        new_template_rx,
        prev_hash_rx,
        solution_tx,
        signal_tx,
        pool_sv2::status::Sender::DownstreamListener(status_tx),
    )
}

/// Poisons the pool's lock by a task that panics while it holds it.
async fn poison(pool: Arc<Mutex<Pool>>) {
    let holder = tokio::spawn(async move {
        let _ = pool.safe_lock(|_| panic!("a task fails while it holds the pool"));
    });
    assert!(holder.await.is_err());
}

fn healthy(text: &str) -> LoopEvent<PoolReport> {
    LoopEvent::Report(PoolReport::Healthy(text.to_string()))
}

fn dropped(id: u32) -> LoopEvent<PoolReport> {
    LoopEvent::Report(PoolReport::DownstreamInstanceDropped(id))
}

#[test]
fn pool_events_are_classified() {
    assert_eq!(classify_pool_event(&healthy("fine")), PoolStep::Continue);
    assert_eq!(
        classify_pool_event(&LoopEvent::Report(PoolReport::DownstreamShutdown(
            "listener gone".to_string()
        ))),
        PoolStep::Stop(StopCause::DownstreamShutdown)
    );
    assert_eq!(
        classify_pool_event(&LoopEvent::Report(PoolReport::TemplateProviderShutdown(
            "provider gone".to_string()
        ))),
        PoolStep::Stop(StopCause::TemplateProviderShutdown)
    );
    assert_eq!(classify_pool_event(&dropped(7)), PoolStep::RemoveDownstream(7));
    assert_eq!(
        classify_pool_event(&LoopEvent::Interrupted),
        PoolStep::Stop(StopCause::Interrupted)
    );
    assert_eq!(
        classify_pool_event(&LoopEvent::InterruptUnavailable),
        PoolStep::Stop(StopCause::InterruptUnavailable)
    );
    assert_eq!(
        classify_pool_event(&LoopEvent::ReportsClosed),
        PoolStep::Stop(StopCause::ReportsClosed)
    );
}

#[test]
fn removal_decides_whether_the_loop_goes_on() {
    assert_eq!(settle_removal(3, true), LoopState::Running);
    assert_eq!(
        settle_removal(3, false),
        LoopState::Stopped(StopCause::RemovalFailed(3))
    );
    assert_eq!(
        settle_removal(u32::MAX, false),
        LoopState::Stopped(StopCause::RemovalFailed(u32::MAX))
    );
}

#[test]
fn severities_follow_the_kind_of_report() {
    assert_eq!(PoolReport::Healthy("ok".to_string()).severity(), Severity::Info);
    assert_eq!(
        PoolReport::DownstreamInstanceDropped(1).severity(),
        Severity::Warning
    );
    assert_eq!(
        PoolReport::DownstreamShutdown("x".to_string()).severity(),
        Severity::Error
    );
    assert_eq!(
        PoolReport::TemplateProviderShutdown("x".to_string()).severity(),
        Severity::Error
    );
    assert_eq!(ProxyReport::Healthy("ok".to_string()).severity(), Severity::Info);
    assert_eq!(
        ProxyReport::DownstreamShutdown("x".to_string()).severity(),
        Severity::Error
    );
    assert_eq!(
        ProxyReport::BridgeShutdown("x".to_string()).severity(),
        Severity::Error
    );
    assert_eq!(
        ProxyReport::UpstreamShutdown("x".to_string()).severity(),
        Severity::Error
    );
    assert_ne!(PoolReporter::Upstream, PoolReporter::DownstreamListener);
    assert_ne!(ProxyReporter::Upstream, ProxyReporter::Bridge);
}

#[test]
fn events_are_logged_at_their_severity() {
    assert_eq!(pool_event_severity(&healthy("ok")), Severity::Info);
    assert_eq!(pool_event_severity(&dropped(2)), Severity::Warning);
    assert_eq!(
        pool_event_severity(&LoopEvent::Report(PoolReport::DownstreamShutdown(
            "x".to_string()
        ))),
        Severity::Error
    );
    assert_eq!(pool_event_severity(&LoopEvent::Interrupted), Severity::Info);
    assert_eq!(
        pool_event_severity(&LoopEvent::InterruptUnavailable),
        Severity::Error
    );
    assert_eq!(pool_event_severity(&LoopEvent::ReportsClosed), Severity::Error);
    assert_eq!(
        proxy_event_severity(&LoopEvent::Report(ProxyReport::Healthy("ok".to_string()))),
        Severity::Info
    );
    assert_eq!(
        proxy_event_severity(&LoopEvent::Report(ProxyReport::BridgeShutdown(
            "x".to_string()
        ))),
        Severity::Error
    );
    assert_eq!(proxy_event_severity(&LoopEvent::Interrupted), Severity::Info);
    assert_eq!(
        proxy_event_severity(&LoopEvent::InterruptUnavailable),
        Severity::Error
    );
    assert_eq!(proxy_event_severity(&LoopEvent::ReportsClosed), Severity::Error);
}

#[test]
fn proxy_loop_ends_exactly_on_shutdown_reports() {
    let reports = vec![
        ProxyReport::Healthy("one".to_string()),
        ProxyReport::Healthy("two".to_string()),
        ProxyReport::BridgeShutdown("bridge failed".to_string()),
        ProxyReport::Healthy("three".to_string()),
        ProxyReport::UpstreamShutdown("late".to_string()),
    ];
    let mut state = LoopState::Running;
    let mut states = Vec::new();
    for report in reports {
        state = supervise_proxy_event(state, &LoopEvent::Report(report));
        states.push(state);
    }
    assert_eq!(
        states,
        vec![
            LoopState::Running,
            LoopState::Running,
            LoopState::Stopped(StopCause::BridgeShutdown),
            LoopState::Stopped(StopCause::BridgeShutdown),
            LoopState::Stopped(StopCause::BridgeShutdown),
        ]
    );
}

#[test]
fn proxy_loop_stops_for_each_cause() {
    let run = |event: LoopEvent<ProxyReport>| supervise_proxy_event(LoopState::Running, &event);
    assert_eq!(
        run(LoopEvent::Report(ProxyReport::DownstreamShutdown("d".to_string()))),
        LoopState::Stopped(StopCause::DownstreamShutdown)
    );
    assert_eq!(
        run(LoopEvent::Report(ProxyReport::BridgeShutdown("b".to_string()))),
        LoopState::Stopped(StopCause::BridgeShutdown)
    );
    assert_eq!(
        run(LoopEvent::Report(ProxyReport::UpstreamShutdown("u".to_string()))),
        LoopState::Stopped(StopCause::UpstreamShutdown)
    );
    assert_eq!(
        run(LoopEvent::Interrupted),
        LoopState::Stopped(StopCause::Interrupted)
    );
    assert_eq!(
        run(LoopEvent::InterruptUnavailable),
        LoopState::Stopped(StopCause::InterruptUnavailable)
    );
    assert_eq!(
        run(LoopEvent::ReportsClosed),
        LoopState::Stopped(StopCause::ReportsClosed)
    );
    assert_eq!(
        run(LoopEvent::Report(ProxyReport::Healthy("h".to_string()))),
        LoopState::Running
    );
}

#[test]
fn proxy_loop_of_healthy_reports_never_ends() {
    let mut state = LoopState::Running;
    for n in 0..1000 {
        state = supervise_proxy_event(
            state,
            &LoopEvent::Report(ProxyReport::Healthy(format!("report {}", n))),
        );
        assert_eq!(state, LoopState::Running);
    }
}

#[test]
fn pool_loop_ends_exactly_on_shutdown_reports() {
    runtime().block_on(async {
        let pool = start_pool();
        let mut state = LoopState::Running;
        for event in [healthy("a"), dropped(4), healthy("b"), dropped(9)] {
            state = supervise_pool_event(&pool, state, &event);
            assert_eq!(state, LoopState::Running);
        }
        state = supervise_pool_event(
            &pool,
            state,
            &LoopEvent::Report(PoolReport::TemplateProviderShutdown("gone".to_string())),
        );
        assert_eq!(state, LoopState::Stopped(StopCause::TemplateProviderShutdown));
        state = supervise_pool_event(&pool, state, &healthy("too late"));
        assert_eq!(state, LoopState::Stopped(StopCause::TemplateProviderShutdown));
        state = supervise_pool_event(
            &pool,
            state,
            &LoopEvent::Report(PoolReport::DownstreamShutdown("later".to_string())),
        );
        assert_eq!(state, LoopState::Stopped(StopCause::TemplateProviderShutdown));
    });
}

#[test]
fn pool_loop_stops_on_downstream_shutdown() {
    runtime().block_on(async {
        let pool = start_pool();
        let state = supervise_pool_event(
            &pool,
            LoopState::Running,
            &LoopEvent::Report(PoolReport::DownstreamShutdown("listener".to_string())),
        );
        assert_eq!(state, LoopState::Stopped(StopCause::DownstreamShutdown));
        let state = supervise_pool_event(&pool, LoopState::Running, &LoopEvent::Interrupted);
        assert_eq!(state, LoopState::Stopped(StopCause::Interrupted));
        let state =
            supervise_pool_event(&pool, LoopState::Running, &LoopEvent::InterruptUnavailable);
        assert_eq!(state, LoopState::Stopped(StopCause::InterruptUnavailable));
        let state = supervise_pool_event(&pool, LoopState::Running, &LoopEvent::ReportsClosed);
        assert_eq!(state, LoopState::Stopped(StopCause::ReportsClosed));
    });
}

#[test]
fn dropped_connection_is_removed_and_the_loop_goes_on() {
    runtime().block_on(async {
        let pool = start_pool();
        let state = supervise_pool_event(&pool, LoopState::Running, &dropped(1));
        assert_eq!(state, LoopState::Running);
        let state = supervise_pool_event(&pool, state, &healthy("still here"));
        assert_eq!(state, LoopState::Running);
        assert!(pool.safe_lock(|_| ()).is_ok());
    });
}

#[test]
fn forgetting_a_connection_leaves_the_pool_usable() {
    runtime().block_on(async {
        let pool = start_pool();
        assert!(pool.safe_lock(|p| forget_downstream(p, 1)).is_ok());
        assert!(pool.safe_lock(|p| forget_downstream(p, 1)).is_ok());
        let state = supervise_pool_event(&pool, LoopState::Running, &dropped(1));
        assert_eq!(state, LoopState::Running);
    });
}

#[test]
fn failed_removal_ends_the_loop() {
    runtime().block_on(async {
        let pool = start_pool();
        poison(pool.clone()).await;
        let state = supervise_pool_event(&pool, LoopState::Running, &healthy("before"));
        assert_eq!(state, LoopState::Running);
        let state = supervise_pool_event(&pool, state, &dropped(5));
        assert_eq!(state, LoopState::Stopped(StopCause::RemovalFailed(5)));
        let state = supervise_pool_event(&pool, state, &healthy("after"));
        assert_eq!(state, LoopState::Stopped(StopCause::RemovalFailed(5)));
    });
}

#[test]
fn stopped_pool_loop_removes_nothing() {
    runtime().block_on(async {
        let pool = start_pool();
        poison(pool.clone()).await;
        let stopped = LoopState::Stopped(StopCause::Interrupted);
        assert_eq!(supervise_pool_event(&pool, stopped, &dropped(5)), stopped);
    });
}
