use iroh_http_server::barrier::StreamAdmissionBarrier;
use iroh_http_server::connection::{
    report_request_join, serve_connection, Admitted, ConnectionServeResult,
    ConnectionServeRuntime, LoopStep, SelectEvent, SelectOutcome, ServedConnection, ShutdownDrain,
    ShutdownStart, ShutdownStep,
};
use iroh_http_server::error::ConnectionServeError;
use iroh_http_server::identity::EndpointId;
use iroh_http_server::options::ConnectionServeOptions;
use iroh_http_server::state::{ConnectionServeEnd, ServeShared};
use iroh_http_server::time::{Clock, Duration, Moment};
use std::sync::atomic::{AtomicUsize, Ordering};
use std::sync::Arc;
use tower::{Layer, Service, ServiceExt};

const ALPN: &[u8] = b"http";

fn peer(n: u8) -> EndpointId {
    EndpointId::from_bytes([n; 32])
}

fn at(millis: u128) -> Moment {
    Moment::from_nanos(millis * 1_000_000).expect("representable")
}

fn runtime(options: ConnectionServeOptions) -> (ConnectionServeRuntime, ServeShared) {
    ConnectionServeRuntime::new(options).expect("valid runtime")
}

fn taken(rt: &mut ConnectionServeRuntime, shared: &mut ServeShared, n: u8) -> Admitted {
    rt.serve_connection(shared, ALPN, ALPN, peer(n))
        .expect("admitted")
}

fn draining(rt: &mut ConnectionServeRuntime, now: Moment) -> ShutdownDrain {
    match rt.shutdown_at(now, true) {
        ShutdownStart::Draining(drain) => drain,
        ShutdownStart::Finished(outcome) => panic!("already finished with {outcome}"),
    }
}

fn tokio_runtime() -> tokio::runtime::Runtime {
    tokio::runtime::Builder::new_current_thread()
        .enable_time()
        .build()
        .expect("runtime")
}

fn failed_task() -> tokio::task::JoinError {
    tokio_runtime().block_on(async {
        let task = tokio::spawn(async {
            std::future::pending::<()>().await;
        });
        task.abort();
        task.await.expect_err("aborted task")
    })
}

fn leave(
    rt: &mut ConnectionServeRuntime,
    shared: &mut ServeShared,
    connection: &mut ServedConnection,
) {
    let outcome = rt.on_select(shared, connection, SelectEvent::StreamsEnded);
    assert!(matches!(outcome, SelectOutcome::Leave(None)));
}

#[test]
fn shutdown_barrier_rejects_a_stream_after_its_early_observation() {
    let mut barrier = StreamAdmissionBarrier::new();
    let mut requests: usize = 0;
    let mut deliveries: usize = 0;
    assert!(!barrier.is_stopped());
    barrier.stop();
    assert!(!barrier.try_admit(&mut requests, &mut deliveries));
    assert_eq!(requests, 0);
    assert_eq!(deliveries, 0);
}

#[test]
fn barrier_counts_a_stream_twice() {
    let barrier = StreamAdmissionBarrier::new();
    let mut requests: usize = 3;
    let mut deliveries: usize = 5;
    assert!(barrier.try_admit(&mut requests, &mut deliveries));
    assert_eq!((requests, deliveries), (4, 6));
}

#[test]
fn invalid_options_build_no_runtime() {
    let mut options = ConnectionServeOptions::default();
    options.max_concurrency = usize::MAX;
    assert!(matches!(
        ConnectionServeRuntime::new(options),
        Err(ConnectionServeError::InvalidOptions {
            option: "max_concurrency",
            reason: "exceeds Tokio's semaphore permit limit",
        })
    ));
}

#[test]
fn concurrency_layer_has_the_configured_permits() {
    let mut options = ConnectionServeOptions::default();
    options.max_concurrency = 2;
    let (rt, _) = runtime(options);
    let service = || tower::service_fn(|_: ()| async { Ok::<(), std::convert::Infallible>(()) });
    tokio_runtime().block_on(async {
        // Services layered apart share the permits of one layer value.
        let mut first = rt.concurrency().layer(service());
        let mut second = rt.concurrency().layer(service());
        let mut third = rt.concurrency().clone().layer(service());
        first.ready().await.expect("first permit");
        second.ready().await.expect("second permit");
        let wait = tokio::time::timeout(std::time::Duration::from_millis(20), third.ready()).await;
        assert!(wait.is_err(), "a third permit was given");
        first.call(()).await.expect("request");
        third.ready().await.expect("a permit was returned");
    });
}

#[test]
fn connections_of_one_runtime_share_one_concurrency_limit() {
    let mut options = ConnectionServeOptions::default();
    options.max_concurrency = 1;
    let (mut rt, mut shared) = runtime(options);
    let (mut other, mut other_shared) = runtime(options);
    let calls = Arc::new(AtomicUsize::new(0));
    let release = Arc::new(tokio::sync::Notify::new());
    let service = {
        let calls = Arc::clone(&calls);
        let release = Arc::clone(&release);
        tower::service_fn(move |_: &'static str| {
            calls.fetch_add(1, Ordering::Relaxed);
            let release = Arc::clone(&release);
            async move {
                release.notified().await;
                Ok::<&'static str, std::convert::Infallible>("done")
            }
        })
    };

    // The layer is fetched after each admission, and after other calls.
    let mut a = taken(&mut rt, &mut shared, 1);
    let on_a = rt.concurrency().clone();
    rt.on_select(&mut shared, &mut a.connection, SelectEvent::StreamAccepted);
    let b = taken(&mut rt, &mut shared, 2);
    let on_b = rt.concurrency().clone();
    rt.release(&mut shared, b.tracker);
    taken(&mut rt, &mut shared, 3);
    let on_c = rt.concurrency().clone();
    taken(&mut other, &mut other_shared, 1);
    let elsewhere = other.concurrency().clone();

    let shed = tower::load_shed::LoadShedLayer::new();
    tokio_runtime().block_on(async {
        let mut hold = on_a.layer(service.clone());
        hold.ready().await.expect("the only permit");
        let held = hold.call("/hold");
        assert_eq!(calls.load(Ordering::Relaxed), 1);
        for layer in [on_b, on_c] {
            let refused = shed
                .layer(layer.layer(service.clone()))
                .oneshot("/shed")
                .await
                .expect_err("the permit is held on the first connection");
            assert!(refused.is::<tower::load_shed::error::Overloaded>());
        }
        assert_eq!(calls.load(Ordering::Relaxed), 1);
        // Another runtime has a permit of its own.
        release.notify_one();
        let own = elsewhere.layer(service).oneshot("/own").await;
        assert_eq!(own.expect("served"), "done");
        assert_eq!(calls.load(Ordering::Relaxed), 2);
        release.notify_one();
        assert_eq!(held.await.expect("served"), "done");
    });
}

#[test]
fn another_protocol_never_counts() {
    let (mut rt, mut shared) = runtime(ConnectionServeOptions::default());
    let refusal = rt
        .serve_connection(&mut shared, b"http-duplex", ALPN, peer(1))
        .err()
        .expect("refused");
    assert!(matches!(
        refusal.error,
        ConnectionServeError::UnexpectedAlpn { actual } if actual == b"http-duplex"
    ));
    assert_eq!(shared, ServeShared::new());
}

#[test]
fn total_connections_are_shared() {
    let mut options = ConnectionServeOptions::default();
    options.max_total_connections = 1;
    let (mut rt, mut shared) = runtime(options);
    let first = taken(&mut rt, &mut shared, 1);
    assert!(first.event.expect("first connection").connected);
    let refusal = rt
        .serve_connection(&mut shared, ALPN, ALPN, peer(2))
        .err()
        .expect("refused");
    assert!(matches!(
        refusal.error,
        ConnectionServeError::TotalConnectionLimitReached { maximum: 1 }
    ));
    assert_eq!(refusal.close.expect("closed").reason, "server at capacity");
    assert_eq!(shared.connections, 1);

    let gone = rt.release(&mut shared, first.tracker).expect("last");
    assert!(!gone.connected);
    assert_eq!(gone.peer_id, *first.node_id.0);
    assert!(rt
        .serve_connection(&mut shared, ALPN, ALPN, peer(2))
        .is_ok());
}

#[test]
fn connections_of_one_peer_are_bounded() {
    let mut options = ConnectionServeOptions::default();
    options.max_connections_per_peer = 2;
    let (mut rt, mut shared) = runtime(options);
    taken(&mut rt, &mut shared, 1);
    taken(&mut rt, &mut shared, 1);
    let refusal = rt
        .serve_connection(&mut shared, ALPN, ALPN, peer(1))
        .err()
        .expect("refused");
    assert!(matches!(
        refusal.error,
        ConnectionServeError::PeerConnectionLimitReached { maximum: 2 }
    ));
    let close = refusal.close.expect("closed");
    assert_eq!((close.code, close.reason), (0, "too many peer connections"));
    taken(&mut rt, &mut shared, 2);
    assert_eq!(shared.connections, 3);
}

#[test]
fn an_admitted_connection_carries_its_plan_and_identity() {
    let (mut rt, mut shared) = runtime(ConnectionServeOptions::default());
    let admitted = taken(&mut rt, &mut shared, 0);
    assert_eq!(admitted.plan, ConnectionServeOptions::default().request_plan());
    assert_eq!(admitted.endpoint_id.0, peer(0));
    assert_eq!(*admitted.node_id.0, "a".repeat(52));
    assert_eq!(*rt.options(), ConnectionServeOptions::default());
}

#[test]
fn an_idle_connection_is_closed() {
    let mut options = ConnectionServeOptions::default();
    options.connection_idle_timeout = Duration::from_millis(50);
    let (mut rt, mut shared) = runtime(options);
    let mut connection = taken(&mut rt, &mut shared, 1).connection;
    assert!(matches!(
        rt.next_step(&shared, &mut connection),
        LoopStep::Select { watch_requests: false, idle: Some(idle) } if idle == Duration::from_millis(50)
    ));
    match rt.on_select(&mut shared, &mut connection, SelectEvent::Idle) {
        SelectOutcome::Leave(Some(close)) => {
            assert_eq!(close.code, 0);
            assert_eq!(close.reason, "HTTP connection idle timeout");
        }
        _ => panic!("an idle connection must be closed"),
    }
    assert!(!rt.abort_requests(&shared));
    assert_eq!(
        rt.result(&shared, &connection),
        ConnectionServeResult {
            end: ConnectionServeEnd::IdleTimeout,
            drained: true
        }
    );
}

#[test]
fn a_request_keeps_its_connection_from_being_idle() {
    let (mut rt, mut shared) = runtime(ConnectionServeOptions::default());
    let mut connection = taken(&mut rt, &mut shared, 1).connection;
    let outcome = rt.on_select(&mut shared, &mut connection, SelectEvent::StreamAccepted);
    let (mut request, mut delivery) = match outcome {
        SelectOutcome::Spawn(request, delivery) => (request, delivery),
        _ => panic!("the stream must be served"),
    };
    assert_eq!(shared.requests, 1);
    assert!(matches!(
        rt.next_step(&shared, &mut connection),
        LoopStep::Select {
            watch_requests: true,
            idle: None
        }
    ));
    ConnectionServeRuntime::finish_request(&mut shared, &mut request);
    assert_eq!(shared.requests, 0);
    assert!(rt.finish_delivery(&mut delivery));
    let outcome = rt.on_select(
        &mut shared,
        &mut connection,
        SelectEvent::RequestJoined(Some(Ok(()))),
    );
    assert!(matches!(outcome, SelectOutcome::Continue { report: false }));
    assert!(matches!(
        rt.next_step(&shared, &mut connection),
        LoopStep::Select { idle: Some(_), .. }
    ));
    leave(&mut rt, &mut shared, &mut connection);
    assert_eq!(
        rt.result(&shared, &connection),
        ConnectionServeResult {
            end: ConnectionServeEnd::PeerClosed,
            drained: true
        }
    );
}

#[test]
fn failed_request_tasks_are_reported() {
    assert!(!report_request_join(&None));
    assert!(!report_request_join(&Some(Ok(()))));
    assert!(report_request_join(&Some(Err(failed_task()))));

    let (mut rt, mut shared) = runtime(ConnectionServeOptions::default());
    let mut connection = taken(&mut rt, &mut shared, 1).connection;
    for _ in 0..2 {
        rt.on_select(&mut shared, &mut connection, SelectEvent::StreamAccepted);
    }
    let outcome = rt.on_select(
        &mut shared,
        &mut connection,
        SelectEvent::RequestJoined(Some(Err(failed_task()))),
    );
    assert!(matches!(outcome, SelectOutcome::Continue { report: true }));
    leave(&mut rt, &mut shared, &mut connection);
    assert!(ConnectionServeRuntime::on_join(
        &mut connection,
        Some(Err(failed_task()))
    ));
    assert_eq!(
        rt.result(&shared, &connection).end,
        ConnectionServeEnd::PeerClosed
    );
}

#[test]
fn a_wake_up_without_a_change_changes_nothing() {
    let (mut rt, mut shared) = runtime(ConnectionServeOptions::default());
    let mut connection = taken(&mut rt, &mut shared, 1).connection;
    let outcome = rt.on_select(&mut shared, &mut connection, SelectEvent::Closing);
    assert!(matches!(outcome, SelectOutcome::Continue { report: false }));
    assert!(matches!(
        rt.next_step(&shared, &mut connection),
        LoopStep::Select { .. }
    ));
}

#[test]
fn graceful_shutdown_drains_then_closes() {
    let (mut rt, mut shared) = runtime(ConnectionServeOptions::default());
    let mut admitted = taken(&mut rt, &mut shared, 1);
    let outcome = rt.on_select(
        &mut shared,
        &mut admitted.connection,
        SelectEvent::StreamAccepted,
    );
    let (mut request, mut delivery) = match outcome {
        SelectOutcome::Spawn(request, delivery) => (request, delivery),
        _ => panic!("the stream must be served"),
    };

    let mut drain = draining(&mut rt, at(1_000));
    // From now on a stream is let go of, uncounted.
    let outcome = rt.on_select(
        &mut shared,
        &mut admitted.connection,
        SelectEvent::StreamAccepted,
    );
    assert!(matches!(outcome, SelectOutcome::DropStream));
    assert_eq!(shared.requests, 1);
    assert!(matches!(
        rt.next_step(&shared, &mut admitted.connection),
        LoopStep::AwaitClose
    ));

    assert_eq!(
        rt.poll_shutdown_at(&mut shared, &mut drain, at(1_500)),
        ShutdownStep::WaitForDeliveries(Duration::from_millis(29_500))
    );
    ConnectionServeRuntime::finish_request(&mut shared, &mut request);
    assert!(rt.finish_delivery(&mut delivery), "the drain must be woken");
    assert_eq!(
        rt.poll_shutdown_at(&mut shared, &mut drain, at(2_000)),
        ShutdownStep::NotifyClose
    );
    assert!(shared.close_flag);
    assert_eq!(
        rt.poll_shutdown_at(&mut shared, &mut drain, at(2_000)),
        ShutdownStep::WaitForConnections(Duration::from_millis(29_000))
    );

    match rt.next_step(&shared, &mut admitted.connection) {
        LoopStep::Close(close) => assert_eq!(close.reason, "HTTP serve runtime stopped"),
        _ => panic!("the connection must be closed"),
    }
    assert!(!rt.abort_requests(&shared));
    assert!(!ConnectionServeRuntime::on_join(
        &mut admitted.connection,
        Some(Ok(()))
    ));
    assert_eq!(
        rt.result(&shared, &admitted.connection),
        ConnectionServeResult {
            end: ConnectionServeEnd::Shutdown,
            drained: true
        }
    );
    rt.release(&mut shared, admitted.tracker);
    assert_eq!(
        rt.poll_shutdown_at(&mut shared, &mut drain, at(2_100)),
        ShutdownStep::Finished(true)
    );
    // Whoever asks again is told the same.
    assert!(matches!(
        rt.shutdown_at(at(9_000), true),
        ShutdownStart::Finished(true)
    ));
    assert_eq!(
        rt.poll_shutdown_at(&mut shared, &mut drain, at(9_000)),
        ShutdownStep::Finished(true)
    );
}

#[test]
fn an_expired_drain_aborts_what_is_left() {
    let mut options = ConnectionServeOptions::default();
    options.drain_timeout = Duration::from_millis(10);
    let (mut rt, mut shared) = runtime(options);
    let mut admitted = taken(&mut rt, &mut shared, 1);
    rt.on_select(
        &mut shared,
        &mut admitted.connection,
        SelectEvent::StreamAccepted,
    );
    let mut drain = draining(&mut rt, at(0));
    assert_eq!(
        rt.poll_shutdown_at(&mut shared, &mut drain, at(10)),
        ShutdownStep::NotifyClose
    );
    assert!(rt.abort_requests(&shared));
    assert!(matches!(
        rt.next_step(&shared, &mut admitted.connection),
        LoopStep::Close(_)
    ));
    assert!(ConnectionServeRuntime::on_join(
        &mut admitted.connection,
        Some(Err(failed_task()))
    ));
    assert_eq!(
        rt.result(&shared, &admitted.connection),
        ConnectionServeResult {
            end: ConnectionServeEnd::Shutdown,
            drained: false
        }
    );
    assert_eq!(
        rt.poll_shutdown_at(&mut shared, &mut drain, at(11)),
        ShutdownStep::Finished(false)
    );
}

#[test]
fn connections_open_at_the_deadline_fail_the_shutdown() {
    let (mut rt, mut shared) = runtime(ConnectionServeOptions::default());
    taken(&mut rt, &mut shared, 1);
    let mut drain = draining(&mut rt, at(0));
    assert_eq!(
        rt.poll_shutdown_at(&mut shared, &mut drain, at(0)),
        ShutdownStep::NotifyClose
    );
    assert_eq!(
        rt.poll_shutdown_at(&mut shared, &mut drain, at(30_000)),
        ShutdownStep::Finished(false)
    );
}

#[test]
fn shutdown_of_an_unused_runtime_succeeds_on_a_real_clock() {
    let clock = Clock::start();
    let (mut rt, mut shared) = runtime(ConnectionServeOptions::default());
    let mut drain = match rt.shutdown(&clock) {
        ShutdownStart::Draining(drain) => drain,
        ShutdownStart::Finished(_) => panic!("nothing was shut down yet"),
    };
    assert_eq!(
        rt.poll_shutdown(&mut shared, &mut drain, &clock),
        ShutdownStep::NotifyClose
    );
    assert_eq!(
        rt.poll_shutdown(&mut shared, &mut drain, &clock),
        ShutdownStep::Finished(true)
    );
}

#[test]
fn a_forced_close_aborts_at_once() {
    let (mut rt, mut shared) = runtime(ConnectionServeOptions::default());
    let mut connection = taken(&mut rt, &mut shared, 1).connection;
    shared.close_flag = true;
    assert!(matches!(
        rt.next_step(&shared, &mut connection),
        LoopStep::Close(_)
    ));
    assert!(rt.abort_requests(&shared));
    assert_eq!(
        rt.result(&shared, &connection),
        ConnectionServeResult {
            end: ConnectionServeEnd::Shutdown,
            drained: false
        }
    );
}

#[test]
fn a_single_connection_gets_a_runtime_of_its_own() {
    let (_, shared, admitted) =
        serve_connection(ConnectionServeOptions::default(), ALPN, ALPN, peer(4)).ok().unwrap();
    assert_eq!(shared.connections, 1);
    assert_eq!(admitted.endpoint_id.0, peer(4));

    let refusal = serve_connection(ConnectionServeOptions::default(), b"x", ALPN, peer(4))
        .err()
        .expect("refused");
    assert!(refusal.close.is_some());

    let mut options = ConnectionServeOptions::default();
    options.max_total_connections = 0;
    let refusal = serve_connection(options, b"x", ALPN, peer(4))
        .err()
        .expect("refused");
    assert!(refusal.close.is_none());
    assert!(matches!(
        refusal.error,
        ConnectionServeError::InvalidOptions {
            option: "max_total_connections",
            ..
        }
    ));
}
