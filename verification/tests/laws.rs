use iroh_http_server::connection::{
    ConnectionServeRuntime, SelectEvent, SelectOutcome, ShutdownStart, ShutdownStep,
};
use iroh_http_server::identity::EndpointId;
use iroh_http_server::options::ConnectionServeOptions;
use iroh_http_server::time::Moment;

const ALPN: &[u8] = b"http";

fn peer(n: u8) -> EndpointId {
    EndpointId::from_bytes([n; 32])
}

fn at(nanos: u128) -> Moment {
    Moment::from_nanos(nanos).expect("representable")
}

#[test]
fn limits_and_announcements_hold_through_a_long_mixed_run() {
    let mut options = ConnectionServeOptions::default();
    options.max_connections_per_peer = 3;
    options.max_total_connections = 7;
    let (mut rt, mut shared) = ConnectionServeRuntime::new(options).ok().expect("valid");
    let mut held = Vec::new();
    let mut present = [false; 5];
    let mut seed: u32 = 1;
    for _ in 0..4_000 {
        seed = seed.wrapping_mul(1_664_525).wrapping_add(1_013_904_223);
        let who = ((seed >> 16) % 5) as u8;
        let of_peer = held.iter().filter(|(n, _)| *n == who).count();
        if (seed >> 28) % 2 == 0 {
            let taken = rt.serve_connection(&mut shared, ALPN, ALPN, peer(who));
            assert_eq!(taken.is_ok(), held.len() < 7 && of_peer < 3);
            if let Ok(admitted) = taken {
                let first = admitted.event.map(|event| event.connected);
                assert_eq!(first, (of_peer == 0).then_some(true));
                present[who as usize] = true;
                held.push((who, admitted.tracker));
            }
        } else if let Some(i) = held.iter().position(|(n, _)| *n == who) {
            let (_, tracker) = held.swap_remove(i);
            let last = rt.release(&mut shared, tracker).map(|event| event.connected);
            assert_eq!(last, (of_peer == 1).then_some(false));
            present[who as usize] = of_peer > 1;
        }
        assert_eq!(shared.connections, held.len());
        for n in 0..5u8 {
            assert_eq!(present[n as usize], held.iter().any(|(m, _)| *m == n));
        }
    }
    while let Some((_, tracker)) = held.pop() {
        rt.release(&mut shared, tracker);
    }
    assert_eq!(shared.connections, 0);
}

#[test]
fn a_served_stream_leaves_no_trace() {
    let (mut rt, mut shared) = ConnectionServeRuntime::new(ConnectionServeOptions::default())
        .ok()
        .expect("valid");
    let mut connection = rt
        .serve_connection(&mut shared, ALPN, ALPN, peer(1))
        .ok()
        .expect("admitted")
        .connection;
    let before = shared;
    match rt.on_select(&mut shared, &mut connection, SelectEvent::StreamAccepted) {
        SelectOutcome::Spawn(mut request, mut delivery) => {
            assert_eq!(shared.requests, before.requests + 1);
            ConnectionServeRuntime::finish_request(&mut shared, &mut request);
            assert!(rt.finish_delivery(&mut delivery));
            assert!(!rt.finish_delivery(&mut delivery));
        }
        _ => panic!("the stream must be served"),
    }
    assert_eq!(shared, before);
}

#[test]
fn a_second_call_takes_over_the_shutdown() {
    let (mut rt, mut shared) = ConnectionServeRuntime::new(ConnectionServeOptions::default())
        .ok()
        .expect("valid");
    let first = rt.shutdown_at(at(0), true);
    assert!(matches!(first, ShutdownStart::Draining(_)));
    // The first caller went away; the next one drains from the start.
    let mut drain = match rt.shutdown_at(at(50), true) {
        ShutdownStart::Draining(drain) => drain,
        ShutdownStart::Finished(_) => panic!("nothing was settled yet"),
    };
    assert_eq!(
        rt.poll_shutdown_at(&mut shared, &mut drain, at(60)),
        ShutdownStep::NotifyClose
    );
    assert_eq!(
        rt.poll_shutdown_at(&mut shared, &mut drain, at(70)),
        ShutdownStep::Finished(true)
    );
}
