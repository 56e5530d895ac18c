use iroh_http_server::identity::EndpointId;
use iroh_http_server::lifecycle::{
    ConnectionAdmission, ConnectionAdmissionError, DeliveryTracker, RequestTracker,
};

fn peer(n: u8) -> EndpointId {
    EndpointId::from_bytes([n; 32])
}

#[test]
fn connection_tracker_increments_and_decrements_total() {
    let mut total: usize = 0;
    let mut admission = ConnectionAdmission::new(4, 8);
    let (tracker, _) = admission
        .acquire(&mut total, peer(1), "p".to_string())
        .expect("acquire should succeed under cap");
    assert_eq!(total, 1);
    admission.release(&mut total, tracker);
    assert_eq!(total, 0);
    assert!(admission.is_empty());
}

#[test]
fn connection_tracker_enforces_shared_total_and_per_peer_caps() {
    let mut total: usize = 0;
    let mut admission = ConnectionAdmission::new(1, 2);
    let _first = admission.acquire(&mut total, peer(1), "p".into()).unwrap();
    assert!(matches!(
        admission.acquire(&mut total, peer(1), "p".into()),
        Err(ConnectionAdmissionError::Peer),
    ));
    let _second = admission.acquire(&mut total, peer(2), "q".into()).unwrap();
    assert!(matches!(
        admission.acquire(&mut total, peer(3), "r".into()),
        Err(ConnectionAdmissionError::Total),
    ));
    assert_eq!(total, 2);
}

#[test]
fn delivery_tracker_notifies_when_in_flight_reaches_zero() {
    let mut counter: usize = 1;
    let mut in_flight: usize = 1;
    let mut request = RequestTracker::new();
    let mut delivery = DeliveryTracker::new();

    request.finish(&mut counter);
    assert_eq!(counter, 0);
    assert_eq!(in_flight, 1);

    assert!(delivery.finish(&mut in_flight), "waiter must be notified");
    assert_eq!(in_flight, 0);
}

#[test]
fn slots_are_given_back_once() {
    let mut counter: usize = 5;
    let mut in_flight: usize = 2;
    let mut request = RequestTracker::new();
    request.finish(&mut counter);
    request.finish(&mut counter);
    assert_eq!(counter, 4);
    let mut delivery = DeliveryTracker::new();
    assert!(!delivery.finish(&mut in_flight));
    assert!(!delivery.finish(&mut in_flight));
    assert_eq!(in_flight, 1);
}

#[test]
fn the_total_bound_counts_connections_held_elsewhere() {
    let mut total: usize = 2;
    let mut admission = ConnectionAdmission::new(8, 2);
    assert!(matches!(
        admission.acquire(&mut total, peer(1), "p".into()),
        Err(ConnectionAdmissionError::Total),
    ));
    total = 1;
    assert!(admission.acquire(&mut total, peer(1), "p".into()).is_ok());
    assert_eq!(total, 2);
}

#[test]
fn the_total_bound_is_named_before_the_peer_bound() {
    let mut total: usize = 0;
    let mut admission = ConnectionAdmission::new(1, 1);
    let _held = admission.acquire(&mut total, peer(1), "p".into()).unwrap();
    assert!(matches!(
        admission.acquire(&mut total, peer(1), "p".into()),
        Err(ConnectionAdmissionError::Total),
    ));
}

#[test]
fn a_zero_peer_bound_lists_the_refused_peer() {
    let mut total: usize = 0;
    let mut admission = ConnectionAdmission::new(0, 4);
    for _ in 0..2 {
        assert!(matches!(
            admission.acquire(&mut total, peer(1), "p".into()),
            Err(ConnectionAdmissionError::Peer),
        ));
        assert_eq!(total, 0);
        assert!(!admission.is_empty());
    }
}

#[test]
fn the_total_bound_refuses_before_a_peer_is_listed() {
    let mut total: usize = 0;
    let mut admission = ConnectionAdmission::new(0, 0);
    assert!(matches!(
        admission.acquire(&mut total, peer(1), "p".into()),
        Err(ConnectionAdmissionError::Total),
    ));
    assert_eq!(total, 0);
    assert!(admission.is_empty());
}

#[test]
fn events_come_with_the_first_connection_and_the_end_of_the_last() {
    let mut total: usize = 0;
    let mut admission = ConnectionAdmission::new(4, 8);
    let (a1, e1) = admission.acquire(&mut total, peer(1), "a".into()).unwrap();
    let (b1, f1) = admission.acquire(&mut total, peer(2), "b".into()).unwrap();
    let (a2, e2) = admission.acquire(&mut total, peer(1), "a".into()).unwrap();
    let e1 = e1.expect("first connection of a");
    assert_eq!(e1.peer_id, "a");
    assert!(e1.connected);
    assert_eq!(f1.expect("first connection of b").peer_id, "b");
    assert!(e2.is_none());

    assert!(admission.release(&mut total, a1).is_none());
    let gone = admission.release(&mut total, b1).expect("last of b");
    assert_eq!(gone.peer_id, "b");
    assert!(!gone.connected);
    let gone = admission.release(&mut total, a2).expect("last of a");
    assert_eq!(gone.peer_id, "a");
    assert!(!gone.connected);
    assert_eq!(total, 0);
    assert!(admission.is_empty());

    let (_, again) = admission.acquire(&mut total, peer(1), "a".into()).unwrap();
    assert!(again.expect("first connection again").connected);
}

#[test]
fn many_peers_are_told_apart() {
    let mut total: usize = 0;
    let mut admission = ConnectionAdmission::new(2, 100);
    let mut held = Vec::new();
    for n in 0..20u8 {
        let mut bytes = [7u8; 32];
        bytes[31] = n;
        for _ in 0..2 {
            let id = EndpointId::from_bytes(bytes);
            let (tracker, _) = admission.acquire(&mut total, id, format!("{n}")).unwrap();
            held.push(tracker);
        }
    }
    assert_eq!(total, 40);
    let mut events = 0;
    for tracker in held {
        if admission.release(&mut total, tracker).is_some() {
            events += 1;
        }
    }
    assert_eq!(events, 20);
    assert_eq!(total, 0);
    assert!(admission.is_empty());
}
