use go_magic_desktop::ports::{
    candidate_port_at, health_check_port, pick_available_port, DEFAULT_PORTS, FALLBACK_HEALTH_PORT,
};

/// Stands for the machine's sockets: a few of the preferred ports are taken.
fn is_port_available(port: u16) -> bool {
    ![5000, 5001, 8080].contains(&port)
}

#[test]
fn pick_available_port_returns_a_port_from_the_expected_range() {
    let port = pick_available_port(is_port_available).expect("expected at least one free port");
    assert!(
        DEFAULT_PORTS.contains(&port) || (8000..9000).contains(&port),
        "unexpected port {}",
        port
    );
}

#[test]
fn pick_available_port_takes_the_first_free_candidate_in_order() {
    assert_eq!(pick_available_port(|_| true), Some(5000));
    assert_eq!(pick_available_port(|p| p == 3000 || p == 8080), Some(8080));
    assert_eq!(pick_available_port(|p| p == 3000), Some(3000));
    assert_eq!(pick_available_port(|p| p >= 8000), Some(8080));
    assert_eq!(pick_available_port(|p| p >= 8000 && p != 8080), Some(8000));
    assert_eq!(pick_available_port(|p| p == 8999), Some(8999));
    assert_eq!(pick_available_port(|_| false), None);
}

#[test]
fn pick_available_port_stops_probing_at_the_first_success() {
    let probed = std::cell::RefCell::new(Vec::new());
    let port = pick_available_port(|p| {
        probed.borrow_mut().push(p);
        p == 5002
    });
    assert_eq!(port, Some(5002));
    assert_eq!(*probed.borrow(), vec![5000, 5001, 5002]);
}

#[test]
fn pick_available_port_probes_every_candidate_once_when_none_is_free() {
    let probed = std::cell::RefCell::new(Vec::new());
    let port = pick_available_port(|p| {
        probed.borrow_mut().push(p);
        false
    });
    assert_eq!(port, None);
    let probed = probed.into_inner();
    assert_eq!(probed.len(), 7 + 1000);
    assert_eq!(&probed[..7], &[5000, 5001, 5002, 5003, 5004, 8080, 3000]);
    assert_eq!(probed[7], 8000);
    assert_eq!(probed[probed.len() - 1], 8999);
}

#[test]
fn candidate_ports_lie_in_the_expected_range() {
    for i in 0..1007 {
        let p = candidate_port_at(i);
        assert!(DEFAULT_PORTS.contains(&p) || (8000..9000).contains(&p));
    }
    assert_eq!(candidate_port_at(5), 8080);
    assert_eq!(candidate_port_at(6), 3000);
    assert_eq!(candidate_port_at(1006), 8999);
}

#[test]
fn health_check_port_prefers_the_request_then_the_running_backend() {
    assert_eq!(health_check_port(Some(7000), Some(5001)), 7000);
    assert_eq!(health_check_port(None, Some(5001)), 5001);
    assert_eq!(health_check_port(None, None), 5000);
    assert_eq!(FALLBACK_HEALTH_PORT, 5000);
}
