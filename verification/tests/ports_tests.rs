use srv::ports::{acquire, NoPortAvailable, PortAcquirer};

#[test]
fn test_find_available_port() {
    // Every candidate is free: the requested port itself is returned.
    let port = 9000;
    let free = vec![true, true, true, true, true];
    let result = acquire(port, 5, &free);
    assert!(result.is_ok());

    let chosen = result.unwrap();
    assert_eq!(chosen, port);
}

#[test]
fn test_find_available_port_when_occupied() {
    // The requested port is occupied, every later candidate is free.
    let port = 9001;
    let free = vec![false, true, true, true, true];
    let result = acquire(port, 5, &free);
    assert!(result.is_ok());

    // We should get a different port than the one we requested.
    let chosen = result.unwrap();
    assert_ne!(chosen, port);

    // The new port should be the next one up (port + 1).
    assert_eq!(chosen, port + 1);
}

#[test]
fn test_acquire_returns_first_free_of_several() {
    let free = vec![false, false, true, true, false];
    let result = acquire(8000, 5, &free);
    assert_eq!(result.unwrap(), 8002);
}

#[test]
fn test_acquire_exhaustion_reports_bound() {
    let free = vec![false, false, false];
    let result = acquire(9100, 3, &free);
    let err = result.err().unwrap();
    assert_eq!(err.starting_port, 9100);
    assert_eq!(err.max_attempts, 3);
}

#[test]
fn test_acquire_zero_attempts_fails() {
    let free: Vec<bool> = vec![];
    let result = acquire(8000, 0, &free);
    assert!(result.is_err());
}

#[test]
fn test_acquire_stops_at_top_of_port_range() {
    // Only one candidate fits under 65535; the rest would wrap and are
    // treated as exhaustion, even though their probe answers say free.
    let free = vec![false, true, true];
    let result = acquire(65535, 3, &free);
    assert!(result.is_err());

    let free = vec![true, true, true];
    let result = acquire(65535, 3, &free);
    assert_eq!(result.unwrap(), 65535);
}

#[test]
fn test_acquirer_hands_out_ascending_candidates() {
    let mut acq = PortAcquirer::new(8000, 3);
    assert_eq!(acq.next_candidate(), Some(8000));
    acq.record_occupied();
    assert_eq!(acq.next_candidate(), Some(8001));
    acq.record_occupied();
    assert_eq!(acq.next_candidate(), Some(8002));
    acq.record_occupied();
    assert_eq!(acq.next_candidate(), None);
}

#[test]
fn test_acquirer_probes_exactly_max_attempts_when_all_occupied() {
    let mut acq = PortAcquirer::new(9200, 7);
    let mut probes = 0;
    while let Some(_port) = acq.next_candidate() {
        probes += 1;
        acq.record_occupied();
    }
    assert_eq!(probes, 7);
}

#[test]
fn test_sequential_instances_get_adjacent_ports() {
    // Two runs asking for the same port one after the other: the first
    // takes the requested port; the second finds it occupied and ends
    // up one above it.
    let requested = 9878;
    let first = acquire(requested, 10, &vec![true; 10]).unwrap();
    assert_eq!(first, requested);

    let mut free = vec![true; 10];
    free[0] = false;
    let second = acquire(requested, 10, &free).unwrap();
    assert_eq!(second, requested + 1);
}

#[test]
fn test_no_port_available_message() {
    let err = NoPortAvailable { starting_port: 8000, max_attempts: 10 };
    assert_eq!(err.message(), "Could not find available port after 10 attempts");
}
