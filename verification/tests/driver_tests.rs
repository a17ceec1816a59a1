use zpl::config::LabelVirtualization;
use zpl::driver::{simulation_identification, ConnPhase, Dispatch, Driver, Task};
use zpl::status::HostIdentification;

fn task(id: u64) -> Task {
    Task { job_id: id }
}

#[test]
fn ninth_submission_fails_without_blocking() {
    // A queue of capacity eight: the ninth non-blocking submission while
    // eight are pending fails immediately.
    let mut driver = Driver::new(LabelVirtualization::Physical);
    for i in 0..8 {
        assert!(driver.send_job(task(i)).is_ok());
    }
    assert!(driver.send_job(task(8)).is_err());
    assert_eq!(driver.queue.len(), 8);
    // Queue order and content are untouched by the rejection.
    assert_eq!(driver.queue[0], task(0));
    assert_eq!(driver.queue[7], task(7));
}

#[test]
fn unreachable_device_retries_once_per_interval() {
    // Device unreachable: every failed attempt waits for the next reconnect
    // tick; reachability stays false throughout.
    let mut driver = Driver::new(LabelVirtualization::Physical);
    let mut attempts = 0;
    for round in 0..5 {
        // Only the round that follows the interval ticks may begin an
        // attempt; a second call within the same interval refuses.
        if let Some(_keep) = driver.begin_connect() {
            attempts += 1;
            driver.connect_finished(false);
        }
        assert!(driver.begin_connect().is_none());
        driver.note_status(round);
        assert!(!driver.status().is_up);
        driver.reconnect_tick();
        driver.probe_tick();
    }
    assert_eq!(attempts, 5);
}

#[test]
fn unwanted_device_waits_for_interest_or_probe() {
    // With nobody interested and the probe interval not yet elapsed, the
    // driver does not dial at all, however often the reconnect gate opens.
    let mut driver = Driver::new(LabelVirtualization::Physical);
    // The initial probe is immediate; consume it.
    assert_eq!(driver.begin_connect(), Some(false));
    driver.connect_finished(false);
    driver.reconnect_tick();
    assert!(driver.begin_connect().is_none());
    driver.reconnect_tick();
    assert!(driver.begin_connect().is_none());
    // The probe interval elapses: one probe attempt.
    driver.probe_tick();
    assert_eq!(driver.begin_connect(), Some(false));
    driver.connect_finished(false);
    // Interest alone also opens the way, as a held attempt.
    driver.reconnect_tick();
    driver.acquire_interest();
    assert_eq!(driver.begin_connect(), Some(true));
}

#[test]
fn drop_jobs_simulates_without_device_bytes() {
    // DropJobs with a 200 ms wait and no persistence: the job is dispatched
    // to the simulated path, never to a device.
    let mut driver = Driver::new(LabelVirtualization::DropJobs {
        persist: None,
        wait_time_ms: 200,
    });
    driver.send_job(task(1)).unwrap();
    match driver.next_task().unwrap() {
        Dispatch::Simulate {
            task: t,
            wait_time_ms,
            persist,
            dpmm_override,
            uses_connection,
        } => {
            assert_eq!(t, task(1));
            assert_eq!(wait_time_ms, 200);
            assert_eq!(persist, None);
            assert_eq!(dpmm_override, None);
            assert!(!uses_connection);
        }
        Dispatch::Print { .. } => panic!("a simulated job must not reach a device"),
    }
    // Exactly one task runs at a time.
    driver.send_job(task(2)).unwrap();
    assert!(driver.next_task().is_none());
    driver.job_finished(false);
    assert!(driver.next_task().is_some());
}

#[test]
fn probe_connection_is_not_escalated() {
    // An interest token acquired and dropped again before the connect
    // decision: with no other interest, the probe connection is closed, not
    // kept.
    let mut driver = Driver::new(LabelVirtualization::Physical);
    driver.acquire_interest();
    driver.release_interest();
    let keep = driver.begin_connect().unwrap();
    assert!(!keep);
    assert_eq!(driver.phase, ConnPhase::Probing);
    driver.connect_finished(true);
    assert_eq!(driver.phase, ConnPhase::Down);
}

#[test]
fn held_connection_becomes_ready() {
    let mut driver = Driver::new(LabelVirtualization::Physical);
    driver.acquire_interest();
    let keep = driver.begin_connect().unwrap();
    assert!(keep);
    driver.connect_finished(true);
    assert_eq!(driver.phase, ConnPhase::Ready);
    driver.note_status(7);
    assert!(driver.status().is_up);
    assert_eq!(driver.status().updated_at_unix, 7);
}

#[test]
fn physical_job_needs_a_connection() {
    let mut driver = Driver::new(LabelVirtualization::Physical);
    driver.send_job(task(9)).unwrap();
    // No connection yet: the job stays queued.
    assert!(driver.next_task().is_none());
    driver.acquire_interest();
    driver.begin_connect().unwrap();
    driver.connect_finished(true);
    match driver.next_task().unwrap() {
        Dispatch::Print { task: t } => assert_eq!(t, task(9)),
        Dispatch::Simulate { .. } => panic!("a physical job must print"),
    }
    assert_eq!(driver.phase, ConnPhase::Lent);
    // A finished job returns its connection to the ready pool.
    driver.job_finished(true);
    assert_eq!(driver.phase, ConnPhase::Ready);
    // A failed one does not.
    driver.send_job(task(10)).unwrap();
    driver.next_task().unwrap();
    driver.job_finished(false);
    assert_eq!(driver.phase, ConnPhase::Down);
}

#[test]
fn zpl_only_never_connects() {
    let mut driver = Driver::new(LabelVirtualization::ZplOnly {
        dpmm: Some(12),
        persist: Some("/tmp/labels".to_string()),
        wait_time_ms: 50,
    });
    driver.reconnect_tick();
    assert!(driver.begin_connect().is_none());
    driver.send_job(task(3)).unwrap();
    match driver.next_task().unwrap() {
        Dispatch::Simulate {
            dpmm_override,
            persist,
            wait_time_ms,
            uses_connection,
            ..
        } => {
            assert_eq!(dpmm_override, Some(12));
            assert_eq!(persist, Some("/tmp/labels".to_string()));
            assert_eq!(wait_time_ms, 50);
            assert!(!uses_connection);
        }
        Dispatch::Print { .. } => panic!("a virtualized device never prints"),
    }
}

#[test]
fn keepalive_and_idle_close_the_connection() {
    let mut driver = Driver::new(LabelVirtualization::Physical);
    driver.acquire_interest();
    driver.begin_connect().unwrap();
    driver.connect_finished(true);

    // A verified keepalive keeps the connection.
    driver.keepalive_result(true);
    assert_eq!(driver.phase, ConnPhase::Ready);
    // Idle with interest still held: kept.
    driver.idle_tick();
    assert_eq!(driver.phase, ConnPhase::Ready);
    // Idle once the interest is gone: closed.
    driver.release_interest();
    driver.idle_tick();
    assert_eq!(driver.phase, ConnPhase::Down);

    // A failed keepalive closes it too.
    driver.reconnect_tick();
    driver.acquire_interest();
    driver.begin_connect().unwrap();
    driver.connect_finished(true);
    driver.keepalive_result(false);
    assert_eq!(driver.phase, ConnPhase::Down);
}

#[test]
fn shutdown_stops_dispatch() {
    let mut driver = Driver::new(LabelVirtualization::Physical);
    driver.send_job(task(1)).unwrap();
    driver.shutdown();
    assert!(driver.begin_connect().is_none());
    assert!(driver.next_task().is_none());
}

#[test]
fn simulated_identification_falls_back_to_eight() {
    let synthesized = simulation_identification(None, None);
    assert_eq!(synthesized.dpmm, 8);
    let overridden = simulation_identification(None, Some(12));
    assert_eq!(overridden.dpmm, 12);

    let device = HostIdentification {
        model: "ZT410".to_string(),
        version: "V1".to_string(),
        dpmm: 24,
        memory: "4MB".to_string(),
    };
    let taken = simulation_identification(Some(&device), Some(12));
    assert_eq!(taken.dpmm, 24);
    assert_eq!(taken.model, "ZT410");
}
