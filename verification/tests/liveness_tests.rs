use battery_monitor::liveness::{is_live, sweep, LIVENESS_WINDOW_MS};
use battery_monitor::telemetry::{apply_event, Event, Pack};

#[test]
fn window_is_two_seconds() {
    assert_eq!(LIVENESS_WINDOW_MS, 2000);
}

#[test]
fn liveness_boundary_at_1999_and_2001() {
    assert!(is_live(0, 1999));
    assert!(!is_live(0, 2000));
    assert!(!is_live(0, 2001));
    assert!(is_live(100_000, 101_999));
    assert!(!is_live(100_000, 102_001));
}

#[test]
fn sweep_keeps_a_fresh_module_and_clears_a_stale_one() {
    let mut pack = Pack::default();
    apply_event(&mut pack, &Event::DeviceInfo { module: 2, serial_number: 5 }, 0);
    let out = sweep(&mut pack, 1999);
    assert!(out.stay_awake);
    assert!(!out.redraw);
    assert_eq!(pack.modules[2].last_seen, Some(0));

    let out = sweep(&mut pack, 2001);
    assert!(!out.stay_awake);
    assert!(out.redraw);
    assert_eq!(pack.modules[2].last_seen, None);
    // The stale module keeps its last known values.
    assert_eq!(pack.modules[2].serial_number, 5);
}

#[test]
fn sweep_is_idempotent_on_absent_modules() {
    let mut pack = Pack::default();
    apply_event(&mut pack, &Event::DeviceInfo { module: 1, serial_number: 4 }, 0);
    let first = sweep(&mut pack, 3000);
    assert!(first.redraw);
    let second = sweep(&mut pack, 4000);
    assert!(!second.redraw);
    assert!(!second.stay_awake);
    let third = sweep(&mut pack, 1_000_000);
    assert!(!third.redraw);
    assert_eq!(pack.modules[1].last_seen, None);
    assert_eq!(pack.modules[1].serial_number, 4);
}

#[test]
fn sweep_on_an_empty_pack_finds_nothing() {
    let mut pack = Pack::default();
    let out = sweep(&mut pack, 0);
    assert!(!out.stay_awake);
    assert!(!out.redraw);
}

#[test]
fn charge_request_times_out_independently() {
    let mut pack = Pack::default();
    apply_event(&mut pack, &Event::DeviceInfo { module: 0, serial_number: 1 }, 1500);
    apply_event(
        &mut pack,
        &Event::ChargerControl { voltage_mv: 50000, current_ma: 1000, enable: true },
        0,
    );
    // At 2500 the request (stamped 0) is stale, the module (stamped
    // 1500) is not.
    let out = sweep(&mut pack, 2500);
    assert!(out.stay_awake);
    assert!(out.redraw);
    assert!(pack.charge_request.is_none());
    assert_eq!(pack.modules[0].last_seen, Some(1500));
}

#[test]
fn each_expiry_reports_a_redraw_only_once() {
    let mut pack = Pack::default();
    apply_event(
        &mut pack,
        &Event::ChargerControl { voltage_mv: 1, current_ma: 1, enable: false },
        0,
    );
    let first = sweep(&mut pack, 2000);
    assert!(first.redraw);
    let second = sweep(&mut pack, 2000);
    assert!(!second.redraw);
    assert!(pack.charge_request.is_none());
}
