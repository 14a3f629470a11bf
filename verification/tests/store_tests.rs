use battery_monitor::telemetry::{Event, Pack};

fn apply(pack: &mut Pack, ev: Event, now: u64) {
    assert!(ev.check_wf());
    battery_monitor::telemetry::apply_event(pack, &ev, now);
}

#[test]
fn device_info_updates_serial_and_liveness_only() {
    let mut pack = Pack::default();
    apply(&mut pack, Event::DeviceInfo { module: 3, serial_number: 12345 }, 7);
    assert_eq!(pack.modules[3].serial_number, 12345);
    assert_eq!(pack.modules[3].last_seen, Some(7));
    assert_eq!(pack.modules[3].soc.soc_mpct, 0);
    assert_eq!(pack.modules[3].hv_status.voltage_mv, 0);
    for j in 0..10 {
        if j != 3 {
            assert_eq!(pack.modules[j].serial_number, 0);
            assert_eq!(pack.modules[j].last_seen, None);
        }
    }
}

#[test]
fn adc_voltages_update_their_group_only() {
    let mut pack = Pack::default();
    apply(
        &mut pack,
        Event::AdcVoltages { module: 5, pack_mv: 45590, common_drain_mv: 45620, load_mv: 45570 },
        1,
    );
    assert_eq!(pack.modules[5].adc_voltages.pack_mv, 45590);
    assert_eq!(pack.modules[5].adc_voltages.common_drain_mv, 45620);
    assert_eq!(pack.modules[5].adc_voltages.load_mv, 45570);
    assert_eq!(pack.modules[5].adc_rails.rail_5v_mv, 0);
    assert_eq!(pack.modules[5].last_seen, Some(1));
}

#[test]
fn adc_rails_update_their_group_only() {
    let mut pack = Pack::default();
    apply(
        &mut pack,
        Event::AdcRails { module: 5, rail_5v_mv: 4970, rail_12v_mv: 12470, rail_3v3_mv: 3300 },
        2,
    );
    assert_eq!(pack.modules[5].adc_rails.rail_5v_mv, 4970);
    assert_eq!(pack.modules[5].adc_rails.rail_12v_mv, 12470);
    assert_eq!(pack.modules[5].adc_rails.rail_3v3_mv, 3300);
    assert_eq!(pack.modules[5].adc_voltages.pack_mv, 0);
    assert_eq!(pack.modules[5].last_seen, Some(2));
}

#[test]
fn hv_status_updates_its_pair_only() {
    let mut pack = Pack::default();
    apply(&mut pack, Event::HvStatus { module: 0, voltage_mv: 47850, current_ma: 15 }, 3);
    assert_eq!(pack.modules[0].hv_status.voltage_mv, 47850);
    assert_eq!(pack.modules[0].hv_status.current_ma, 15);
    assert_eq!(pack.modules[0].charge_limit.voltage_mv, 0);
    assert_eq!(pack.modules[0].last_seen, Some(3));
}

#[test]
fn charge_limits_update_their_pair_only() {
    let mut pack = Pack::default();
    apply(&mut pack, Event::ChargeLimits { module: 7, voltage_mv: 52835, current_ma: 12000 }, 4);
    assert_eq!(pack.modules[7].charge_limit.voltage_mv, 52835);
    assert_eq!(pack.modules[7].charge_limit.current_ma, 12000);
    assert_eq!(pack.modules[7].hv_status.voltage_mv, 0);
    assert_eq!(pack.modules[7].last_seen, Some(4));
}

#[test]
fn soc_updates_its_pair_only() {
    let mut pack = Pack::default();
    apply(&mut pack, Event::Soc { module: 2, soc_mpct: 8100, soh_mpct: 91000 }, 5);
    assert_eq!(pack.modules[2].soc.soc_mpct, 8100);
    assert_eq!(pack.modules[2].soc.soh_mpct, 91000);
    assert_eq!(pack.modules[2].serial_number, 0);
    assert_eq!(pack.modules[2].last_seen, Some(5));
}

#[test]
fn temperatures_update_their_groups_only() {
    let mut pack = Pack::default();
    apply(
        &mut pack,
        Event::TemperaturesA { module: 1, ambient_mdeg: 25900, module1_mdeg: 23800, module2_mdeg: 25800 },
        6,
    );
    assert_eq!(pack.modules[1].temperatures_a.ambient_mdeg, 25900);
    assert_eq!(pack.modules[1].temperatures_b.fet_mdeg, 0);
    apply(&mut pack, Event::TemperaturesB { module: 1, fet_mdeg: 22900, shunt_mdeg: 23600 }, 8);
    assert_eq!(pack.modules[1].temperatures_b.fet_mdeg, 22900);
    assert_eq!(pack.modules[1].temperatures_b.shunt_mdeg, 23600);
    assert_eq!(pack.modules[1].temperatures_a.ambient_mdeg, 25900);
    assert_eq!(pack.modules[1].last_seen, Some(8));
}

#[test]
fn brick_voltages_update_only_the_addressed_run() {
    let mut pack = Pack::default();
    apply(
        &mut pack,
        Event::BrickVoltages { module: 4, first_brick: 4, brick_mv: vec![3300, 3310, 3320, 3330] },
        9,
    );
    assert_eq!(pack.modules[4].brick_mv[3], 0);
    assert_eq!(pack.modules[4].brick_mv[4], 3300);
    assert_eq!(pack.modules[4].brick_mv[5], 3310);
    assert_eq!(pack.modules[4].brick_mv[6], 3320);
    assert_eq!(pack.modules[4].brick_mv[7], 3330);
    assert_eq!(pack.modules[4].brick_mv[8], 0);
    assert_eq!(pack.modules[4].last_seen, Some(9));
}

#[test]
fn brick_voltages_accept_the_last_pair() {
    let mut pack = Pack::default();
    apply(
        &mut pack,
        Event::BrickVoltages { module: 4, first_brick: 12, brick_mv: vec![3340, 3350] },
        10,
    );
    assert_eq!(pack.modules[4].brick_mv[11], 0);
    assert_eq!(pack.modules[4].brick_mv[12], 3340);
    assert_eq!(pack.modules[4].brick_mv[13], 3350);
}

#[test]
fn brick_voltages_accept_an_empty_run() {
    let mut pack = Pack::default();
    apply(&mut pack, Event::BrickVoltages { module: 4, first_brick: 14, brick_mv: vec![] }, 11);
    for k in 0..14 {
        assert_eq!(pack.modules[4].brick_mv[k], 0);
    }
    assert_eq!(pack.modules[4].last_seen, Some(11));
}

#[test]
fn balancing_replaces_all_flags() {
    let mut pack = Pack::default();
    let mut active = [false; 14];
    active[0] = true;
    active[13] = true;
    apply(&mut pack, Event::Balancing { module: 6, active }, 12);
    assert_eq!(pack.modules[6].balancing, active);
    assert_eq!(pack.modules[6].brick_mv[0], 0);
    assert_eq!(pack.modules[6].last_seen, Some(12));
}

#[test]
fn charger_control_replaces_the_request_wholesale() {
    let mut pack = Pack::default();
    apply(&mut pack, Event::ChargerControl { voltage_mv: 50000, current_ma: 8000, enable: true }, 13);
    let cr = pack.charge_request.expect("request created");
    assert_eq!(cr.voltage_mv, 50000);
    assert_eq!(cr.current_ma, 8000);
    assert!(cr.enable);
    assert_eq!(cr.last_seen, 13);
    // A later message replaces the record rather than merging fields.
    apply(&mut pack, Event::ChargerControl { voltage_mv: 49000, current_ma: 0, enable: false }, 20);
    let cr2 = pack.charge_request.expect("request replaced");
    assert_eq!(cr2.voltage_mv, 49000);
    assert_eq!(cr2.current_ma, 0);
    assert!(!cr2.enable);
    assert_eq!(cr2.last_seen, 20);
    // Pack-scoped kinds leave the modules untouched and unstamped.
    for j in 0..10 {
        assert_eq!(pack.modules[j].last_seen, None);
    }
}

#[test]
fn diagnostic_connect_updates_counters_only() {
    let mut pack = Pack::default();
    apply(
        &mut pack,
        Event::DiagnosticConnect {
            charge_connected: 3,
            drive_connected: 3,
            charge_standby: 1,
            drive_standby: 0,
        },
        14,
    );
    assert_eq!(pack.diagnostic_connect.charge_connected, 3);
    assert_eq!(pack.diagnostic_connect.drive_connected, 3);
    assert_eq!(pack.diagnostic_connect.charge_standby, 1);
    assert_eq!(pack.diagnostic_connect.drive_standby, 0);
    assert!(pack.charge_request.is_none());
    assert_eq!(pack.pack_hv_status.voltage_mv, 0);
}

#[test]
fn pack_hv_and_soc_update_their_groups_only() {
    let mut pack = Pack::default();
    apply(&mut pack, Event::PackHvStatus { voltage_mv: 48960, current_ma: 8200 }, 15);
    assert_eq!(pack.pack_hv_status.voltage_mv, 48960);
    assert_eq!(pack.pack_hv_status.current_ma, 8200);
    apply(&mut pack, Event::PackSoc { soc_mpct: 22500, user_soc_mpct: 20100 }, 16);
    assert_eq!(pack.pack_soc.soc_mpct, 22500);
    assert_eq!(pack.pack_soc.user_soc_mpct, 20100);
    assert_eq!(pack.pack_hv_status.voltage_mv, 48960);
}

#[test]
fn malformed_events_are_rejected_by_the_check() {
    assert!(!Event::DeviceInfo { module: 8, serial_number: 1 }.check_wf());
    assert!(!Event::BrickVoltages { module: 0, first_brick: 13, brick_mv: vec![1, 2] }.check_wf());
    assert!(!Event::BrickVoltages { module: 0, first_brick: 15, brick_mv: vec![] }.check_wf());
    assert!(Event::BrickVoltages { module: 0, first_brick: 0, brick_mv: vec![0; 14] }.check_wf());
    assert!(Event::PackSoc { soc_mpct: 0, user_soc_mpct: 0 }.check_wf());
}

#[test]
fn an_update_refreshes_an_absent_module() {
    let mut pack = Pack::default();
    apply(&mut pack, Event::DeviceInfo { module: 0, serial_number: 9 }, 0);
    let _ = battery_monitor::liveness::sweep(&mut pack, 5000);
    assert_eq!(pack.modules[0].last_seen, None);
    assert_eq!(pack.modules[0].serial_number, 9);
    apply(&mut pack, Event::DeviceInfo { module: 0, serial_number: 9 }, 6000);
    assert_eq!(pack.modules[0].last_seen, Some(6000));
}
