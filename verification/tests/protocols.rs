use deskvolt::device::{ChargingState, DeviceError, DeviceIcon, ReportStep};
use deskvolt::devices::corsair::{CorsairModel, CorsairVoid};
use deskvolt::devices::hyperx::HyperXCloudAlpha;
use deskvolt::devices::logitech::LogitechSuperlight;
use deskvolt::devices::logitech_headsets::{
    voltage_to_percent, G933Model, LogitechG933, LogitechGProX, LogitechGProX2,
    G933_CALIBRATION, GPRO_X_CALIBRATION,
};
use deskvolt::devices::playstation::{DualSense, DualShock4};
use deskvolt::devices::steelseries::{
    Arctis7Model, NovaModel, SteelSeriesArctis, SteelSeriesArctis7,
};
use deskvolt::hid::HidInfo;

fn msg(e: &DeviceError) -> String {
    e.message()
}

fn info(vendor_id: u16, product_id: u16, usage_page: u16, interface_number: i32) -> HidInfo {
    HidInfo { vendor_id, product_id, usage_page, interface_number }
}

#[test]
fn corsair_request_and_reply() {
    let req = CorsairVoid::battery_request();
    assert_eq!(&req[..3], &[0xC9, 0x64, 0x00]);
    assert!(req[2..].iter().all(|&b| b == 0));

    let mut h = CorsairVoid::new(CorsairModel::Void);
    assert_eq!(h.name(), "Corsair Void");
    assert_eq!(h.id(), "corsair-void");
    assert_eq!(h.icon(), DeviceIcon::Headset);
    assert!(h.is_connected());
    assert_eq!(h.battery_percent(), None);

    let mut r = [0u8; 64];
    r[2] = 0x80 | 55; // microphone bit set
    r[4] = 1;
    assert!(h.handle_battery_response(&r, 5).is_ok());
    assert_eq!(h.battery_percent(), Some(55));
    assert_eq!(h.charging_state(), ChargingState::Discharging);

    r[4] = 5;
    r[2] = 100;
    assert!(h.handle_battery_response(&r, 64).is_ok());
    assert_eq!(h.charging_state(), ChargingState::Charging);
    r[4] = 2;
    assert!(h.handle_battery_response(&r, 64).is_ok());
    assert_eq!(h.charging_state(), ChargingState::Full);

    r[2] = 101;
    let e = h.handle_battery_response(&r, 64).unwrap_err();
    assert_eq!(msg(&e), "Protocol error: Invalid battery value");
    assert_eq!(h.battery_percent(), Some(100));

    r[4] = 0;
    assert!(h.handle_battery_response(&r, 64).is_ok());
    assert!(!h.is_connected());
    assert_eq!(h.charging_state(), ChargingState::Unknown);
    assert_eq!(h.battery_percent(), Some(100));

    let e = h.handle_battery_response(&r, 4).unwrap_err();
    assert_eq!(msg(&e), "Communication error: Short response");
}

#[test]
fn corsair_discovery_order() {
    let infos = vec![
        info(0x1B1C, 0x0A40, 0xFFC5, 3), // Virtuoso on usage page and interface 3
        info(0x1B1C, 0x0A14, 0x0001, 3), // Void on interface 3 only
        info(0x1B1C, 0x0A14, 0xFFC5, 1), // Void on usage page
        info(0x1B1C, 0x9999, 0xFFC5, 3), // unknown product
        info(0x046D, 0x0A14, 0xFFC5, 3), // other vendor
    ];
    let plan = CorsairVoid::discover(&infos);
    assert_eq!(
        plan,
        vec![
            (2, CorsairModel::Void),
            (1, CorsairModel::Void),
            (0, CorsairModel::Virtuoso),
            (0, CorsairModel::Virtuoso),
        ]
    );
    assert_eq!(CorsairVoid::new(CorsairModel::Virtuoso).name(), "Corsair Virtuoso");
}

#[test]
fn hyperx_two_step_query() {
    assert_eq!(&HyperXCloudAlpha::charging_request()[..4], &[0x21, 0xBB, 0x0C, 0]);
    assert_eq!(&HyperXCloudAlpha::battery_request()[..4], &[0x21, 0xBB, 0x0B, 0]);
    let mut h = HyperXCloudAlpha::new();
    let mut r = [0u8; 64];
    r[3] = 1;
    assert_eq!(h.handle_charging_response(&r, 8).unwrap(), true);
    r[3] = 80;
    assert!(h.handle_battery_response(true, &r, 8).is_ok());
    assert_eq!(h.battery_percent(), Some(80));
    assert_eq!(h.charging_state(), ChargingState::Charging);
    r[3] = 100;
    assert!(h.handle_battery_response(false, &r, 8).is_ok());
    assert_eq!(h.charging_state(), ChargingState::Full);
    r[3] = 200;
    assert_eq!(msg(&h.handle_battery_response(false, &r, 8).unwrap_err()), "Protocol error: Invalid battery value");
    let e = h.handle_charging_response(&r, 0).unwrap_err();
    assert_eq!(msg(&e), "Communication error: No response");
    assert!(!h.is_connected());
    let infos = vec![info(0x03F0, 0x098D, 0xFF00, 0), info(0x03F0, 0x098E, 0xFF00, 0), info(0x03F0, 0x098D, 0x0C, 2)];
    assert_eq!(HyperXCloudAlpha::discover(&infos), vec![0, 2]);
    assert_eq!(h.name(), "Cloud Alpha Wireless");
    assert_eq!(h.id(), "hyperx-cloud-alpha");
}

#[test]
fn superlight_feature_and_battery() {
    assert_eq!(&LogitechSuperlight::feature_request()[..7], &[0x11, 0x01, 0x00, 0x01, 0x10, 0x04, 0x00]);
    let mut m = LogitechSuperlight::new();
    assert!(m.needs_feature_discovery());
    assert_eq!(msg(&m.battery_request().unwrap_err()), "Protocol error: Battery feature not discovered");

    let mut r = [0u8; 20];
    assert_eq!(msg(&m.handle_feature_response(&r, 0).unwrap_err()), "Communication error: No response from device");
    assert_eq!(msg(&m.handle_feature_response(&r, 20).unwrap_err()), "Protocol error: Invalid response header");
    r[0] = 0x11;
    r[1] = 0x01;
    r[2] = 0xFF;
    assert_eq!(msg(&m.handle_feature_response(&r, 20).unwrap_err()), "Protocol error: Device returned error response");
    r[2] = 0x00;
    assert_eq!(msg(&m.handle_feature_response(&r, 20).unwrap_err()), "Protocol error: UNIFIED_BATTERY feature not supported");
    r[4] = 0x06;
    assert!(m.handle_feature_response(&r, 20).is_ok());
    assert!(!m.needs_feature_discovery());

    let req = m.battery_request().unwrap();
    assert_eq!(&req[..5], &[0x11, 0x01, 0x06, 0x11, 0x00]);

    // a notification from another feature is skipped
    let mut note = [0u8; 20];
    note[1] = 0x01;
    note[2] = 0x04;
    assert!(matches!(m.handle_battery_report(0, &note, 20), ReportStep::Pending));

    let mut ans = [0u8; 20];
    ans[1] = 0x01;
    ans[2] = 0x06;
    ans[3] = 0x11;
    ans[4] = 73;
    ans[6] = 1;
    assert!(matches!(m.handle_battery_report(1, &ans, 20), ReportStep::Done(Ok(()))));
    assert_eq!(m.battery_percent(), Some(73));
    assert_eq!(m.charging_state(), ChargingState::Charging);

    ans[4] = 0xFF;
    ans[5] = 0x04;
    ans[6] = 3;
    assert!(matches!(m.handle_battery_report(0, &ans, 20), ReportStep::Done(Ok(()))));
    assert_eq!(m.battery_percent(), Some(60));
    assert_eq!(m.charging_state(), ChargingState::Full);
    ans[5] = 0;
    ans[6] = 9;
    assert!(matches!(m.handle_battery_report(0, &ans, 20), ReportStep::Done(Ok(()))));
    assert_eq!(m.battery_percent(), Some(50));
    assert_eq!(m.charging_state(), ChargingState::Unknown);

    match m.handle_battery_report(4, &note, 20) {
        ReportStep::Done(Err(e)) => assert_eq!(msg(&e), "Communication error: No valid battery response"),
        _ => panic!("fifth unrelated report ends the query"),
    }
    match m.handle_battery_report(0, &note, 0) {
        ReportStep::Done(Err(e)) => assert_eq!(msg(&e), "Communication error: No response from device"),
        _ => panic!("an empty read ends the query"),
    }
    assert!(!m.is_connected());
    assert_eq!(m.icon(), DeviceIcon::Mouse);
    assert_eq!(m.name(), "Pro X Superlight 2c");
}

#[test]
fn superlight_discovery_order() {
    let infos = vec![
        info(0x046d, 0xc54d, 0x0001, 0),
        info(0x046d, 0xc547, 0xFF00, 2),
        info(0x046d, 0xc54d, 0xFF00, 2),
    ];
    // usage page pass: c547 (twice in the list), c54d; then every interface
    assert_eq!(LogitechSuperlight::discover(&infos), vec![1, 2, 1, 1, 0, 2, 1]);
}

#[test]
fn gpro_x2_reports() {
    let req = LogitechGProX2::battery_request();
    assert_eq!(&req[..11], &[0x51, 0x08, 0x00, 0x03, 0x1A, 0x00, 0x03, 0x00, 0x04, 0x0A, 0x00]);
    let mut h = LogitechGProX2::new();
    let empty = [0u8; 64];
    assert!(matches!(h.handle_report(0, &empty, 0), ReportStep::Pending));
    let mut bat = [0u8; 64];
    bat[0] = 0x51;
    bat[1] = 0x0B;
    bat[8] = 0x04;
    bat[10] = 64;
    bat[12] = 0x02;
    assert!(matches!(h.handle_report(3, &bat, 64), ReportStep::Done(Ok(()))));
    assert_eq!(h.battery_percent(), Some(64));
    assert_eq!(h.charging_state(), ChargingState::Charging);
    bat[10] = 150;
    assert!(matches!(h.handle_report(3, &bat, 64), ReportStep::Pending));
    match h.handle_report(9, &bat, 64) {
        ReportStep::Done(Err(e)) => assert_eq!(msg(&e), "Communication error: No battery response"),
        _ => panic!("the tenth read ends the query"),
    }
    let mut off = [0u8; 64];
    off[0] = 0x51;
    off[1] = 0x05;
    assert!(matches!(h.handle_report(0, &off, 64), ReportStep::Done(Ok(()))));
    assert!(!h.is_connected());
    let infos = vec![info(0x046D, 0x0AF7, 0xFFA0, 0), info(0x046D, 0x0AF7, 0x0001, 3), info(0x046D, 0x0AF7, 0x0001, 1)];
    assert_eq!(LogitechGProX2::discover(&infos), vec![0, 1]);
}

#[test]
fn voltage_calibration_points() {
    let gpx = &GPRO_X_CALIBRATION[..];
    assert_eq!(voltage_to_percent(4150, gpx), 100);
    assert_eq!(voltage_to_percent(4200, gpx), 100);
    assert_eq!(voltage_to_percent(3830, gpx), 50);
    assert_eq!(voltage_to_percent(3990, gpx), 75);
    assert_eq!(voltage_to_percent(3320, gpx), 0);
    assert_eq!(voltage_to_percent(3000, gpx), 0);
    let g933 = &G933_CALIBRATION[..];
    assert_eq!(voltage_to_percent(3750, g933), 37);
    assert_eq!(voltage_to_percent(4100, g933), 100);
    assert_eq!(voltage_to_percent(5, &[(10, 40)]), 0);
    assert_eq!(voltage_to_percent(10, &[(10, 40), (10, 20)]), 40);
}

fn float_formula(voltage: u16, calibration: &[(u16, u8)]) -> u8 {
    for i in 0..calibration.len() - 1 {
        let (v_high, p_high) = calibration[i];
        let (v_low, p_low) = calibration[i + 1];
        if voltage >= v_low && voltage <= v_high {
            let v_range = v_high - v_low;
            let p_range = p_high - p_low;
            if v_range == 0 {
                return p_high;
            }
            let ratio = (voltage - v_low) as f32 / v_range as f32;
            return p_low + (ratio * p_range as f32) as u8;
        }
    }
    if voltage >= calibration[0].0 {
        100
    } else {
        0
    }
}

#[test]
fn voltage_matches_single_precision_formula() {
    for table in [&GPRO_X_CALIBRATION[..], &G933_CALIBRATION[..]] {
        for v in 0..=u16::MAX {
            assert_eq!(voltage_to_percent(v, table), float_formula(v, table), "voltage {}", v);
        }
    }
}

#[test]
fn voltage_headsets() {
    let req = LogitechGProX::battery_request();
    assert_eq!(&req[..5], &[0x11, 0xFF, 0x06, 0x0D, 0x00]);
    assert_eq!(LogitechG933::battery_request(), req);
    let mut h = LogitechGProX::new();
    let mut r = [0u8; 20];
    r[4] = (3990u16 >> 8) as u8;
    r[5] = (3990u16 & 0xFF) as u8;
    r[6] = 0x03;
    assert!(h.handle_battery_response(&r, 20).is_ok());
    assert_eq!(h.battery_percent(), Some(75));
    assert_eq!(h.charging_state(), ChargingState::Charging);
    r[4] = (4500u16 >> 8) as u8;
    r[5] = (4500u16 & 0xFF) as u8;
    r[6] = 0;
    assert!(h.handle_battery_response(&r, 20).is_ok());
    assert_eq!(h.battery_percent(), Some(100));
    assert_eq!(h.charging_state(), ChargingState::Full);
    r[4] = (4501u16 >> 8) as u8;
    r[5] = (4501u16 & 0xFF) as u8;
    assert_eq!(msg(&h.handle_battery_response(&r, 20).unwrap_err()), "Protocol error: Invalid voltage: 4501");
    r[2] = 0xFF;
    assert!(h.handle_battery_response(&r, 20).is_ok());
    assert!(!h.is_connected());
    assert_eq!(h.charging_state(), ChargingState::Full);
    assert_eq!(msg(&h.handle_battery_response(&r, 0).unwrap_err()), "Communication error: No response");

    let mut g = LogitechG933::new(G933Model::G733);
    assert_eq!(g.name(), "G733");
    let mut r = [0u8; 20];
    r[4] = (3750u16 >> 8) as u8;
    r[5] = (3750u16 & 0xFF) as u8;
    assert!(g.handle_battery_response(&r, 20).is_ok());
    assert_eq!(g.battery_percent(), Some(37));
    assert_eq!(g.charging_state(), ChargingState::Discharging);

    let infos = vec![
        info(0x046D, 0x0AFE, 0xFF43, 3),
        info(0x046D, 0x0A5B, 0xFF43, 3),
        info(0x046D, 0x0A5B, 0xFF00, 3),
    ];
    assert_eq!(LogitechG933::discover(&infos), vec![(1, G933Model::G933), (0, G933Model::G733)]);
    let infos = vec![info(0x046D, 0x0ABA, 0xFF43, 0), info(0x046D, 0x0ABA, 0xFF00, 0)];
    assert_eq!(LogitechGProX::discover(&infos), vec![0]);
}

#[test]
fn nova_and_arctis7() {
    let req = SteelSeriesArctis::battery_request();
    assert_eq!(&req[..3], &[0x00, 0xB0, 0x00]);
    let mut n = SteelSeriesArctis::new(NovaModel::Nova5X);
    assert_eq!(n.name(), "Arctis Nova 5X");
    let mut r = [0u8; 128];
    r[3] = 42;
    r[4] = 1;
    assert!(n.handle_battery_response(&r, 128).is_ok());
    assert_eq!(n.battery_percent(), Some(42));
    assert_eq!(n.charging_state(), ChargingState::Charging);
    r[1] = 0x02;
    assert!(n.handle_battery_response(&r, 128).is_ok());
    assert!(!n.is_connected());
    assert_eq!(n.charging_state(), ChargingState::Unknown);
    assert_eq!(n.battery_percent(), Some(42));
    r[1] = 0;
    r[3] = 101;
    assert_eq!(msg(&n.handle_battery_response(&r, 128).unwrap_err()), "Protocol error: Invalid battery value");
    assert_eq!(msg(&n.handle_battery_response(&r, 0).unwrap_err()), "Communication error: No response from device");

    let infos = vec![
        info(0x1038, 0x2253, 0xFFC0, 3),
        info(0x1038, 0x2232, 0x000C, 3),
        info(0x1038, 0x2232, 0xFFC0, 3),
    ];
    assert_eq!(
        SteelSeriesArctis::discover(&infos),
        vec![
            (2, NovaModel::Nova5),
            (1, NovaModel::Nova5),
            (2, NovaModel::Nova5),
            (0, NovaModel::Nova5X),
            (0, NovaModel::Nova5X),
        ]
    );

    assert_eq!(SteelSeriesArctis7::battery_request(), [0x06, 0x18, 0, 0, 0, 0, 0, 0]);
    let mut a = SteelSeriesArctis7::new(Arctis7Model::ProWireless);
    assert_eq!(a.name(), "Arctis Pro Wireless");
    let mut r = [0u8; 8];
    r[2] = 100;
    assert!(a.handle_battery_response(&r, 8).is_ok());
    assert_eq!(a.charging_state(), ChargingState::Full);
    r[2] = 0xFF;
    assert!(a.handle_battery_response(&r, 8).is_ok());
    assert!(!a.is_connected());
    assert_eq!(a.battery_percent(), Some(100));
    let infos = vec![info(0x1038, 0x12B3, 0, 5), info(0x1038, 0x1260, 0, 5), info(0x1038, 0x1260, 0, 4)];
    assert_eq!(
        SteelSeriesArctis7::discover(&infos),
        vec![(1, Arctis7Model::Arctis7_2017), (0, Arctis7Model::Arctis7Plus)]
    );
}

#[test]
fn playstation_reports() {
    let mut ds = DualSense::new(true);
    assert_eq!(ds.id(), "sony-dualsense-edge");
    assert_eq!(ds.name(), "DualSense Edge");
    assert_eq!(ds.icon(), DeviceIcon::Controller);
    let mut buf = [0u8; 78];
    buf[0] = 0x31;
    buf[54] = 0x27; // charging bits 2, level 7
    assert!(ds.handle_report(&buf, 78).is_ok());
    assert_eq!(ds.battery_percent(), Some(70));
    assert_eq!(ds.charging_state(), ChargingState::Full);
    buf[0] = 0x01;
    buf[53] = 0x1F; // level 15 capped at 10, charging
    assert!(ds.handle_report(&buf, 78).is_ok());
    assert_eq!(ds.battery_percent(), Some(100));
    assert_eq!(ds.charging_state(), ChargingState::Charging);
    let short = [0x01u8; 10];
    assert_eq!(msg(&ds.handle_report(&short, 10).unwrap_err()), "Protocol error: Could not read battery status");
    assert_eq!(msg(&ds.handle_report(&buf, 0).unwrap_err()), "Communication error: No data from controller");
    assert!(!ds.is_connected());

    let mut d4 = DualShock4::new();
    let mut buf = [0u8; 64];
    buf[0] = 0x11;
    buf[32] = 0x15;
    assert!(d4.handle_report(&buf, 64).is_ok());
    assert_eq!(d4.battery_percent(), Some(50));
    assert_eq!(d4.charging_state(), ChargingState::Charging);
    buf[0] = 0x01;
    buf[30] = 0x0A;
    assert!(d4.handle_report(&buf, 64).is_ok());
    assert_eq!(d4.charging_state(), ChargingState::Discharging);
    buf[30] = 0x1A;
    assert!(d4.handle_report(&buf, 64).is_ok());
    assert_eq!(d4.charging_state(), ChargingState::Full);

    let infos = vec![info(0x054C, 0x0DF2, 0, 0), info(0x054C, 0x0CE6, 0, 0), info(0x054C, 0x09CC, 0, 0), info(0x054C, 0x05C4, 0, 0)];
    assert_eq!(DualSense::discover(&infos), vec![(1, false), (0, true)]);
    assert_eq!(DualShock4::discover(&infos), vec![3, 2]);
    assert_eq!(DualShock4::new().name(), "DualShock 4");
}

#[test]
fn voltage_readings_rise_with_voltage() {
    for table in [&GPRO_X_CALIBRATION[..], &G933_CALIBRATION[..]] {
        let mut previous = 0u8;
        for v in 0..=u16::MAX {
            let p = voltage_to_percent(v, table);
            assert!(p <= 100);
            assert!(p >= previous, "voltage {}", v);
            previous = p;
        }
    }
}
