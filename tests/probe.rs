use landmark_viewer::probe::{
    report_lines, AppInfo, DeviceInfo, DeviceProbe, ProbeEvent, Request, Stage,
};

fn device() -> DeviceInfo {
    DeviceInfo { se_version: "2.0.0".to_string(), mcu_version: "1.12".to_string() }
}

fn app() -> AppInfo {
    AppInfo { app_name: "Bitcoin".to_string(), app_version: "2.1.0".to_string() }
}

const DEVICE_HEADER: &str = "///////////////// Device Info /////////////////////////";
const APP_HEADER: &str = "///////////////// App Info /////////////////////////";

#[test]
fn report_of_both_answers() {
    let lines = report_lines(&Some(device()), &Some(app()));
    assert_eq!(
        lines,
        vec![
            "".to_string(),
            DEVICE_HEADER.to_string(),
            "se_version: 2.0.0".to_string(),
            "mcu_version: 1.12".to_string(),
            "".to_string(),
            APP_HEADER.to_string(),
            "app_name: Bitcoin".to_string(),
            "app_version: 2.1.0".to_string(),
        ]
    );
}

#[test]
fn report_of_app_only() {
    let lines = report_lines(&None, &Some(app()));
    assert_eq!(
        lines,
        vec![
            "".to_string(),
            APP_HEADER.to_string(),
            "app_name: Bitcoin".to_string(),
            "app_version: 2.1.0".to_string(),
        ]
    );
}

#[test]
fn report_of_nothing_is_empty() {
    assert!(report_lines(&None, &None).is_empty());
}

#[test]
fn full_probe_reports_both() {
    let mut p = DeviceProbe::new();
    assert_eq!(p.stage(), Stage::Opening);
    let s = p.step(ProbeEvent::TransportOpened);
    assert_eq!(s.error, None);
    assert_eq!(s.request, Some(Request::DeviceInfo));
    assert!(s.output.is_empty());
    let s = p.step(ProbeEvent::DeviceInfoReceived(device()));
    assert_eq!(s.error, None);
    assert_eq!(s.request, Some(Request::AppInfo));
    assert!(s.output.is_empty());
    assert_eq!(p.device(), &Some(device()));
    let s = p.step(ProbeEvent::AppInfoReceived(app()));
    assert_eq!(s.error, None);
    assert_eq!(s.request, None);
    assert_eq!(s.output, report_lines(&Some(device()), &Some(app())));
    assert_eq!(s.output.len(), 8);
    assert_eq!(p.stage(), Stage::Finished);
    assert_eq!(p.app(), &Some(app()));
}

#[test]
fn device_failure_does_not_stop_app_request() {
    let mut p = DeviceProbe::new();
    p.step(ProbeEvent::TransportOpened);
    let s = p.step(ProbeEvent::DeviceInfoFailed("no device info".to_string()));
    assert_eq!(s.error, Some("no device info".to_string()));
    assert_eq!(s.request, Some(Request::AppInfo));
    assert!(s.output.is_empty());
    let s = p.step(ProbeEvent::AppInfoReceived(app()));
    assert_eq!(s.error, None);
    assert_eq!(s.output, report_lines(&None, &Some(app())));
}

#[test]
fn app_failure_still_reports_device() {
    let mut p = DeviceProbe::new();
    p.step(ProbeEvent::TransportOpened);
    p.step(ProbeEvent::DeviceInfoReceived(device()));
    let s = p.step(ProbeEvent::AppInfoFailed("app not open".to_string()));
    assert_eq!(s.error, Some("app not open".to_string()));
    assert_eq!(s.request, None);
    assert_eq!(
        s.output,
        vec![
            "".to_string(),
            DEVICE_HEADER.to_string(),
            "se_version: 2.0.0".to_string(),
            "mcu_version: 1.12".to_string(),
        ]
    );
    assert_eq!(p.stage(), Stage::Finished);
}

#[test]
fn both_failures_print_no_report() {
    let mut p = DeviceProbe::new();
    p.step(ProbeEvent::TransportOpened);
    p.step(ProbeEvent::DeviceInfoFailed("a".to_string()));
    let s = p.step(ProbeEvent::AppInfoFailed("b".to_string()));
    assert_eq!(s.error, Some("b".to_string()));
    assert!(s.output.is_empty());
    assert_eq!(s.request, None);
}

#[test]
fn transport_failure_ends_probe() {
    let mut p = DeviceProbe::new();
    let s = p.step(ProbeEvent::TransportFailed("no device".to_string()));
    assert_eq!(s.error, Some("no device".to_string()));
    assert_eq!(s.request, None);
    assert!(s.output.is_empty());
    assert_eq!(p.stage(), Stage::Finished);
    let s = p.step(ProbeEvent::DeviceInfoReceived(device()));
    assert_eq!(s.error, None);
    assert_eq!(s.request, None);
    assert_eq!(p.device(), &None);
}

#[test]
fn unexpected_event_changes_nothing() {
    let mut p = DeviceProbe::new();
    let s = p.step(ProbeEvent::AppInfoReceived(app()));
    assert_eq!(s.error, None);
    assert_eq!(s.request, None);
    assert!(s.output.is_empty());
    assert_eq!(p.stage(), Stage::Opening);
    assert_eq!(p.app(), &None);
}
