use displays_mqtt_bridge::bridge::{handle_command, Bridge, BridgeAction, BridgeEvent, ScanWork};
use displays_mqtt_bridge::control::{DisplayInfo, ScreenController};
use displays_mqtt_bridge::mqtt::Publisher;
use displays_mqtt_bridge::protocol::{Command, DisplayTarget};

fn info(id: &str) -> DisplayInfo {
    DisplayInfo {
        backend: "i2c-dev".to_owned(),
        id: id.to_owned(),
        manufacturer_id: None,
        model_id: None,
        version: None,
        serial: None,
        manufacture_year: None,
        manufacture_week: None,
        model_name: Some("Office Display".to_owned()),
        serial_number: None,
        edid_data: None,
        mccs_version: None,
    }
}

fn take_scan(actions: Vec<BridgeAction>) -> displays_mqtt_bridge::bridge::ScanRequest {
    for a in actions {
        if let BridgeAction::StartScan(req) = a {
            return req;
        }
    }
    panic!("no scan started");
}

#[test]
fn connecting_publishes_an_empty_heartbeat_then_scans() {
    let mut bridge = Bridge::new(ScreenController::new());
    let actions = bridge.step(BridgeEvent::Connected);
    assert_eq!(actions.len(), 2);
    match &actions[0] {
        BridgeAction::PublishStatus(s) => {
            assert!(s.displays.is_empty());
            assert!(s.command.is_none());
        }
        other => panic!("unexpected {other:?}"),
    }
    match &actions[1] {
        BridgeAction::StartScan(req) => {
            assert!(req.refresh);
            assert!(matches!(req.work, ScanWork::Report(None)));
        }
        other => panic!("unexpected {other:?}"),
    }
    assert!(!bridge.is_idle());
}

#[test]
fn reconnecting_during_a_scan_only_republishes_the_listing() {
    let mut bridge = Bridge::new(ScreenController::new());
    bridge.step(BridgeEvent::Connected);
    let actions = bridge.step(BridgeEvent::Connected);
    assert_eq!(actions.len(), 1);
    assert!(matches!(actions[0], BridgeAction::PublishStatus(_)));
}

#[test]
fn a_command_during_a_scan_is_answered_busy() {
    let mut bridge = Bridge::new(ScreenController::new());
    bridge.step(BridgeEvent::Tick);
    let actions = bridge.step(BridgeEvent::Command(Ok(Command::ScanDisplays)));
    assert_eq!(actions.len(), 1);
    match &actions[0] {
        BridgeAction::PublishStatus(s) => {
            let c = s.command.as_ref().unwrap();
            assert!(!c.ok);
            assert_eq!(
                c.error.as_deref(),
                Some("DDC/CI scan already in progress; retry shortly")
            );
        }
        other => panic!("unexpected {other:?}"),
    }
}

#[test]
fn invalid_json_is_answered_at_once() {
    let mut bridge = Bridge::new(ScreenController::new());
    let actions = bridge.step(BridgeEvent::Command(Err("expected value at line 1 column 1".to_owned())));
    match &actions[0] {
        BridgeAction::PublishStatus(s) => {
            assert_eq!(
                s.command.as_ref().unwrap().error.as_deref(),
                Some("invalid command JSON: expected value at line 1 column 1")
            );
        }
        other => panic!("unexpected {other:?}"),
    }
    assert!(bridge.is_idle());
}

#[test]
fn ticks_are_skipped_while_scanning() {
    let mut bridge = Bridge::new(ScreenController::new());
    let first = bridge.step(BridgeEvent::Tick);
    assert_eq!(first.len(), 1);
    let req = take_scan(first);
    assert!(!req.refresh);
    assert!(bridge.step(BridgeEvent::Tick).is_empty());
    let scan = req.controller.scan(Some(vec![info("a")]), vec![vec![None; 8]], None);
    let actions = bridge.step(BridgeEvent::ScanFinished(scan));
    assert_eq!(actions.len(), 2);
    match &actions[0] {
        BridgeAction::PublishStatus(s) => assert_eq!(s.displays[0].id, "a"),
        other => panic!("unexpected {other:?}"),
    }
    match &actions[1] {
        BridgeAction::PublishDetails(ps) => assert_eq!(ps.len(), 25),
        other => panic!("unexpected {other:?}"),
    }
    assert!(bridge.is_idle());
    let later = bridge.step(BridgeEvent::Connected);
    match &later[0] {
        BridgeAction::PublishStatus(s) => assert_eq!(s.displays.len(), 1),
        other => panic!("unexpected {other:?}"),
    }
}

#[test]
fn list_displays_rediscovers() {
    let h = handle_command(Ok(Command::ListDisplays), Some(ScreenController::new()));
    assert!(h.controller.is_none());
    assert!(h.immediate_response.is_none());
    let req = h.start_scan.unwrap();
    assert!(req.refresh);
    assert!(matches!(&req.work, ScanWork::Report(Some(c)) if c.ok));
}

#[test]
fn set_brightness_starts_a_job_or_reports_a_refusal() {
    let mut c = ScreenController::new();
    c.refresh(vec![info("a")]);
    let h = handle_command(
        Ok(Command::SetBrightness { display: DisplayTarget::Index(0), brightness: 60 }),
        Some(c),
    );
    let req = h.start_scan.unwrap();
    assert!(!req.refresh);
    assert!(matches!(req.work, ScanWork::Brightness(_)));
    let h = handle_command(
        Ok(Command::SetBrightness { display: DisplayTarget::Index(0), brightness: 160 }),
        Some(req.controller),
    );
    let req = h.start_scan.unwrap();
    assert!(matches!(&req.work, ScanWork::Report(Some(r)) if !r.ok));
}

#[test]
fn publisher_topics_sit_below_the_trimmed_root() {
    let p = Publisher::new((), "/screens/office/");
    assert_eq!(p.command_topic(), "screens/office/cmd");
    assert_eq!(p.topic_for("status"), "screens/office/status");
    assert_eq!(p.topic_for("displays/0/identity"), "screens/office/displays/0/identity");
    assert_eq!(*p.client(), ());
}
