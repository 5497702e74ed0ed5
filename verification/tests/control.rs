use displays_mqtt_bridge::control::{
    display_identity, display_publications, features, luminance_for, publication,
    read_vcp_publications, DdcAction, DisplayInfo, Feature, ScreenController, VcpValue,
    BRIGHTNESS,
};
use displays_mqtt_bridge::protocol::{DisplayTarget, Payload};

fn info(id: &str, model: Option<&str>) -> DisplayInfo {
    DisplayInfo {
        backend: "i2c-dev".to_owned(),
        id: id.to_owned(),
        manufacturer_id: Some("DEL".to_owned()),
        model_id: Some(1234),
        version: Some((1, 3)),
        serial: Some(123456),
        manufacture_year: Some(34),
        manufacture_week: Some(10),
        model_name: model.map(str::to_owned),
        serial_number: Some("ABC123".to_owned()),
        edid_data: Some(vec![0x00, 0xff, 0x10]),
        mccs_version: Some((2, 2)),
    }
}

fn controller(displays: Vec<DisplayInfo>) -> ScreenController {
    let mut c = ScreenController::new();
    c.refresh(displays);
    c
}

#[test]
fn configured_features_have_readable_unique_topic_names() {
    let topics = features()
        .iter()
        .map(|feature| feature.topic)
        .collect::<Vec<_>>();
    assert_eq!(
        topics,
        [
            "brightness",
            "contrast",
            "red_gain",
            "green_gain",
            "blue_gain",
            "input_source",
            "speaker_volume",
            "power_mode"
        ]
    );
}

#[test]
fn feature_codes_are_the_standard_vcp_codes() {
    let codes = features().iter().map(|f| f.code).collect::<Vec<_>>();
    assert_eq!(codes, [0x10, 0x12, 0x16, 0x18, 0x1a, 0x60, 0x62, 0xd6]);
    assert_eq!(features()[0].code, BRIGHTNESS);
    assert_eq!(Feature::new("x", 3), Feature { topic: "x", code: 3 });
}

#[test]
fn luminance_scales_to_the_reported_maximum() {
    assert_eq!(luminance_for(100, 60), 60);
    assert_eq!(luminance_for(255, 50), 127);
    assert_eq!(luminance_for(50, 100), 50);
    assert_eq!(luminance_for(u16::MAX, 100), u16::MAX);
    assert_eq!(luminance_for(80, 0), 0);
}

#[test]
fn status_lists_every_display_with_a_fallback_name() {
    let c = controller(vec![info("a", Some("Office Display")), info("b", None)]);
    let status = c.status();
    assert_eq!(status.len(), 2);
    assert_eq!(status[0].index, 0);
    assert_eq!(status[0].id, "a");
    assert_eq!(status[0].name, "Office Display");
    assert_eq!(status[1].index, 1);
    assert_eq!(status[1].name, "Unknown display");
    assert_eq!(c.display_count(), 2);
}

#[test]
fn identity_formats_versions_and_edid() {
    let id = display_identity(&info("a", Some("Office Display")));
    assert_eq!(id.backend, "i2c-dev");
    assert_eq!(id.version.as_deref(), Some("1.3"));
    assert_eq!(id.mccs_version.as_deref(), Some("2.2"));
    assert_eq!(id.edid_hex.as_deref(), Some("00ff10"));
    assert_eq!(id.model_id, Some(1234));
    let mut bare = info("b", None);
    bare.edid_data = None;
    bare.version = None;
    let id = display_identity(&bare);
    assert_eq!(id.edid_hex, None);
    assert_eq!(id.version, None);
    assert_eq!(id.model_name, None);
}

#[test]
fn unreadable_feature_publishes_three_nulls() {
    let f = features()[1];
    let ps = read_vcp_publications("displays/0", &f, &None);
    assert_eq!(ps.len(), 3);
    assert_eq!(ps[0].topic_suffix, "displays/0/contrast/value");
    assert_eq!(ps[1].topic_suffix, "displays/0/contrast/maximum");
    assert_eq!(ps[2].topic_suffix, "displays/0/contrast/value_type");
    assert!(ps.iter().all(|p| p.payload == Payload::Null));
}

#[test]
fn readable_feature_publishes_value_maximum_and_type() {
    let f = features()[0];
    let reading = Some(VcpValue { value: 42, maximum: 100, ty: 0 });
    let ps = read_vcp_publications("displays/3", &f, &reading);
    assert_eq!(ps[0].topic_suffix, "displays/3/brightness/value");
    assert_eq!(ps[0].payload, Payload::Number(42));
    assert_eq!(ps[1].payload, Payload::Number(100));
    assert_eq!(ps[2].payload, Payload::Number(0));
    assert_eq!(publication("t".to_owned(), Payload::Null).topic_suffix, "t");
}

#[test]
fn display_publications_cover_every_feature_in_order() {
    let row = vec![Some(VcpValue { value: 1, maximum: 2, ty: 3 }); 8];
    let ps = display_publications("displays/1", &row);
    assert_eq!(ps.len(), 24);
    assert_eq!(ps[21].topic_suffix, "displays/1/power_mode/value");
    assert_eq!(ps[23].payload, Payload::Number(3));
}

#[test]
fn collected_publications_start_with_identity_per_display() {
    let c = controller(vec![info("a", Some("A")), info("b", Some("B"))]);
    let readings = vec![vec![None; 8], vec![Some(VcpValue { value: 5, maximum: 9, ty: 1 }); 8]];
    let ps = c.collect_publications(&readings);
    assert_eq!(ps.len(), 50);
    assert_eq!(ps[0].topic_suffix, "displays/0/identity");
    assert!(matches!(&ps[0].payload, Payload::Identity(id) if id.id == "a"));
    assert_eq!(ps[1].payload, Payload::Null);
    assert_eq!(ps[25].topic_suffix, "displays/1/identity");
    assert_eq!(ps[26].topic_suffix, "displays/1/brightness/value");
    assert_eq!(ps[26].payload, Payload::Number(5));
}

#[test]
fn scan_adopts_rediscovered_displays() {
    let c = controller(vec![info("old", None)]);
    let scan = c.scan(Some(vec![info("x", Some("X")), info("y", Some("Y"))]), vec![vec![None; 8], vec![None; 8]], None);
    assert_eq!(scan.displays.len(), 2);
    assert_eq!(scan.displays[1].id, "y");
    assert_eq!(scan.publications.len(), 50);
    assert_eq!(scan.controller.display_count(), 2);
    assert!(scan.command.is_none());
    let again = scan.controller.scan(None, vec![vec![None; 8], vec![None; 8]], None);
    assert_eq!(again.displays[0].id, "x");
}

#[test]
fn brightness_above_one_hundred_is_refused() {
    let c = controller(vec![info("a", None)]);
    let refused = c.set_brightness(&DisplayTarget::All("all".to_owned()), 101).unwrap_err();
    assert!(!refused.ok);
    assert_eq!(refused.error.as_deref(), Some("brightness must be an integer from 0 to 100"));
}

#[test]
fn brightness_for_an_unknown_display_is_refused() {
    let c = controller(vec![info("a", None)]);
    let refused = c.set_brightness(&DisplayTarget::Index(1), 50).unwrap_err();
    assert_eq!(
        refused.error.as_deref(),
        Some("display index 1 does not exist; detected displays: 1")
    );
}

#[test]
fn one_failing_display_does_not_stop_the_others() {
    let c = controller(vec![info("a", Some("A")), info("b", Some("B")), info("c", Some("C"))]);
    let mut job = c.set_brightness(&DisplayTarget::All("all".to_owned()), 60).unwrap();
    assert_eq!(job.next_action(), DdcAction::ReadLuminance { display: 0 });
    job.on_read(Some(VcpValue { value: 10, maximum: 100, ty: 0 }));
    assert_eq!(job.next_action(), DdcAction::WriteLuminance { display: 0, value: 60 });
    job.on_write(true);
    assert_eq!(job.next_action(), DdcAction::ReadLuminance { display: 1 });
    job.on_read(None);
    assert_eq!(job.next_action(), DdcAction::ReadLuminance { display: 2 });
    job.on_read(Some(VcpValue { value: 10, maximum: 0, ty: 0 }));
    assert!(job.is_finished());
    assert_eq!(job.next_action(), DdcAction::Finished);
    let result = job.finish();
    assert!(!result.ok);
    assert_eq!(result.error, None);
    assert_eq!(result.results.len(), 3);
    assert_eq!(result.results[0].applied_vcp_value, Some(60));
    assert_eq!(result.results[0].error, None);
    assert_eq!(result.results[0].name, "A");
    assert_eq!(result.results[0].requested_percent, 60);
    assert_eq!(
        result.results[1].error.as_deref(),
        Some("display does not provide VCP luminance (0x10)")
    );
    assert_eq!(
        result.results[2].error.as_deref(),
        Some("display reported a maximum luminance of zero")
    );
}

#[test]
fn failed_write_is_reported() {
    let c = controller(vec![info("a", None), info("b", None)]);
    let mut job = c.set_brightness(&DisplayTarget::Index(1), 35).unwrap();
    assert_eq!(job.next_action(), DdcAction::ReadLuminance { display: 1 });
    job.on_read(Some(VcpValue { value: 1, maximum: 255, ty: 0 }));
    assert_eq!(job.next_action(), DdcAction::WriteLuminance { display: 1, value: 89 });
    job.on_write(false);
    let result = job.finish();
    assert!(!result.ok);
    assert_eq!(result.results[0].index, 1);
    assert_eq!(result.results[0].applied_vcp_value, None);
    assert_eq!(result.results[0].error.as_deref(), Some("could not set VCP luminance (0x10)"));
}

#[test]
fn all_successful_writes_make_the_command_ok() {
    let c = controller(vec![info("a", None)]);
    let mut job = c.set_brightness(&DisplayTarget::All("all".to_owned()), 0).unwrap();
    job.on_read(Some(VcpValue { value: 70, maximum: 100, ty: 0 }));
    assert_eq!(job.next_action(), DdcAction::WriteLuminance { display: 0, value: 0 });
    job.on_write(true);
    let result = job.finish();
    assert!(result.ok);
    assert_eq!(result.results[0].applied_vcp_value, Some(0));
}

#[test]
fn a_job_without_displays_is_finished_at_once() {
    let c = ScreenController::new();
    let job = c.set_brightness(&DisplayTarget::All("all".to_owned()), 50).unwrap();
    assert!(job.is_finished());
    let result = job.finish();
    assert!(result.ok);
    assert!(result.results.is_empty());
}

#[test]
fn every_published_topic_is_distinct() {
    let displays: Vec<DisplayInfo> = (0..12).map(|i| info(&format!("d{i}"), None)).collect();
    let c = controller(displays);
    let readings = vec![vec![None; 8]; 12];
    let ps = c.collect_publications(&readings);
    let mut topics = ps.iter().map(|p| p.topic_suffix.clone()).collect::<Vec<_>>();
    topics.sort();
    topics.dedup();
    assert_eq!(topics.len(), 12 * 25);
}
