use crab_dlna::devices::render::Render;
use crab_dlna::devices::select::{
    check_device_url, device_creation_failed, search_of, select_by_query, select_from,
};
use crab_dlna::devices::types::{ActionResponse, PositionInfo, RenderSpec, TransportInfo};
use crab_dlna::error::Error;
use crab_dlna::utils::formatting::{
    format_device_description, format_device_with_service_description,
};

fn response(fields: &[(&str, &str)]) -> ActionResponse {
    let mut r = ActionResponse::new();
    for (k, v) in fields {
        r.insert(k.to_string(), v.to_string());
    }
    r
}

fn render(name: &str, url: &str) -> Render {
    Render {
        url: url.to_string(),
        friendly_name: name.to_string(),
        device_type: "MediaRenderer".to_string(),
        service_type: "AVTransport".to_string(),
        service_id: "/ctl".to_string(),
    }
}

#[test]
fn position_info_is_read_from_a_response() {
    let r = response(&[
        ("Track", "3"),
        ("TrackDuration", "01:30:45"),
        ("TrackMetaData", "<x/>"),
        ("TrackURI", "http://a/b"),
        ("RelTime", "00:10:00"),
        ("AbsTime", "NOT_IMPLEMENTED"),
        ("RelCount", "2147483647"),
        ("AbsCount", "-2147483648"),
        ("Other", "ignored"),
    ]);
    let p = PositionInfo::from_map(&r).unwrap();
    assert_eq!(p.track, 3);
    assert_eq!(p.track_duration, "01:30:45");
    assert_eq!(p.track_meta_data, "<x/>");
    assert_eq!(p.track_uri, "http://a/b");
    assert_eq!(p.rel_time, "00:10:00");
    assert_eq!(p.abs_time, "NOT_IMPLEMENTED");
    assert_eq!(p.rel_count, 2147483647);
    assert_eq!(p.abs_count, -2147483648);
}

#[test]
fn absent_fields_take_their_defaults() {
    let p = PositionInfo::from_map(&ActionResponse::new()).unwrap();
    assert_eq!(p.track, 0);
    assert_eq!(p.track_duration, "");
    assert_eq!(p.track_meta_data, "");
    assert_eq!(p.track_uri, "");
    assert_eq!(p.rel_time, "");
    assert_eq!(p.abs_time, "");
    assert_eq!(p.rel_count, -1);
    assert_eq!(p.abs_count, -1);
    let d = PositionInfo::default();
    assert_eq!((d.track, d.rel_count, d.abs_count), (0, -1, -1));
    assert_eq!(d.rel_time, "");
}

#[test]
fn a_field_that_is_no_number_is_named() {
    let cases = [
        (vec![("Track", "x")], "Failed to parse Track: invalid digit found in string"),
        (vec![("Track", "")], "Failed to parse Track: cannot parse integer from empty string"),
        (vec![("Track", "-1")], "Failed to parse Track: invalid digit found in string"),
        (
            vec![("Track", "4294967296")],
            "Failed to parse Track: number too large to fit in target type",
        ),
        (
            vec![("RelCount", "2147483648")],
            "Failed to parse RelCount: number too large to fit in target type",
        ),
        (
            vec![("AbsCount", "-2147483649")],
            "Failed to parse AbsCount: number too small to fit in target type",
        ),
        (vec![("AbsCount", "1.5")], "Failed to parse AbsCount: invalid digit found in string"),
        (
            vec![("AbsCount", "-"), ("RelCount", "+")],
            "Failed to parse RelCount: invalid digit found in string",
        ),
        (
            vec![("AbsCount", "x"), ("Track", "y")],
            "Failed to parse Track: invalid digit found in string",
        ),
    ];
    for (fields, expected) in cases {
        let error = PositionInfo::from_map(&response(&fields)).unwrap_err();
        assert_eq!(error, expected);
    }
    let ok = PositionInfo::from_map(&response(&[("Track", "+7"), ("RelCount", "+0"), ("AbsCount", "-0")]))
        .unwrap();
    assert_eq!((ok.track, ok.rel_count, ok.abs_count), (7, 0, 0));
}

#[test]
fn transport_info_is_read_from_a_response() {
    let r = response(&[
        ("CurrentTransportState", "PLAYING"),
        ("CurrentTransportStatus", "OK"),
        ("CurrentSpeed", "1"),
    ]);
    let t = TransportInfo::from_map(&r).unwrap();
    assert_eq!(t.transport_state, "PLAYING");
    assert_eq!(t.transport_status, "OK");
    assert_eq!(t.speed, "1");
    let empty = TransportInfo::from_map(&ActionResponse::new()).unwrap();
    assert_eq!(empty.transport_state, "");
    assert_eq!(empty.transport_status, "");
    assert_eq!(empty.speed, "");
    assert_eq!(TransportInfo::default().speed, "");
}

#[test]
fn a_response_keeps_the_last_value_of_a_key() {
    let r = response(&[("Track", "1"), ("Track", "2")]);
    assert_eq!(r.get("Track"), Some("2".to_string()));
    assert_eq!(r.get("track"), None);
    assert_eq!(r.get_or("RelTime", "none"), "none");
    assert_eq!(PositionInfo::from_map(&r).unwrap().track, 2);
}

#[test]
fn device_urls_are_checked() {
    assert!(check_device_url("http://192.168.1.5:8080/description.xml").is_ok());
    assert!(check_device_url("/relative/path").is_ok());
    match check_device_url("http://exa mple.com/") {
        Err(Error::DeviceUrlParseError { url, reason }) => {
            assert_eq!(url, "http://exa mple.com/");
            assert_eq!(reason, "Invalid URL format: invalid uri character");
        }
        other => panic!("unexpected result: {:?}", other),
    }
    match check_device_url("") {
        Err(Error::DeviceUrlParseError { url, reason }) => {
            assert_eq!(url, "");
            assert_eq!(reason, "Invalid URL format: empty string");
        }
        other => panic!("unexpected result: {:?}", other),
    }
    let e = device_creation_failed("http://a/", "refused".to_string());
    assert_eq!(e.to_string(), "Failed to create device from 'http://a/': refused");
}

#[test]
fn the_first_render_is_selected() {
    let renders = vec![render("tv", "http://a/"), render("radio", "http://b/")];
    let spec = RenderSpec::First(5);
    assert_eq!(select_from(&spec, &renders).unwrap().friendly_name, "tv");
    match select_from(&spec, &Vec::new()) {
        Err(Error::RenderNotFound { spec: RenderSpec::First(5), context }) => {
            assert_eq!(context, "No devices discovered in the network");
        }
        other => panic!("unexpected result: {:?}", other),
    }
}

#[test]
fn a_render_is_selected_by_query() {
    let renders = vec![
        render("Kitchen", "http://a/"),
        render("Living Room TV", "http://b/"),
        render("Bedroom TV", "http://c/"),
    ];
    let spec = RenderSpec::Query(3, "TV".to_string());
    assert_eq!(select_from(&spec, &renders).unwrap().friendly_name, "Living Room TV");
    assert_eq!(select_by_query(&renders, "http://c").unwrap().friendly_name, "Bedroom TV");
    assert_eq!(select_by_query(&renders, "[AVTransport]").unwrap().friendly_name, "Kitchen");
    assert_eq!(select_by_query(&renders, "").unwrap().friendly_name, "Kitchen");
    assert!(select_by_query(&renders, "tv").is_none());
    match select_from(&RenderSpec::Query(3, "Garage".to_string()), &renders) {
        Err(Error::RenderNotFound { spec: RenderSpec::Query(3, query), context }) => {
            assert_eq!(query, "Garage");
            assert_eq!(context, "No device found matching query 'Garage'");
        }
        other => panic!("unexpected result: {:?}", other),
    }
}

#[test]
fn a_render_is_selected_by_location() {
    let spec = RenderSpec::Location("http://a/desc.xml".to_string());
    let found = vec![render("tv", "http://a/desc.xml")];
    assert_eq!(select_from(&spec, &found).unwrap().url, "http://a/desc.xml");
    match select_from(&spec, &Vec::new()) {
        Err(Error::RenderNotFound { spec: RenderSpec::Location(url), context }) => {
            assert_eq!(url, "http://a/desc.xml");
            assert_eq!(context, "Device not found at specified URL");
        }
        other => panic!("unexpected result: {:?}", other),
    }
}

#[test]
fn a_search_is_made_unless_the_location_is_given() {
    assert_eq!(search_of(&RenderSpec::Location("http://a/".to_string())), None);
    let plan = search_of(&RenderSpec::Query(9, "x".to_string())).unwrap();
    assert_eq!((plan.duration_secs, plan.search_attempts, plan.ttl), (9, 3, Some(3)));
    let plan = search_of(&RenderSpec::First(2)).unwrap();
    assert_eq!(plan.duration_secs, 2);
    let copy = RenderSpec::Query(9, "x".to_string()).duplicate();
    assert!(matches!(copy, RenderSpec::Query(9, q) if q == "x"));
}

#[test]
fn devices_are_described() {
    assert_eq!(
        format_device_description("type", "name", "http://u"),
        "[type] name @ http://u"
    );
    assert_eq!(
        format_device_with_service_description("type", "service", "name", "http://u"),
        "[type][service] name @ http://u"
    );
    assert_eq!(format_device_description("", "", ""), "[]  @ ");
}
