use crab_dlna::devices::discovery::{collect_renders, default_search, Discovery, DiscoveryEvent};
use crab_dlna::devices::render::{DeviceDescription, Render, ServiceDescription};

const AV_TRANSPORT: &str = "urn:schemas-upnp-org:service:AVTransport:1";
const RENDERING_CONTROL: &str = "urn:schemas-upnp-org:service:RenderingControl:1";

fn service(service_type: &str, service_id: &str) -> ServiceDescription {
    ServiceDescription {
        service_type: service_type.to_string(),
        service_id: service_id.to_string(),
    }
}

fn device(url: &str, name: &str, services: Vec<ServiceDescription>) -> DeviceDescription {
    DeviceDescription {
        url: url.to_string(),
        friendly_name: name.to_string(),
        device_type: "urn:schemas-upnp-org:device:MediaRenderer:1".to_string(),
        services,
    }
}

fn renderer(url: &str, name: &str) -> DiscoveryEvent {
    DiscoveryEvent::Found(device(
        url,
        name,
        vec![service(RENDERING_CONTROL, "/rc"), service(AV_TRANSPORT, "/avt")],
    ))
}

fn urls(renders: &[Render]) -> Vec<&str> {
    renders.iter().map(|r| r.url.as_str()).collect()
}

#[test]
fn responses_are_deduplicated_by_url_in_order_of_first_sight() {
    let events = vec![
        renderer("http://10.0.0.2/desc.xml", "B"),
        renderer("http://10.0.0.1/desc.xml", "A"),
        renderer("http://10.0.0.2/desc.xml", "B again"),
        renderer("http://10.0.0.3/desc.xml", "C"),
        renderer("http://10.0.0.1/desc.xml", "A again"),
        renderer("http://10.0.0.2/desc.xml", "B once more"),
    ];
    let renders = collect_renders(&events);
    assert_eq!(
        urls(&renders),
        vec![
            "http://10.0.0.2/desc.xml",
            "http://10.0.0.1/desc.xml",
            "http://10.0.0.3/desc.xml"
        ]
    );
    assert_eq!(renders[0].friendly_name, "B");
    assert_eq!(renders[1].friendly_name, "A");
    assert_eq!(renders[0].service_id, "/avt");
    assert_eq!(renders[0].service_type, AV_TRANSPORT);
}

#[test]
fn n_responses_with_m_urls_yield_m_renders() {
    for m in 1..=5usize {
        for n in m..=12usize {
            let events: Vec<DiscoveryEvent> = (0..n)
                .map(|i| renderer(&format!("http://host{}/", i % m), "x"))
                .collect();
            let renders = collect_renders(&events);
            assert_eq!(renders.len(), m);
            let expected: Vec<String> = (0..m).map(|i| format!("http://host{}/", i)).collect();
            assert_eq!(urls(&renders), expected);
        }
    }
    assert!(collect_renders(&Vec::new()).is_empty());
}

#[test]
fn devices_without_the_service_and_failures_are_passed_over() {
    let events = vec![
        DiscoveryEvent::Failed("timed out".to_string()),
        DiscoveryEvent::Found(device("http://a/", "router", vec![service(RENDERING_CONTROL, "/rc")])),
        DiscoveryEvent::Found(device("http://b/", "bare", Vec::new())),
        renderer("http://c/", "tv"),
        DiscoveryEvent::Failed("refused".to_string()),
        renderer("http://a/", "router with transport"),
    ];
    let renders = collect_renders(&events);
    assert_eq!(urls(&renders), vec!["http://c/", "http://a/"]);
    assert_eq!(renders[1].friendly_name, "router with transport");
}

#[test]
fn discovery_takes_events_one_by_one() {
    let mut discovery = Discovery::new();
    assert_eq!(discovery.len(), 0);
    assert!(discovery.observe(&renderer("http://a/", "tv")));
    assert!(discovery.knows("http://a/"));
    assert!(!discovery.knows("http://a"));
    assert!(!discovery.observe(&renderer("http://a/", "tv")));
    assert!(!discovery.observe(&DiscoveryEvent::Failed("x".to_string())));
    assert!(discovery.observe(&renderer("http://b/", "radio")));
    assert_eq!(discovery.len(), 2);
    assert_eq!(urls(&discovery.into_renders()), vec!["http://a/", "http://b/"]);
}

#[test]
fn the_first_transport_service_is_taken() {
    let d = device(
        "http://a/",
        "tv",
        vec![
            service(RENDERING_CONTROL, "/rc"),
            service(AV_TRANSPORT, "/first"),
            service(AV_TRANSPORT, "/second"),
        ],
    );
    let render = Render::from_device(&d).unwrap();
    assert_eq!(render.service_id, "/first");
    assert_eq!(render.url, "http://a/");
    assert_eq!(render.friendly_name, "tv");
    assert!(Render::from_device(&device("http://a/", "tv", Vec::new())).is_none());
    let other_version = device(
        "http://a/",
        "tv",
        vec![service("urn:schemas-upnp-org:service:AVTransport:2", "/avt")],
    );
    assert!(Render::from_device(&other_version).is_none());
}

#[test]
fn renders_are_written_out() {
    let render = Render::from_device(&device(
        "http://10.0.0.9:1400/desc.xml",
        "Living Room",
        vec![service(AV_TRANSPORT, "/avt")],
    ))
    .unwrap();
    assert_eq!(
        render.to_string(),
        "[urn:schemas-upnp-org:device:MediaRenderer:1][urn:schemas-upnp-org:service:AVTransport:1] Living Room @ http://10.0.0.9:1400/desc.xml"
    );
    assert_eq!(
        render.describe_device(),
        "[urn:schemas-upnp-org:device:MediaRenderer:1] Living Room @ http://10.0.0.9:1400/desc.xml"
    );
    let copy = render.duplicate();
    assert_eq!(copy.to_string(), render.to_string());
    assert_eq!(copy.service_id, "/avt");
}

#[test]
fn the_default_search() {
    let plan = default_search(7);
    assert_eq!(plan.duration_secs, 7);
    assert_eq!(plan.search_attempts, 3);
    assert_eq!(plan.ttl, Some(3));
}
