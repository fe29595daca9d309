use futuristic_pulse::introspect::ChannelMap;
use futuristic_pulse::introspect::ChannelVolumes;
use futuristic_pulse::introspect::FormatInfo;
use futuristic_pulse::introspect::MicroSeconds;
use futuristic_pulse::introspect::PortAvailable;
use futuristic_pulse::introspect::Proplist;
use futuristic_pulse::introspect::SampleSpec;
use futuristic_pulse::introspect::SinkInfo;
use futuristic_pulse::introspect::SinkPortInfo;
use futuristic_pulse::introspect::SinkState;
use futuristic_pulse::introspect::Volume;
use futuristic_pulse::to_static::ToStatic;
use std::borrow::Cow;

fn owned_port(name: &str, priority: u32) -> SinkPortInfo<'static> {
    SinkPortInfo {
        name: Some(Cow::Owned(name.to_string())),
        description: Some(Cow::Owned(format!("port {}", name))),
        priority,
        available: PortAvailable::Yes,
    }
}

fn owned_sink(index: u32, name: &str) -> SinkInfo<'static> {
    SinkInfo {
        name: Some(Cow::Owned(name.to_string())),
        index,
        description: Some(Cow::Owned(format!("sink {}", name))),
        sample_spec: SampleSpec { format: 3, channels: 2, rate: 44100 },
        channel_map: ChannelMap { positions: vec![1, 2] },
        owner_module: Some(4),
        volume: ChannelVolumes { volumes: vec![Volume(65536), Volume(65536)] },
        mute: false,
        monitor_source: 7,
        monitor_source_name: None,
        latency: MicroSeconds(250),
        driver: Some(Cow::Owned("module-alsa-card.c".to_string())),
        flags: 0,
        proplist: Proplist {
            entries: vec![("device.api".to_string(), "alsa".to_string())],
        },
        configured_latency: MicroSeconds(500),
        base_volume: Volume(65536),
        state: SinkState::Running,
        n_volume_steps: 65537,
        card: Some(0),
        ports: vec![owned_port("analog-output", 100), owned_port("hdmi-output", 50)],
        active_port: Some(Box::new(owned_port("analog-output", 100))),
        formats: vec![FormatInfo { encoding: 1, properties: Proplist { entries: vec![] } }],
    }
}

#[test]
fn normalizing_owned_sink_returns_equal_value() {
    let owned = owned_sink(3, "alsa_output.pci");
    let normalized = owned.to_static();
    assert_eq!(normalized, owned);
}

#[test]
fn normalizing_owned_port_is_idempotent_in_value() {
    let owned = owned_port("analog-output", 100);
    let once = owned.to_static();
    let twice = once.to_static();
    assert_eq!(once, owned);
    assert_eq!(twice, owned);
}

#[test]
fn normalizing_borrowed_view_twice_gives_equal_owned_values() {
    let name = String::from("analog-output");
    let description = String::from("Analog Output");
    let view = SinkPortInfo {
        name: Some(Cow::Borrowed(name.as_str())),
        description: Some(Cow::Borrowed(description.as_str())),
        priority: 9000,
        available: PortAvailable::Unknown,
    };
    let first = view.to_static();
    let second = view.to_static();
    assert_eq!(first, second);
    assert_eq!(first.name.as_deref(), Some("analog-output"));
    assert_eq!(first.description.as_deref(), Some("Analog Output"));
}

#[test]
fn normalized_sink_matches_borrowed_view_field_for_field() {
    let name = String::from("alsa_output.usb");
    let driver = String::from("module-alsa-card.c");
    let mut view = owned_sink(9, "placeholder");
    view.name = Some(Cow::Borrowed(name.as_str()));
    view.driver = Some(Cow::Borrowed(driver.as_str()));
    let normalized = view.to_static();
    assert_eq!(normalized.name.as_deref(), Some("alsa_output.usb"));
    assert_eq!(normalized.driver.as_deref(), Some("module-alsa-card.c"));
    assert_eq!(normalized.index, 9);
    assert_eq!(normalized, view);
    match normalized.name {
        Some(Cow::Owned(_)) => (),
        _ => panic!("normalization must leave no borrowed text"),
    }
}

#[test]
fn wrapper_shapes_normalize_through() {
    let texts: Vec<Option<Cow<'_, str>>> =
        vec![Some(Cow::Borrowed("a")), None, Some(Cow::Owned("b".to_string()))];
    let copied = texts.to_static();
    assert_eq!(copied, texts);

    let boxed: Box<Cow<'_, str>> = Box::new(Cow::Borrowed("deep"));
    let boxed_copy = boxed.to_static();
    assert_eq!(*boxed_copy, Cow::Borrowed("deep"));

    let plist = Proplist {
        entries: vec![("a".to_string(), "1".to_string()), ("b".to_string(), "2".to_string())],
    };
    assert_eq!(plist.to_static(), plist);
}

#[test]
fn scalar_leaves_normalize_to_themselves() {
    assert_eq!(7u32.to_static(), 7u32);
    assert_eq!(true.to_static(), true);
    assert_eq!(Volume(11).to_static(), Volume(11));
    assert_eq!(MicroSeconds(90).to_static(), MicroSeconds(90));
    assert_eq!(SinkState::Idle.to_static(), SinkState::Idle);
    let spec = SampleSpec { format: 5, channels: 1, rate: 8000 };
    assert_eq!(spec.to_static(), spec);
    let map = ChannelMap { positions: vec![3, 4, 5] };
    assert_eq!(map.to_static(), map);
}
