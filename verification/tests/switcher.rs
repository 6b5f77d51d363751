use pulse_switcher::device::Device;
use pulse_switcher::filter::{DeviceFilter, FilterConfig, FilterField};
use pulse_switcher::rotation::NoMatchError;

fn dev(index: u32, name: &str, desc: &str) -> Device {
    Device { index, name: name.to_string(), desc: desc.to_string() }
}

fn config(
    include_names: &[&str],
    include_descriptions: &[&str],
    exclude_names: &[&str],
    exclude_descriptions: &[&str],
) -> FilterConfig {
    FilterConfig {
        include_names: include_names.iter().map(|s| s.to_string()).collect(),
        include_descriptions: include_descriptions.iter().map(|s| s.to_string()).collect(),
        exclude_names: exclude_names.iter().map(|s| s.to_string()).collect(),
        exclude_descriptions: exclude_descriptions.iter().map(|s| s.to_string()).collect(),
    }
}

#[test]
fn empty_config_includes_all() {
    let f = DeviceFilter::from_config(&FilterConfig::default()).unwrap();
    assert!(f.filter(&dev(0, "headphones", "USB headphones")));
    assert!(f.filter(&dev(1, "", "")));
    assert!(f.filter(&dev(7, "hdmi-out", "HDMI output")));
}

#[test]
fn include_names_shadow_include_descriptions() {
    // With include_names configured, include_descriptions is never consulted.
    let f = DeviceFilter::from_config(&config(&["head"], &["monitor"], &[], &[])).unwrap();
    assert!(f.filter(&dev(0, "headphones", "whatever")));
    // Description matches the include-description set, but that set is shadowed.
    assert!(!f.filter(&dev(1, "speaker", "monitor output")));
}

#[test]
fn include_descriptions_used_when_no_include_names() {
    let f = DeviceFilter::from_config(&config(&[], &["monitor"], &[], &[])).unwrap();
    assert!(f.filter(&dev(0, "x", "monitor output")));
    assert!(!f.filter(&dev(1, "monitor", "speakers")));
}

#[test]
fn exclude_descriptions_only_negates_match() {
    let f = DeviceFilter::from_config(&config(&[], &[], &[], &["hdmi"])).unwrap();
    assert!(!f.filter(&dev(0, "a", "hdmi output")));
    assert!(f.filter(&dev(1, "b", "analog output")));
}

#[test]
fn exclude_names_shadow_exclude_descriptions() {
    let f = DeviceFilter::from_config(&config(&[], &[], &["usb"], &["hdmi"])).unwrap();
    // Name decides the exclusion; the matching description is never consulted.
    assert!(f.filter(&dev(0, "analog", "hdmi output")));
    assert!(!f.filter(&dev(1, "usb-audio", "whatever")));
}

#[test]
fn include_and_exclude_combine() {
    let f = DeviceFilter::from_config(&config(&["audio"], &[], &["usb"], &[])).unwrap();
    assert!(f.filter(&dev(0, "pci-audio", "x")));
    assert!(!f.filter(&dev(1, "usb-audio", "x")));
    assert!(!f.filter(&dev(2, "webcam", "x")));
}

#[test]
fn patterns_are_unanchored_regexes() {
    let f = DeviceFilter::from_config(&config(&["foo"], &[], &[], &[])).unwrap();
    assert!(f.filter(&dev(0, "xfoox", "d")));
    let anchored = DeviceFilter::from_config(&config(&["^foo$"], &[], &[], &[])).unwrap();
    assert!(anchored.filter(&dev(0, "foo", "d")));
    assert!(!anchored.filter(&dev(1, "foofoo", "d")));
    assert!(!anchored.filter(&dev(2, "bar", "d")));
}

#[test]
fn invalid_pattern_fails_compilation() {
    let r = DeviceFilter::from_config(&config(&["("], &[], &[], &[]));
    match r {
        Ok(_) => panic!("an invalid pattern must not compile"),
        Err(e) => assert_eq!(e.sequence, FilterField::IncludeNames),
    }
}

#[test]
fn pattern_error_names_the_failing_sequence() {
    let r = DeviceFilter::from_config(&config(&["ok.*"], &["also fine"], &["[bad"], &["("]));
    match r {
        Ok(_) => panic!("an invalid pattern must not compile"),
        Err(e) => assert_eq!(e.sequence, FilterField::ExcludeNames),
    }
}

#[test]
fn filter_devices_keeps_order() {
    let f = DeviceFilter::from_config(&config(&["l"], &[], &[], &[])).unwrap();
    let devs = vec![
        dev(0, "alpha", "one"),
        dev(1, "beta", "two"),
        dev(2, "gamma", "three"),
        dev(3, "delta", "four"),
    ];
    let kept = f.filter_devices(&devs);
    let names: Vec<&str> = kept.iter().map(|d| d.name.as_str()).collect();
    assert_eq!(names, vec!["alpha", "delta"]);
}

#[test]
fn normalization_placeholders() {
    let d = Device::from_raw(7, None, Some("present".to_string()));
    assert_eq!(d.name, "[unknown name 7]");
    assert_eq!(d.desc, "present");
    let d = Device::from_raw(3, Some("present".to_string()), None);
    assert_eq!(d.name, "present");
    assert_eq!(d.desc, "[unknown description 3]");
}

#[test]
fn normalization_decimal_edges() {
    let d = Device::from_raw(0, None, None);
    assert_eq!(d.name, "[unknown name 0]");
    assert_eq!(d.desc, "[unknown description 0]");
    let d = Device::from_raw(u32::MAX, None, None);
    assert_eq!(d.name, "[unknown name 4294967295]");
    let d = Device::from_raw(10, None, None);
    assert_eq!(d.name, "[unknown name 10]");
}

#[test]
fn display_form() {
    let d = dev(4, "alsa_output.pci", "Built-in Audio");
    assert_eq!(d.display_string(), "Built-in Audio (4, alsa_output.pci)");
}

#[test]
fn advance_end_to_end() {
    let filtered = vec![dev(0, "A", "a"), dev(1, "B", "b"), dev(2, "C", "c")];
    let next = Device::advance(&filtered, &dev(9, "B", "x"));
    assert_eq!(next.name, "C");
    let next = Device::advance(&filtered, &dev(9, "C", "x"));
    assert_eq!(next.name, "A");
    let next = Device::advance(&filtered, &dev(9, "Z", "x"));
    assert_eq!(next.name, "A");
}

#[test]
fn rotation_full_cycle_returns_to_start() {
    let filtered = vec![dev(0, "A", "a"), dev(1, "B", "b"), dev(2, "C", "c")];
    let mut current = filtered[1].clone();
    for _ in 0..filtered.len() {
        current = Device::advance(&filtered, &current);
    }
    assert_eq!(current.name, "B");
    assert_eq!(current.index, 1);
}

#[test]
fn rotation_single_element_fixed_point() {
    let filtered = vec![dev(5, "only", "the one")];
    let next = Device::advance(&filtered, &filtered[0]);
    assert_eq!(next.name, "only");
    let next = Device::advance(&filtered, &dev(0, "other", "x"));
    assert_eq!(next.name, "only");
}

#[test]
fn rotation_duplicate_names_match_first_occurrence() {
    // Two devices share a name: rotation keys on the first occurrence, so the
    // successor of either copy is the element after position 0.
    let filtered = vec![dev(0, "A", "first"), dev(1, "A", "second"), dev(2, "B", "b")];
    let next = Device::advance(&filtered, &filtered[1]);
    assert_eq!(next.index, 1);
}

#[test]
fn empty_filtered_surfaces_no_match_error() {
    let filtered: Vec<Device> = Vec::new();
    let r = Device::select_next(&filtered, &dev(0, "A", "a"));
    assert!(matches!(r, Err(NoMatchError)));
}

#[test]
fn select_next_succeeds_on_non_empty() {
    let filtered = vec![dev(0, "A", "a"), dev(1, "B", "b")];
    match Device::select_next(&filtered, &filtered[0]) {
        Ok(d) => assert_eq!(d.name, "B"),
        Err(_) => panic!("a non-empty filtered list must yield a device"),
    }
}

#[test]
fn listing_pipeline_scenario() {
    // normalize -> filter -> advance, as one invocation runs it.
    let raw: Vec<(u32, Option<String>, Option<String>)> = vec![
        (0, Some("alsa.usb-headset".to_string()), Some("USB Headset".to_string())),
        (1, None, Some("HDMI Audio".to_string())),
        (2, Some("alsa.pci-speakers".to_string()), Some("Speakers".to_string())),
    ];
    let devices: Vec<Device> =
        raw.into_iter().map(|(i, n, d)| Device::from_raw(i, n, d)).collect();
    let f = DeviceFilter::from_config(&config(&["alsa"], &[], &[], &["HDMI"])).unwrap();
    let filtered = f.filter_devices(&devices);
    assert_eq!(filtered.len(), 2);
    let next = Device::advance(&filtered, &filtered[0]);
    assert_eq!(next.name, "alsa.pci-speakers");
}
