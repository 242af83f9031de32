use mobiledevice::android::{serial_of_line, split_lines, AndroidDevice, AndroidManager};

#[test]
fn android_device_fields() {
    let d = AndroidDevice::from_id("0123abcd").unwrap();
    assert_eq!(d.id(), "0123abcd");
    assert_eq!(d.name(), "i'm a droid");
    assert_eq!(d.target_arch(), "arm");
    assert_eq!(d.target_vendor(), "linux");
    assert_eq!(d.target_os(), "androideabi");
    assert_eq!(d.make_app("/tmp/app", None).unwrap(), "/tmp/app");
}

#[test]
fn lines_split_at_newlines() {
    assert_eq!(split_lines("a\nb\n"), vec!["a", "b", ""]);
    assert_eq!(split_lines(""), vec![""]);
    assert_eq!(split_lines("one"), vec!["one"]);
}

#[test]
fn listing_lines() {
    assert_eq!(serial_of_line("0123abcd\tdevice").unwrap(), "0123abcd");
    assert!(serial_of_line("emulator-5554\tdevice").is_none());
    assert!(serial_of_line("0123abcd\toffline").is_none());
    assert!(serial_of_line("\tdevice").is_none());
    assert!(serial_of_line("0123ABCD\tdevice").is_none());
    assert!(serial_of_line("0123abcd\tdevice ").is_none());
}

#[test]
fn devices_from_listing() {
    let m = AndroidManager::default();
    let out = "List of devices attached\n0123abcd\tdevice\nfeed\tunauthorized\n99ff\tdevice\n\n";
    let ds = m.devices_from_listing(out);
    let ids: Vec<&str> = ds.iter().map(|d| d.id()).collect();
    assert_eq!(ids, vec!["0123abcd", "99ff"]);
}

#[test]
fn header_line_is_skipped() {
    let m = AndroidManager::default();
    assert!(m.devices_from_listing("abcd\tdevice").is_empty());
    assert!(m.devices_from_listing("").is_empty());
}
