use mobiledevice::device::IosDevice;
use mobiledevice::error::Error;
use mobiledevice::registry::IosManager;
use mobiledevice::value::Value;

fn s(v: &str) -> Value {
    Value::String(v.to_string())
}

fn device(handle: u64, id: &str) -> IosDevice {
    IosDevice::from(handle, Some(s("Phone")), Some(s("arm64")), s(id)).unwrap()
}

#[test]
fn device_identity_arm64() {
    let d = IosDevice::from(5, Some(s("My Phone")), Some(s("arm64")), s("abc123")).unwrap();
    assert_eq!(d.name(), "My Phone");
    assert_eq!(d.id(), "abc123");
    assert_eq!(d.handle(), 5);
    assert_eq!(d.target_arch(), "aarch64");
    assert_eq!(d.target_vendor(), "apple");
    assert_eq!(d.target_os(), "ios");
}

#[test]
fn device_identity_other_cpu() {
    let d = IosDevice::from(1, Some(s("Old")), Some(s("armv7s")), s("x")).unwrap();
    assert_eq!(d.target_arch(), "armv7");
    let e = IosDevice::from(1, Some(s("Old")), None, s("x")).unwrap();
    assert_eq!(e.target_arch(), "armv7");
    let f = IosDevice::from(1, Some(s("Old")), Some(Value::I64(64)), s("x")).unwrap();
    assert_eq!(f.target_arch(), "armv7");
}

#[test]
fn device_identity_errors() {
    assert_eq!(IosDevice::from(1, None, None, s("x")).unwrap_err(), Error::MissingValue);
    assert_eq!(
        IosDevice::from(1, Some(Value::I64(3)), None, s("x")).unwrap_err(),
        Error::UnexpectedValue
    );
    assert_eq!(
        IosDevice::from(1, Some(s("n")), None, Value::Boolean(true)).unwrap_err(),
        Error::UnexpectedValue
    );
}

#[test]
fn registry_scenario_without_dedup() {
    let mut m = IosManager::new();
    assert!(m.devices().is_empty());
    m.add_device(device(7, "abc123"));
    let first = m.devices();
    assert_eq!(first.len(), 1);
    assert_eq!(first[0].id(), "abc123");
    m.add_device(device(7, "abc123"));
    let second = m.devices();
    assert_eq!(second.len(), 2);
    assert_eq!(second[0].id(), "abc123");
    assert_eq!(second[1].id(), "abc123");
    assert_eq!(first.len(), 1);
}

#[test]
fn notifications_append_without_dedup() {
    let mut m = IosManager::new();
    assert_eq!(m.len(), 0);
    assert!(m.on_device_appeared(Ok(device(3, "abc123"))).is_ok());
    let once = m.devices();
    assert_eq!(once.len(), 1);
    assert_eq!(once[0].id(), "abc123");
    assert!(m.on_device_appeared(Ok(device(3, "abc123"))).is_ok());
    let twice = m.devices();
    assert_eq!(twice.len(), 2);
    assert!(twice.iter().all(|d| d.id() == "abc123"));
}

#[test]
fn failed_identification_leaves_registry_unchanged() {
    let mut m = IosManager::new();
    m.add_device(device(1, "one"));
    assert_eq!(m.on_device_appeared(Err(Error::PairingLost)), Err(Error::PairingLost));
    assert_eq!(m.len(), 1);
    assert_eq!(m.devices()[0].id(), "one");
}

#[test]
fn registry_keeps_arrival_order() {
    let mut m = IosManager::default();
    assert_eq!(m.len(), 0);
    m.add_device(device(1, "one"));
    m.add_device(device(2, "two"));
    let ds = m.devices();
    assert_eq!(ds.iter().map(|d| d.id().to_string()).collect::<Vec<_>>(), vec!["one", "two"]);
    assert_eq!(ds[1].handle(), 2);
    assert_eq!(ds[1].duplicate().id(), "two");
}
