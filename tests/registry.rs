use opendeck::device::{describe_device, family_code, translate_update, DeviceEvent, DeviceKind, EventKind, RawUpdate};
use opendeck::registry::{DeviceEntry, Registry};

fn entry(id: &str, kind: DeviceKind, handle: u32) -> DeviceEntry<u32> {
    DeviceEntry { info: describe_device(id.to_string(), "Deck".to_string(), kind, 3, 5, 0), handle }
}

#[test]
fn duplicate_registration_keeps_live_entry() {
    let mut reg: Registry<u32> = Registry::new();
    assert!(reg.register(entry("sd-A", DeviceKind::Mk2, 1)));
    assert!(!reg.register(entry("sd-A", DeviceKind::Plus, 2)));
    assert_eq!(reg.len(), 1);
    let live = reg.get(&"sd-A".to_string()).unwrap();
    assert_eq!(live.handle, 1);
    assert_eq!(live.info.kind, DeviceKind::Mk2);
    assert_eq!(live.info.family, 0);
}

#[test]
fn removal_after_read_failure_happens_once() {
    let mut reg: Registry<u32> = Registry::new();
    reg.register(entry("sd-A", DeviceKind::Mini, 7));
    let id = "sd-A".to_string();
    let removed = reg.deregister(&id);
    assert_eq!(removed.map(|e| e.handle), Some(7));
    assert!(!reg.contains(&id));
    assert!(reg.deregister(&id).is_none());
    assert_eq!(reg.len(), 0);
}

#[test]
fn removal_keeps_other_devices() {
    let mut reg: Registry<u32> = Registry::new();
    reg.register(entry("sd-A", DeviceKind::Mk2, 1));
    reg.register(entry("sd-B", DeviceKind::Plus, 2));
    reg.register(entry("sd-C", DeviceKind::Xl, 3));
    reg.deregister(&"sd-B".to_string());
    assert!(reg.contains(&"sd-A".to_string()));
    assert!(reg.contains(&"sd-C".to_string()));
    assert_eq!(reg.get(&"sd-C".to_string()).unwrap().handle, 3);
    assert!(reg.get(&"sd-B".to_string()).is_none());
}

#[test]
fn family_codes_by_model() {
    assert_eq!(family_code(DeviceKind::Original), 0);
    assert_eq!(family_code(DeviceKind::OriginalV2), 0);
    assert_eq!(family_code(DeviceKind::Mk2), 0);
    assert_eq!(family_code(DeviceKind::Mk2Scissor), 0);
    assert_eq!(family_code(DeviceKind::Mini), 1);
    assert_eq!(family_code(DeviceKind::MiniMk2), 1);
    assert_eq!(family_code(DeviceKind::Xl), 2);
    assert_eq!(family_code(DeviceKind::XlV2), 2);
    assert_eq!(family_code(DeviceKind::Pedal), 5);
    assert_eq!(family_code(DeviceKind::Plus), 7);
    assert_eq!(family_code(DeviceKind::Neo), 9);
}

#[test]
fn descriptor_carries_layout() {
    let info = describe_device("sd-X".to_string(), "Stream Deck +".to_string(), DeviceKind::Plus, 2, 4, 4);
    assert_eq!(info.id, "sd-X");
    assert_eq!(info.name, "Stream Deck +");
    assert_eq!((info.rows, info.columns, info.encoders, info.family), (2, 4, 4, 7));
}

#[test]
fn raw_updates_become_events() {
    let id = "sd-A".to_string();
    let ev = |index: u8, kind: EventKind| Some(DeviceEvent { device: id.clone(), index, kind });
    assert_eq!(translate_update(&id, RawUpdate::ButtonDown(3)), ev(3, EventKind::KeyDown));
    assert_eq!(translate_update(&id, RawUpdate::ButtonUp(4)), ev(4, EventKind::KeyUp));
    assert_eq!(translate_update(&id, RawUpdate::EncoderDown(1)), ev(1, EventKind::DialDown));
    assert_eq!(translate_update(&id, RawUpdate::EncoderUp(2)), ev(2, EventKind::DialUp));
    assert_eq!(translate_update(&id, RawUpdate::EncoderTwist(0, -3)), ev(0, EventKind::DialRotate(-3)));
    assert_eq!(translate_update(&id, RawUpdate::Other), None);
}
