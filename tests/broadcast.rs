use opendeck::broadcast::{clamp_brightness, handshake_commands, reset_devices, set_brightness};
use opendeck::device::{describe_device, DeviceCommand, DeviceKind};
use opendeck::discovery::{device_id, initialise_devices, NamespaceAction};
use opendeck::registry::{DeviceEntry, Registry};

fn two_devices() -> Registry<u32> {
    let mut reg = Registry::new();
    for (n, id) in ["A", "B"].iter().enumerate() {
        let info = describe_device(id.to_string(), "Deck".to_string(), DeviceKind::Mk2, 3, 5, 0);
        reg.register(DeviceEntry { info, handle: n as u32 });
    }
    reg
}

#[test]
fn brightness_is_clamped() {
    assert_eq!(clamp_brightness(150), 100);
    assert_eq!(clamp_brightness(-5), 0);
    assert_eq!(clamp_brightness(0), 0);
    assert_eq!(clamp_brightness(100), 100);
    assert_eq!(clamp_brightness(42), 42);
    assert_eq!(clamp_brightness(i64::MIN), 0);
    assert_eq!(clamp_brightness(i64::MAX), 100);
}

#[test]
fn brightness_broadcast_to_two_devices() {
    let reg = two_devices();
    let ops = set_brightness(&reg, 150);
    assert_eq!(ops.len(), 2);
    assert_eq!((ops[0].device.as_str(), ops[1].device.as_str()), ("A", "B"));
    for op in &ops {
        assert_eq!(op.commands, vec![DeviceCommand::SetBrightness { percent: 100 }, DeviceCommand::Flush]);
    }
    let ops = set_brightness(&reg, -5);
    for op in &ops {
        assert_eq!(op.commands, vec![DeviceCommand::SetBrightness { percent: 0 }, DeviceCommand::Flush]);
    }
}

#[test]
fn reset_reaches_every_device() {
    let reg = two_devices();
    let ops = reset_devices(&reg);
    assert_eq!(ops.len(), 2);
    for op in &ops {
        assert_eq!(op.commands, vec![DeviceCommand::Reset, DeviceCommand::Flush]);
    }
    let empty: Registry<u32> = Registry::new();
    assert!(reset_devices(&empty).is_empty());
    assert!(set_brightness(&empty, 50).is_empty());
}

#[test]
fn handshake_sets_up_device() {
    assert_eq!(
        handshake_commands(Some(60)),
        vec![DeviceCommand::ClearAllButtonImages, DeviceCommand::SetBrightness { percent: 60 }, DeviceCommand::Flush]
    );
    assert_eq!(handshake_commands(None), vec![DeviceCommand::ClearAllButtonImages, DeviceCommand::Flush]);
}

#[test]
fn device_ids_have_family_prefix() {
    assert_eq!(device_id(&"CL12345".to_string()), "sd-CL12345");
    assert_eq!(device_id(&String::new()), "sd-");
}

#[test]
fn discovery_skips_live_devices() {
    let mut reg: Registry<u32> = Registry::new();
    let info = describe_device("sd-1".to_string(), "Deck".to_string(), DeviceKind::Mk2, 3, 5, 0);
    reg.register(DeviceEntry { info, handle: 0 });
    let found = vec![(DeviceKind::Mk2, "1".to_string()), (DeviceKind::Plus, "2".to_string())];
    let plan = initialise_devices(&reg, Some(false), &found);
    assert_eq!(plan.namespace, NamespaceAction::Release);
    assert_eq!(plan.connect.len(), 1);
    assert_eq!(plan.connect[0].id, "sd-2");
    assert_eq!(plan.connect[0].serial, "2");
    assert_eq!(plan.connect[0].kind, DeviceKind::Plus);

    let plan = initialise_devices(&reg, None, &found);
    assert_eq!(plan.namespace, NamespaceAction::Keep);
    assert_eq!(plan.connect.len(), 1);
}

#[test]
fn disabled_family_connects_nothing() {
    let reg: Registry<u32> = Registry::new();
    let found = vec![(DeviceKind::Mk2, "1".to_string())];
    let plan = initialise_devices(&reg, Some(true), &found);
    assert_eq!(plan.namespace, NamespaceAction::Override);
    assert!(plan.connect.is_empty());
}
