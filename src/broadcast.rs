//! Operations applied to every live device, and the setup of a new one.

use vstd::prelude::*;
use crate::device::{commands_model, CommandModel, DeviceCommand};
use crate::registry::{DeviceEntry, Registry};

verus! {

/// The commands meant for one device.
pub struct DeviceOperation {
    pub device: String,
    pub commands: Vec<DeviceCommand>,
}

/// The brightness a requested value is applied as: the value held to [0, 100].
pub open spec fn brightness_level(value: int) -> u8 {
    vstd::math::max(0, vstd::math::min(100, value)) as u8
}

/// Holds a requested brightness to the range a device takes.
pub fn clamp_brightness(value: i64) -> (r: u8)
    ensures
        r == brightness_level(value as int),
{
    if value < 0 {
        0
    } else if value > 100 {
        100
    } else {
        value as u8
    }
}

/// One operation per live device, in registry order, each with the same commands.
pub open spec fn for_every_device<H>(
    ops: Seq<DeviceOperation>,
    devices: Seq<DeviceEntry<H>>,
    cmds: Seq<CommandModel>,
) -> bool {
    &&& ops.len() == devices.len()
    &&& forall|i: int|
        0 <= i < ops.len() ==> ops[i].device@ == devices[i].info.id@ && commands_model(
            ops[i].commands@,
        ) == cmds
}

/// Sets every live device to the brightness, held to [0, 100], and flushes it.
/// Failures of single devices are for the caller to ignore.
pub fn set_brightness<H>(registry: &Registry<H>, value: i64) -> (r: Vec<DeviceOperation>)
    ensures
        for_every_device(
            r@,
            registry.view(),
            seq![
                CommandModel::SetBrightness { percent: brightness_level(value as int) },
                CommandModel::Flush,
            ],
        ),
{
    let percent = clamp_brightness(value);
    let ghost cmds = seq![CommandModel::SetBrightness { percent }, CommandModel::Flush];
    let entries = registry.entries();
    let mut ops: Vec<DeviceOperation> = Vec::new();
    let mut i: usize = 0;
    while i < entries.len()
        invariant
            i <= entries@.len(),
            cmds == seq![CommandModel::SetBrightness { percent }, CommandModel::Flush],
            for_every_device(ops@, entries@.subrange(0, i as int), cmds),
        decreases entries@.len() - i,
    {
        let mut commands: Vec<DeviceCommand> = Vec::new();
        commands.push(DeviceCommand::SetBrightness { percent });
        commands.push(DeviceCommand::Flush);
        assert(commands_model(commands@) =~= cmds);
        ops.push(DeviceOperation { device: entries[i].info.id.clone(), commands });
        i = i + 1;
        assert forall|k: int| 0 <= k < ops@.len() implies ops@[k].device@ == entries@.subrange(
            0,
            i as int,
        )[k].info.id@ by {}
    }
    assert(entries@.subrange(0, i as int) =~= entries@);
    ops
}

/// Resets every live device and flushes it. Failures of single devices are
/// for the caller to ignore.
pub fn reset_devices<H>(registry: &Registry<H>) -> (r: Vec<DeviceOperation>)
    ensures
        for_every_device(r@, registry.view(), seq![CommandModel::Reset, CommandModel::Flush]),
{
    let ghost cmds = seq![CommandModel::Reset, CommandModel::Flush];
    let entries = registry.entries();
    let mut ops: Vec<DeviceOperation> = Vec::new();
    let mut i: usize = 0;
    while i < entries.len()
        invariant
            i <= entries@.len(),
            cmds == seq![CommandModel::Reset, CommandModel::Flush],
            for_every_device(ops@, entries@.subrange(0, i as int), cmds),
        decreases entries@.len() - i,
    {
        let mut commands: Vec<DeviceCommand> = Vec::new();
        commands.push(DeviceCommand::Reset);
        commands.push(DeviceCommand::Flush);
        assert(commands_model(commands@) =~= cmds);
        ops.push(DeviceOperation { device: entries[i].info.id.clone(), commands });
        i = i + 1;
        assert forall|k: int| 0 <= k < ops@.len() implies ops@[k].device@ == entries@.subrange(
            0,
            i as int,
        )[k].info.id@ by {}
    }
    assert(entries@.subrange(0, i as int) =~= entries@);
    ops
}

/// The setup of a newly connected device: its button images cleared, the
/// configured brightness (where one is known), then a flush.
pub open spec fn setup_commands(brightness: Option<u8>) -> Seq<CommandModel> {
    match brightness {
        Some(b) => seq![
            CommandModel::ClearAllButtonImages,
            CommandModel::SetBrightness { percent: b },
            CommandModel::Flush,
        ],
        None => seq![CommandModel::ClearAllButtonImages, CommandModel::Flush],
    }
}

/// The commands run on a device before it is registered.
pub fn handshake_commands(brightness: Option<u8>) -> (r: Vec<DeviceCommand>)
    ensures
        commands_model(r@) == setup_commands(brightness),
{
    let mut cmds: Vec<DeviceCommand> = Vec::new();
    cmds.push(DeviceCommand::ClearAllButtonImages);
    if let Some(b) = brightness {
        cmds.push(DeviceCommand::SetBrightness { percent: b });
    }
    cmds.push(DeviceCommand::Flush);
    assert(commands_model(cmds@) =~= setup_commands(brightness));
    cmds
}

/// Every live device gets the same clamped brightness, whatever was asked.
pub proof fn lemma_brightness_in_range(value: int)
    ensures
        0 <= brightness_level(value) <= 100,
        value <= 0 ==> brightness_level(value) == 0,
        value >= 100 ==> brightness_level(value) == 100,
        0 <= value <= 100 ==> brightness_level(value) == value,
{
}

} // verus!
