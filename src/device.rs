//! Device families, descriptors, the primitive write operations a device
//! understands, and the translation of raw input into logical events.

use vstd::prelude::*;
use crate::raster::{Raster, RasterModel};

verus! {

/// The hardware models of the deck family.
#[derive(Debug, Clone, Copy, PartialEq, Eq, Structural)]
pub enum DeviceKind {
    Original,
    OriginalV2,
    Mini,
    Xl,
    XlV2,
    Mk2,
    Mk2Scissor,
    MiniMk2,
    MiniDiscord,
    Neo,
    Pedal,
    Plus,
    PlusXl,
    MiniMk2Module,
    Mk2Module,
    XlV2Module,
}

/// The stable family code that the event router knows a model by.
pub open spec fn family_code_of(kind: DeviceKind) -> u8 {
    match kind {
        DeviceKind::Original | DeviceKind::OriginalV2 | DeviceKind::Mk2 | DeviceKind::Mk2Scissor
        | DeviceKind::Mk2Module => 0,
        DeviceKind::Mini | DeviceKind::MiniMk2 | DeviceKind::MiniDiscord
        | DeviceKind::MiniMk2Module => 1,
        DeviceKind::Xl | DeviceKind::XlV2 | DeviceKind::XlV2Module => 2,
        DeviceKind::Pedal => 5,
        DeviceKind::Plus | DeviceKind::PlusXl => 7,
        DeviceKind::Neo => 9,
    }
}

/// Classifies a model into its family code.
pub fn family_code(kind: DeviceKind) -> (r: u8)
    ensures
        r == family_code_of(kind),
{
    match kind {
        DeviceKind::Original | DeviceKind::OriginalV2 | DeviceKind::Mk2 | DeviceKind::Mk2Scissor
        | DeviceKind::Mk2Module => 0,
        DeviceKind::Mini | DeviceKind::MiniMk2 | DeviceKind::MiniDiscord
        | DeviceKind::MiniMk2Module => 1,
        DeviceKind::Xl | DeviceKind::XlV2 | DeviceKind::XlV2Module => 2,
        DeviceKind::Pedal => 5,
        DeviceKind::Plus | DeviceKind::PlusXl => 7,
        DeviceKind::Neo => 9,
    }
}

/// Whether a model's display strip is cleared along with its buttons.
pub open spec fn clears_strip(kind: DeviceKind) -> bool {
    kind == DeviceKind::Plus
}

/// The snapshot of a device taken when it is registered.
#[derive(Debug, Clone, PartialEq, Eq)]
pub struct DeviceInfo {
    pub id: String,
    pub name: String,
    pub rows: u8,
    pub columns: u8,
    pub encoders: u8,
    pub kind: DeviceKind,
    pub family: u8,
}

/// Builds the descriptor of a newly connected device.
pub fn describe_device(
    id: String,
    name: String,
    kind: DeviceKind,
    rows: u8,
    columns: u8,
    encoders: u8,
) -> (r: DeviceInfo)
    ensures
        r.id@ == id@,
        r.name@ == name@,
        r.kind == kind,
        r.rows == rows,
        r.columns == columns,
        r.encoders == encoders,
        r.family == family_code_of(kind),
{
    DeviceInfo { id, name, rows, columns, encoders, kind, family: family_code(kind) }
}

/// One primitive operation on a device. Writes take effect at the next `Flush`.
#[derive(Debug, Clone, PartialEq, Eq)]
pub enum DeviceCommand {
    SetButtonImage { key: u8, image: Raster },
    ClearButtonImage { key: u8 },
    ClearAllButtonImages,
    WriteLcd { x: u16, y: u16, image: Raster },
    FillLcd { image: Raster },
    SetBrightness { percent: u8 },
    Reset,
    Flush,
}

/// What a command is to the contracts.
pub enum CommandModel {
    SetButtonImage { key: u8, image: RasterModel },
    ClearButtonImage { key: u8 },
    ClearAllButtonImages,
    WriteLcd { x: u16, y: u16, image: RasterModel },
    FillLcd { image: RasterModel },
    SetBrightness { percent: u8 },
    Reset,
    Flush,
}

impl DeviceCommand {
    pub open spec fn model(&self) -> CommandModel {
        match self {
            DeviceCommand::SetButtonImage { key, image } => CommandModel::SetButtonImage {
                key: *key,
                image: image.model(),
            },
            DeviceCommand::ClearButtonImage { key } => CommandModel::ClearButtonImage { key: *key },
            DeviceCommand::ClearAllButtonImages => CommandModel::ClearAllButtonImages,
            DeviceCommand::WriteLcd { x, y, image } => CommandModel::WriteLcd {
                x: *x,
                y: *y,
                image: image.model(),
            },
            DeviceCommand::FillLcd { image } => CommandModel::FillLcd { image: image.model() },
            DeviceCommand::SetBrightness { percent } => CommandModel::SetBrightness {
                percent: *percent,
            },
            DeviceCommand::Reset => CommandModel::Reset,
            DeviceCommand::Flush => CommandModel::Flush,
        }
    }
}

/// The models of a list of commands, in order.
pub open spec fn commands_model(cmds: Seq<DeviceCommand>) -> Seq<CommandModel> {
    cmds.map_values(|c: DeviceCommand| c.model())
}

/// A state change as the hardware reports it.
#[derive(Debug, Clone, Copy, PartialEq, Eq, Structural)]
pub enum RawUpdate {
    ButtonDown(u8),
    ButtonUp(u8),
    EncoderDown(u8),
    EncoderUp(u8),
    EncoderTwist(u8, i8),
    /// Touch input, which the router is not told about.
    Other,
}

/// What happened to a button or an encoder.
#[derive(Debug, Clone, Copy, PartialEq, Eq, Structural)]
pub enum EventKind {
    KeyDown,
    KeyUp,
    DialRotate(i16),
    DialDown,
    DialUp,
}

/// A logical input event addressed to the router.
#[derive(Debug, Clone, PartialEq, Eq)]
pub struct DeviceEvent {
    pub device: String,
    pub index: u8,
    pub kind: EventKind,
}

/// The index and kind of event a raw update stands for, if any.
pub open spec fn event_of(update: RawUpdate) -> Option<(u8, EventKind)> {
    match update {
        RawUpdate::ButtonDown(k) => Some((k, EventKind::KeyDown)),
        RawUpdate::ButtonUp(k) => Some((k, EventKind::KeyUp)),
        RawUpdate::EncoderDown(d) => Some((d, EventKind::DialDown)),
        RawUpdate::EncoderUp(d) => Some((d, EventKind::DialUp)),
        RawUpdate::EncoderTwist(d, t) => Some((d, EventKind::DialRotate(t as i16))),
        RawUpdate::Other => None,
    }
}

/// Translates one raw update of a device into the event sent to the router.
pub fn translate_update(device: &String, update: RawUpdate) -> (r: Option<DeviceEvent>)
    ensures
        match r {
            Some(e) => e.device@ == device@ && event_of(update) == Some((e.index, e.kind)),
            None => event_of(update) is None,
        },
{
    let (index, kind) = match update {
        RawUpdate::ButtonDown(k) => (k, EventKind::KeyDown),
        RawUpdate::ButtonUp(k) => (k, EventKind::KeyUp),
        RawUpdate::EncoderDown(d) => (d, EventKind::DialDown),
        RawUpdate::EncoderUp(d) => (d, EventKind::DialUp),
        RawUpdate::EncoderTwist(d, t) => (d, EventKind::DialRotate(t as i16)),
        RawUpdate::Other => return None,
    };
    Some(DeviceEvent { device: device.clone(), index, kind })
}

} // verus!
