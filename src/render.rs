//! Turning render requests into the writes a device has to perform.

use vstd::prelude::*;
use crate::device::{clears_strip, commands_model, CommandModel, DeviceCommand};
use crate::payload::{decode_payload, payload_result, DecodeError};
use crate::raster::{
    blank_model, nearest_resized, resize_nearest, Raster, RasterModel, THUMBNAIL_SIZE,
};
use crate::registry::{holds, position_of, Registry};

verus! {

/// Width of the strip area that belongs to one encoder.
pub const LCD_SLOT_WIDTH: u16 = 200;

/// Height of the strip area that belongs to one encoder.
pub const LCD_SLOT_HEIGHT: u32 = 100;

/// Gap left of an image placed in an encoder's strip area.
pub const LCD_IMAGE_LEFT: u16 = 64;

/// Gap above an image placed in an encoder's strip area.
pub const LCD_IMAGE_TOP: u16 = 14;

/// Width of the whole strip, filled when a device's screen is cleared.
pub const LCD_STRIP_WIDTH: u32 = 800;

/// Whether a position addresses a button or an encoder.
#[derive(Debug, Clone, Copy, PartialEq, Eq, Structural)]
pub enum ControllerKind {
    Button,
    Encoder,
}

/// Where an image goes: a device, and a button or encoder on it.
#[derive(Debug, Clone, PartialEq, Eq)]
pub struct Context {
    pub device: String,
    pub controller: ControllerKind,
    pub position: u8,
}

/// The writes that show an image, or clear the place, at a position.
pub open spec fn render_commands(
    controller: ControllerKind,
    position: u8,
    image: Option<RasterModel>,
) -> Seq<CommandModel> {
    match image {
        Some(img) => match controller {
            ControllerKind::Encoder => seq![
                CommandModel::WriteLcd {
                    x: (position as int * 200 + 64) as u16,
                    y: 14,
                    image: nearest_resized(img.0, img.1, img.2, 72, 72),
                },
                CommandModel::Flush,
            ],
            ControllerKind::Button => seq![
                CommandModel::SetButtonImage { key: position, image: img },
                CommandModel::Flush,
            ],
        },
        None => match controller {
            ControllerKind::Encoder => seq![
                CommandModel::WriteLcd {
                    x: (position as int * 200) as u16,
                    y: 0,
                    image: blank_model(200, 100),
                },
                CommandModel::Flush,
            ],
            ControllerKind::Button => seq![
                CommandModel::ClearButtonImage { key: position },
                CommandModel::Flush,
            ],
        },
    }
}

/// The writes that blank a whole device of a model.
pub open spec fn clear_commands(strip: bool) -> Seq<CommandModel> {
    if strip {
        seq![
            CommandModel::ClearAllButtonImages,
            CommandModel::FillLcd { image: blank_model(800, 100) },
            CommandModel::Flush,
        ]
    } else {
        seq![CommandModel::ClearAllButtonImages, CommandModel::Flush]
    }
}

/// The first write puts a raster of the thumbnail size on the display strip.
pub open spec fn writes_thumbnail(cmds: Seq<DeviceCommand>) -> bool {
    cmds.len() > 0 && match cmds[0] {
        DeviceCommand::WriteLcd { image, .. } => image.width == THUMBNAIL_SIZE && image.height
            == THUMBNAIL_SIZE,
        _ => false,
    }
}

/// The writes, ending with a flush, that put an image (or, for `None`, a
/// blank) at the context's position. A device that is not live needs none.
pub fn update_image<H>(
    registry: &Registry<H>,
    context: &Context,
    image: Option<&str>,
) -> (r: Result<Vec<DeviceCommand>, DecodeError>)
    requires
        registry.wf(),
    ensures
        !holds(registry.view(), context.device@) ==> (r matches Ok(v) && v@.len() == 0),
        holds(registry.view(), context.device@) ==> match image {
            None => (r matches Ok(v) && commands_model(v@) == render_commands(
                context.controller,
                context.position,
                None,
            )),
            Some(s) => match payload_result(s@) {
                Err(e) => r == Err::<Vec<DeviceCommand>, DecodeError>(e),
                Ok(img) => (r matches Ok(v) && commands_model(v@) == render_commands(
                    context.controller,
                    context.position,
                    Some(img),
                )),
            },
        },
        holds(registry.view(), context.device@) && context.controller == ControllerKind::Encoder
            ==> match image {
            Some(s) => match payload_result(s@) {
                Ok(img) => img.0 == img.1 && img.0 > 0 ==> (r matches Ok(v) && writes_thumbnail(
                    v@,
                )),
                Err(_) => true,
            },
            None => true,
        },
{
    let mut cmds: Vec<DeviceCommand> = Vec::new();
    if !registry.contains(&context.device) {
        return Ok(cmds);
    }
    let p: u16 = context.position as u16;
    match image {
        Some(text) => {
            let img = match decode_payload(text) {
                Ok(img) => img,
                Err(e) => return Err(e),
            };
            match context.controller {
                ControllerKind::Encoder => {
                    let thumb = resize_nearest(&img, THUMBNAIL_SIZE, THUMBNAIL_SIZE);
                    cmds.push(
                        DeviceCommand::WriteLcd {
                            x: p * LCD_SLOT_WIDTH + LCD_IMAGE_LEFT,
                            y: LCD_IMAGE_TOP,
                            image: thumb,
                        },
                    );
                },
                ControllerKind::Button => {
                    cmds.push(DeviceCommand::SetButtonImage { key: context.position, image: img });
                },
            }
        },
        None => {
            match context.controller {
                ControllerKind::Encoder => {
                    let blank = Raster::blank(LCD_SLOT_WIDTH as u32, LCD_SLOT_HEIGHT);
                    cmds.push(DeviceCommand::WriteLcd { x: p * LCD_SLOT_WIDTH, y: 0, image: blank });
                },
                ControllerKind::Button => {
                    cmds.push(DeviceCommand::ClearButtonImage { key: context.position });
                },
            }
        },
    }
    cmds.push(DeviceCommand::Flush);
    assert(commands_model(cmds@) =~= render_commands(
        context.controller,
        context.position,
        match image {
            Some(s) => Some(payload_result(s@)->Ok_0),
            None => None,
        },
    ));
    Ok(cmds)
}

/// The writes, ending with a flush, that blank every button of a live device
/// and, on a model with a display strip, the whole strip.
pub fn clear_screen<H>(registry: &Registry<H>, id: &String) -> (r: Vec<DeviceCommand>)
    requires
        registry.wf(),
    ensures
        !holds(registry.view(), id@) ==> r@.len() == 0,
        holds(registry.view(), id@) ==> commands_model(r@) == clear_commands(
            clears_strip(registry.view()[position_of(registry.view(), id@)].info.kind),
        ),
{
    let mut cmds: Vec<DeviceCommand> = Vec::new();
    let entry = match registry.get(id) {
        Some(entry) => entry,
        None => return cmds,
    };
    cmds.push(DeviceCommand::ClearAllButtonImages);
    let strip = entry.info.kind == crate::device::DeviceKind::Plus;
    if strip {
        let blank = Raster::blank(LCD_STRIP_WIDTH, LCD_SLOT_HEIGHT);
        cmds.push(DeviceCommand::FillLcd { image: blank });
    }
    cmds.push(DeviceCommand::Flush);
    assert(commands_model(cmds@) =~= clear_commands(strip));
    cmds
}

} // verus!
