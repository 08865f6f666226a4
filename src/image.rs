//! The two kinds of image the engine creates, and the layout transitions and
//! copies that prepare each one for use.
use vstd::prelude::*;

use crate::error::EngineError;
use crate::layout::{barrier_command, Command, CommandBuffer, ImageLayout, ASPECT_COLOR, ASPECT_DEPTH};

verus! {

/// Image usage bit: destination of transfers.
pub const IMAGE_USAGE_TRANSFER_DST: u32 = 0x2;
/// Image usage bit: sampled by shaders.
pub const IMAGE_USAGE_SAMPLED: u32 = 0x4;
/// Image usage bit: depth/stencil attachment.
pub const IMAGE_USAGE_DEPTH_STENCIL_ATTACHMENT: u32 = 0x20;

/// Format code of textures: 8-bit RGBA in sRGB.
pub const FORMAT_R8G8B8A8_SRGB: i32 = 43;

/// What a 2-D, single-sample, single-mip image is created with.
#[derive(Debug, Clone, Copy, PartialEq, Eq, Structural)]
pub struct ImageProperties {
    pub width: u32,
    pub height: u32,
    pub format: i32,
    pub usage_flags: u32,
    pub aspect_flag: u32,
}

/// A texture, filled from a buffer and then sampled, or a depth attachment.
#[derive(Debug, Clone, Copy, PartialEq, Eq, Structural)]
pub enum ImagePropertyType {
    TextureImage(ImageProperties),
    DepthImage(ImageProperties),
}

/// The commands that bring a texture from undefined contents to sampling: into
/// the transfer-destination layout, the copy of its pixels, then into the
/// shader-read-only layout.
pub open spec fn texture_commands(p: ImageProperties) -> Seq<Command> {
    seq![
        barrier_command(p.format, ImageLayout::Undefined, ImageLayout::TransferDstOptimal, 1)->Some_0,
        Command::CopyBufferToImage { width: p.width, height: p.height },
        barrier_command(p.format, ImageLayout::TransferDstOptimal, ImageLayout::ShaderReadOnlyOptimal, 1)->Some_0,
    ]
}

/// The command that makes a depth image a depth attachment.
pub open spec fn depth_commands(p: ImageProperties) -> Seq<Command> {
    seq![
        barrier_command(p.format, ImageLayout::Undefined, ImageLayout::DepthStencilAttachmentOptimal, 1)->Some_0,
    ]
}

impl ImagePropertyType {
    /// A sampled sRGB texture of the given size.
    pub fn texture_property(width: u32, height: u32) -> (r: ImagePropertyType)
        ensures
            r == ImagePropertyType::TextureImage(
                ImageProperties {
                    width,
                    height,
                    format: FORMAT_R8G8B8A8_SRGB,
                    usage_flags: IMAGE_USAGE_TRANSFER_DST | IMAGE_USAGE_SAMPLED,
                    aspect_flag: ASPECT_COLOR,
                },
            ),
    {
        ImagePropertyType::TextureImage(
            ImageProperties {
                width,
                height,
                format: FORMAT_R8G8B8A8_SRGB,
                usage_flags: IMAGE_USAGE_TRANSFER_DST | IMAGE_USAGE_SAMPLED,
                aspect_flag: ASPECT_COLOR,
            },
        )
    }

    /// A depth attachment of the swapchain's size in `format`.
    pub fn depth_property(width: u32, height: u32, format: i32) -> (r: ImagePropertyType)
        ensures
            r == ImagePropertyType::DepthImage(
                ImageProperties {
                    width,
                    height,
                    format,
                    usage_flags: IMAGE_USAGE_DEPTH_STENCIL_ATTACHMENT,
                    aspect_flag: ASPECT_DEPTH,
                },
            ),
    {
        ImagePropertyType::DepthImage(
            ImageProperties {
                width,
                height,
                format,
                usage_flags: IMAGE_USAGE_DEPTH_STENCIL_ATTACHMENT,
                aspect_flag: ASPECT_DEPTH,
            },
        )
    }

    /// The properties the image is created with.
    pub fn get_property(&self) -> (r: &ImageProperties)
        ensures
            match *self {
                ImagePropertyType::TextureImage(p) => *r == p,
                ImagePropertyType::DepthImage(p) => *r == p,
            },
    {
        match self {
            ImagePropertyType::TextureImage(p) => p,
            ImagePropertyType::DepthImage(p) => p,
        }
    }

    /// Records the transitions, and for a texture the copy of its pixels, that
    /// prepare a freshly created image for use.
    pub fn perform_transition(&self, cmd: &mut CommandBuffer) -> (r: Result<(), EngineError>)
        ensures
            r == Ok::<(), EngineError>(()),
            match *self {
                ImagePropertyType::TextureImage(p) => final(cmd)@ == old(cmd)@ + texture_commands(p),
                ImagePropertyType::DepthImage(p) => final(cmd)@ == old(cmd)@ + depth_commands(p),
            },
    {
        match self {
            ImagePropertyType::TextureImage(p) => ImagePropertyType::copy_buffer_to_image(p, cmd),
            ImagePropertyType::DepthImage(p) => {
                let r = cmd.record_transition(
                    p.format,
                    ImageLayout::Undefined,
                    ImageLayout::DepthStencilAttachmentOptimal,
                    1,
                );
                proof {
                    assert(cmd@ =~= old(cmd)@ + depth_commands(*p));
                }
                r
            },
        }
    }

    /// Records the texture sequence: into the transfer-destination layout, the
    /// copy from the staging buffer, into the shader-read-only layout.
    pub fn copy_buffer_to_image(property: &ImageProperties, cmd: &mut CommandBuffer) -> (r: Result<
        (),
        EngineError,
    >)
        ensures
            r == Ok::<(), EngineError>(()),
            final(cmd)@ == old(cmd)@ + texture_commands(*property),
    {
        let r1 = cmd.record_transition(
            property.format,
            ImageLayout::Undefined,
            ImageLayout::TransferDstOptimal,
            1,
        );
        if r1.is_err() {
            return r1;
        }
        cmd.record_copy_buffer_to_image(property.width, property.height);
        let r2 = cmd.record_transition(
            property.format,
            ImageLayout::TransferDstOptimal,
            ImageLayout::ShaderReadOnlyOptimal,
            1,
        );
        proof {
            assert(cmd@ =~= old(cmd)@ + texture_commands(*property));
        }
        r2
    }
}

} // verus!
