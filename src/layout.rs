//! Image layouts, the barrier that each supported transition needs, and the
//! commands that one-shot submissions record.
use vstd::prelude::*;

use crate::error::EngineError;

verus! {

/// Access bit: reads by shaders.
pub const ACCESS_SHADER_READ: u32 = 0x20;
/// Access bit: colour attachment reads.
pub const ACCESS_COLOR_ATTACHMENT_READ: u32 = 0x80;
/// Access bit: colour attachment writes.
pub const ACCESS_COLOR_ATTACHMENT_WRITE: u32 = 0x100;
/// Access bit: depth/stencil attachment reads.
pub const ACCESS_DEPTH_STENCIL_ATTACHMENT_READ: u32 = 0x200;
/// Access bit: depth/stencil attachment writes.
pub const ACCESS_DEPTH_STENCIL_ATTACHMENT_WRITE: u32 = 0x400;
/// Access bit: writes by transfers.
pub const ACCESS_TRANSFER_WRITE: u32 = 0x1000;

/// Pipeline stage: top of the pipe.
pub const STAGE_TOP_OF_PIPE: u32 = 0x1;
/// Pipeline stage: fragment shading.
pub const STAGE_FRAGMENT_SHADER: u32 = 0x80;
/// Pipeline stage: early fragment tests.
pub const STAGE_EARLY_FRAGMENT_TESTS: u32 = 0x100;
/// Pipeline stage: colour attachment output.
pub const STAGE_COLOR_ATTACHMENT_OUTPUT: u32 = 0x400;
/// Pipeline stage: transfers.
pub const STAGE_TRANSFER: u32 = 0x1000;

/// Image aspect: colour.
pub const ASPECT_COLOR: u32 = 0x1;
/// Image aspect: depth.
pub const ASPECT_DEPTH: u32 = 0x2;
/// Image aspect: stencil.
pub const ASPECT_STENCIL: u32 = 0x4;

/// Format code: 24-bit depth with 8-bit stencil.
pub const FORMAT_D24_UNORM_S8_UINT: i32 = 129;
/// Format code: 32-bit float depth with 8-bit stencil.
pub const FORMAT_D32_SFLOAT_S8_UINT: i32 = 130;

/// The memory layout of an image.
#[derive(Debug, Clone, Copy, PartialEq, Eq, Structural)]
pub enum ImageLayout {
    Undefined,
    General,
    ColorAttachmentOptimal,
    DepthStencilAttachmentOptimal,
    DepthStencilReadOnlyOptimal,
    ShaderReadOnlyOptimal,
    TransferSrcOptimal,
    TransferDstOptimal,
    Preinitialized,
    PresentSrc,
}

/// Access masks and pipeline stages on both sides of a layout transition.
#[derive(Debug, Clone, Copy, PartialEq, Eq, Structural)]
pub struct TransitionBarrier {
    pub src_access_mask: u32,
    pub dst_access_mask: u32,
    pub source_stage: u32,
    pub destination_stage: u32,
}

/// The transition table: the barrier for each supported pair of layouts.
pub open spec fn transition_barrier(old_layout: ImageLayout, new_layout: ImageLayout) -> Option<
    TransitionBarrier,
> {
    match (old_layout, new_layout) {
        (ImageLayout::Undefined, ImageLayout::TransferDstOptimal) => Some(
            TransitionBarrier {
                src_access_mask: 0,
                dst_access_mask: ACCESS_TRANSFER_WRITE,
                source_stage: STAGE_TOP_OF_PIPE,
                destination_stage: STAGE_TRANSFER,
            },
        ),
        (ImageLayout::Undefined, ImageLayout::DepthStencilAttachmentOptimal) => Some(
            TransitionBarrier {
                src_access_mask: 0,
                dst_access_mask: ACCESS_DEPTH_STENCIL_ATTACHMENT_READ
                    | ACCESS_DEPTH_STENCIL_ATTACHMENT_WRITE,
                source_stage: STAGE_TOP_OF_PIPE,
                destination_stage: STAGE_EARLY_FRAGMENT_TESTS,
            },
        ),
        (ImageLayout::Undefined, ImageLayout::ColorAttachmentOptimal) => Some(
            TransitionBarrier {
                src_access_mask: 0,
                dst_access_mask: ACCESS_COLOR_ATTACHMENT_READ | ACCESS_COLOR_ATTACHMENT_WRITE,
                source_stage: STAGE_TOP_OF_PIPE,
                destination_stage: STAGE_COLOR_ATTACHMENT_OUTPUT,
            },
        ),
        (ImageLayout::TransferDstOptimal, ImageLayout::ShaderReadOnlyOptimal) => Some(
            TransitionBarrier {
                src_access_mask: ACCESS_TRANSFER_WRITE,
                dst_access_mask: ACCESS_SHADER_READ,
                source_stage: STAGE_TRANSFER,
                destination_stage: STAGE_FRAGMENT_SHADER,
            },
        ),
        _ => None,
    }
}

impl TransitionBarrier {
    /// Looks the pair up in the transition table; a pair without an entry is refused.
    pub fn from_layout(old_layout: ImageLayout, new_layout: ImageLayout) -> (r: Result<
        TransitionBarrier,
        EngineError,
    >)
        ensures
            match transition_barrier(old_layout, new_layout) {
                Some(b) => r == Ok::<TransitionBarrier, EngineError>(b),
                None => r == Err::<TransitionBarrier, EngineError>(
                    EngineError::UnsupportedLayoutTransition,
                ),
            },
    {
        match (old_layout, new_layout) {
            (ImageLayout::Undefined, ImageLayout::TransferDstOptimal) => Ok(
                TransitionBarrier {
                    src_access_mask: 0,
                    dst_access_mask: ACCESS_TRANSFER_WRITE,
                    source_stage: STAGE_TOP_OF_PIPE,
                    destination_stage: STAGE_TRANSFER,
                },
            ),
            (ImageLayout::Undefined, ImageLayout::DepthStencilAttachmentOptimal) => Ok(
                TransitionBarrier {
                    src_access_mask: 0,
                    dst_access_mask: ACCESS_DEPTH_STENCIL_ATTACHMENT_READ
                        | ACCESS_DEPTH_STENCIL_ATTACHMENT_WRITE,
                    source_stage: STAGE_TOP_OF_PIPE,
                    destination_stage: STAGE_EARLY_FRAGMENT_TESTS,
                },
            ),
            (ImageLayout::Undefined, ImageLayout::ColorAttachmentOptimal) => Ok(
                TransitionBarrier {
                    src_access_mask: 0,
                    dst_access_mask: ACCESS_COLOR_ATTACHMENT_READ | ACCESS_COLOR_ATTACHMENT_WRITE,
                    source_stage: STAGE_TOP_OF_PIPE,
                    destination_stage: STAGE_COLOR_ATTACHMENT_OUTPUT,
                },
            ),
            (ImageLayout::TransferDstOptimal, ImageLayout::ShaderReadOnlyOptimal) => Ok(
                TransitionBarrier {
                    src_access_mask: ACCESS_TRANSFER_WRITE,
                    dst_access_mask: ACCESS_SHADER_READ,
                    source_stage: STAGE_TRANSFER,
                    destination_stage: STAGE_FRAGMENT_SHADER,
                },
            ),
            _ => Err(EngineError::UnsupportedLayoutTransition),
        }
    }
}

/// The format carries a stencil component.
pub open spec fn spec_has_stencil_component(format: i32) -> bool {
    format == FORMAT_D32_SFLOAT_S8_UINT || format == FORMAT_D24_UNORM_S8_UINT
}

/// Whether images of `format` have a stencil component.
pub fn has_stencil_component(format: i32) -> (r: bool)
    ensures
        r == spec_has_stencil_component(format),
{
    format == FORMAT_D32_SFLOAT_S8_UINT || format == FORMAT_D24_UNORM_S8_UINT
}

/// The aspects that a barrier into `new_layout` covers for an image of `format`.
pub open spec fn transition_aspect(new_layout: ImageLayout, format: i32) -> u32 {
    match new_layout {
        ImageLayout::DepthStencilAttachmentOptimal => if spec_has_stencil_component(format) {
            ASPECT_DEPTH | ASPECT_STENCIL
        } else {
            ASPECT_DEPTH
        },
        _ => ASPECT_COLOR,
    }
}

/// One image memory barrier: the whole image, first array layer, `level_count` mip levels.
#[derive(Debug, Clone, Copy, PartialEq, Eq, Structural)]
pub struct ImageBarrier {
    pub old_layout: ImageLayout,
    pub new_layout: ImageLayout,
    pub barrier: TransitionBarrier,
    pub aspect_mask: u32,
    pub level_count: u32,
}

/// A command recorded for the device.
#[derive(Debug, Clone, Copy, PartialEq, Eq, Structural)]
pub enum Command {
    /// Copy `size` bytes from the start of the source buffer to the start of the destination.
    CopyBuffer { size: u64 },
    /// Copy a tightly packed `width` x `height` region from the source buffer into
    /// the colour aspect of an image in the transfer-destination layout.
    CopyBufferToImage { width: u32, height: u32 },
    /// A pipeline barrier that moves an image between layouts.
    PipelineBarrier(ImageBarrier),
}

/// The barrier command for moving an image of `format` from `old_layout` to `new_layout`.
pub open spec fn barrier_command(format: i32, old_layout: ImageLayout, new_layout: ImageLayout, level_count: u32) -> Option<
    Command,
> {
    match transition_barrier(old_layout, new_layout) {
        Some(b) => Some(
            Command::PipelineBarrier(
                ImageBarrier {
                    old_layout,
                    new_layout,
                    barrier: b,
                    aspect_mask: transition_aspect(new_layout, format),
                    level_count,
                },
            ),
        ),
        None => None,
    }
}

/// The commands of one submission, in recording order.
pub struct CommandBuffer {
    commands: Vec<Command>,
}

impl View for CommandBuffer {
    type V = Seq<Command>;

    closed spec fn view(&self) -> Seq<Command> {
        self.commands@
    }
}

impl CommandBuffer {
    /// A buffer with nothing recorded.
    pub fn new() -> (r: CommandBuffer)
        ensures
            r@ == Seq::<Command>::empty(),
    {
        CommandBuffer { commands: Vec::new() }
    }

    /// The recorded commands.
    pub fn commands(&self) -> (r: &Vec<Command>)
        ensures
            r@ == self@,
    {
        &self.commands
    }

    /// Number of recorded commands.
    pub fn len(&self) -> (r: usize)
        ensures
            r == self@.len(),
    {
        self.commands.len()
    }

    /// Records a whole-buffer copy of `size` bytes.
    pub fn record_copy_buffer(&mut self, size: u64)
        ensures
            final(self)@ == old(self)@.push(Command::CopyBuffer { size }),
    {
        self.commands.push(Command::CopyBuffer { size });
    }

    /// Records a copy of a `width` x `height` region from a buffer into an image.
    pub fn record_copy_buffer_to_image(&mut self, width: u32, height: u32)
        ensures
            final(self)@ == old(self)@.push(Command::CopyBufferToImage { width, height }),
    {
        self.commands.push(Command::CopyBufferToImage { width, height });
    }

    /// Records the barrier that moves an image of `format` from `old_layout` to
    /// `new_layout`. An unsupported pair is refused and records nothing.
    pub fn record_transition(
        &mut self,
        format: i32,
        old_layout: ImageLayout,
        new_layout: ImageLayout,
        level_count: u32,
    ) -> (r: Result<(), EngineError>)
        ensures
            match barrier_command(format, old_layout, new_layout, level_count) {
                Some(c) => r == Ok::<(), EngineError>(()) && final(self)@ == old(self)@.push(c),
                None => r == Err::<(), EngineError>(EngineError::UnsupportedLayoutTransition)
                    && final(self)@ == old(self)@,
            },
    {
        let barrier = match TransitionBarrier::from_layout(old_layout, new_layout) {
            Ok(b) => b,
            Err(e) => {
                return Err(e);
            },
        };
        let aspect_mask = match new_layout {
            ImageLayout::DepthStencilAttachmentOptimal => if has_stencil_component(format) {
                ASPECT_DEPTH | ASPECT_STENCIL
            } else {
                ASPECT_DEPTH
            },
            _ => ASPECT_COLOR,
        };
        self.commands.push(
            Command::PipelineBarrier(
                ImageBarrier { old_layout, new_layout, barrier, aspect_mask, level_count },
            ),
        );
        Ok(())
    }
}

} // verus!
