//! Buffers the engine asks the device for, and the plan of a staged upload:
//! a host-visible staging buffer, a device-local destination, and the copy
//! between them.
use vstd::prelude::*;

use crate::device::{DEVICE_LOCAL, HOST_COHERENT, HOST_VISIBLE};
use crate::layout::{Command, CommandBuffer};

verus! {

/// Buffer usage bit: source of transfers.
pub const BUFFER_USAGE_TRANSFER_SRC: u32 = 0x1;
/// Buffer usage bit: destination of transfers.
pub const BUFFER_USAGE_TRANSFER_DST: u32 = 0x2;
/// Buffer usage bit: uniform buffer.
pub const BUFFER_USAGE_UNIFORM_BUFFER: u32 = 0x10;
/// Buffer usage bit: index buffer.
pub const BUFFER_USAGE_INDEX_BUFFER: u32 = 0x40;
/// Buffer usage bit: vertex buffer.
pub const BUFFER_USAGE_VERTEX_BUFFER: u32 = 0x80;

/// Size in bytes of one index.
pub const INDEX_SIZE: u64 = 4;

/// A buffer to create: its size in bytes, its usage bits, and the memory
/// properties its backing memory must have.
#[derive(Debug, Clone, Copy, PartialEq, Eq, Structural)]
pub struct BufferRequest {
    pub size: u64,
    pub usage: u32,
    pub memory_properties: u32,
}

impl BufferRequest {
    /// A host-visible, host-coherent uniform buffer of `size` bytes, rewritten every frame.
    pub fn uniform(size: u64) -> (r: BufferRequest)
        ensures
            r == (BufferRequest {
                size,
                usage: BUFFER_USAGE_UNIFORM_BUFFER,
                memory_properties: HOST_VISIBLE | HOST_COHERENT,
            }),
    {
        BufferRequest {
            size,
            usage: BUFFER_USAGE_UNIFORM_BUFFER,
            memory_properties: HOST_VISIBLE | HOST_COHERENT,
        }
    }
}

/// One uniform buffer of `size` bytes for each of `image_count` swapchain images,
/// so that frames in flight never write the same buffer.
pub fn uniform_buffers(image_count: usize, size: u64) -> (r: Vec<BufferRequest>)
    ensures
        r@.len() == image_count,
        forall|i: int| 0 <= i < image_count ==> #[trigger] r@[i] == (BufferRequest {
            size,
            usage: BUFFER_USAGE_UNIFORM_BUFFER,
            memory_properties: HOST_VISIBLE | HOST_COHERENT,
        }),
{
    let mut requests: Vec<BufferRequest> = Vec::new();
    let mut i: usize = 0;
    while i < image_count
        invariant
            i <= image_count,
            requests@.len() == i,
            forall|k: int| 0 <= k < i ==> #[trigger] requests@[k] == (BufferRequest {
                size,
                usage: BUFFER_USAGE_UNIFORM_BUFFER,
                memory_properties: HOST_VISIBLE | HOST_COHERENT,
            }),
        decreases image_count - i,
    {
        requests.push(BufferRequest::uniform(size));
        i = i + 1;
    }
    requests
}

/// The descriptor pool: room for one uniform-buffer descriptor in each of
/// `max_sets` sets, one set per swapchain image.
#[derive(Debug, Clone, Copy, PartialEq, Eq, Structural)]
pub struct DescriptorPoolPlan {
    pub uniform_descriptor_count: u32,
    pub max_sets: u32,
}

impl DescriptorPoolPlan {
    /// A pool sized exactly for `image_count` swapchain images.
    pub fn create_descriptor_pool(image_count: u32) -> (r: DescriptorPoolPlan)
        ensures
            r.uniform_descriptor_count == image_count,
            r.max_sets == image_count,
    {
        DescriptorPoolPlan { uniform_descriptor_count: image_count, max_sets: image_count }
    }
}

/// The staging buffer for `size` bytes of host data.
pub open spec fn staging_request(size: u64) -> BufferRequest {
    BufferRequest {
        size,
        usage: BUFFER_USAGE_TRANSFER_SRC,
        memory_properties: HOST_VISIBLE | HOST_COHERENT,
    }
}

/// The device-local buffer that receives `size` bytes for `usage`.
pub open spec fn destination_request(size: u64, usage: u32) -> BufferRequest {
    BufferRequest {
        size,
        usage: usage | BUFFER_USAGE_TRANSFER_DST,
        memory_properties: DEVICE_LOCAL,
    }
}

/// A staged upload. The driver creates `staging`, maps it, copies the data in,
/// unmaps it, creates `destination`, submits `copy` once and waits for the queue
/// to go idle, and then destroys the staging buffer and its memory.
pub struct UploadPlan {
    pub staging: BufferRequest,
    pub destination: BufferRequest,
    pub copy: CommandBuffer,
}

impl UploadPlan {
    /// The plan that uploads `byte_len` bytes into a device-local buffer used as `usage_flag`.
    pub fn create_gpu_local_buffer(byte_len: u64, usage_flag: u32) -> (r: UploadPlan)
        ensures
            r.staging == staging_request(byte_len),
            r.destination == destination_request(byte_len, usage_flag),
            r.copy@ == seq![Command::CopyBuffer { size: byte_len }],
    {
        let mut copy = CommandBuffer::new();
        copy.record_copy_buffer(byte_len);
        proof {
            assert(copy@ =~= seq![Command::CopyBuffer { size: byte_len }]);
        }
        UploadPlan {
            staging: BufferRequest {
                size: byte_len,
                usage: BUFFER_USAGE_TRANSFER_SRC,
                memory_properties: HOST_VISIBLE | HOST_COHERENT,
            },
            destination: BufferRequest {
                size: byte_len,
                usage: usage_flag | BUFFER_USAGE_TRANSFER_DST,
                memory_properties: DEVICE_LOCAL,
            },
            copy,
        }
    }

    /// The plan that uploads `byte_len` bytes of vertex data.
    pub fn create_vertex_buffer(byte_len: u64) -> (r: UploadPlan)
        ensures
            r.staging == staging_request(byte_len),
            r.destination == destination_request(byte_len, BUFFER_USAGE_VERTEX_BUFFER),
            r.copy@ == seq![Command::CopyBuffer { size: byte_len }],
    {
        UploadPlan::create_gpu_local_buffer(byte_len, BUFFER_USAGE_VERTEX_BUFFER)
    }

    /// The plan that uploads `data` as 32-bit indices.
    pub fn create_index_buffer(data: &Vec<u32>) -> (r: UploadPlan)
        requires
            data@.len() * INDEX_SIZE <= u64::MAX,
        ensures
            r.staging == staging_request((data@.len() * INDEX_SIZE) as u64),
            r.destination == destination_request(
                (data@.len() * INDEX_SIZE) as u64,
                BUFFER_USAGE_INDEX_BUFFER,
            ),
            r.copy@ == seq![Command::CopyBuffer { size: (data@.len() * INDEX_SIZE) as u64 }],
    {
        let byte_len = data.len() as u64 * INDEX_SIZE;
        UploadPlan::create_gpu_local_buffer(byte_len, BUFFER_USAGE_INDEX_BUFFER)
    }
}

} // verus!
