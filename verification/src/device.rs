//! The GPU device context decisions: device and queue-family selection,
//! the surface-format requirement, the per-draw parameter block layout, and
//! the transfer-function selector the shader consumes.
//!
//! Graphics-API objects and results are carried as plain integers: a queue
//! family's flag word, a `VkResult` code, a format and color-space pair.

use vstd::prelude::*;
use crate::cmm::{NamedTransferFunction, TransferFunction};

verus! {

/// A GPU-layer error: which call failed, with the API's result code where
/// one exists.
#[derive(Clone, Copy, Debug, PartialEq, Eq, Structural, Hash)]
pub enum Error {
    CreateInstance(i32),
    EnumeratePhysicalDevices(i32),
    NoPhysicalDevices,
    NoQueues,
    CreateDevice(i32),
    CreateWaylandSurface(i32),
    GetSurfaceFormats(i32),
    F16NotSupported,
    WaitIdle(i32),
    CreateSwapchain(i32),
    GetSwapchainImages(i32),
    CreateCommandPool(i32),
    AllocateCommandBuffer(i32),
    CreateFence(i32),
    GetFenceStatus(i32),
    AcquireNextImage(i32),
    BeginCommandBuffer(i32),
    EndCommandBuffer(i32),
    CreateImageView(i32),
    Submit(i32),
    CreateSemaphore(i32),
    Present(i32),
    CreateShaderModule(i32),
    CreatePipelineLayout(i32),
    CreateGraphicsPipeline(i32),
    GpuAllocDeviceProperties(i32),
    CreateBuffer(i32),
    AllocateMemory,
    BindBufferMemory(i32),
}

/// The graphics capability bit of a queue family's flag word.
pub const QUEUE_GRAPHICS_BIT: u32 = 1;

/// Whether a queue family's flag word includes graphics support.
pub open spec fn has_graphics(flags: u32) -> bool {
    flags & QUEUE_GRAPHICS_BIT != 0
}

/// Picks the physical device: the first one, if any exists.
pub fn select_physical_device(device_count: usize) -> (r: Result<usize, Error>)
    ensures
        device_count > 0 ==> r == Result::<usize, Error>::Ok(0),
        device_count == 0 ==> r == Result::<usize, Error>::Err(Error::NoPhysicalDevices),
{
    if device_count == 0 {
        Err(Error::NoPhysicalDevices)
    } else {
        Ok(0)
    }
}

/// Picks the queue family: the first one whose flags include graphics
/// support; the distinct no-graphics-queue error when none does.
pub fn select_queue_family(queue_flags: &Vec<u32>) -> (r: Result<usize, Error>)
    ensures
        r matches Ok(i) ==> i < queue_flags@.len() && has_graphics(queue_flags@[i as int])
            && forall|j: int| 0 <= j < i ==> !has_graphics(queue_flags@[j]),
        r is Ok <==> exists|j: int|
            0 <= j < queue_flags@.len() && has_graphics(#[trigger] queue_flags@[j]),
        r is Err ==> r == Result::<usize, Error>::Err(Error::NoQueues),
{
    let mut i: usize = 0;
    while i < queue_flags.len()
        invariant
            0 <= i <= queue_flags@.len(),
            forall|j: int| 0 <= j < i ==> !has_graphics(queue_flags@[j]),
        decreases queue_flags@.len() - i,
    {
        if queue_flags[i] & QUEUE_GRAPHICS_BIT != 0 {
            return Ok(i);
        }
        i = i + 1;
    }
    Err(Error::NoQueues)
}

/// The pixel format the surface must support (16-bit floating-point
/// RGBA).
pub const FORMAT_R16G16B16A16_SFLOAT: u32 = 97;

/// The pass-through color space the surface must support.
pub const COLOR_SPACE_PASS_THROUGH: u32 = 1000104013;

/// A surface format: a pixel format and color space pair.
#[derive(Clone, Copy, Debug, PartialEq, Eq, Structural, Hash)]
pub struct SurfaceFormat {
    pub format: u32,
    pub color_space: u32,
}

/// The format and color space every surface is created with.
pub open spec fn required_format() -> SurfaceFormat {
    SurfaceFormat { format: FORMAT_R16G16B16A16_SFLOAT, color_space: COLOR_SPACE_PASS_THROUGH }
}

/// Checks that the surface supports the 16-bit float pass-through format;
/// the distinct unsupported-format error when it does not.
pub fn check_surface_formats(formats: &Vec<SurfaceFormat>) -> (r: Result<(), Error>)
    ensures
        r is Ok <==> formats@.contains(required_format()),
        r is Err ==> r == Result::<(), Error>::Err(Error::F16NotSupported),
{
    let mut i: usize = 0;
    while i < formats.len()
        invariant
            0 <= i <= formats@.len(),
            forall|j: int| 0 <= j < i ==> formats@[j] != required_format(),
        decreases formats@.len() - i,
    {
        let f: SurfaceFormat = formats[i];
        if f.format == FORMAT_R16G16B16A16_SFLOAT && f.color_space == COLOR_SPACE_PASS_THROUGH {
            proof {
                assert(formats@[i as int] == required_format());
            }
            return Ok(());
        }
        i = i + 1;
    }
    proof {
        assert(forall|j: int|
            0 <= j < formats@.len() ==> formats@[j] != required_format());
    }
    Err(Error::F16NotSupported)
}

/// The unpadded byte size of the per-draw parameter block: a 4x4
/// single-precision matrix, the four rectangle bounds, four corner colors
/// of four channels, the transfer-function selector word, and four
/// transfer-function arguments.
pub fn fill_data_unpadded_size() -> (r: u64)
    ensures
        r == 4 * 16 + 4 * 4 + 4 * 16 + 4 + 4 * 4,
{
    4 * 16 + 4 * 4 + 4 * 16 + 4 + 4 * 4
}

/// The byte size of one scratch buffer: the parameter block rounded up to
/// a sixteen-byte multiple.
pub fn fill_buffer_size() -> (r: u64)
    ensures
        r == 176,
{
    let raw: u64 = fill_data_unpadded_size();
    ((raw + 15) / 16) * 16
}

/// The transfer-function selector the fragment shader decodes with. The
/// piecewise SRGB, extended SRGB and pure 2.2 gamma selections share one
/// decode; the generic power curve takes its exponent from the arguments.
pub fn eotf_code(tf: TransferFunction) -> (r: u32)
    ensures
        r == match tf {
            TransferFunction::Named(n) => match n {
                NamedTransferFunction::Srgb => 4u32,
                NamedTransferFunction::Linear => 1u32,
                NamedTransferFunction::St2084Pq => 2u32,
                NamedTransferFunction::Bt1886 => 3u32,
                NamedTransferFunction::Gamma22 => 4u32,
                NamedTransferFunction::Gamma28 => 5u32,
                NamedTransferFunction::St240 => 6u32,
                NamedTransferFunction::ExtSrgb => 4u32,
                NamedTransferFunction::Log100 => 8u32,
                NamedTransferFunction::Log316 => 9u32,
                NamedTransferFunction::St428 => 10u32,
            },
            TransferFunction::Pow => 11u32,
        },
{
    match tf {
        TransferFunction::Named(n) => match n {
            NamedTransferFunction::Srgb => 4,
            NamedTransferFunction::Linear => 1,
            NamedTransferFunction::St2084Pq => 2,
            NamedTransferFunction::Bt1886 => 3,
            NamedTransferFunction::Gamma22 => 4,
            NamedTransferFunction::Gamma28 => 5,
            NamedTransferFunction::St240 => 6,
            NamedTransferFunction::ExtSrgb => 4,
            NamedTransferFunction::Log100 => 8,
            NamedTransferFunction::Log316 => 9,
            NamedTransferFunction::St428 => 10,
        },
        TransferFunction::Pow => 11,
    }
}

} // verus!
