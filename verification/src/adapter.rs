//! Adapter data and the physical-device selection heuristics.
//!
//! An adapter describes one physical device through the plain values the
//! selection logic reads: its device type, its surface capabilities, the
//! present modes and surface formats it offers, and its queue-family table.
//! The native enumeration and query calls that fill such a description in
//! live outside this crate; enumeration codes travel as the native integer
//! values.

use vstd::prelude::*;

use crate::error::Error;

verus! {

/// The native code of the discrete-GPU device type.
pub const DEVICE_TYPE_DISCRETE_GPU: i32 = 2;

/// The native code of the immediate present mode.
pub const PRESENT_MODE_IMMEDIATE: i32 = 0;

/// The native code of the relaxed first-in-first-out present mode.
pub const PRESENT_MODE_FIFO_RELAXED: i32 = 3;

/// The native code of the 8-bit BGRA sRGB surface format.
pub const FORMAT_B8G8R8A8_SRGB: i32 = 50;

/// The native code of the non-linear sRGB color space.
pub const COLOR_SPACE_SRGB_NONLINEAR: i32 = 0;

/// One queue family of an adapter: its capability flags and whether it can
/// present to the surface.
#[derive(Clone, Copy, Debug, PartialEq, Eq, Structural)]
pub struct QueueFamily {
    /// The family's capability flag bits.
    pub flags: u32,
    /// Whether the family supports presenting to the surface.
    pub surface_supported: bool,
}

/// One surface format an adapter offers: a pixel format paired with a color
/// space.
#[derive(Clone, Copy, Debug, PartialEq, Eq, Structural)]
pub struct SurfaceFormat {
    /// The native pixel-format code.
    pub format: i32,
    /// The native color-space code.
    pub color_space: i32,
}

/// A physical device as the selection logic sees it.
#[derive(Debug)]
pub struct Adapter {
    /// The native device-type code.
    pub device_type: i32,
    /// The minimum number of swapchain images the surface supports.
    pub min_image_count: u32,
    /// The present modes the adapter offers, as native codes.
    pub present_modes: Vec<i32>,
    /// The surface formats the adapter offers.
    pub present_formats: Vec<SurfaceFormat>,
    /// The adapter's queue families, in family-index order.
    pub queue_families: Vec<QueueFamily>,
}

/// A present mode that rendering accepts: relaxed first-in-first-out or
/// immediate.
pub open spec fn present_mode_ok(mode: i32) -> bool {
    mode == PRESENT_MODE_FIFO_RELAXED || mode == PRESENT_MODE_IMMEDIATE
}

/// A surface format that rendering accepts: 8-bit BGRA sRGB in the
/// non-linear sRGB color space.
pub open spec fn surface_format_ok(f: SurfaceFormat) -> bool {
    f.format == FORMAT_B8G8R8A8_SRGB && f.color_space == COLOR_SPACE_SRGB_NONLINEAR
}

/// Checks whether the device type is the optimal one (a discrete GPU).
pub fn is_device_type_optimal(device_type: i32) -> (r: bool)
    ensures
        r == (device_type == DEVICE_TYPE_DISCRETE_GPU),
{
    device_type == DEVICE_TYPE_DISCRETE_GPU
}

/// Checks whether the surface supports exactly double buffering (a minimum
/// image count of 2).
pub fn is_double_buffering_supported(min_image_count: u32) -> (r: bool)
    ensures
        r == (min_image_count == 2),
{
    min_image_count == 2
}

/// Checks whether any offered present mode is acceptable.
pub fn is_present_mode_supported(modes: &Vec<i32>) -> (r: bool)
    ensures
        r == exists|i: int| 0 <= i < modes@.len() && present_mode_ok(#[trigger] modes@[i]),
{
    let mut i: usize = 0;
    while i < modes.len()
        invariant
            i <= modes@.len(),
            forall|j: int| 0 <= j < i ==> !present_mode_ok(#[trigger] modes@[j]),
        decreases modes@.len() - i,
    {
        let mode = modes[i];
        if mode == PRESENT_MODE_FIFO_RELAXED || mode == PRESENT_MODE_IMMEDIATE {
            return true;
        }
        i = i + 1;
    }
    false
}

/// Checks whether any offered surface format is acceptable.
pub fn is_surface_format_supported(formats: &Vec<SurfaceFormat>) -> (r: bool)
    ensures
        r == exists|i: int|
            0 <= i < formats@.len() && surface_format_ok(#[trigger] formats@[i]),
{
    let mut i: usize = 0;
    while i < formats.len()
        invariant
            i <= formats@.len(),
            forall|j: int| 0 <= j < i ==> !surface_format_ok(#[trigger] formats@[j]),
        decreases formats@.len() - i,
    {
        let f = formats[i];
        if f.format == FORMAT_B8G8R8A8_SRGB && f.color_space == COLOR_SPACE_SRGB_NONLINEAR {
            return true;
        }
        i = i + 1;
    }
    false
}

impl Adapter {
    /// The minimum rendering requirements: a discrete GPU, double buffering,
    /// an acceptable present mode, and an acceptable surface format.
    pub open spec fn suitable(self) -> bool {
        &&& self.device_type == DEVICE_TYPE_DISCRETE_GPU
        &&& self.min_image_count == 2
        &&& exists|i: int|
            0 <= i < self.present_modes@.len() && present_mode_ok(#[trigger] self.present_modes@[i])
        &&& exists|i: int|
            0 <= i < self.present_formats@.len() && surface_format_ok(
                #[trigger] self.present_formats@[i],
            )
    }

    /// Checks the minimum requirements this adapter must meet to render.
    pub fn is_physical_device_suitable(&self) -> (r: bool)
        ensures
            r == self.suitable(),
    {
        let double_buffering_supported = is_double_buffering_supported(self.min_image_count);
        let format_supported = is_surface_format_supported(&self.present_formats);
        let present_supported = is_present_mode_supported(&self.present_modes);
        let device_type_okay = is_device_type_optimal(self.device_type);
        double_buffering_supported && format_supported && present_supported && device_type_okay
    }

    /// Picks an adapter automatically: the first suitable one, by index.
    /// Fails with [`Error::NoAdapter`] exactly when none is suitable.
    pub fn pick(adapters: &Vec<Adapter>) -> (r: Result<usize, Error>)
        ensures
            r matches Ok(i) ==> 0 <= i < adapters@.len() && adapters@[i as int].suitable()
                && forall|j: int| 0 <= j < i ==> !(#[trigger] adapters@[j]).suitable(),
            r is Ok <==> exists|i: int|
                0 <= i < adapters@.len() && (#[trigger] adapters@[i]).suitable(),
            r matches Err(e) ==> e == Error::NoAdapter,
    {
        let mut i: usize = 0;
        while i < adapters.len()
            invariant
                i <= adapters@.len(),
                forall|j: int| 0 <= j < i ==> !(#[trigger] adapters@[j]).suitable(),
            decreases adapters@.len() - i,
        {
            if adapters[i].is_physical_device_suitable() {
                return Ok(i);
            }
            i = i + 1;
        }
        Err(Error::NoAdapter)
    }
}

} // verus!
