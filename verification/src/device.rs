//! The few things the library asks of the graphics crate and of the clock
//! directly. Nothing here is proved: each item states what the outside code
//! is taken to do, and two answers that depend on their argument alone are
//! given a name.

use crate::base_renderer::SurfaceFault;
use vstd::prelude::*;

verus! {

/// `wgpu::TextureFormat`, the format of a texture or surface. Opaque.
#[verifier::external_type_specification]
#[verifier::external_body]
pub struct ExTextureFormat(wgpu::TextureFormat);

/// `wgpu::SurfaceError`, why a surface gave no image. Opaque.
#[verifier::external_type_specification]
#[verifier::external_body]
pub struct ExSurfaceError(wgpu::SurfaceError);

/// `wgpu::SurfaceTexture`, the image that a surface gave. Opaque.
#[verifier::external_type_specification]
#[verifier::external_body]
pub struct ExSurfaceTexture(wgpu::SurfaceTexture);

/// `coarsetime::Instant`, a reading of the monotonic clock. Opaque.
#[verifier::external_type_specification]
#[verifier::external_body]
pub struct ExInstant(coarsetime::Instant);

/// `coarsetime::Duration`, a span of time. Opaque.
#[verifier::external_type_specification]
#[verifier::external_body]
pub struct ExDuration(coarsetime::Duration);

/// Whether a format is sRGB, as `wgpu::TextureFormat::is_srgb` tells.
pub uninterp spec fn srgb_of(format: wgpu::TextureFormat) -> bool;

/// The fault that has the name of the variant of a `wgpu::SurfaceError`.
pub uninterp spec fn fault_named(error: wgpu::SurfaceError) -> SurfaceFault;

/// Calls `wgpu::TextureFormat::is_srgb`. The answer depends on the format
/// alone and is given the name `srgb_of`; nothing else is claimed of it.
#[verifier::external_body]
pub(crate) fn is_srgb(format: &wgpu::TextureFormat) -> (srgb: bool)
    ensures
        srgb == srgb_of(*format),
{
    format.is_srgb()
}

/// Tells the four variants of `wgpu::SurfaceError` apart, each into the
/// fault of the same name. The fault depends on the error alone and is
/// given the name `fault_named`; nothing else is claimed of it.
#[verifier::external_body]
pub(crate) fn surface_fault(error: &wgpu::SurfaceError) -> (fault: SurfaceFault)
    ensures
        fault == fault_named(*error),
{
    match error {
        wgpu::SurfaceError::Timeout => SurfaceFault::Timeout,
        wgpu::SurfaceError::Outdated => SurfaceFault::Outdated,
        wgpu::SurfaceError::Lost => SurfaceFault::Lost,
        wgpu::SurfaceError::OutOfMemory => SurfaceFault::OutOfMemory,
    }
}

/// Calls `coarsetime::Instant::now`. Nothing is claimed of the reading.
#[verifier::external_body]
pub(crate) fn clock_now() -> (now: coarsetime::Instant) {
    coarsetime::Instant::now()
}

/// Calls `coarsetime::Instant::elapsed`. Nothing is claimed of the
/// duration.
#[verifier::external_body]
pub(crate) fn clock_elapsed(since: &coarsetime::Instant) -> (elapsed: coarsetime::Duration) {
    since.elapsed()
}

/// Calls `coarsetime::Duration::as_micros`, which gives the duration in
/// whole microseconds. Nothing is claimed of the number.
#[verifier::external_body]
pub(crate) fn duration_micros(duration: &coarsetime::Duration) -> (micros: u64) {
    duration.as_micros()
}

} // verus!
