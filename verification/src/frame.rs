//! The raster that the decoded frames of a camera are meant for.
//!
//! The pixels are kept by the `pix` crate. This crate makes the raster and
//! carries it with the camera; it reads nothing of it but its size.

use vstd::prelude::*;

verus! {

/// Largest number of pixels, and largest side, that a raster can have.
pub const MAX_PIXELS: u32 = 0x7fff_ffff;

/// Width of the raster that a rig gives each camera.
pub const DEFAULT_WIDTH: u32 = 640;

/// Height of the raster that a rig gives each camera.
pub const DEFAULT_HEIGHT: u32 = 480;

/// A raster of `pix` with four 8-bit channels in sRGB, alpha not
/// premultiplied. The raster type is bounded by traits of `pix` that the
/// verifier does not know, so the raster is kept out of its sight: nothing
/// is known of it here but what the two names below stand for.
#[verifier::external_body]
pub struct FrameBuffer {
    raster: pix::Raster<pix::rgb::SRgba8>,
}

/// The width that `pix::Raster::width` reports of the raster.
pub uninterp spec fn raster_width(frame: FrameBuffer) -> u32;

/// The height that `pix::Raster::height` reports of the raster.
pub uninterp spec fn raster_height(frame: FrameBuffer) -> u32;

/// Whether a raster of this size can be made: both sides and the number of
/// pixels fit a signed 32-bit number.
pub open spec fn fits(width: u32, height: u32) -> bool {
    width <= MAX_PIXELS && height <= MAX_PIXELS && width * height <= MAX_PIXELS
}

/// Calls `pix::Raster::with_clear`, which makes a raster of the given size
/// with every pixel at its default. It panics on a side beyond the signed
/// 32-bit range and computes the number of pixels in that range, so both
/// are demanded here. The raster reports the width and height it was made
/// with.
#[verifier::external_body]
fn raster_with_clear(width: u32, height: u32) -> (frame: FrameBuffer)
    requires
        fits(width, height),
    ensures
        raster_width(frame) == width,
        raster_height(frame) == height,
{
    FrameBuffer { raster: pix::Raster::with_clear(width, height) }
}

/// Calls `pix::Raster::width`, which gives the raster's width.
#[verifier::external_body]
fn width_of(frame: &FrameBuffer) -> (width: u32)
    ensures
        width == raster_width(*frame),
{
    frame.raster.width()
}

/// Calls `pix::Raster::height`, which gives the raster's height.
#[verifier::external_body]
fn height_of(frame: &FrameBuffer) -> (height: u32)
    ensures
        height == raster_height(*frame),
{
    frame.raster.height()
}

impl FrameBuffer {
    /// A cleared raster of the given size, or nothing if no raster can be
    /// that large.
    pub fn new(width: u32, height: u32) -> (frame: Option<FrameBuffer>)
        ensures
            frame is Some == fits(width, height),
            frame matches Some(made) ==> raster_width(made) == width && raster_height(made)
                == height,
    {
        if width > MAX_PIXELS || height > MAX_PIXELS {
            return None;
        }
        assert(width * height <= 0x7fff_ffff * 0x7fff_ffff) by (nonlinear_arith)
            requires
                width <= 0x7fff_ffff,
                height <= 0x7fff_ffff,
        ;
        let pixels: u64 = (width as u64) * (height as u64);
        if pixels > MAX_PIXELS as u64 {
            return None;
        }
        Some(raster_with_clear(width, height))
    }

    /// The raster that a rig gives each camera it finds.
    pub fn standard() -> (frame: FrameBuffer)
        ensures
            raster_width(frame) == DEFAULT_WIDTH,
            raster_height(frame) == DEFAULT_HEIGHT,
    {
        assert(fits(DEFAULT_WIDTH, DEFAULT_HEIGHT));
        raster_with_clear(DEFAULT_WIDTH, DEFAULT_HEIGHT)
    }

    /// The width of the raster in pixels.
    pub fn width(&self) -> (width: u32)
        ensures
            width == raster_width(*self),
    {
        width_of(self)
    }

    /// The height of the raster in pixels.
    pub fn height(&self) -> (height: u32)
        ensures
            height == raster_height(*self),
    {
        height_of(self)
    }
}

} // verus!
