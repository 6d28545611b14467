//! Stream configuration derived from the selected window's geometry.
//!
//! The capture stream is configured with the window's pixel dimensions, a
//! fixed 32-bit BGRA pixel format, a full-frame destination rectangle and a
//! source rectangle centered on the window's own midpoint. The platform
//! convention is that the source rectangle's origin denotes its center, so
//! reproducing the window without displacement puts that origin at half the
//! window's width and height. Rectangle coordinates are kept in half-point
//! units so that the midpoint of an odd-sized window is still exact.

use vstd::prelude::*;

use crate::errors::SessionError;

verus! {

/// Pixel format tag for 32-bit BGRA, the only format this design produces.
pub const PIXEL_FORMAT_32BGRA: u32 = 1111970369;

/// A window's placement on screen: origin and size, in points.
/// A minimized or degenerate window can report a zero or negative size.
#[derive(Clone, Copy, PartialEq, Eq, Structural, Debug)]
pub struct WindowGeometry {
    pub x: i64,
    pub y: i64,
    pub width: i32,
    pub height: i32,
}

/// An axis-aligned rectangle whose coordinates are in half-point units:
/// a field value of `n` denotes `n / 2` points.
#[derive(Clone, Copy, PartialEq, Eq, Structural, Debug)]
pub struct RectHp {
    pub x_hp: i64,
    pub y_hp: i64,
    pub width_hp: i64,
    pub height_hp: i64,
}

/// Parameters of a capture stream, fixed once at configuration time.
#[derive(Clone, Copy, PartialEq, Eq, Structural, Debug)]
pub struct StreamConfig {
    /// Output width in pixels.
    pub width: i32,
    /// Output height in pixels.
    pub height: i32,
    /// Always `PIXEL_FORMAT_32BGRA` in this design.
    pub pixel_format: u32,
    /// Origin is the rectangle's center: the window midpoint.
    pub source_rect: RectHp,
    /// Full frame, origin at zero.
    pub destination_rect: RectHp,
}

/// The one configuration a window geometry determines.
pub open spec fn stream_config_spec(g: WindowGeometry) -> StreamConfig {
    StreamConfig {
        width: g.width,
        height: g.height,
        pixel_format: PIXEL_FORMAT_32BGRA,
        source_rect: RectHp {
            x_hp: g.width as i64,
            y_hp: g.height as i64,
            width_hp: (2 * (g.width as int)) as i64,
            height_hp: (2 * (g.height as int)) as i64,
        },
        destination_rect: RectHp {
            x_hp: 0,
            y_hp: 0,
            width_hp: (2 * (g.width as int)) as i64,
            height_hp: (2 * (g.height as int)) as i64,
        },
    }
}

/// Whether a geometry can feed stream creation at all.
pub open spec fn geometry_valid(g: WindowGeometry) -> bool {
    g.width > 0 && g.height > 0
}

/// Builds the stream parameters for the selected window, or rejects a
/// degenerate (zero or negative sized) window before stream creation.
pub fn configure(g: WindowGeometry) -> (r: Result<StreamConfig, SessionError>)
    ensures
        r is Ok <==> geometry_valid(g),
        r matches Ok(c) ==> c == stream_config_spec(g),
        r matches Err(e) ==> e == SessionError::InvalidGeometry,
{
    if g.width <= 0 || g.height <= 0 {
        Err(SessionError::InvalidGeometry)
    } else {
        Ok(StreamConfig {
            width: g.width,
            height: g.height,
            pixel_format: PIXEL_FORMAT_32BGRA,
            source_rect: RectHp {
                x_hp: g.width as i64,
                y_hp: g.height as i64,
                width_hp: 2 * (g.width as i64),
                height_hp: 2 * (g.height as i64),
            },
            destination_rect: RectHp {
                x_hp: 0,
                y_hp: 0,
                width_hp: 2 * (g.width as i64),
                height_hp: 2 * (g.height as i64),
            },
        })
    }
}

/// Configuration is a pure function of the geometry: configuring twice from
/// the same geometry yields identical stream parameters.
pub proof fn lemma_configure_deterministic(g1: WindowGeometry, g2: WindowGeometry)
    requires
        g1 == g2,
    ensures
        stream_config_spec(g1) == stream_config_spec(g2),
{
}

} // verus!
