//! From canvas geometry to what the renderer needs: the size of the backing
//! buffer, the aspect ratio, the perspective projection and the point scale.

use crate::constants::DEPTH_TO_W;
use crate::constants::FAR_PLANE;
use crate::constants::FOCAL_LENGTH;
use crate::constants::NEAR_PLANE;
use crate::constants::POINT_SCALE_FACTOR;
use crate::constants::SPAN_FACTOR;
use crate::fixed::Fixed;
use crate::fixed::SCALE;
use vstd::prelude::*;

verus! {

/// What a resize computes.
#[derive(Clone, Copy, Debug)]
pub struct Projection {
    /// Width of the backing buffer in device pixels.
    pub buffer_width: u32,
    /// Height of the backing buffer in device pixels.
    pub buffer_height: u32,
    /// The perspective projection, column by column.
    pub matrix: [Fixed; 16],
    /// Device pixels per unit of particle size at unit distance.
    pub point_scale: Fixed,
}

/// A client length times the device pixel ratio, rounded to the nearest
/// whole number of device pixels (a half rounds up), and held between zero and
/// the largest `u32`.
pub open spec fn backing_size_spec(client: Fixed, device_pixel_ratio: Fixed) -> u32 {
    let rounded = (client.raw * device_pixel_ratio.raw + 500_000_000_000) / 1_000_000_000_000;
    if rounded < 0 {
        0
    } else if rounded > u32::MAX {
        u32::MAX
    } else {
        rounded as u32
    }
}

/// Width over height of a buffer, rounded down to a millionth; one for a
/// buffer without height.
///
/// Whatever is computed from the ratio is computed from the rounded number.
/// A buffer of 1000 by 3000 has the ratio 0.333333, so that a base count of
/// 3000 gives 999 particles where the exact third would give 1000.
pub open spec fn aspect_ratio_spec(buffer_width: u32, buffer_height: u32) -> Fixed {
    if buffer_height == 0 {
        Fixed { raw: SCALE }
    } else {
        Fixed::ratio_spec(buffer_width, buffer_height)
    }
}

/// The point scale for a buffer of a given height.
pub open spec fn point_scale_spec(buffer_height: u32) -> Fixed {
    Fixed { raw: (buffer_height * POINT_SCALE_FACTOR) as i64 }
}

/// The depth range term of the projection: far plus near over near minus far.
pub open spec fn depth_scale_spec() -> Fixed {
    Fixed { raw: FAR_PLANE }.add_spec(Fixed { raw: NEAR_PLANE }).div_spec(
        Fixed { raw: NEAR_PLANE }.sub_spec(Fixed { raw: FAR_PLANE }),
    )
}

/// The depth offset term of the projection: twice far times near over near
/// minus far.
pub open spec fn depth_offset_spec() -> Fixed {
    Fixed { raw: SPAN_FACTOR }.mul_spec(Fixed { raw: FAR_PLANE }).mul_spec(
        Fixed { raw: NEAR_PLANE },
    ).div_spec(Fixed { raw: NEAR_PLANE }.sub_spec(Fixed { raw: FAR_PLANE }))
}

/// The right-handed perspective projection for an aspect ratio, column by
/// column, without skew: the focal length over the aspect ratio and the focal
/// length on the diagonal, then the two depth terms around a minus one.
pub open spec fn projection_spec(aspect: Fixed) -> Seq<Fixed> {
    let zero = Fixed { raw: 0 };
    seq![
        Fixed { raw: FOCAL_LENGTH }.div_spec(aspect),
        zero,
        zero,
        zero,
        zero,
        Fixed { raw: FOCAL_LENGTH },
        zero,
        zero,
        zero,
        zero,
        depth_scale_spec(),
        Fixed { raw: DEPTH_TO_W },
        zero,
        zero,
        depth_offset_spec(),
        zero,
    ]
}

/// The size in device pixels of a client length.
pub fn backing_size(client: Fixed, device_pixel_ratio: Fixed) -> (r: u32)
    ensures
        r == backing_size_spec(client, device_pixel_ratio),
{
    let a: i128 = client.raw as i128;
    let b: i128 = device_pixel_ratio.raw as i128;
    assert(-0x4000_0000_0000_0000_0000_0000_0000_0000 <= a * b
        <= 0x4000_0000_0000_0000_0000_0000_0000_0000) by (nonlinear_arith)
        requires
            -0x8000_0000_0000_0000 <= a <= 0x8000_0000_0000_0000,
            -0x8000_0000_0000_0000 <= b <= 0x8000_0000_0000_0000,
    ;
    let shifted: i128 = a * b + 500_000_000_000;
    if shifted < 0 {
        0
    } else {
        let rounded: i128 = shifted / 1_000_000_000_000;
        if rounded > u32::MAX as i128 {
            u32::MAX
        } else {
            rounded as u32
        }
    }
}

/// Width over height of a buffer, rounded down to a millionth; one for a
/// buffer without height.
pub fn aspect_ratio(buffer_width: u32, buffer_height: u32) -> (r: Fixed)
    ensures
        r == aspect_ratio_spec(buffer_width, buffer_height),
        r.raw >= 0,
        buffer_height == 0 ==> r.raw == SCALE,
{
    if buffer_height == 0 {
        Fixed { raw: SCALE }
    } else {
        Fixed::ratio(buffer_width, buffer_height)
    }
}

/// The perspective projection for an aspect ratio.
pub fn projection_matrix(aspect: Fixed) -> (r: [Fixed; 16])
    ensures
        r@ == projection_spec(aspect),
{
    let zero = Fixed { raw: 0 };
    let focal = Fixed { raw: FOCAL_LENGTH };
    let near = Fixed { raw: NEAR_PLANE };
    let far = Fixed { raw: FAR_PLANE };
    let range = near.saturating_sub(far);
    let depth_scale = far.saturating_add(near).saturating_div(range);
    let depth_offset = Fixed { raw: SPAN_FACTOR }.saturating_mul(far).saturating_mul(
        near,
    ).saturating_div(range);
    let r = [
        focal.saturating_div(aspect),
        zero,
        zero,
        zero,
        zero,
        focal,
        zero,
        zero,
        zero,
        zero,
        depth_scale,
        Fixed { raw: DEPTH_TO_W },
        zero,
        zero,
        depth_offset,
        zero,
    ];
    assert(r@ =~= projection_spec(aspect));
    r
}

/// Sizes the backing buffer for a canvas of the given client size and
/// computes the projection and the point scale for it.
pub fn project(client_width: Fixed, client_height: Fixed, device_pixel_ratio: Fixed) -> (r:
    Projection)
    ensures
        r.buffer_width == backing_size_spec(client_width, device_pixel_ratio),
        r.buffer_height == backing_size_spec(client_height, device_pixel_ratio),
        r.matrix@ == projection_spec(aspect_ratio_spec(r.buffer_width, r.buffer_height)),
        r.point_scale == point_scale_spec(r.buffer_height),
{
    let buffer_width: u32 = backing_size(client_width, device_pixel_ratio);
    let buffer_height: u32 = backing_size(client_height, device_pixel_ratio);
    let aspect = aspect_ratio(buffer_width, buffer_height);
    Projection {
        buffer_width,
        buffer_height,
        matrix: projection_matrix(aspect),
        point_scale: Fixed { raw: (buffer_height as i64) * POINT_SCALE_FACTOR },
    }
}

} // verus!
