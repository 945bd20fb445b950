//! Pixel selection and bounds checking for plotting positions on a map
//! image.
//!
//! The image buffer itself lives outside the library; these functions
//! decide which pixels to touch and whether a pixel lies inside the
//! image, so the unverified drawing code only performs writes this
//! module has approved.

use vstd::prelude::*;

verus! {

/// Why a pixel write was rejected.
#[derive(Clone, Copy, Debug, PartialEq, Eq)]
pub enum PixelError {
    /// The x coordinate is at or beyond the image width.
    XOutOfBounds,
    /// The y coordinate is at or beyond the image height.
    YOutOfBounds,
}

/// The neighbor one row up, clamped to the center when `y` has reached
/// `height`.
pub open spec fn px_top(x: u32, y: u32, height: u32) -> (u32, u32) {
    if y < height {
        (x, (y + 1) as u32)
    } else {
        (x, y)
    }
}

/// The neighbor one row down, clamped to the center when `y` is zero.
pub open spec fn px_bot(x: u32, y: u32) -> (u32, u32) {
    if y > 0 {
        (x, (y - 1) as u32)
    } else {
        (x, y)
    }
}

/// The neighbor one column left, clamped to the center when `x` is zero.
pub open spec fn px_left(x: u32, y: u32) -> (u32, u32) {
    if x > 0 {
        ((x - 1) as u32, y)
    } else {
        (x, y)
    }
}

/// The neighbor one column right, clamped to the center when `x` has
/// reached `width`.
pub open spec fn px_right(x: u32, y: u32, width: u32) -> (u32, u32) {
    if x < width {
        ((x + 1) as u32, y)
    } else {
        (x, y)
    }
}

/// The diagonal neighbors, each clamped to the center at the
/// corresponding edge.
pub open spec fn px_top_right(x: u32, y: u32, width: u32) -> (u32, u32) {
    if x < width && y > 0 {
        ((x + 1) as u32, (y - 1) as u32)
    } else {
        (x, y)
    }
}

pub open spec fn px_top_left(x: u32, y: u32) -> (u32, u32) {
    if x > 0 && y > 0 {
        ((x - 1) as u32, (y - 1) as u32)
    } else {
        (x, y)
    }
}

pub open spec fn px_bot_right(x: u32, y: u32, width: u32, height: u32) -> (u32, u32) {
    if x < width && y < height {
        ((x + 1) as u32, (y + 1) as u32)
    } else {
        (x, y)
    }
}

pub open spec fn px_bot_left(x: u32, y: u32, height: u32) -> (u32, u32) {
    if x > 0 && y < height {
        ((x - 1) as u32, (y + 1) as u32)
    } else {
        (x, y)
    }
}

/// The full fat-pixel footprint around a center: the center itself
/// followed by its eight edge-clamped neighbors.
pub open spec fn fat_pixel(x: u32, y: u32, height: u32, width: u32) -> Seq<(u32, u32)> {
    seq![
        (x, y),
        px_top(x, y, height),
        px_bot(x, y),
        px_left(x, y),
        px_right(x, y, width),
        px_top_right(x, y, width),
        px_top_left(x, y),
        px_bot_right(x, y, width, height),
        px_bot_left(x, y, height),
    ]
}

/// The pixels to color for one plotted position: just the center for a
/// satellite track point, the center plus its eight edge-clamped
/// neighbors (a "fat pixel") for an observer site.
pub fn get_pixel_vector(height: &u32, width: &u32, center_pixel: &(u32, u32), is_sat: bool) -> (r:
    Vec<(u32, u32)>)
    ensures
        is_sat ==> r@ == seq![(center_pixel.0, center_pixel.1)],
        !is_sat ==> r@ == fat_pixel(center_pixel.0, center_pixel.1, *height, *width),
{
    let mut pixel_vector: Vec<(u32, u32)> = Vec::new();
    let x = center_pixel.0;
    let y = center_pixel.1;

    let center = (x, y);
    pixel_vector.push(center);

    // Only plot a fat pixel for observer locations
    if is_sat == false {
        let top = if y < *height {
            (x, y + 1)
        } else {
            (x, y)
        };
        let bot = if y > 0 {
            (x, y - 1)
        } else {
            (x, y)
        };
        let left = if x > 0 {
            (x - 1, y)
        } else {
            (x, y)
        };
        let right = if x < *width {
            (x + 1, y)
        } else {
            (x, y)
        };
        let top_right = if x < *width && y > 0 {
            (x + 1, y - 1)
        } else {
            (x, y)
        };
        let top_left = if x > 0 && y > 0 {
            (x - 1, y - 1)
        } else {
            (x, y)
        };
        let bot_right = if x < *width && y < *height {
            (x + 1, y + 1)
        } else {
            (x, y)
        };
        let bot_left = if x > 0 && y < *height {
            (x - 1, y + 1)
        } else {
            (x, y)
        };

        pixel_vector.push(top);
        pixel_vector.push(bot);
        pixel_vector.push(left);
        pixel_vector.push(right);
        pixel_vector.push(top_right);
        pixel_vector.push(top_left);
        pixel_vector.push(bot_right);
        pixel_vector.push(bot_left);
        proof {
            assert(pixel_vector@ =~= fat_pixel(x, y, *height, *width));
        }
    } else {
        proof {
            assert(pixel_vector@ =~= seq![(x, y)]);
        }
    }
    pixel_vector
}

/// Whether a pixel may be written into an image of the given
/// dimensions; rejects the x coordinate first, as the drawing code
/// reports it first.
pub fn check_pixel_bounds(width: u32, height: u32, pixel_coordinates: &(u32, u32)) -> (r: Result<
    (),
    PixelError,
>)
    ensures
        r is Ok <==> pixel_coordinates.0 < width && pixel_coordinates.1 < height,
        pixel_coordinates.0 >= width ==> r == Result::<(), PixelError>::Err(
            PixelError::XOutOfBounds,
        ),
        pixel_coordinates.0 < width && pixel_coordinates.1 >= height ==> r == Result::<
            (),
            PixelError,
        >::Err(PixelError::YOutOfBounds),
{
    if pixel_coordinates.0 >= width {
        return Err(PixelError::XOutOfBounds);
    }
    if pixel_coordinates.1 >= height {
        return Err(PixelError::YOutOfBounds);
    }
    Ok(())
}

} // verus!
