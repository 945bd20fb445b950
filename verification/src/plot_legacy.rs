//! The earlier map-plotting helpers, kept alongside the current ones:
//! the same fat-pixel footprint with the image dimensions passed in the
//! opposite order, and the projection from geodetic coordinates to a
//! pixel position.
//!
//! Coordinates are fixed-point micro-degrees, so the equirectangular
//! projection below is exact integer arithmetic.

use vstd::prelude::*;

verus! {

use crate::plot::fat_pixel;

/// The pixels to color for one plotted position: just the center for a
/// satellite track point, the center plus its eight edge-clamped
/// neighbors for an observer site.
pub fn get_pixel_vector(width: &u32, height: &u32, center_pixel: &(u32, u32), is_sat: bool) -> (r:
    Vec<(u32, u32)>)
    ensures
        is_sat ==> r@ == seq![(center_pixel.0, center_pixel.1)],
        !is_sat ==> r@ == fat_pixel(center_pixel.0, center_pixel.1, *height, *width),
{
    let mut pixel_vector: Vec<(u32, u32)> = Vec::new();
    let x = center_pixel.0;
    let y = center_pixel.1;

    let center = (x, y);
    pixel_vector.push(center);

    // Only plot a fat pixel for observer locations
    if is_sat == false {
        let top = if y < *height {
            (x, y + 1)
        } else {
            (x, y)
        };
        let bot = if y > 0 {
            (x, y - 1)
        } else {
            (x, y)
        };
        let left = if x > 0 {
            (x - 1, y)
        } else {
            (x, y)
        };
        let right = if x < *width {
            (x + 1, y)
        } else {
            (x, y)
        };
        let top_right = if x < *width && y > 0 {
            (x + 1, y - 1)
        } else {
            (x, y)
        };
        let top_left = if x > 0 && y > 0 {
            (x - 1, y - 1)
        } else {
            (x, y)
        };
        let bot_right = if x < *width && y < *height {
            (x + 1, y + 1)
        } else {
            (x, y)
        };
        let bot_left = if x > 0 && y < *height {
            (x - 1, y + 1)
        } else {
            (x, y)
        };

        pixel_vector.push(top);
        pixel_vector.push(bot);
        pixel_vector.push(left);
        pixel_vector.push(right);
        pixel_vector.push(top_right);
        pixel_vector.push(top_left);
        pixel_vector.push(bot_right);
        pixel_vector.push(bot_left);
        proof {
            assert(pixel_vector@ =~= fat_pixel(x, y, *height, *width));
        }
    } else {
        proof {
            assert(pixel_vector@ =~= seq![(x, y)]);
        }
    }
    pixel_vector
}

/// Project a coordinate pair onto an equirectangular map image: the
/// first coordinate (in micro-degrees, increasing eastward across the
/// full `[-180, 180]` span) picks the column, the second (in
/// micro-degrees, increasing northward across `[-90, 90]`) picks the
/// row from the top.
pub fn gimme_xy(lat: i64, lon: i64, height: u32, width: u32) -> (r: (u32, u32))
    requires
        -180_000_000 <= lat <= 180_000_000,
        -90_000_000 <= lon <= 90_000_000,
    ensures
        r.0 == width * (180_000_000 + lat) / 360_000_000,
        r.1 == height * (90_000_000 - lon) / 180_000_000,
{
    let kx: u64 = (180_000_000 + lat) as u64;
    let ky: u64 = (90_000_000 - lon) as u64;
    proof {
        assert(0 <= (width as int) * (kx as int) <= 4_294_967_295 * 360_000_000) by (nonlinear_arith)
            requires
                0 <= width <= 4_294_967_295,
                0 <= kx <= 360_000_000,
        ;
        assert(0 <= (height as int) * (ky as int) <= 4_294_967_295 * 180_000_000)
            by (nonlinear_arith)
            requires
                0 <= height <= 4_294_967_295,
                0 <= ky <= 180_000_000,
        ;
    }
    let num_x: u64 = (width as u64) * kx;
    let num_y: u64 = (height as u64) * ky;
    let x: u64 = num_x / 360_000_000;
    let y: u64 = num_y / 180_000_000;
    proof {
        assert((num_x as int) <= (width as int) * 360_000_000) by (nonlinear_arith)
            requires
                num_x == (width as int) * (kx as int),
                0 <= width,
                kx <= 360_000_000,
        ;
        vstd::arithmetic::div_mod::lemma_div_is_ordered(
            num_x as int,
            (width as int) * 360_000_000,
            360_000_000,
        );
        vstd::arithmetic::div_mod::lemma_div_by_multiple(width as int, 360_000_000);
        assert((num_y as int) <= (height as int) * 180_000_000) by (nonlinear_arith)
            requires
                num_y == (height as int) * (ky as int),
                0 <= height,
                ky <= 180_000_000,
        ;
        vstd::arithmetic::div_mod::lemma_div_is_ordered(
            num_y as int,
            (height as int) * 180_000_000,
            180_000_000,
        );
        vstd::arithmetic::div_mod::lemma_div_by_multiple(height as int, 180_000_000);
    }
    (x as u32, y as u32)
}

} // verus!
